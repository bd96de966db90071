use beacon_oracle::types::OracleConfig;
use beacon_oracle::types::OracleError;
use beacon_oracle::updater::classify_record;
use beacon_oracle::updater::settle_local_submission;
use beacon_oracle::updater::BroadcastOutcome;
use beacon_oracle::updater::plan_target;
use beacon_oracle::updater::should_submit;
use beacon_oracle::updater::RecordState;

#[test]
fn target_must_stay_behind_safety_margin() {
    // target = 1000; with head 1005 and margin 5 the target sits exactly at
    // head - margin and must be rejected.
    assert_eq!(plan_target(Some(900), 100, 1005, 5), None);
    // One block more headroom and it is allowed.
    assert_eq!(plan_target(Some(900), 100, 1006, 5), Some(1000));
}

#[test]
fn margin_larger_than_head_skips() {
    assert_eq!(plan_target(None, 100, 3, 10), None);
}

#[test]
fn schedule_overflow_skips() {
    assert_eq!(plan_target(Some(u64::MAX - 50), 100, u64::MAX, 0), None);
}

#[test]
fn zero_root_means_absent() {
    let root: Vec<u8> = vec![0; 32];
    assert_eq!(classify_record(&root), Ok(RecordState::Absent));
    assert_eq!(should_submit(&root), Ok(true));
}

#[test]
fn nonzero_root_means_recorded() {
    let mut root: Vec<u8> = vec![0; 32];
    root[31] = 1;
    assert_eq!(classify_record(&root), Ok(RecordState::Recorded));
    assert_eq!(should_submit(&root), Ok(false));
}

#[test]
fn malformed_root_is_decode_error() {
    let root: Vec<u8> = vec![0; 31];
    assert_eq!(classify_record(&root), Err(OracleError::DecodeError));
    assert_eq!(should_submit(&root), Err(OracleError::DecodeError));
}

#[test]
fn local_submission_outcomes() {
    let hash: Vec<u8> = vec![0xab; 32];
    assert_eq!(
        settle_local_submission(BroadcastOutcome::Included { transaction_hash: hash.clone() }),
        Ok(hash)
    );
    assert_eq!(
        settle_local_submission(BroadcastOutcome::Rejected),
        Err(OracleError::BroadcastError)
    );
    assert_eq!(
        settle_local_submission(BroadcastOutcome::Dropped),
        Err(OracleError::ConfirmationError)
    );
}

#[test]
fn configuration_is_validated_at_startup() {
    let cfg = OracleConfig::new(1, 100, 5, 8191).unwrap();
    assert_eq!(cfg.block_interval, 100);
    assert_eq!(OracleConfig::new(1, 0, 5, 8191), Err(OracleError::ConfigurationError));
}
