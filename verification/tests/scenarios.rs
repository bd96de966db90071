//! End-to-end iterations of the updater's decision pipeline, with the chain
//! and relay reads supplied as in-memory values.

use beacon_oracle::relay::evaluate_relay_reply;
use beacon_oracle::scanner::find_latest_recorded_interval;
use beacon_oracle::types::OracleError;
use beacon_oracle::types::RelayStatus;
use beacon_oracle::updater::plan_target;
use beacon_oracle::updater::should_submit;

#[test]
fn cold_start_near_head_skips() {
    // head=1000, interval=100, no recorded history, max_lookback=500:
    // the scanner finds nothing, the scheduler targets 1000, and the safety
    // check (margin 5) fails since 1000 >= 995 — no submission.
    let records: Vec<u64> = vec![];
    let head: u64 = 1000;
    let last = find_latest_recorded_interval(&records, 100, 500, head);
    assert_eq!(last, None);
    assert_eq!(plan_target(last, 100, head, 5), None);
}

#[test]
fn due_interval_is_submitted() {
    // head=1200, interval=100, last recorded=900: the scheduler targets
    // 1000, which clears the margin (1000 < 1195), and the re-check shows
    // the record absent — a submission goes out.
    let records: Vec<u64> = vec![900];
    let head: u64 = 1200;
    let last = find_latest_recorded_interval(&records, 100, 500, head);
    assert_eq!(last, Some(900));
    let target = plan_target(last, 100, head, 5);
    assert_eq!(target, Some(1000));
    let root: Vec<u8> = vec![0; 32];
    assert_eq!(should_submit(&root), Ok(true));
}

#[test]
fn relay_rejection_is_an_error_value() {
    // The relay answers {status:3, message:"sim failed"}: the updater sees a
    // RelayRejected error value to log, and nothing panics — the loop can
    // proceed to its sleep.
    let body = b"{\"status\":3,\"message\":\"sim failed\"}".to_vec();
    let outcome = evaluate_relay_reply(200, &body);
    assert_eq!(
        outcome,
        Err(OracleError::RelayRejected {
            status: RelayStatus::SimulationFailure,
            message: Some("sim failed".to_string()),
        })
    );
}

#[test]
fn present_record_skips_submission() {
    // The record for the computed target is already present at re-check
    // time: the updater skips, attempting no duplicate write.
    let records: Vec<u64> = vec![900];
    let head: u64 = 1200;
    let last = find_latest_recorded_interval(&records, 100, 500, head);
    let target = plan_target(last, 100, head, 5);
    assert_eq!(target, Some(1000));
    let mut root: Vec<u8> = vec![0; 32];
    root[0] = 0x42;
    assert_eq!(should_submit(&root), Ok(false));
}
