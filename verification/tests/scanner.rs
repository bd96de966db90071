use beacon_oracle::scanner::find_latest_recorded_interval;
use beacon_oracle::scanner::scan_begin;
use beacon_oracle::scanner::scan_resume;
use beacon_oracle::scanner::ScanStep;

#[test]
fn empty_history_returns_none() {
    let records: Vec<u64> = vec![];
    assert_eq!(find_latest_recorded_interval(&records, 100, 500, 1000), None);
}

#[test]
fn finds_single_recorded_interval() {
    let records: Vec<u64> = vec![900];
    assert_eq!(find_latest_recorded_interval(&records, 100, 500, 1200), Some(900));
}

#[test]
fn returns_largest_recorded_interval() {
    let records: Vec<u64> = vec![700, 900, 800];
    assert_eq!(find_latest_recorded_interval(&records, 100, 500, 1200), Some(900));
}

#[test]
fn record_outside_lookback_is_ignored() {
    // head 1200, lookback 500: candidates are 800..=1200, so a record at
    // 600 is out of reach.
    let records: Vec<u64> = vec![600];
    assert_eq!(find_latest_recorded_interval(&records, 100, 500, 1200), None);
}

#[test]
fn lookback_bound_is_strict() {
    // The candidate exactly max_lookback blocks behind the head is not
    // probed; one interval above it is.
    let records: Vec<u64> = vec![700];
    assert_eq!(find_latest_recorded_interval(&records, 100, 500, 1200), None);
    let records: Vec<u64> = vec![800];
    assert_eq!(find_latest_recorded_interval(&records, 100, 500, 1200), Some(800));
}

#[test]
fn unaligned_record_is_never_probed() {
    let records: Vec<u64> = vec![950];
    assert_eq!(find_latest_recorded_interval(&records, 100, 500, 1200), None);
}

#[test]
fn scan_clamps_at_genesis() {
    // A lookback larger than the head scans down to block 0 without
    // underflowing, probing 200 and 100 but never 0.
    let records: Vec<u64> = vec![100];
    assert_eq!(find_latest_recorded_interval(&records, 100, 1000, 250), Some(100));
    let records: Vec<u64> = vec![];
    assert_eq!(find_latest_recorded_interval(&records, 100, 1000, 250), None);
    let records: Vec<u64> = vec![0];
    assert_eq!(find_latest_recorded_interval(&records, 100, 1000, 250), None);
}

#[test]
fn zero_lookback_exhausts_immediately() {
    let records: Vec<u64> = vec![1000];
    assert_eq!(find_latest_recorded_interval(&records, 100, 0, 1000), None);
}

#[test]
fn scan_is_idempotent_without_writes() {
    let records: Vec<u64> = vec![700, 900];
    let first = find_latest_recorded_interval(&records, 100, 500, 1200);
    let second = find_latest_recorded_interval(&records, 100, 500, 1200);
    assert_eq!(first, second);
    assert_eq!(first, Some(900));
}

#[test]
fn step_machine_walks_backwards() {
    // Drive the machine by hand, answering "absent" until block 900.
    let step = scan_begin(1000, 100, 500);
    let state = match step {
        ScanStep::Probe { state } => state,
        _ => panic!("expected a probe"),
    };
    assert_eq!(state.current, 1000);
    assert_eq!(state.floor, 500);
    assert_eq!(state.interval, 100);
    let step = scan_resume(state, false);
    let state = match step {
        ScanStep::Probe { state } => state,
        _ => panic!("expected a probe"),
    };
    assert_eq!(state.current, 900);
    let step = scan_resume(state, true);
    assert_eq!(step, ScanStep::Found { block: 900 });
}

#[test]
fn step_machine_exhausts_at_floor() {
    let step = scan_begin(1000, 100, 200);
    let state = match step {
        ScanStep::Probe { state } => state,
        _ => panic!("expected a probe"),
    };
    assert_eq!(state.current, 1000);
    assert_eq!(state.floor, 800);
    let step = scan_resume(state, false);
    let state = match step {
        ScanStep::Probe { state } => state,
        _ => panic!("expected a probe"),
    };
    assert_eq!(state.current, 900);
    assert_eq!(scan_resume(state, false), ScanStep::Exhausted);
}
