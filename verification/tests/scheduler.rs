use beacon_oracle::scheduler::get_block_to_request;

#[test]
fn cold_start_aligns_head_down() {
    // No recorded history: the target is head - head % interval.
    assert_eq!(get_block_to_request(None, 100, 1000), 1000);
    assert_eq!(get_block_to_request(None, 100, 1234), 1200);
    assert_eq!(get_block_to_request(None, 100, 1299), 1200);
    assert_eq!(get_block_to_request(None, 1, 999), 999);
    // A head below one interval aligns down to genesis.
    assert_eq!(get_block_to_request(None, 7, 3), 0);
}

#[test]
fn recorded_history_steps_one_interval() {
    // With a recorded block the target is one interval later, regardless of
    // the head.
    assert_eq!(get_block_to_request(Some(900), 100, 1200), 1000);
    assert_eq!(get_block_to_request(Some(900), 100, 901), 1000);
    assert_eq!(get_block_to_request(Some(900), 100, 0), 1000);
    assert_eq!(get_block_to_request(Some(0), 5, 17), 5);
}
