//! Interval scheduling: which block should the operator request next?

use vstd::prelude::*;

verus! {

/// The largest multiple of `interval` that is at or below `head`.
pub open spec fn spec_align_down(head: u64, interval: u64) -> int
    recommends
        interval > 0,
{
    head - head % interval
}

/// The next block to request a timestamp commitment for, given the most
/// recently recorded interval-aligned block (if any) and the current head.
/// On a cold start (no recorded history) the operator starts at the interval
/// boundary at or below the head; it does not backfill the whole gap.
pub open spec fn spec_next_block_to_request(
    last_recorded: Option<u64>,
    block_interval: u64,
    head: u64,
) -> int
    recommends
        block_interval > 0,
{
    match last_recorded {
        None => spec_align_down(head, block_interval),
        Some(b) => b + block_interval,
    }
}

/// Chooses the next block whose timestamp the operator should commit.
///
/// With no recorded history this is `latest_block - latest_block % block_interval`,
/// the most recent interval boundary at or before the head; otherwise it is the
/// recorded block plus one interval, regardless of the head.
pub fn get_block_to_request(
    contract_curr_block: Option<u64>,
    block_interval: u64,
    latest_block: u64,
) -> (r: u64)
    requires
        block_interval > 0,
        contract_curr_block matches Some(b) ==> b + block_interval <= u64::MAX,
    ensures
        r == spec_next_block_to_request(contract_curr_block, block_interval, latest_block),
        contract_curr_block is None ==> r == latest_block - latest_block % block_interval,
        contract_curr_block matches Some(b) ==> r == b + block_interval,
{
    match contract_curr_block {
        None => {
            proof {
                vstd::arithmetic::div_mod::lemma_mod_decreases(
                    latest_block as nat,
                    block_interval as nat,
                );
            }
            latest_block - latest_block % block_interval
        },
        Some(b) => b + block_interval,
    }
}

} // verus!
