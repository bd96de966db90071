//! The per-iteration decisions of the oracle updater's control loop.
//!
//! Each iteration re-derives truth from chain reads: the driver reads the
//! head, runs the scanner, asks [`plan_target`] whether a submission is due,
//! re-reads the planned target's record, asks [`should_submit`] whether the
//! record is still absent, and only then hands a write to the signer.
//! Errors are values; a failed iteration is logged by the driver and retried
//! naturally on the next iteration.

use vstd::prelude::*;

use crate::scheduler::get_block_to_request;
use crate::scheduler::spec_next_block_to_request;
use crate::types::OracleError;

verus! {

use vstd::arithmetic::div_mod::lemma_mod_decreases;
use vstd::arithmetic::div_mod::lemma_mod_multiples_vanish;

/// The target of one iteration, or `None` for the steady-state no-op: the
/// next block to request is only worth submitting while it stays strictly
/// more than `safety_margin` blocks behind the head, out of reach of a
/// chain reorganization.
pub open spec fn spec_plan_target(
    last_recorded: Option<u64>,
    block_interval: u64,
    head: u64,
    safety_margin: u64,
) -> Option<u64>
    recommends
        block_interval > 0,
{
    let next = spec_next_block_to_request(last_recorded, block_interval, head);
    if next + safety_margin < head {
        Some(next as u64)
    } else {
        None
    }
}

/// Plans one iteration: the block to submit for, or `None` when the next
/// block in the schedule is still too close to the head.  Skipping is the
/// normal steady-state outcome, not an error.
pub fn plan_target(
    last_recorded: Option<u64>,
    block_interval: u64,
    head: u64,
    safety_margin: u64,
) -> (r: Option<u64>)
    requires
        block_interval > 0,
    ensures
        r == spec_plan_target(last_recorded, block_interval, head, safety_margin),
        r matches Some(t) ==> t + safety_margin < head,
{
    let next: u64 = match last_recorded {
        None => get_block_to_request(None, block_interval, head),
        Some(b) => {
            match b.checked_add(block_interval) {
                Some(n) => n,
                None => {
                    // The schedule has outrun the integer range, so it is
                    // certainly not behind the head.
                    return None;
                },
            }
        },
    };
    if next < head && head - next > safety_margin {
        Some(next)
    } else {
        None
    }
}

/// The safety margin is respected: whenever an iteration plans a target at
/// all, that target lies strictly more than `safety_margin` blocks behind
/// the head — the updater never submits for a block at or above
/// `head - safety_margin`.
pub proof fn lemma_safety_margin(
    last_recorded: Option<u64>,
    block_interval: u64,
    head: u64,
    safety_margin: u64,
    t: u64,
)
    requires
        block_interval > 0,
        spec_plan_target(last_recorded, block_interval, head, safety_margin) == Some(t),
    ensures
        t + safety_margin < head,
        t < head - safety_margin,
{
    if last_recorded is None {
        lemma_mod_decreases(head as nat, block_interval as nat);
    }
}

/// Committed updates stay on the interval grid: whenever the recorded block
/// a plan extends is a multiple of `block_interval` (as the scanner
/// guarantees of everything it finds), the planned target is one too.
pub proof fn lemma_target_aligned(
    last_recorded: Option<u64>,
    block_interval: u64,
    head: u64,
    safety_margin: u64,
    t: u64,
)
    requires
        block_interval > 0,
        last_recorded matches Some(b) ==> b % block_interval == 0,
        spec_plan_target(last_recorded, block_interval, head, safety_margin) == Some(t),
    ensures
        t % block_interval == 0,
{
    match last_recorded {
        None => {
            crate::scanner::lemma_align_down(head, block_interval);
        },
        Some(b) => {
            lemma_mod_multiples_vanish(1, b as int, block_interval as int);
        },
    }
}

/// How the contract answered a `timestampToBlockRoot` read.
#[derive(Clone, Copy, PartialEq, Eq, Structural, Debug)]
pub enum RecordState {
    /// The returned root was all-zero: the timestamp is not recorded yet.
    Absent,
    /// A non-zero root: the timestamp is already recorded.
    Recorded,
}

/// An all-zero byte string.
pub open spec fn spec_zero_bytes(s: Seq<u8>) -> bool {
    forall|k: int| 0 <= k < s.len() ==> s[k] == 0
}

/// Classifies the root value returned by the contract for a timestamp: an
/// all-zero 32-byte value means "not recorded", any other 32-byte value
/// means "recorded", and any other length is a malformed chain response.
pub fn classify_record(root: &Vec<u8>) -> (r: Result<RecordState, OracleError>)
    ensures
        root@.len() != 32 ==> r == Err::<RecordState, OracleError>(OracleError::DecodeError),
        root@.len() == 32 && spec_zero_bytes(root@) ==> r == Ok::<RecordState, OracleError>(
            RecordState::Absent,
        ),
        root@.len() == 32 && !spec_zero_bytes(root@) ==> r == Ok::<RecordState, OracleError>(
            RecordState::Recorded,
        ),
{
    if root.len() != 32 {
        return Err(OracleError::DecodeError);
    }
    let mut k: usize = 0;
    while k < root.len()
        invariant
            root@.len() == 32,
            k <= 32,
            forall|j: int| 0 <= j < k ==> root@[j] == 0,
        decreases root@.len() - k,
    {
        if root[k] != 0 {
            return Ok(RecordState::Recorded);
        }
        k += 1;
    }
    Ok(RecordState::Absent)
}

/// The idempotency re-check: submit only if the freshly read root shows the
/// record still absent; skip when it is already present (another operator
/// instance or an earlier run committed it), so no duplicate write is
/// attempted.
pub fn should_submit(root: &Vec<u8>) -> (r: Result<bool, OracleError>)
    ensures
        (r matches Ok(b) && b) <==> root@.len() == 32 && spec_zero_bytes(root@),
        (r matches Ok(b) && !b) <==> root@.len() == 32 && !spec_zero_bytes(root@),
        r is Err ==> r == Err::<bool, OracleError>(OracleError::DecodeError) && root@.len() != 32,
{
    match classify_record(root) {
        Ok(RecordState::Absent) => Ok(true),
        Ok(RecordState::Recorded) => Ok(false),
        Err(e) => Err(e),
    }
}

/// What the node reported for a locally signed and broadcast transaction.
#[derive(PartialEq, Eq, Debug)]
pub enum BroadcastOutcome {
    /// The node rejected the transaction outright.
    Rejected,
    /// The node accepted it, but inclusion polling gave it up before a
    /// receipt arrived.
    Dropped,
    /// The transaction was included, under this hash.
    Included { transaction_hash: Vec<u8> },
}

/// Settles a locally signed submission: a rejected broadcast is a
/// `BroadcastError`, a transaction the node gave up waiting for is a
/// `ConfirmationError`, and an included transaction yields its hash.
pub fn settle_local_submission(outcome: BroadcastOutcome) -> (r: Result<Vec<u8>, OracleError>)
    ensures
        outcome is Rejected ==> r == Err::<Vec<u8>, OracleError>(OracleError::BroadcastError),
        outcome is Dropped ==> r == Err::<Vec<u8>, OracleError>(OracleError::ConfirmationError),
        outcome matches BroadcastOutcome::Included { transaction_hash } ==> r == Ok::<
            Vec<u8>,
            OracleError,
        >(transaction_hash),
{
    match outcome {
        BroadcastOutcome::Rejected => Err(OracleError::BroadcastError),
        BroadcastOutcome::Dropped => Err(OracleError::ConfirmationError),
        BroadcastOutcome::Included { transaction_hash } => Ok(transaction_hash),
    }
}

} // verus!
