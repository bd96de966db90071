//! Backward scan for the most recently recorded interval-aligned block.
//!
//! The scan starts at the interval boundary at or below the chain head and
//! walks backwards one interval at a time, asking for each candidate block
//! whether the contract already records its timestamp.  It stops at the
//! first recorded candidate, or gives up once the walk would leave the
//! lookback window (or run past the genesis block).
//!
//! Each probe of the contract is a remote read, so the scan is exposed as a
//! step machine: [`scan_begin`] yields the first candidate, the caller reads
//! the contract and answers through [`scan_resume`], and so on until the
//! machine reports `Found` or `Exhausted`.  The function
//! [`find_latest_recorded_interval`] runs the same machine against an
//! in-memory table of recorded blocks and is proved to compute
//! [`spec_find_latest_recorded`] exactly.

use vstd::prelude::*;

use crate::scheduler::spec_align_down;

verus! {

use vstd::arithmetic::div_mod::lemma_mod_bound;
use vstd::arithmetic::div_mod::lemma_mod_decreases;
use vstd::arithmetic::div_mod::lemma_mod_is_zero;
use vstd::arithmetic::div_mod::lemma_mod_sub_multiples_vanish;
use vstd::arithmetic::div_mod::lemma_mod_subtraction;
use vstd::arithmetic::div_mod::lemma_small_mod;
use vstd::arithmetic::div_mod::lemma_sub_mod_noop;

/// Lowest block the scan may step past: `max_lookback` blocks behind the
/// head, clamped at zero so a chain near genesis is scanned to the bottom
/// rather than tripping an underflow.  Candidates must lie strictly above
/// this bound.
pub open spec fn spec_scan_floor(head: u64, max_lookback: u64) -> int {
    if head >= max_lookback {
        head - max_lookback
    } else {
        0
    }
}

/// In-progress state of a backward scan.  `current` is the candidate block
/// whose record the caller is being asked about.
#[derive(Clone, Copy, PartialEq, Eq, Structural, Debug)]
pub struct ScanState {
    /// Spacing of the interval grid; candidates are multiples of it.
    pub interval: u64,
    /// Candidates must be strictly greater than this bound.
    pub floor: u64,
    /// The candidate block currently being probed.
    pub current: u64,
}

impl ScanState {
    /// The scan only ever probes interval-aligned candidates inside the
    /// lookback window.
    pub open spec fn wf(self) -> bool {
        &&& self.interval > 0
        &&& self.current % self.interval == 0
        &&& self.current > self.floor
    }
}

/// What the scan asks of its driver next.
#[derive(Clone, Copy, PartialEq, Eq, Structural, Debug)]
pub enum ScanStep {
    /// Read the contract record for block `state.current`'s timestamp and
    /// answer through [`scan_resume`].
    Probe { state: ScanState },
    /// `block` is the most recent interval-aligned block already recorded.
    Found { block: u64 },
    /// No recorded interval-aligned block lies within the lookback window.
    Exhausted,
}

/// The outcome of scanning backwards from `current` down to (but not
/// including) `floor` in steps of `interval`, against a fixed set of
/// recorded blocks: the first candidate found in `recorded`, if any.
pub open spec fn spec_scan(recorded: Set<u64>, interval: u64, floor: u64, current: u64) -> Option<
    u64,
>
    recommends
        interval > 0,
    decreases current,
{
    if interval == 0 {
        None
    } else if current <= floor {
        None
    } else if recorded.contains(current) {
        Some(current)
    } else if current >= interval {
        spec_scan(recorded, interval, floor, (current - interval) as u64)
    } else {
        None
    }
}

/// The result of the whole scan from the head's interval boundary.
pub open spec fn spec_find_latest_recorded(
    recorded: Set<u64>,
    block_interval: u64,
    max_lookback: u64,
    head: u64,
) -> Option<u64>
    recommends
        block_interval > 0,
{
    spec_scan(
        recorded,
        block_interval,
        spec_scan_floor(head, max_lookback) as u64,
        spec_align_down(head, block_interval) as u64,
    )
}

/// The step [`scan_begin`] returns: the first candidate, or `Exhausted`
/// when even the head's interval boundary lies outside the window.
pub open spec fn spec_scan_begin(head: u64, block_interval: u64, max_lookback: u64) -> ScanStep
    recommends
        block_interval > 0,
{
    let floor = spec_scan_floor(head, max_lookback) as u64;
    let start = spec_align_down(head, block_interval) as u64;
    if start > floor {
        ScanStep::Probe { state: ScanState { interval: block_interval, floor, current: start } }
    } else {
        ScanStep::Exhausted
    }
}

/// The step [`scan_resume`] returns once the driver reports whether the
/// current candidate's record is present.
pub open spec fn spec_scan_resume(s: ScanState, record_present: bool) -> ScanStep
    recommends
        s.wf(),
{
    if record_present {
        ScanStep::Found { block: s.current }
    } else if s.current >= s.interval && s.current - s.interval > s.floor {
        ScanStep::Probe {
            state: ScanState {
                interval: s.interval,
                floor: s.floor,
                current: (s.current - s.interval) as u64,
            },
        }
    } else {
        ScanStep::Exhausted
    }
}

/// A multiple of `i` and any value at most `i - 1` above it round down to
/// the same point of the interval grid.
proof fn lemma_aligned_unique(i: u64, a: u64, b: u64)
    requires
        i > 0,
        a % i == 0,
        b % i == 0,
        a <= b,
        b - a < i,
    ensures
        a == b,
{
    lemma_sub_mod_noop(b as int, a as int, i as int);
    lemma_small_mod(0nat, i as nat);
    if a < b {
        lemma_mod_is_zero((b - a) as nat, i as nat);
    }
}

/// `spec_align_down(head, i)` really is the interval boundary at or below
/// `head`: aligned, no more than `head`, and less than one interval away.
pub proof fn lemma_align_down(head: u64, interval: u64)
    requires
        interval > 0,
    ensures
        0 <= spec_align_down(head, interval) <= head,
        spec_align_down(head, interval) % (interval as int) == 0,
        head - spec_align_down(head, interval) < interval,
{
    lemma_mod_bound(head as int, interval as int);
    lemma_mod_decreases(head as nat, interval as nat);
    lemma_small_mod((head % interval) as nat, interval as nat);
    lemma_mod_subtraction(head as nat, (head % interval) as nat, interval as nat);
}

/// Begins a backward scan for a recorded interval-aligned block at most
/// `max_lookback` blocks behind `head`.
pub fn scan_begin(head: u64, block_interval: u64, max_lookback: u64) -> (r: ScanStep)
    requires
        block_interval > 0,
    ensures
        r == spec_scan_begin(head, block_interval, max_lookback),
        r matches ScanStep::Probe { state } ==> state.wf(),
{
    proof {
        lemma_align_down(head, block_interval);
    }
    let floor: u64 = if head >= max_lookback {
        head - max_lookback
    } else {
        0
    };
    let start: u64 = head - head % block_interval;
    if start > floor {
        ScanStep::Probe { state: ScanState { interval: block_interval, floor, current: start } }
    } else {
        ScanStep::Exhausted
    }
}

/// Continues a scan after the driver has read the contract: `record_present`
/// says whether the record for `state.current`'s timestamp is non-zero.
pub fn scan_resume(state: ScanState, record_present: bool) -> (r: ScanStep)
    requires
        state.wf(),
    ensures
        r == spec_scan_resume(state, record_present),
        r matches ScanStep::Probe { state: s2 } ==> s2.wf() && s2.interval == state.interval
            && s2.floor == state.floor && s2.current < state.current,
{
    if record_present {
        ScanStep::Found { block: state.current }
    } else {
        proof {
            lemma_mod_is_zero(state.current as nat, state.interval as nat);
            lemma_mod_sub_multiples_vanish(state.current as int, state.interval as int);
        }
        let next: u64 = state.current - state.interval;
        if next > state.floor {
            ScanStep::Probe {
                state: ScanState {
                    interval: state.interval,
                    floor: state.floor,
                    current: next,
                },
            }
        } else {
            ScanStep::Exhausted
        }
    }
}

/// One machine step neither loses nor invents an answer: when the driver's
/// report agrees with `recorded`, the scan's outcome is preserved by
/// [`spec_scan_resume`], and a `Found` or `Exhausted` step reports exactly
/// that outcome.
pub proof fn lemma_scan_resume_preserves(recorded: Set<u64>, s: ScanState, record_present: bool)
    requires
        s.wf(),
        record_present == recorded.contains(s.current),
    ensures
        spec_scan_resume(s, record_present) matches ScanStep::Probe { state: s2 } ==> spec_scan(
            recorded,
            s.interval,
            s.floor,
            s.current,
        ) == spec_scan(recorded, s2.interval, s2.floor, s2.current),
        spec_scan_resume(s, record_present) matches ScanStep::Found { block } ==> spec_scan(
            recorded,
            s.interval,
            s.floor,
            s.current,
        ) == Some(block),
        spec_scan_resume(s, record_present) is Exhausted ==> spec_scan(
            recorded,
            s.interval,
            s.floor,
            s.current,
        ) is None,
{
    lemma_mod_is_zero(s.current as nat, s.interval as nat);
    if !record_present && s.current - s.interval <= s.floor {
        assert(spec_scan(
            recorded,
            s.interval,
            s.floor,
            (s.current - s.interval) as u64,
        ) is None);
    }
}

/// The scan's outcome, characterized without recursion: a `Some(b)` is an
/// interval-aligned recorded block in the window with no larger aligned
/// recorded block at or below `current`; a `None` means no aligned block in
/// the window is recorded at all.
pub proof fn lemma_scan_characterization(recorded: Set<u64>, interval: u64, floor: u64, current: u64)
    requires
        interval > 0,
        current % interval == 0,
    ensures
        spec_scan(recorded, interval, floor, current) matches Some(b) ==> {
            &&& b % interval == 0
            &&& floor < b <= current
            &&& recorded.contains(b)
            &&& forall|b2: u64|
                b < b2 <= current && b2 % interval == 0 ==> !(#[trigger] recorded.contains(b2))
        },
        spec_scan(recorded, interval, floor, current) is None ==> forall|b2: u64|
            floor < b2 <= current && b2 % interval == 0 ==> !(#[trigger] recorded.contains(b2)),
    decreases current,
{
    if current <= floor {
        // No candidates at all: the window (floor, current] is empty.
    } else if recorded.contains(current) {
        // Found at the very top: nothing lies strictly above it.
    } else {
        lemma_mod_is_zero(current as nat, interval as nat);
        let next: u64 = (current - interval) as u64;
        lemma_mod_sub_multiples_vanish(current as int, interval as int);
        lemma_scan_characterization(recorded, interval, floor, next);
        // Any aligned block in (next, current] is current itself, which is
        // not recorded in this branch.
        assert forall|b2: u64| next < b2 <= current && b2 % interval == 0 implies !(
        #[trigger] recorded.contains(b2)) by {
            lemma_aligned_unique(interval, b2, current);
        }
    }
}

/// The scanner's answer, characterized over the whole lookback window: it
/// is `None` exactly when no interval-aligned block within `max_lookback`
/// blocks of the head is recorded, and otherwise the nearest (largest)
/// interval-aligned block with a record.
pub proof fn lemma_find_latest_characterization(
    recorded: Set<u64>,
    block_interval: u64,
    max_lookback: u64,
    head: u64,
)
    requires
        block_interval > 0,
    ensures
        spec_find_latest_recorded(recorded, block_interval, max_lookback, head) matches Some(b)
            ==> {
            &&& b % block_interval == 0
            &&& spec_scan_floor(head, max_lookback) < b <= head
            &&& recorded.contains(b)
            &&& forall|b2: u64|
                b < b2 <= head && b2 % block_interval == 0 ==> !(#[trigger] recorded.contains(b2))
        },
        spec_find_latest_recorded(recorded, block_interval, max_lookback, head) is None
            ==> forall|b2: u64|
            spec_scan_floor(head, max_lookback) < b2 <= head && b2 % block_interval == 0 ==> !(
            #[trigger] recorded.contains(b2)),
{
    lemma_align_down(head, block_interval);
    let floor: u64 = spec_scan_floor(head, max_lookback) as u64;
    let top: u64 = spec_align_down(head, block_interval) as u64;
    lemma_scan_characterization(recorded, block_interval, floor, top);
    // Blocks at or below the boundary are covered by the scan; an aligned
    // block strictly between the boundary and the head cannot exist.
    match spec_find_latest_recorded(recorded, block_interval, max_lookback, head) {
        Some(b) => {
            assert forall|b2: u64| b < b2 <= head && b2 % block_interval == 0 implies !(
            #[trigger] recorded.contains(b2)) by {
                if b2 > top {
                    lemma_aligned_unique(block_interval, top, b2);
                }
            }
        },
        None => {
            assert forall|b2: u64| floor < b2 <= head && b2 % block_interval == 0 implies !(
            #[trigger] recorded.contains(b2)) by {
                if b2 > top {
                    lemma_aligned_unique(block_interval, top, b2);
                }
            }
        },
    }
}

/// Invoked twice with no intervening writes — over one and the same set of
/// recorded blocks — the scan returns the same result both times.
pub proof fn lemma_scan_idempotent(
    recorded: Set<u64>,
    block_interval: u64,
    max_lookback: u64,
    head: u64,
    r1: Option<u64>,
    r2: Option<u64>,
)
    requires
        r1 == spec_find_latest_recorded(recorded, block_interval, max_lookback, head),
        r2 == spec_find_latest_recorded(recorded, block_interval, max_lookback, head),
    ensures
        r1 == r2,
{
}

/// Linear search of the record table.
fn contains_block(records: &Vec<u64>, block: u64) -> (r: bool)
    ensures
        r == records@.contains(block),
{
    let mut j: usize = 0;
    while j < records.len()
        invariant
            j <= records@.len(),
            forall|k: int| 0 <= k < j ==> records@[k] != block,
        decreases records@.len() - j,
    {
        if records[j] == block {
            return true;
        }
        j += 1;
    }
    false
}

/// Runs the whole scan against an in-memory table of recorded block
/// numbers, exactly as a driver runs it against the contract: most recent
/// interval boundary first, backwards one interval at a time, strictly
/// within the lookback window.
pub fn find_latest_recorded_interval(
    records: &Vec<u64>,
    block_interval: u64,
    max_lookback: u64,
    head: u64,
) -> (r: Option<u64>)
    requires
        block_interval > 0,
    ensures
        r == spec_find_latest_recorded(records@.to_set(), block_interval, max_lookback, head),
{
    let ghost recorded: Set<u64> = records@.to_set();
    let mut step: ScanStep = scan_begin(head, block_interval, max_lookback);
    loop
        invariant
            block_interval > 0,
            recorded == records@.to_set(),
            step matches ScanStep::Probe { state } ==> state.wf() && spec_scan(
                recorded,
                state.interval,
                state.floor,
                state.current,
            ) == spec_find_latest_recorded(recorded, block_interval, max_lookback, head),
            step matches ScanStep::Found { block } ==> Some(block)
                == spec_find_latest_recorded(recorded, block_interval, max_lookback, head),
            step is Exhausted ==> spec_find_latest_recorded(
                recorded,
                block_interval,
                max_lookback,
                head,
            ) is None,
        decreases (match step {
            ScanStep::Probe { state } => state.current as int + 1,
            _ => 0,
        }),
    {
        match step {
            ScanStep::Probe { state } => {
                let present: bool = contains_block(records, state.current);
                proof {
                    assert(recorded.contains(state.current) == records@.contains(state.current));
                    lemma_scan_resume_preserves(recorded, state, present);
                }
                step = scan_resume(state, present);
            },
            ScanStep::Found { block } => {
                return Some(block);
            },
            ScanStep::Exhausted => {
                return None;
            },
        }
    }
}

} // verus!
