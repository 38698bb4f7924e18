//! Window predicates: the rules that decide how far back a scan walks
//! before it halts.

use vstd::prelude::*;
use crate::epoch::{last_retarget_height, BLOCKS_PER_DIFFICULTY_PERIOD};

verus! {

/// How a backward scan decides whether to keep walking.
///
/// - `TimeWindow`: keep every block whose timestamp is at most
///   `duration_seconds` older than the reference timestamp (the tip block's
///   own timestamp, captured once at scan start). A block exactly on the
///   cutoff is still included; the halt is on a strictly older timestamp.
/// - `CountWindow`: keep exactly `count + 1` heights, the tip down through
///   `tip - count` inclusive.
/// - `EpochWindow`: keep every block of the tip's difficulty epoch, halting
///   once the cursor falls below the epoch's first height.
pub enum WindowPredicate {
    TimeWindow { duration_seconds: u64 },
    CountWindow { count: u64 },
    EpochWindow,
}

/// Whether the scan, having reached a block at `height` with `timestamp`,
/// should visit it and continue, or halt in front of it.
pub open spec fn spec_should_continue(
    predicate: WindowPredicate,
    tip_height: int,
    reference_timestamp: int,
    height: int,
    timestamp: int,
) -> bool {
    match predicate {
        WindowPredicate::TimeWindow { duration_seconds } =>
            timestamp >= reference_timestamp - duration_seconds,
        WindowPredicate::CountWindow { count } => height >= tip_height - count,
        WindowPredicate::EpochWindow => height >= last_retarget_height(tip_height),
    }
}

pub fn should_continue(
    predicate: &WindowPredicate,
    tip_height: u64,
    reference_timestamp: u64,
    height: u64,
    timestamp: u64,
) -> (keep_going: bool)
    ensures
        keep_going == spec_should_continue(
            *predicate,
            tip_height as int,
            reference_timestamp as int,
            height as int,
            timestamp as int,
        ),
{
    match predicate {
        WindowPredicate::TimeWindow { duration_seconds } => {
            timestamp >= reference_timestamp
                || reference_timestamp - timestamp <= *duration_seconds
        },
        WindowPredicate::CountWindow { count } => {
            height >= tip_height || tip_height - height <= *count
        },
        WindowPredicate::EpochWindow => {
            proof {
                assert((tip_height as int / 2016) * 2016 <= tip_height as int)
                    by (nonlinear_arith);
            }
            height >= (tip_height / BLOCKS_PER_DIFFICULTY_PERIOD) * BLOCKS_PER_DIFFICULTY_PERIOD
        },
    }
}

/// Every predicate lets the scan visit the tip block itself: the reference
/// timestamp is the tip's own, so the tip is never outside its own window.
pub proof fn lemma_tip_always_continues(
    predicate: WindowPredicate,
    tip_height: int,
    tip_timestamp: int,
)
    ensures
        spec_should_continue(predicate, tip_height, tip_timestamp, tip_height, tip_timestamp),
{
    if predicate is EpochWindow {
        assert((tip_height / 2016) * 2016 <= tip_height) by (nonlinear_arith);
    }
}

} // verus!
