//! Difficulty-epoch arithmetic.
//!
//! The chain recalculates its mining difficulty every
//! `BLOCKS_PER_DIFFICULTY_PERIOD` blocks. These functions convert a block
//! height into the current epoch number, the height at which the current
//! epoch began, and how far away the next retarget is.

use vstd::prelude::*;

verus! {

pub const BLOCKS_PER_DIFFICULTY_PERIOD: u64 = 2016;

/// The (1-based) difficulty epoch that a block at `height` belongs to.
pub open spec fn epoch_of_height(height: int) -> int {
    height / BLOCKS_PER_DIFFICULTY_PERIOD as int + 1
}

/// The height at which the epoch containing `height` began: the height of
/// the most recent difficulty adjustment at or below `height`.
pub open spec fn last_retarget_height(height: int) -> int {
    (epoch_of_height(height) - 1) * BLOCKS_PER_DIFFICULTY_PERIOD as int
}

pub fn get_current_difficulty_epoch(height: u64) -> (epoch: u64)
    ensures
        epoch == epoch_of_height(height as int),
        1 <= epoch,
{
    height / BLOCKS_PER_DIFFICULTY_PERIOD + 1
}

pub fn get_block_height_of_last_difficulty_adjustment(height: u64) -> (retarget_height: u64)
    ensures
        retarget_height == last_retarget_height(height as int),
        retarget_height <= height,
        retarget_height % BLOCKS_PER_DIFFICULTY_PERIOD == 0,
{
    proof {
        assert((height as int / 2016) * 2016 <= height as int && ((height as int / 2016) * 2016) % 2016 == 0)
            by (nonlinear_arith);
    }
    (height / BLOCKS_PER_DIFFICULTY_PERIOD) * BLOCKS_PER_DIFFICULTY_PERIOD
}

/// How many blocks remain until the next difficulty adjustment. A height
/// that sits exactly on an adjustment is a full period away from the next.
pub fn get_blocks_count_until_retarget(height: u64) -> (remaining: u64)
    ensures
        remaining == BLOCKS_PER_DIFFICULTY_PERIOD - height as int % BLOCKS_PER_DIFFICULTY_PERIOD as int,
        1 <= remaining <= BLOCKS_PER_DIFFICULTY_PERIOD,
{
    BLOCKS_PER_DIFFICULTY_PERIOD - height % BLOCKS_PER_DIFFICULTY_PERIOD
}

/// Seconds until the next difficulty adjustment, assuming the constant
/// ten-minute target spacing rather than any measured average block time.
pub fn get_estimated_seconds_until_retarget(height: u64) -> (seconds: u64)
    ensures
        seconds == 600 * (BLOCKS_PER_DIFFICULTY_PERIOD - height as int % BLOCKS_PER_DIFFICULTY_PERIOD as int),
{
    600 * get_blocks_count_until_retarget(height)
}

} // verus!
