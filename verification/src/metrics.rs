//! The per-metric operations: each runs one windowed scan over the chain
//! and reads its result off the accumulated totals.
//!
//! Ratios are returned exactly, as numerator and denominator, never as an
//! approximation; a ratio whose denominator over the window is zero is
//! `EmptyWindowError`, never a made-up number.

use vstd::prelude::*;
use crate::accumulate::{totals_wf, StatTotals};
use crate::epoch::{get_block_height_of_last_difficulty_adjustment, last_retarget_height, BLOCKS_PER_DIFFICULTY_PERIOD};
use crate::scan::{
    chain_wf, lemma_scan_visits_tip, lemma_scan_window, scan_chain, spec_scan, spec_scan_bounded,
};
use crate::types::ChainData;
use crate::window::WindowPredicate;
use crate::QueryError;

verus! {

pub const SECONDS_IN_24_HOURS: u64 = 86400;

/// An exact ratio: `numerator` out of `denominator`.
#[derive(Clone, Copy, PartialEq, Eq, Structural, Debug)]
pub struct Ratio {
    pub numerator: u64,
    pub denominator: u64,
}

/// A ratio that denotes a share: a well-defined value between 0 and 1.
pub open spec fn ratio_in_unit(r: Ratio) -> bool {
    0 < r.denominator && r.numerator <= r.denominator
}

/// The five segregated-witness adoption ratios of one scanned window. The
/// denominator of the payments ratio is the change-adjusted payment count;
/// of the other four, the count of non-coinbase transactions.
#[derive(Clone, Copy, PartialEq, Eq, Structural, Debug)]
pub struct SegwitRatios {
    pub vout_based: Ratio,
    pub vout_or_vin_based: Ratio,
    pub hex_based: Ratio,
    pub payments_spending_segwit: Ratio,
    pub segwit_spending_transactions: Ratio,
}

/// The fees collected over the last 24 hours of blocks: the fee total of
/// the scan whose window is the day before the tip block's timestamp.
pub fn get_total_fee_for_24_hours(chain: &ChainData, tip_height: u64) -> (outcome: Result<
    u64,
    QueryError,
>)
    requires
        chain_wf(chain@),
        tip_height < chain.blocks@.len(),
        spec_scan_bounded(chain@, tip_height as int),
    ensures
        ({
            let s = spec_scan(
                chain@,
                WindowPredicate::TimeWindow { duration_seconds: SECONDS_IN_24_HOURS },
                tip_height as int,
            );
            match outcome {
                Ok(fee) => s is Ok && fee == s->Ok_0.total_fee,
                Err(e) => s == Err::<StatTotals, QueryError>(e),
            }
        }),
{
    let predicate = WindowPredicate::TimeWindow { duration_seconds: SECONDS_IN_24_HOURS };
    match scan_chain(chain, tip_height, &predicate) {
        Ok(acc) => Ok(acc.total_fee),
        Err(e) => Err(e),
    }
}

/// How many blocks were mined over the last 24 hours: the block count of
/// the same window.
pub fn get_blocks_mined_over_last_24_hours_count(chain: &ChainData, tip_height: u64) -> (outcome:
    Result<u64, QueryError>)
    requires
        chain_wf(chain@),
        tip_height < chain.blocks@.len(),
        spec_scan_bounded(chain@, tip_height as int),
    ensures
        ({
            let s = spec_scan(
                chain@,
                WindowPredicate::TimeWindow { duration_seconds: SECONDS_IN_24_HOURS },
                tip_height as int,
            );
            match outcome {
                Ok(count) => s is Ok && count == s->Ok_0.blocks_count && count >= 1,
                Err(e) => s == Err::<StatTotals, QueryError>(e),
            }
        }),
{
    let predicate = WindowPredicate::TimeWindow { duration_seconds: SECONDS_IN_24_HOURS };
    match scan_chain(chain, tip_height, &predicate) {
        Ok(acc) => {
            proof {
                lemma_scan_visits_tip(chain@, predicate, tip_height as int);
            }
            Ok(acc.blocks_count)
        },
        Err(e) => Err(e),
    }
}

/// The average fee per block over the last 24 hours: the window's fee total
/// divided (rounding down) by its block count, which a completed scan
/// guarantees is at least 1.
pub fn get_average_fees_per_block_over_last_24_hours(chain: &ChainData, tip_height: u64) -> (outcome:
    Result<u64, QueryError>)
    requires
        chain_wf(chain@),
        tip_height < chain.blocks@.len(),
        spec_scan_bounded(chain@, tip_height as int),
    ensures
        ({
            let s = spec_scan(
                chain@,
                WindowPredicate::TimeWindow { duration_seconds: SECONDS_IN_24_HOURS },
                tip_height as int,
            );
            match outcome {
                Ok(average) => s is Ok && s->Ok_0.blocks_count >= 1 && average == s->Ok_0.total_fee
                    / s->Ok_0.blocks_count,
                Err(e) => s == Err::<StatTotals, QueryError>(e),
            }
        }),
{
    let predicate = WindowPredicate::TimeWindow { duration_seconds: SECONDS_IN_24_HOURS };
    match scan_chain(chain, tip_height, &predicate) {
        Ok(acc) => {
            proof {
                lemma_scan_visits_tip(chain@, predicate, tip_height as int);
            }
            Ok(acc.total_fee / acc.blocks_count)
        },
        Err(e) => Err(e),
    }
}

/// The average fee per block over a count window of one difficulty period.
/// The window scans `BLOCKS_PER_DIFFICULTY_PERIOD + 1` heights, tip and
/// period inclusive, but divides by the period's length alone.
pub fn get_average_fees_per_block_over_last_2016_blocks(chain: &ChainData, tip_height: u64) -> (outcome:
    Result<u64, QueryError>)
    requires
        chain_wf(chain@),
        tip_height < chain.blocks@.len(),
        spec_scan_bounded(chain@, tip_height as int),
    ensures
        ({
            let s = spec_scan(
                chain@,
                WindowPredicate::CountWindow { count: BLOCKS_PER_DIFFICULTY_PERIOD },
                tip_height as int,
            );
            match outcome {
                Ok(average) => s is Ok && average == s->Ok_0.total_fee
                    / BLOCKS_PER_DIFFICULTY_PERIOD as int,
                Err(e) => s == Err::<StatTotals, QueryError>(e),
            }
        }),
{
    let predicate = WindowPredicate::CountWindow { count: BLOCKS_PER_DIFFICULTY_PERIOD };
    match scan_chain(chain, tip_height, &predicate) {
        Ok(acc) => Ok(acc.total_fee / BLOCKS_PER_DIFFICULTY_PERIOD),
        Err(e) => Err(e),
    }
}

/// The scanned totals' fee and subsidy sums fit one counter together.
proof fn lemma_scan_reward_fits(
    c: crate::types::ChainView,
    predicate: WindowPredicate,
    tip_height: int,
)
    requires
        chain_wf(c),
        0 <= tip_height < c.blocks.len(),
        spec_scan_bounded(c, tip_height),
        spec_scan(c, predicate, tip_height) is Ok,
    ensures
        totals_wf(spec_scan(c, predicate, tip_height)->Ok_0),
        spec_scan(c, predicate, tip_height)->Ok_0.total_fee + spec_scan(
            c,
            predicate,
            tip_height,
        )->Ok_0.total_subsidy <= u64::MAX,
{
    lemma_scan_window(c, predicate, tip_height);
}

/// Fees as a share of the whole block reward (fees plus subsidies) over a
/// completed window: the exact ratio `fees / (fees + subsidies)`, or
/// `EmptyWindowError` when the window collected no reward at all.
fn fees_as_share_of_reward(chain: &ChainData, tip_height: u64, predicate: &WindowPredicate) -> (outcome:
    Result<Ratio, QueryError>)
    requires
        chain_wf(chain@),
        tip_height < chain.blocks@.len(),
        spec_scan_bounded(chain@, tip_height as int),
    ensures
        ({
            let s = spec_scan(chain@, *predicate, tip_height as int);
            match outcome {
                Ok(ratio) => {
                    &&& s is Ok
                    &&& ratio.numerator == s->Ok_0.total_fee
                    &&& ratio.denominator == s->Ok_0.total_fee + s->Ok_0.total_subsidy
                    &&& ratio_in_unit(ratio)
                },
                Err(e) => (e == QueryError::EmptyWindowError && s is Ok && s->Ok_0.total_fee
                    + s->Ok_0.total_subsidy == 0) || (e != QueryError::EmptyWindowError && s == Err::<
                    StatTotals,
                    QueryError,
                >(e)),
            }
        }),
{
    proof {
        crate::scan::lemma_scan_no_empty_window(chain@, *predicate, tip_height as int);
    }
    match scan_chain(chain, tip_height, predicate) {
        Ok(acc) => {
            proof {
                lemma_scan_reward_fits(chain@, *predicate, tip_height as int);
            }
            let denominator = acc.total_fee + acc.total_subsidy;
            if denominator == 0 {
                Err(QueryError::EmptyWindowError)
            } else {
                Ok(Ratio { numerator: acc.total_fee, denominator })
            }
        },
        Err(e) => Err(e),
    }
}

/// Fees as a share of the whole block reward over the last 24 hours.
pub fn get_fees_as_a_percent_of_reward_for_last_24_hours(chain: &ChainData, tip_height: u64) -> (outcome:
    Result<Ratio, QueryError>)
    requires
        chain_wf(chain@),
        tip_height < chain.blocks@.len(),
        spec_scan_bounded(chain@, tip_height as int),
    ensures
        ({
            let s = spec_scan(
                chain@,
                WindowPredicate::TimeWindow { duration_seconds: SECONDS_IN_24_HOURS },
                tip_height as int,
            );
            match outcome {
                Ok(ratio) => {
                    &&& s is Ok
                    &&& ratio.numerator == s->Ok_0.total_fee
                    &&& ratio.denominator == s->Ok_0.total_fee + s->Ok_0.total_subsidy
                    &&& ratio_in_unit(ratio)
                },
                Err(e) => (e == QueryError::EmptyWindowError && s is Ok && s->Ok_0.total_fee
                    + s->Ok_0.total_subsidy == 0) || (e != QueryError::EmptyWindowError && s == Err::<
                    StatTotals,
                    QueryError,
                >(e)),
            }
        }),
{
    fees_as_share_of_reward(
        chain,
        tip_height,
        &WindowPredicate::TimeWindow { duration_seconds: SECONDS_IN_24_HOURS },
    )
}

/// Fees as a share of the whole block reward over a count window of one
/// difficulty period.
pub fn get_fees_as_a_percent_of_reward_for_last_2016_blocks(chain: &ChainData, tip_height: u64) -> (outcome:
    Result<Ratio, QueryError>)
    requires
        chain_wf(chain@),
        tip_height < chain.blocks@.len(),
        spec_scan_bounded(chain@, tip_height as int),
    ensures
        ({
            let s = spec_scan(
                chain@,
                WindowPredicate::CountWindow { count: BLOCKS_PER_DIFFICULTY_PERIOD },
                tip_height as int,
            );
            match outcome {
                Ok(ratio) => {
                    &&& s is Ok
                    &&& ratio.numerator == s->Ok_0.total_fee
                    &&& ratio.denominator == s->Ok_0.total_fee + s->Ok_0.total_subsidy
                    &&& ratio_in_unit(ratio)
                },
                Err(e) => (e == QueryError::EmptyWindowError && s is Ok && s->Ok_0.total_fee
                    + s->Ok_0.total_subsidy == 0) || (e != QueryError::EmptyWindowError && s == Err::<
                    StatTotals,
                    QueryError,
                >(e)),
            }
        }),
{
    fees_as_share_of_reward(
        chain,
        tip_height,
        &WindowPredicate::CountWindow { count: BLOCKS_PER_DIFFICULTY_PERIOD },
    )
}

/// Whether the five ratios read off these totals, with the given ratio
/// record, are exactly the window's segwit adoption shares.
pub open spec fn segwit_ratios_of_totals(r: SegwitRatios, t: StatTotals) -> bool {
    &&& r.vout_based.numerator == t.vout_segwit_tx_count
    &&& r.vout_based.denominator == t.tx_count
    &&& r.vout_or_vin_based.numerator == t.combined_segwit_tx_count
    &&& r.vout_or_vin_based.denominator == t.tx_count
    &&& r.hex_based.numerator == t.hex_segwit_tx_count
    &&& r.hex_based.denominator == t.tx_count
    &&& r.payments_spending_segwit.numerator == t.vin_segwit_payment_count
    &&& r.payments_spending_segwit.denominator == t.payment_count
    &&& r.segwit_spending_transactions.numerator == t.vin_segwit_tx_count
    &&& r.segwit_spending_transactions.denominator == t.tx_count
}

/// The five segwit adoption ratios over the last 24 hours of blocks, each
/// an exact share between 0 and 1. `EmptyWindowError` when a denominator is
/// zero: the window held no non-coinbase transaction, or no payment.
pub fn get_percent_of_vouts_used_segwit_over_last_24_hours(chain: &ChainData, tip_height: u64) -> (outcome:
    Result<SegwitRatios, QueryError>)
    requires
        chain_wf(chain@),
        tip_height < chain.blocks@.len(),
        spec_scan_bounded(chain@, tip_height as int),
    ensures
        ({
            let s = spec_scan(
                chain@,
                WindowPredicate::TimeWindow { duration_seconds: SECONDS_IN_24_HOURS },
                tip_height as int,
            );
            match outcome {
                Ok(ratios) => {
                    &&& s is Ok
                    &&& segwit_ratios_of_totals(ratios, s->Ok_0)
                    &&& ratio_in_unit(ratios.vout_based)
                    &&& ratio_in_unit(ratios.vout_or_vin_based)
                    &&& ratio_in_unit(ratios.hex_based)
                    &&& ratio_in_unit(ratios.payments_spending_segwit)
                    &&& ratio_in_unit(ratios.segwit_spending_transactions)
                },
                Err(e) => (e == QueryError::EmptyWindowError && s is Ok && (s->Ok_0.tx_count == 0
                    || s->Ok_0.payment_count == 0)) || (e != QueryError::EmptyWindowError && s
                    == Err::<StatTotals, QueryError>(e)),
            }
        }),
{
    let predicate = WindowPredicate::TimeWindow { duration_seconds: SECONDS_IN_24_HOURS };
    proof {
        crate::scan::lemma_scan_no_empty_window(chain@, predicate, tip_height as int);
    }
    match scan_chain(chain, tip_height, &predicate) {
        Ok(acc) => {
            if acc.tx_count == 0 || acc.payment_count == 0 {
                Err(QueryError::EmptyWindowError)
            } else {
                Ok(
                    SegwitRatios {
                        vout_based: Ratio {
                            numerator: acc.vout_segwit_tx_count,
                            denominator: acc.tx_count,
                        },
                        vout_or_vin_based: Ratio {
                            numerator: acc.combined_segwit_tx_count,
                            denominator: acc.tx_count,
                        },
                        hex_based: Ratio {
                            numerator: acc.hex_segwit_tx_count,
                            denominator: acc.tx_count,
                        },
                        payments_spending_segwit: Ratio {
                            numerator: acc.vin_segwit_payment_count,
                            denominator: acc.payment_count,
                        },
                        segwit_spending_transactions: Ratio {
                            numerator: acc.vin_segwit_tx_count,
                            denominator: acc.tx_count,
                        },
                    },
                )
            }
        },
        Err(e) => Err(e),
    }
}

/// The average spacing between two block timestamps `block_span` blocks
/// apart, rounding down.
pub fn average_block_time_seconds(
    newest_timestamp: u64,
    oldest_timestamp: u64,
    block_span: u64,
) -> (average: u64)
    requires
        oldest_timestamp <= newest_timestamp,
        0 < block_span,
    ensures
        average == (newest_timestamp - oldest_timestamp) / block_span as int,
{
    (newest_timestamp - oldest_timestamp) / block_span
}

/// The average spacing of the last difficulty period's blocks: the
/// timestamp span from the block one period below the tip up to the tip,
/// divided by the period's length.
pub fn get_average_block_time_for_last_2016_blocks(chain: &ChainData, tip_height: u64) -> (average:
    u64)
    requires
        tip_height < chain.blocks@.len(),
        tip_height >= BLOCKS_PER_DIFFICULTY_PERIOD,
        chain@.blocks[tip_height as int - BLOCKS_PER_DIFFICULTY_PERIOD as int].timestamp
            <= chain@.blocks[tip_height as int].timestamp,
    ensures
        average == (chain@.blocks[tip_height as int].timestamp - chain@.blocks[tip_height as int
            - BLOCKS_PER_DIFFICULTY_PERIOD as int].timestamp) / BLOCKS_PER_DIFFICULTY_PERIOD as int,
{
    let block_count = chain.blocks.len();
    let newest = chain.blocks[tip_height as usize].timestamp;
    let oldest = chain.blocks[(tip_height - BLOCKS_PER_DIFFICULTY_PERIOD) as usize].timestamp;
    average_block_time_seconds(newest, oldest, BLOCKS_PER_DIFFICULTY_PERIOD)
}

/// The average spacing of the blocks mined since the last difficulty
/// adjustment: the timestamp span from the adjustment block to the tip,
/// divided by how many blocks lie above the adjustment. Undefined on an
/// adjustment block itself, where that count is zero.
pub fn get_average_block_time_for_since_last_difficulty_adjustement(
    chain: &ChainData,
    tip_height: u64,
) -> (average: u64)
    requires
        tip_height < chain.blocks@.len(),
        tip_height as int % BLOCKS_PER_DIFFICULTY_PERIOD as int != 0,
        chain@.blocks[last_retarget_height(tip_height as int)].timestamp <= chain@.blocks[tip_height as int].timestamp,
    ensures
        average == (chain@.blocks[tip_height as int].timestamp - chain@.blocks[last_retarget_height(
            tip_height as int,
        )].timestamp) / (tip_height as int % BLOCKS_PER_DIFFICULTY_PERIOD as int),
{
    let block_count = chain.blocks.len();
    let retarget_height = get_block_height_of_last_difficulty_adjustment(tip_height);
    let newest = chain.blocks[tip_height as usize].timestamp;
    let adjustment = chain.blocks[retarget_height as usize].timestamp;
    let blocks_since = tip_height % BLOCKS_PER_DIFFICULTY_PERIOD;
    proof {
        assert(tip_height as int - (tip_height as int / 2016) * 2016 == tip_height as int % 2016)
            by (nonlinear_arith);
    }
    average_block_time_seconds(newest, adjustment, blocks_since)
}

} // verus!
