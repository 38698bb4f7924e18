//! Derived metrics about a blockchain, computed by walking backward from
//! the chain tip and stopping once a window boundary is crossed.
//!
//! The core is the windowed backward-scan-and-classify engine: window
//! predicates ([`window`]), the scan driver ([`scan`]), per-transaction
//! segregated-witness classification ([`classify`]), the running totals
//! ([`accumulate`]), difficulty-epoch arithmetic ([`epoch`]), and one
//! operation per metric ([`metrics`]). The scan runs over an in-memory
//! image of the block-data provider ([`types::ChainData`]); a caller that
//! talks to a live node drives the same verified pieces fetch by fetch.

use vstd::prelude::*;

pub mod epoch;
pub mod types;
pub mod window;
pub mod classify;
pub mod accumulate;
pub mod scan;
pub mod metrics;

verus! {

/// A signed duration, in seconds.
pub struct Seconds(pub i64);

/// Everything that can go wrong while computing a chain metric.
///
/// - `ProviderError`: a block-data fetch failed; the whole scan is aborted and
///   no partial totals are returned.
/// - `GenesisReached`: the scan walked past height 0 before its window
///   predicate signalled a halt; a distinct terminal condition, not a zero.
/// - `EmptyWindowError`: a ratio's denominator over the scanned window is
///   zero, surfaced distinctly instead of a made-up value.
#[derive(Clone, Copy, PartialEq, Eq, Structural, Debug)]
pub enum QueryError {
    ProviderError,
    GenesisReached,
    EmptyWindowError,
}

/// The elapsed time between a block's timestamp and a reading of the clock,
/// both given as seconds since the Unix epoch.
pub fn get_time_since_last_block_in_seconds(now_timestamp: i64, block_timestamp: i64) -> (elapsed: Seconds)
    requires
        i64::MIN <= now_timestamp - block_timestamp <= i64::MAX,
    ensures
        elapsed.0 == now_timestamp - block_timestamp,
{
    Seconds(now_timestamp - block_timestamp)
}

} // verus!
