//! The windowed backward scan: walk the chain from the tip downward, one
//! height at a time, while the window predicate allows it, feeding each
//! visited block to the accumulator.
//!
//! `spec_scan` is the mathematical definition of a scan's outcome; the
//! executable `scan_chain` is proved to return exactly it. A scan either
//! completes with fully-populated totals, aborts with `ProviderError` when a
//! raw-transaction fetch fails, or aborts with `GenesisReached` when the
//! chain runs out below height 0 before the predicate halts; an aborted
//! scan returns no partial totals.

use vstd::prelude::*;
use crate::accumulate::{
    accumulate_block, add_totals, block_wf, spec_block_contrib, totals_bounded, totals_le,
    totals_wf, zero_totals, AccumulatorState, StatTotals,
};
use crate::classify::addrs_view;
use crate::types::{ChainData, ChainView, BlockSnapshot, BlockView, TransactionRecord, TxView, Vin, VinView, opt_string_view};
use crate::window::{should_continue, spec_should_continue, WindowPredicate};
use crate::QueryError;

verus! {

/// The first transaction of the index whose txid matches, as the provider's
/// raw-transaction fetch would return it.
pub open spec fn spec_lookup_tx(index: Seq<TxView>, txid: Seq<char>) -> Option<TxView>
    decreases index.len(),
{
    if index.len() == 0 {
        None
    } else if index.first().txid == txid {
        Some(index.first())
    } else {
        spec_lookup_tx(index.drop_first(), txid)
    }
}

/// Whether resolving this input can succeed: the coinbase input needs no
/// fetch, any other needs its previous transaction to be in the index.
pub open spec fn spec_vin_resolvable(index: Seq<TxView>, vin: VinView) -> bool {
    match vin {
        VinView::Coinbase => true,
        VinView::NonCoinbase { prev_txid, .. } => spec_lookup_tx(index, prev_txid) is Some,
    }
}

/// Whether the input's reference stays inside its previous transaction's
/// output list. A real chain only references outputs that exist.
pub open spec fn spec_vin_in_range(index: Seq<TxView>, vin: VinView) -> bool {
    match vin {
        VinView::Coinbase => true,
        VinView::NonCoinbase { prev_txid, prev_vout_index } => match spec_lookup_tx(
            index,
            prev_txid,
        ) {
            Some(prev) => 0 <= prev_vout_index < prev.vout.len(),
            None => true,
        },
    }
}

/// The address behind the output this input spends: what the referenced
/// transaction's vout resolves to. A coinbase input has none.
pub open spec fn spec_vin_resolved(index: Seq<TxView>, vin: VinView) -> Option<Seq<char>>
    recommends
        spec_vin_resolvable(index, vin),
        spec_vin_in_range(index, vin),
{
    match vin {
        VinView::Coinbase => None,
        VinView::NonCoinbase { prev_txid, prev_vout_index } => match spec_lookup_tx(
            index,
            prev_txid,
        ) {
            Some(prev) => prev.vout[prev_vout_index].resolved_address,
            None => None,
        },
    }
}

pub open spec fn spec_tx_resolvable(index: Seq<TxView>, tx: TxView) -> bool {
    forall|j: int| 0 <= j < tx.vin.len() ==> spec_vin_resolvable(index, #[trigger] tx.vin[j])
}

pub open spec fn spec_tx_vins_in_range(index: Seq<TxView>, tx: TxView) -> bool {
    forall|j: int| 0 <= j < tx.vin.len() ==> spec_vin_in_range(index, #[trigger] tx.vin[j])
}

/// The resolved addresses of all of a transaction's inputs, in input order.
pub open spec fn spec_tx_resolved(index: Seq<TxView>, tx: TxView) -> Seq<Option<Seq<char>>> {
    tx.vin.map_values(|v: VinView| spec_vin_resolved(index, v))
}

/// A block can be accumulated when every non-coinbase transaction's inputs
/// resolve; the coinbase needs no resolution.
pub open spec fn spec_block_resolvable(index: Seq<TxView>, block: BlockView) -> bool {
    forall|i: int|
        0 <= i < block.transactions.len() && !(#[trigger] block.transactions[i]).is_coinbase
            ==> spec_tx_resolvable(index, block.transactions[i])
}

pub open spec fn spec_block_vins_in_range(index: Seq<TxView>, block: BlockView) -> bool {
    forall|i: int|
        0 <= i < block.transactions.len() && !(#[trigger] block.transactions[i]).is_coinbase
            ==> spec_tx_vins_in_range(index, block.transactions[i])
}

/// The per-transaction resolved input addresses of a whole block; an empty
/// list for the coinbase, whose inputs are never resolved.
pub open spec fn spec_block_resolved(index: Seq<TxView>, block: BlockView) -> Seq<
    Seq<Option<Seq<char>>>,
> {
    block.transactions.map_values(
        |t: TxView|
            if t.is_coinbase {
                Seq::<Option<Seq<char>>>::empty()
            } else {
                spec_tx_resolved(index, t)
            },
    )
}

/// A usable in-memory chain: block `h` of the list sits at height `h`, every
/// block is well-formed, and no input references an output its transaction
/// does not have.
pub open spec fn chain_wf(c: ChainView) -> bool {
    &&& forall|h: int| 0 <= h < c.blocks.len() ==> (#[trigger] c.blocks[h]).height == h
    &&& forall|h: int| 0 <= h < c.blocks.len() ==> block_wf(#[trigger] c.blocks[h])
    &&& forall|h: int|
        0 <= h < c.blocks.len() ==> spec_block_vins_in_range(
            c.transactions,
            #[trigger] c.blocks[h],
        )
}

/// What one block adds to a scan of this chain.
pub open spec fn spec_chain_block_contrib(c: ChainView, h: int) -> StatTotals
    recommends
        0 <= h < c.blocks.len(),
{
    spec_block_contrib(c.blocks[h], spec_block_resolved(c.transactions, c.blocks[h]))
}

/// The totals over the heights `lo..=hi`: each height counted once, none
/// skipped.
pub open spec fn spec_range_contrib(c: ChainView, lo: int, hi: int) -> StatTotals
    recommends
        hi < c.blocks.len(),
    decreases hi - lo + 1,
{
    if lo > hi {
        zero_totals()
    } else {
        add_totals(spec_range_contrib(c, lo, hi - 1), spec_chain_block_contrib(c, hi))
    }
}

/// The outcome of the scan's walk from height `h` downward: the totals over
/// the heights it visits, or the abort that cuts it short. The walk halts
/// in front of the first block the predicate rejects; a block whose inputs
/// cannot all be resolved aborts with `ProviderError`; walking past height
/// 0 aborts with `GenesisReached`.
pub open spec fn spec_scan_from(
    c: ChainView,
    predicate: WindowPredicate,
    tip_height: int,
    reference_timestamp: int,
    h: int,
) -> Result<StatTotals, QueryError>
    recommends
        0 <= h < c.blocks.len(),
    decreases h,
{
    if h < 0 {
        Err(QueryError::GenesisReached)
    } else if !spec_should_continue(
        predicate,
        tip_height,
        reference_timestamp,
        h,
        c.blocks[h].timestamp,
    ) {
        Ok(zero_totals())
    } else if !spec_block_resolvable(c.transactions, c.blocks[h]) {
        Err(QueryError::ProviderError)
    } else if h == 0 {
        Err(QueryError::GenesisReached)
    } else {
        match spec_scan_from(c, predicate, tip_height, reference_timestamp, h - 1) {
            Ok(t) => Ok(add_totals(spec_chain_block_contrib(c, h), t)),
            Err(e) => Err(e),
        }
    }
}

/// The outcome of a whole scan: the walk starts at the tip, whose own
/// timestamp — always a fetched block's timestamp, never the wall clock —
/// is the window's reference point.
pub open spec fn spec_scan(c: ChainView, predicate: WindowPredicate, tip_height: int) -> Result<
    StatTotals,
    QueryError,
> {
    spec_scan_from(c, predicate, tip_height, c.blocks[tip_height].timestamp, tip_height)
}

/// The totals of every height the scan could ever visit fit the counters.
pub open spec fn spec_scan_bounded(c: ChainView, tip_height: int) -> bool {
    totals_bounded(spec_range_contrib(c, 0, tip_height))
}

/// Fetch a raw transaction from the in-memory index: the first record with
/// this txid, or nothing when the index has none.
pub fn lookup_transaction<'a>(index: &'a Vec<TransactionRecord>, txid: &String) -> (found: Option<
    &'a TransactionRecord,
>)
    ensures
        match found {
            Some(tx) => spec_lookup_tx(index@.map_values(|t: TransactionRecord| t@), txid@)
                == Some(tx@),
            None => spec_lookup_tx(index@.map_values(|t: TransactionRecord| t@), txid@) is None,
        },
{
    let ghost views = index@.map_values(|t: TransactionRecord| t@);
    let n = index.len();
    for i in 0..n
        invariant
            n == index.len(),
            views == index@.map_values(|t: TransactionRecord| t@),
            forall|j: int| 0 <= j < i ==> (#[trigger] views[j]).txid != txid@,
    {
        if index[i].txid == *txid {
            proof {
                lemma_lookup_skip(views, txid@, i as int);
                assert(views.skip(i as int).first() == views[i as int]);
                assert(views.skip(i as int).drop_first() =~= views.skip(i + 1));
            }
            return Some(&index[i]);
        }
    }
    proof {
        lemma_lookup_skip(views, txid@, n as int);
        assert(views.skip(n as int) =~= Seq::<TxView>::empty());
    }
    None
}

/// Looking a txid up skips any prefix of mismatches.
proof fn lemma_lookup_skip(index: Seq<TxView>, txid: Seq<char>, i: int)
    requires
        0 <= i <= index.len(),
        forall|j: int| 0 <= j < i ==> (#[trigger] index[j]).txid != txid,
    ensures
        spec_lookup_tx(index, txid) == spec_lookup_tx(index.skip(i), txid),
    decreases i,
{
    if i == 0 {
        assert(index.skip(0) =~= index);
    } else {
        lemma_lookup_skip(index, txid, i - 1);
        assert(index.skip(i - 1).len() > 0);
        assert(index.skip(i - 1).first() == index[i - 1]);
        assert(index.skip(i - 1).drop_first() =~= index.skip(i));
    }
}

/// Resolve the address behind one input: fetch the referenced transaction
/// and read the referenced output's address. Fails exactly when the fetch
/// finds nothing.
fn resolve_vin(index: &Vec<TransactionRecord>, vin: &Vin) -> (resolved: Result<
    Option<String>,
    QueryError,
>)
    requires
        spec_vin_in_range(index@.map_values(|t: TransactionRecord| t@), vin@),
    ensures
        match resolved {
            Ok(address) => spec_vin_resolvable(index@.map_values(|t: TransactionRecord| t@), vin@)
                && opt_string_view(address) == spec_vin_resolved(
                index@.map_values(|t: TransactionRecord| t@),
                vin@,
            ),
            Err(e) => e == QueryError::ProviderError && !spec_vin_resolvable(
                index@.map_values(|t: TransactionRecord| t@),
                vin@,
            ),
        },
{
    match vin {
        Vin::Coinbase => Ok(None),
        Vin::NonCoinbase { prev_txid, prev_vout_index } => {
            match lookup_transaction(index, prev_txid) {
                None => Err(QueryError::ProviderError),
                Some(prev) => {
                    let vout = &prev.vout[*prev_vout_index];
                    match &vout.resolved_address {
                        Some(address) => Ok(Some(address.clone())),
                        None => Ok(None),
                    }
                },
            }
        },
    }
}

/// Resolve the addresses behind all of one transaction's inputs, in order.
fn resolve_transaction_vins(index: &Vec<TransactionRecord>, tx: &TransactionRecord) -> (resolved:
    Result<Vec<Option<String>>, QueryError>)
    requires
        spec_tx_vins_in_range(index@.map_values(|t: TransactionRecord| t@), tx@),
    ensures
        match resolved {
            Ok(addresses) => spec_tx_resolvable(index@.map_values(|t: TransactionRecord| t@), tx@)
                && addrs_view(addresses@) == spec_tx_resolved(
                index@.map_values(|t: TransactionRecord| t@),
                tx@,
            ),
            Err(e) => e == QueryError::ProviderError && !spec_tx_resolvable(
                index@.map_values(|t: TransactionRecord| t@),
                tx@,
            ),
        },
{
    let ghost views = index@.map_values(|t: TransactionRecord| t@);
    let mut addresses: Vec<Option<String>> = Vec::new();
    let n = tx.vin.len();
    for j in 0..n
        invariant
            n == tx.vin.len(),
            views == index@.map_values(|t: TransactionRecord| t@),
            spec_tx_vins_in_range(views, tx@),
            addresses@.len() == j,
            forall|k: int|
                0 <= k < j ==> spec_vin_resolvable(views, #[trigger] tx@.vin[k]),
            forall|k: int|
                0 <= k < j ==> opt_string_view(#[trigger] addresses@[k]) == spec_vin_resolved(
                    views,
                    tx@.vin[k],
                ),
    {
        proof {
            assert(tx@.vin[j as int] == tx.vin@[j as int]@);
        }
        match resolve_vin(index, &tx.vin[j]) {
            Ok(address) => {
                addresses.push(address);
            },
            Err(e) => {
                assert(!spec_vin_resolvable(views, tx@.vin[j as int]));
                return Err(e);
            },
        }
    }
    proof {
        assert(addrs_view(addresses@) =~= spec_tx_resolved(views, tx@));
    }
    Ok(addresses)
}

/// Resolve the inputs of every non-coinbase transaction of a block; the
/// coinbase gets an empty list. Fails exactly when some needed fetch fails.
fn resolve_block_vins(index: &Vec<TransactionRecord>, block: &BlockSnapshot) -> (resolved: Result<
    Vec<Vec<Option<String>>>,
    QueryError,
>)
    requires
        spec_block_vins_in_range(index@.map_values(|t: TransactionRecord| t@), block@),
    ensures
        match resolved {
            Ok(addresses) => {
                &&& spec_block_resolvable(index@.map_values(|t: TransactionRecord| t@), block@)
                &&& addresses@.len() == block.transactions@.len()
                &&& crate::accumulate::block_addrs_view(addresses@) == spec_block_resolved(
                    index@.map_values(|t: TransactionRecord| t@),
                    block@,
                )
            },
            Err(e) => e == QueryError::ProviderError && !spec_block_resolvable(
                index@.map_values(|t: TransactionRecord| t@),
                block@,
            ),
        },
{
    let ghost views = index@.map_values(|t: TransactionRecord| t@);
    let mut addresses: Vec<Vec<Option<String>>> = Vec::new();
    let n = block.transactions.len();
    for i in 0..n
        invariant
            n == block.transactions.len(),
            views == index@.map_values(|t: TransactionRecord| t@),
            spec_block_vins_in_range(views, block@),
            addresses@.len() == i,
            forall|k: int|
                0 <= k < i && !(#[trigger] block@.transactions[k]).is_coinbase
                    ==> spec_tx_resolvable(views, block@.transactions[k]),
            forall|k: int|
                0 <= k < i ==> addrs_view(#[trigger] addresses@[k]@) == (
                if block@.transactions[k].is_coinbase {
                    Seq::<Option<Seq<char>>>::empty()
                } else {
                    spec_tx_resolved(views, block@.transactions[k])
                }),
    {
        let tx = &block.transactions[i];
        proof {
            assert(block@.transactions[i as int] == block.transactions@[i as int]@);
        }
        if tx.is_coinbase {
            let empty: Vec<Option<String>> = Vec::new();
            proof {
                assert(addrs_view(empty@) =~= Seq::<Option<Seq<char>>>::empty());
            }
            addresses.push(empty);
        } else {
            match resolve_transaction_vins(index, tx) {
                Ok(tx_addresses) => {
                    addresses.push(tx_addresses);
                },
                Err(e) => {
                    assert(!spec_tx_resolvable(views, block@.transactions[i as int]));
                    return Err(e);
                },
            }
        }
    }
    proof {
        assert(crate::accumulate::block_addrs_view(addresses@) =~= spec_block_resolved(
            views,
            block@,
        ));
    }
    Ok(addresses)
}

/// Peeling the lowest height off a range of contributions.
proof fn lemma_range_peel_lo(c: ChainView, lo: int, hi: int)
    requires
        lo <= hi,
    ensures
        spec_range_contrib(c, lo, hi) == add_totals(
            spec_chain_block_contrib(c, lo),
            spec_range_contrib(c, lo + 1, hi),
        ),
    decreases hi - lo,
{
    if lo == hi {
        assert(spec_range_contrib(c, lo, hi - 1) == zero_totals());
        assert(spec_range_contrib(c, lo + 1, hi) == zero_totals());
        assert(spec_range_contrib(c, lo, hi) =~= add_totals(
            spec_chain_block_contrib(c, lo),
            spec_range_contrib(c, lo + 1, hi),
        ));
    } else {
        lemma_range_peel_lo(c, lo, hi - 1);
        assert(spec_range_contrib(c, lo, hi) =~= add_totals(
            spec_chain_block_contrib(c, lo),
            spec_range_contrib(c, lo + 1, hi),
        ));
    }
}

/// Range totals are well-formed counts.
pub proof fn lemma_range_contrib_wf(c: ChainView, lo: int, hi: int)
    requires
        forall|g: int| lo <= g <= hi ==> block_wf(#[trigger] c.blocks[g]),
    ensures
        totals_wf(spec_range_contrib(c, lo, hi)),
    decreases hi - lo + 1,
{
    if lo <= hi {
        lemma_range_contrib_wf(c, lo, hi - 1);
        crate::accumulate::lemma_block_contrib_wf(
            c.blocks[hi],
            spec_block_resolved(c.transactions, c.blocks[hi]),
        );
        crate::accumulate::lemma_add_totals_wf(
            spec_range_contrib(c, lo, hi - 1),
            spec_chain_block_contrib(c, hi),
        );
    }
}

/// A subrange's totals never exceed the whole range's.
pub proof fn lemma_range_contrib_le(c: ChainView, lo: int, mid: int, hi: int)
    requires
        lo <= mid <= hi + 1,
        forall|g: int| lo <= g <= hi ==> block_wf(#[trigger] c.blocks[g]),
    ensures
        totals_le(spec_range_contrib(c, mid, hi), spec_range_contrib(c, lo, hi)),
    decreases mid - lo,
{
    if mid > lo {
        lemma_range_contrib_le(c, lo + 1, mid, hi);
        if lo <= hi {
            lemma_range_peel_lo(c, lo, hi);
            crate::accumulate::lemma_block_contrib_wf(
                c.blocks[lo],
                spec_block_resolved(c.transactions, c.blocks[lo]),
            );
        }
    }
}

/// Decomposing a walk: while every height strictly between `h` and `j`
/// continues and resolves, the walk from `j` is the walk from `h` plus the
/// contributions of `h+1..=j`.
proof fn lemma_scan_decompose(
    c: ChainView,
    predicate: WindowPredicate,
    tip_height: int,
    reference_timestamp: int,
    j: int,
    h: int,
)
    requires
        0 <= h <= j < c.blocks.len(),
        forall|g: int|
            h < g <= j ==> spec_should_continue(
                predicate,
                tip_height,
                reference_timestamp,
                g,
                (#[trigger] c.blocks[g]).timestamp,
            ) && spec_block_resolvable(c.transactions, c.blocks[g]),
    ensures
        spec_scan_from(c, predicate, tip_height, reference_timestamp, j) == match spec_scan_from(
            c,
            predicate,
            tip_height,
            reference_timestamp,
            h,
        ) {
            Ok(t) => Ok::<StatTotals, QueryError>(add_totals(spec_range_contrib(c, h + 1, j), t)),
            Err(e) => Err::<StatTotals, QueryError>(e),
        },
    decreases j - h,
{
    if j == h {
        match spec_scan_from(c, predicate, tip_height, reference_timestamp, h) {
            Ok(t) => {
                assert(add_totals(spec_range_contrib(c, h + 1, j), t) =~= t);
            },
            Err(_) => {},
        }
    } else {
        lemma_scan_decompose(c, predicate, tip_height, reference_timestamp, j - 1, h);
        match spec_scan_from(c, predicate, tip_height, reference_timestamp, h) {
            Ok(t) => {
                lemma_range_peel_lo(c, h + 1, j);
                assert(add_totals(
                    spec_chain_block_contrib(c, j),
                    add_totals(spec_range_contrib(c, h + 1, j - 1), t),
                ) =~= add_totals(spec_range_contrib(c, h + 1, j), t)) by {
                    lemma_range_split(c, h + 1, j);
                };
            },
            Err(_) => {},
        }
    }
}

/// A range splits at its top: `lo..=hi` is `lo..=hi-1` plus `hi`.
proof fn lemma_range_split(c: ChainView, lo: int, hi: int)
    requires
        lo <= hi,
    ensures
        spec_range_contrib(c, lo, hi) == add_totals(
            spec_range_contrib(c, lo, hi - 1),
            spec_chain_block_contrib(c, hi),
        ),
{
}

/// Run one scan over an in-memory chain: start at the tip, whose timestamp
/// is the window's reference point, and walk downward while the predicate
/// continues, accumulating every visited block. Returns exactly the
/// mathematical scan outcome: the totals of the visited window, or the
/// abort that cut the scan short, with nothing partial.
pub fn scan_chain(chain: &ChainData, tip_height: u64, predicate: &WindowPredicate) -> (outcome:
    Result<AccumulatorState, QueryError>)
    requires
        chain_wf(chain@),
        tip_height < chain.blocks@.len(),
        spec_scan_bounded(chain@, tip_height as int),
    ensures
        match outcome {
            Ok(acc) => spec_scan(chain@, *predicate, tip_height as int) == Ok::<
                StatTotals,
                QueryError,
            >(acc@) && totals_wf(acc@),
            Err(e) => spec_scan(chain@, *predicate, tip_height as int) == Err::<
                StatTotals,
                QueryError,
            >(e),
        },
{
    let ghost c = chain@;
    let block_count = chain.blocks.len();
    assert(tip_height < block_count);
    let reference_timestamp = chain.blocks[tip_height as usize].timestamp;
    proof {
        assert(c.blocks[tip_height as int] == chain.blocks@[tip_height as int]@);
    }
    let mut acc = AccumulatorState::new();
    let mut cursor = tip_height;
    loop
        invariant
            chain_wf(c),
            c == chain@,
            block_count == chain.blocks@.len(),
            tip_height < chain.blocks@.len(),
            spec_scan_bounded(c, tip_height as int),
            0 <= cursor <= tip_height,
            reference_timestamp == c.blocks[tip_height as int].timestamp,
            totals_wf(acc@),
            acc@ == spec_range_contrib(c, cursor as int + 1, tip_height as int),
            forall|g: int|
                cursor < g <= tip_height ==> spec_should_continue(
                    *predicate,
                    tip_height as int,
                    reference_timestamp as int,
                    g,
                    (#[trigger] c.blocks[g]).timestamp,
                ) && spec_block_resolvable(c.transactions, c.blocks[g]),
        decreases cursor,
    {
        let block = &chain.blocks[cursor as usize];
        proof {
            assert(block@ == c.blocks[cursor as int]);
        }
        if !should_continue(predicate, tip_height, reference_timestamp, cursor, block.timestamp) {
            proof {
                lemma_scan_decompose(
                    c,
                    *predicate,
                    tip_height as int,
                    reference_timestamp as int,
                    tip_height as int,
                    cursor as int,
                );
                assert(spec_scan_from(
                    c,
                    *predicate,
                    tip_height as int,
                    reference_timestamp as int,
                    cursor as int,
                ) == Ok::<StatTotals, QueryError>(zero_totals()));
                assert(add_totals(
                    spec_range_contrib(c, cursor as int + 1, tip_height as int),
                    zero_totals(),
                ) =~= acc@);
            }
            return Ok(acc);
        }
        match resolve_block_vins(&chain.transactions, block) {
            Err(e) => {
                proof {
                    lemma_scan_decompose(
                        c,
                        *predicate,
                        tip_height as int,
                        reference_timestamp as int,
                        tip_height as int,
                        cursor as int,
                    );
                }
                return Err(e);
            },
            Ok(addresses) => {
                let ghost before = acc@;
                let ghost added = spec_chain_block_contrib(c, cursor as int);
                let ok = accumulate_block(&mut acc, block, &addresses);
                proof {
                    lemma_range_peel_lo(c, cursor as int, tip_height as int);
                    assert(add_totals(before, added) =~= spec_range_contrib(
                        c,
                        cursor as int,
                        tip_height as int,
                    ));
                    if !ok {
                        lemma_range_contrib_wf(c, cursor as int, tip_height as int);
                        lemma_range_contrib_le(c, 0, cursor as int, tip_height as int);
                        crate::accumulate::lemma_bounded_le(
                            spec_range_contrib(c, cursor as int, tip_height as int),
                            spec_range_contrib(c, 0, tip_height as int),
                        );
                        assert(false);
                    }
                }
                if cursor == 0 {
                    proof {
                        lemma_scan_decompose(
                            c,
                            *predicate,
                            tip_height as int,
                            reference_timestamp as int,
                            tip_height as int,
                            0,
                        );
                    }
                    return Err(QueryError::GenesisReached);
                }
                cursor = cursor - 1;
            },
        }
    }
}

/// The window boundary of a walk from `h` downward: one more than the
/// first height, going down, at which the predicate halts; 0 when it never
/// halts above the genesis block.
pub open spec fn spec_halt_height(
    c: ChainView,
    predicate: WindowPredicate,
    tip_height: int,
    reference_timestamp: int,
    h: int,
) -> int
    decreases h + 1,
{
    if h < 0 {
        0
    } else if !spec_should_continue(
        predicate,
        tip_height,
        reference_timestamp,
        h,
        c.blocks[h].timestamp,
    ) {
        h + 1
    } else {
        spec_halt_height(c, predicate, tip_height, reference_timestamp, h - 1)
    }
}

/// The lowest height a whole scan visits, when it completes.
pub open spec fn spec_scan_halt(c: ChainView, predicate: WindowPredicate, tip_height: int) -> int {
    spec_halt_height(c, predicate, tip_height, c.blocks[tip_height].timestamp, tip_height)
}

proof fn lemma_scan_from_ok_characterization(
    c: ChainView,
    predicate: WindowPredicate,
    tip_height: int,
    reference_timestamp: int,
    h: int,
)
    requires
        0 <= h < c.blocks.len(),
        spec_scan_from(c, predicate, tip_height, reference_timestamp, h) is Ok,
    ensures
        ({
            let lo = spec_halt_height(c, predicate, tip_height, reference_timestamp, h);
            &&& 1 <= lo <= h + 1
            &&& !spec_should_continue(
                predicate,
                tip_height,
                reference_timestamp,
                lo - 1,
                c.blocks[lo - 1].timestamp,
            )
            &&& forall|g: int|
                lo <= g <= h ==> spec_should_continue(
                    predicate,
                    tip_height,
                    reference_timestamp,
                    g,
                    (#[trigger] c.blocks[g]).timestamp,
                ) && spec_block_resolvable(c.transactions, c.blocks[g])
            &&& spec_scan_from(c, predicate, tip_height, reference_timestamp, h) == Ok::<
                StatTotals,
                QueryError,
            >(spec_range_contrib(c, lo, h))
        }),
    decreases h,
{
    let lo = spec_halt_height(c, predicate, tip_height, reference_timestamp, h);
    if !spec_should_continue(predicate, tip_height, reference_timestamp, h, c.blocks[h].timestamp) {
        assert(lo == h + 1);
        assert(spec_range_contrib(c, lo, h) == zero_totals());
    } else {
        assert(h > 0);
        lemma_scan_from_ok_characterization(c, predicate, tip_height, reference_timestamp, h - 1);
        let t = spec_scan_from(c, predicate, tip_height, reference_timestamp, h - 1)->Ok_0;
        assert(t == spec_range_contrib(c, lo, h - 1));
        assert(spec_range_contrib(c, lo, h) == add_totals(
            spec_range_contrib(c, lo, h - 1),
            spec_chain_block_contrib(c, h),
        ));
        assert(add_totals(spec_chain_block_contrib(c, h), t) =~= spec_range_contrib(c, lo, h));
    }
}

/// Law: a scan that completes visits exactly the contiguous window of
/// heights from its halt boundary up to the tip. Every height of the window
/// satisfied the predicate and resolved; the first block below the window
/// is the one the predicate rejected, and nothing below it was visited; the
/// totals are exactly the window's contributions, each visited height
/// counted once, none skipped.
pub proof fn lemma_scan_window(c: ChainView, predicate: WindowPredicate, tip_height: int)
    requires
        chain_wf(c),
        0 <= tip_height < c.blocks.len(),
        spec_scan(c, predicate, tip_height) is Ok,
    ensures
        ({
            let lo = spec_scan_halt(c, predicate, tip_height);
            let reference_timestamp = c.blocks[tip_height].timestamp;
            &&& 1 <= lo <= tip_height + 1
            &&& !spec_should_continue(
                predicate,
                tip_height,
                reference_timestamp,
                lo - 1,
                c.blocks[lo - 1].timestamp,
            )
            &&& forall|g: int|
                lo <= g <= tip_height ==> spec_should_continue(
                    predicate,
                    tip_height,
                    reference_timestamp,
                    g,
                    (#[trigger] c.blocks[g]).timestamp,
                ) && spec_block_resolvable(c.transactions, c.blocks[g])
            &&& spec_scan(c, predicate, tip_height) == Ok::<StatTotals, QueryError>(
                spec_range_contrib(c, lo, tip_height),
            )
            &&& totals_wf(spec_scan(c, predicate, tip_height)->Ok_0)
            &&& totals_le(
                spec_scan(c, predicate, tip_height)->Ok_0,
                spec_range_contrib(c, 0, tip_height),
            )
        }),
{
    lemma_scan_from_ok_characterization(
        c,
        predicate,
        tip_height,
        c.blocks[tip_height].timestamp,
        tip_height,
    );
    let lo = spec_scan_halt(c, predicate, tip_height);
    lemma_range_contrib_wf(c, lo, tip_height);
    lemma_range_contrib_le(c, 0, lo, tip_height);
}

/// The plain arithmetic sum of the fees of blocks `lo..=hi`.
pub open spec fn spec_fee_sum(c: ChainView, lo: int, hi: int) -> int
    decreases hi - lo + 1,
{
    if lo > hi {
        0
    } else {
        spec_fee_sum(c, lo, hi - 1) + c.blocks[hi].total_fee
    }
}

/// The plain arithmetic sum of the subsidies of blocks `lo..=hi`.
pub open spec fn spec_subsidy_sum(c: ChainView, lo: int, hi: int) -> int
    decreases hi - lo + 1,
{
    if lo > hi {
        0
    } else {
        spec_subsidy_sum(c, lo, hi - 1) + c.blocks[hi].subsidy
    }
}

/// Law: a window's totals are the exact arithmetic sums over its heights:
/// one block counted per height, the fee total the sum of the per-block
/// fees, the subsidy total the sum of the per-block subsidies.
pub proof fn lemma_range_contrib_sums(c: ChainView, lo: int, hi: int)
    ensures
        spec_range_contrib(c, lo, hi).blocks_count == (
        if lo <= hi {
            hi - lo + 1
        } else {
            0
        }),
        spec_range_contrib(c, lo, hi).total_fee == spec_fee_sum(c, lo, hi),
        spec_range_contrib(c, lo, hi).total_subsidy == spec_subsidy_sum(c, lo, hi),
    decreases hi - lo + 1,
{
    if lo <= hi {
        lemma_range_contrib_sums(c, lo, hi - 1);
        crate::accumulate::lemma_txs_contrib_block_fields(
            c.blocks[hi].transactions,
            spec_block_resolved(c.transactions, c.blocks[hi]),
        );
    }
}

/// Law: a count window of `count` scans exactly `count + 1` heights, the
/// tip down through `tip_height - count` inclusive, provided the chain
/// reaches below the window and every block of the window resolves.
pub proof fn lemma_count_window_visits(c: ChainView, count: u64, tip_height: int)
    requires
        chain_wf(c),
        0 <= tip_height < c.blocks.len(),
        count + 1 <= tip_height,
        forall|g: int|
            tip_height - count <= g <= tip_height ==> spec_block_resolvable(
                c.transactions,
                #[trigger] c.blocks[g],
            ),
    ensures
        spec_scan(c, WindowPredicate::CountWindow { count }, tip_height) == Ok::<
            StatTotals,
            QueryError,
        >(spec_range_contrib(c, tip_height - count, tip_height)),
        spec_scan(c, WindowPredicate::CountWindow { count }, tip_height)->Ok_0.blocks_count == count
            + 1,
{
    let predicate = WindowPredicate::CountWindow { count };
    let reference_timestamp = c.blocks[tip_height].timestamp;
    let lo = tip_height - count;
    assert(spec_scan_from(c, predicate, tip_height, reference_timestamp, lo - 1) == Ok::<
        StatTotals,
        QueryError,
    >(zero_totals()));
    lemma_scan_decompose(c, predicate, tip_height, reference_timestamp, tip_height, lo - 1);
    assert(add_totals(spec_range_contrib(c, lo, tip_height), zero_totals()) =~= spec_range_contrib(
        c,
        lo,
        tip_height,
    ));
    lemma_range_contrib_sums(c, lo, tip_height);
}

/// Law: with a time window, the scan visits exactly the blocks whose
/// timestamps lie within the window of the tip's timestamp — a block
/// exactly on the cutoff included — and the first strictly older block
/// below them is excluded, along with everything beneath it.
pub proof fn lemma_time_window_boundary(
    c: ChainView,
    duration_seconds: u64,
    tip_height: int,
    lo: int,
)
    requires
        chain_wf(c),
        0 <= tip_height < c.blocks.len(),
        1 <= lo <= tip_height,
        forall|g: int|
            lo <= g <= tip_height ==> (#[trigger] c.blocks[g]).timestamp >= c.blocks[tip_height].timestamp - duration_seconds && spec_block_resolvable(c.transactions, c.blocks[g]),
        c.blocks[lo - 1].timestamp < c.blocks[tip_height].timestamp - duration_seconds,
    ensures
        spec_scan(c, WindowPredicate::TimeWindow { duration_seconds }, tip_height) == Ok::<
            StatTotals,
            QueryError,
        >(spec_range_contrib(c, lo, tip_height)),
{
    let predicate = WindowPredicate::TimeWindow { duration_seconds };
    let reference_timestamp = c.blocks[tip_height].timestamp;
    assert(spec_scan_from(c, predicate, tip_height, reference_timestamp, lo - 1) == Ok::<
        StatTotals,
        QueryError,
    >(zero_totals()));
    lemma_scan_decompose(c, predicate, tip_height, reference_timestamp, tip_height, lo - 1);
    assert(add_totals(spec_range_contrib(c, lo, tip_height), zero_totals()) =~= spec_range_contrib(
        c,
        lo,
        tip_height,
    ));
}

/// No transaction of the window's blocks shows segwit under any heuristic.
pub open spec fn spec_window_all_non_segwit(c: ChainView, lo: int, hi: int) -> bool {
    forall|g: int, i: int|
        lo <= g <= hi && 0 <= i < c.blocks[g].transactions.len() && !(#[trigger] c.blocks[g].transactions[i]).is_coinbase ==> {
            &&& !crate::classify::hex_marks_segwit(c.blocks[g].transactions[i].raw_hex)
            &&& !crate::classify::spec_tx_vout_segwit(c.blocks[g].transactions[i])
            &&& !crate::classify::spec_any_resolved_segwit(
                spec_tx_resolved(c.transactions, c.blocks[g].transactions[i]),
            )
        }
}

/// Every transaction of the window's blocks shows segwit under all three
/// heuristics.
pub open spec fn spec_window_all_segwit(c: ChainView, lo: int, hi: int) -> bool {
    forall|g: int, i: int|
        lo <= g <= hi && 0 <= i < c.blocks[g].transactions.len() && !(#[trigger] c.blocks[g].transactions[i]).is_coinbase ==> {
            &&& crate::classify::hex_marks_segwit(c.blocks[g].transactions[i].raw_hex)
            &&& crate::classify::spec_tx_vout_segwit(c.blocks[g].transactions[i])
            &&& crate::classify::spec_any_resolved_segwit(
                spec_tx_resolved(c.transactions, c.blocks[g].transactions[i]),
            )
        }
}

/// Law: a window with no segwit transaction under any heuristic leaves all
/// five segwit numerators at zero, so all five ratios are 0.
pub proof fn lemma_window_all_non_segwit(c: ChainView, lo: int, hi: int)
    requires
        spec_window_all_non_segwit(c, lo, hi),
    ensures
        spec_range_contrib(c, lo, hi).hex_segwit_tx_count == 0,
        spec_range_contrib(c, lo, hi).vout_segwit_tx_count == 0,
        spec_range_contrib(c, lo, hi).vin_segwit_tx_count == 0,
        spec_range_contrib(c, lo, hi).combined_segwit_tx_count == 0,
        spec_range_contrib(c, lo, hi).vin_segwit_payment_count == 0,
    decreases hi - lo + 1,
{
    if lo <= hi {
        lemma_window_all_non_segwit(c, lo, hi - 1);
        let b = c.blocks[hi];
        let addresses = spec_block_resolved(c.transactions, b);
        assert forall|i: int|
            0 <= i < b.transactions.len() && !(#[trigger] b.transactions[i]).is_coinbase implies {
            &&& !crate::classify::hex_marks_segwit(b.transactions[i].raw_hex)
            &&& !crate::classify::spec_tx_vout_segwit(b.transactions[i])
            &&& !crate::classify::spec_any_resolved_segwit(addresses[i])
        } by {
            assert(addresses[i] == spec_tx_resolved(c.transactions, b.transactions[i]));
        };
        crate::accumulate::lemma_txs_contrib_all_non_segwit(b.transactions, addresses);
    }
}

/// Law: a window in which every transaction is segwit under all three
/// heuristics has every segwit numerator equal to its denominator, so all
/// five ratios are 1.
pub proof fn lemma_window_all_segwit(c: ChainView, lo: int, hi: int)
    requires
        spec_window_all_segwit(c, lo, hi),
    ensures
        spec_range_contrib(c, lo, hi).hex_segwit_tx_count == spec_range_contrib(c, lo, hi).tx_count,
        spec_range_contrib(c, lo, hi).vout_segwit_tx_count == spec_range_contrib(
            c,
            lo,
            hi,
        ).tx_count,
        spec_range_contrib(c, lo, hi).vin_segwit_tx_count == spec_range_contrib(c, lo, hi).tx_count,
        spec_range_contrib(c, lo, hi).combined_segwit_tx_count == spec_range_contrib(
            c,
            lo,
            hi,
        ).tx_count,
        spec_range_contrib(c, lo, hi).vin_segwit_payment_count == spec_range_contrib(
            c,
            lo,
            hi,
        ).payment_count,
    decreases hi - lo + 1,
{
    if lo <= hi {
        lemma_window_all_segwit(c, lo, hi - 1);
        let b = c.blocks[hi];
        let addresses = spec_block_resolved(c.transactions, b);
        assert forall|i: int|
            0 <= i < b.transactions.len() && !(#[trigger] b.transactions[i]).is_coinbase implies {
            &&& crate::classify::hex_marks_segwit(b.transactions[i].raw_hex)
            &&& crate::classify::spec_tx_vout_segwit(b.transactions[i])
            &&& crate::classify::spec_any_resolved_segwit(addresses[i])
        } by {
            assert(addresses[i] == spec_tx_resolved(c.transactions, b.transactions[i]));
        };
        crate::accumulate::lemma_txs_contrib_all_segwit(b.transactions, addresses);
    }
}

/// Law: a completed scan always visited the tip itself, so a completed
/// window is never empty of blocks.
pub proof fn lemma_scan_visits_tip(c: ChainView, predicate: WindowPredicate, tip_height: int)
    requires
        chain_wf(c),
        0 <= tip_height < c.blocks.len(),
        spec_scan(c, predicate, tip_height) is Ok,
    ensures
        spec_scan(c, predicate, tip_height)->Ok_0.blocks_count >= 1,
{
    lemma_scan_window(c, predicate, tip_height);
    let lo = spec_scan_halt(c, predicate, tip_height);
    crate::window::lemma_tip_always_continues(
        predicate,
        tip_height,
        c.blocks[tip_height].timestamp,
    );
    assert(lo <= tip_height);
    lemma_range_contrib_sums(c, lo, tip_height);
}


/// A scan itself never reports an empty window: its aborts are only
/// `ProviderError` and `GenesisReached`.
pub proof fn lemma_scan_no_empty_window(
    c: ChainView,
    predicate: WindowPredicate,
    tip_height: int,
)
    ensures
        spec_scan(c, predicate, tip_height) != Err::<StatTotals, QueryError>(
            QueryError::EmptyWindowError,
        ),
{
    lemma_scan_from_no_empty_window(
        c,
        predicate,
        tip_height,
        c.blocks[tip_height].timestamp,
        tip_height,
    );
}

proof fn lemma_scan_from_no_empty_window(
    c: ChainView,
    predicate: WindowPredicate,
    tip_height: int,
    reference_timestamp: int,
    h: int,
)
    ensures
        spec_scan_from(c, predicate, tip_height, reference_timestamp, h) != Err::<
            StatTotals,
            QueryError,
        >(QueryError::EmptyWindowError),
    decreases h,
{
    if h > 0 && spec_should_continue(
        predicate,
        tip_height,
        reference_timestamp,
        h,
        c.blocks[h].timestamp,
    ) && spec_block_resolvable(c.transactions, c.blocks[h]) {
        lemma_scan_from_no_empty_window(c, predicate, tip_height, reference_timestamp, h - 1);
    }
}

} // verus!