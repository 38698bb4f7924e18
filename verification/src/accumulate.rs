//! Running totals of a scan, and how one block contributes to them.
//!
//! The mathematical model is `StatTotals`: the per-window sums that the
//! metrics are computed from. A block contributes its fee, its subsidy, one
//! block, and one classified record per non-coinbase transaction; the spec
//! functions here fold those contributions over a block's transactions.
//! `AccumulatorState` is the executable counterpart, with every addition
//! checked against overflow.

use vstd::prelude::*;
use crate::classify::{
    addrs_view, classify_transaction, hex_marks_segwit, spec_adjusted_payment_count,
    spec_any_resolved_segwit, spec_tx_vout_segwit, TxClass,
};
use crate::types::{BlockSnapshot, BlockView, TxView};

verus! {

/// The totals a scan accumulates, as unbounded integers.
#[verifier::ext_equal]
pub struct StatTotals {
    pub blocks_count: int,
    pub total_fee: int,
    pub total_subsidy: int,
    /// Non-coinbase transactions visited: the denominator of four of the
    /// five segwit ratios.
    pub tx_count: int,
    pub hex_segwit_tx_count: int,
    pub vout_segwit_tx_count: int,
    pub vin_segwit_tx_count: int,
    pub combined_segwit_tx_count: int,
    /// Change-adjusted payment count over all non-coinbase transactions:
    /// the denominator of the payments ratio.
    pub payment_count: int,
    pub vin_segwit_payment_count: int,
}

pub open spec fn zero_totals() -> StatTotals {
    StatTotals {
        blocks_count: 0,
        total_fee: 0,
        total_subsidy: 0,
        tx_count: 0,
        hex_segwit_tx_count: 0,
        vout_segwit_tx_count: 0,
        vin_segwit_tx_count: 0,
        combined_segwit_tx_count: 0,
        payment_count: 0,
        vin_segwit_payment_count: 0,
    }
}

pub open spec fn add_totals(a: StatTotals, b: StatTotals) -> StatTotals {
    StatTotals {
        blocks_count: a.blocks_count + b.blocks_count,
        total_fee: a.total_fee + b.total_fee,
        total_subsidy: a.total_subsidy + b.total_subsidy,
        tx_count: a.tx_count + b.tx_count,
        hex_segwit_tx_count: a.hex_segwit_tx_count + b.hex_segwit_tx_count,
        vout_segwit_tx_count: a.vout_segwit_tx_count + b.vout_segwit_tx_count,
        vin_segwit_tx_count: a.vin_segwit_tx_count + b.vin_segwit_tx_count,
        combined_segwit_tx_count: a.combined_segwit_tx_count + b.combined_segwit_tx_count,
        payment_count: a.payment_count + b.payment_count,
        vin_segwit_payment_count: a.vin_segwit_payment_count + b.vin_segwit_payment_count,
    }
}

pub open spec fn totals_le(a: StatTotals, b: StatTotals) -> bool {
    &&& a.blocks_count <= b.blocks_count
    &&& a.total_fee <= b.total_fee
    &&& a.total_subsidy <= b.total_subsidy
    &&& a.tx_count <= b.tx_count
    &&& a.hex_segwit_tx_count <= b.hex_segwit_tx_count
    &&& a.vout_segwit_tx_count <= b.vout_segwit_tx_count
    &&& a.vin_segwit_tx_count <= b.vin_segwit_tx_count
    &&& a.combined_segwit_tx_count <= b.combined_segwit_tx_count
    &&& a.payment_count <= b.payment_count
    &&& a.vin_segwit_payment_count <= b.vin_segwit_payment_count
}

/// Totals are well-formed when every counter is a count: non-negative, each
/// per-heuristic numerator at most its denominator.
pub open spec fn totals_wf(t: StatTotals) -> bool {
    &&& 0 <= t.blocks_count
    &&& 0 <= t.total_fee
    &&& 0 <= t.total_subsidy
    &&& 0 <= t.tx_count
    &&& 0 <= t.hex_segwit_tx_count <= t.tx_count
    &&& 0 <= t.vout_segwit_tx_count <= t.tx_count
    &&& 0 <= t.vin_segwit_tx_count <= t.tx_count
    &&& 0 <= t.combined_segwit_tx_count <= t.tx_count
    &&& 0 <= t.payment_count
    &&& 0 <= t.vin_segwit_payment_count <= t.payment_count
}

/// The sums that the executable accumulator can hold. The remaining
/// counters are covered through `totals_wf`: each is bounded by one of
/// these.
pub open spec fn totals_bounded(t: StatTotals) -> bool {
    &&& t.blocks_count <= u64::MAX
    &&& t.total_fee + t.total_subsidy <= u64::MAX
    &&& t.tx_count <= u64::MAX
    &&& t.payment_count <= u64::MAX
}

pub open spec fn b2i(b: bool) -> int {
    if b {
        1
    } else {
        0
    }
}

/// What one classified non-coinbase transaction adds to the totals.
pub open spec fn spec_class_contrib(class: TxClass) -> StatTotals {
    StatTotals {
        blocks_count: 0,
        total_fee: 0,
        total_subsidy: 0,
        tx_count: 1,
        hex_segwit_tx_count: b2i(class.hex_segwit),
        vout_segwit_tx_count: b2i(class.vout_segwit),
        vin_segwit_tx_count: b2i(class.vin_segwit),
        combined_segwit_tx_count: b2i(class.vout_segwit || class.vin_segwit),
        payment_count: class.payment_count as int,
        vin_segwit_payment_count: if class.vin_segwit {
            class.payment_count as int
        } else {
            0
        },
    }
}

/// What one transaction adds to the totals: nothing for the coinbase, one
/// classified record otherwise. `addresses` resolves the transaction's
/// inputs, in order.
pub open spec fn spec_tx_contrib(tx: TxView, addresses: Seq<Option<Seq<char>>>) -> StatTotals {
    if tx.is_coinbase {
        zero_totals()
    } else {
        StatTotals {
            blocks_count: 0,
            total_fee: 0,
            total_subsidy: 0,
            tx_count: 1,
            hex_segwit_tx_count: b2i(hex_marks_segwit(tx.raw_hex)),
            vout_segwit_tx_count: b2i(spec_tx_vout_segwit(tx)),
            vin_segwit_tx_count: b2i(spec_any_resolved_segwit(addresses)),
            combined_segwit_tx_count: b2i(
                spec_tx_vout_segwit(tx) || spec_any_resolved_segwit(addresses),
            ),
            payment_count: spec_adjusted_payment_count(tx.vout.len()) as int,
            vin_segwit_payment_count: if spec_any_resolved_segwit(addresses) {
                spec_adjusted_payment_count(tx.vout.len()) as int
            } else {
                0
            },
        }
    }
}

/// The fold of `spec_tx_contrib` over a block's transactions, each with its
/// own resolved input addresses.
pub open spec fn spec_txs_contrib(
    txs: Seq<TxView>,
    addresses: Seq<Seq<Option<Seq<char>>>>,
) -> StatTotals
    recommends
        txs.len() == addresses.len(),
    decreases txs.len(),
{
    if txs.len() == 0 {
        zero_totals()
    } else {
        add_totals(
            spec_txs_contrib(txs.drop_last(), addresses.drop_last()),
            spec_tx_contrib(txs.last(), addresses.last()),
        )
    }
}

/// The block-level part of a block's contribution: one block, its fee, its
/// subsidy.
pub open spec fn spec_block_base(block: BlockView) -> StatTotals {
    StatTotals {
        blocks_count: 1,
        total_fee: block.total_fee,
        total_subsidy: block.subsidy,
        tx_count: 0,
        hex_segwit_tx_count: 0,
        vout_segwit_tx_count: 0,
        vin_segwit_tx_count: 0,
        combined_segwit_tx_count: 0,
        payment_count: 0,
        vin_segwit_payment_count: 0,
    }
}

/// Everything one visited block adds to a scan's totals.
pub open spec fn spec_block_contrib(
    block: BlockView,
    addresses: Seq<Seq<Option<Seq<char>>>>,
) -> StatTotals {
    add_totals(spec_block_base(block), spec_txs_contrib(block.transactions, addresses))
}

/// A transaction the classifier can take: the raw hex of a non-coinbase
/// transaction is long enough to carry a marker byte (shorter ones are not
/// valid transaction encodings).
pub open spec fn tx_wf(tx: TxView) -> bool {
    !tx.is_coinbase ==> tx.raw_hex.len() >= 10
}

pub open spec fn block_wf(block: BlockView) -> bool {
    &&& 0 <= block.total_fee
    &&& 0 <= block.subsidy
    &&& forall|i: int| 0 <= i < block.transactions.len() ==> tx_wf(#[trigger] block.transactions[i])
}

/// The views of each transaction's resolved-address list.
pub open spec fn block_addrs_view(
    addresses: Seq<Vec<Option<String>>>,
) -> Seq<Seq<Option<Seq<char>>>> {
    addresses.map_values(|a: Vec<Option<String>>| addrs_view(a@))
}

pub proof fn lemma_tx_contrib_wf(tx: TxView, addresses: Seq<Option<Seq<char>>>)
    ensures
        totals_wf(spec_tx_contrib(tx, addresses)),
        totals_le(zero_totals(), spec_tx_contrib(tx, addresses)),
{
}

pub proof fn lemma_add_totals_wf(a: StatTotals, b: StatTotals)
    requires
        totals_wf(a),
        totals_wf(b),
    ensures
        totals_wf(add_totals(a, b)),
        totals_le(a, add_totals(a, b)),
        totals_le(b, add_totals(a, b)),
{
}

pub proof fn lemma_txs_contrib_wf(txs: Seq<TxView>, addresses: Seq<Seq<Option<Seq<char>>>>)
    ensures
        totals_wf(spec_txs_contrib(txs, addresses)),
    decreases txs.len(),
{
    if txs.len() > 0 {
        lemma_txs_contrib_wf(txs.drop_last(), addresses.drop_last());
        lemma_tx_contrib_wf(txs.last(), addresses.last());
        lemma_add_totals_wf(
            spec_txs_contrib(txs.drop_last(), addresses.drop_last()),
            spec_tx_contrib(txs.last(), addresses.last()),
        );
    }
}

pub proof fn lemma_block_contrib_wf(block: BlockView, addresses: Seq<Seq<Option<Seq<char>>>>)
    requires
        block_wf(block),
    ensures
        totals_wf(spec_block_contrib(block, addresses)),
        totals_le(zero_totals(), spec_block_contrib(block, addresses)),
{
    lemma_txs_contrib_wf(block.transactions, addresses);
}

/// Extending the fold by one transaction adds that transaction's
/// contribution.
pub proof fn lemma_txs_contrib_step(
    txs: Seq<TxView>,
    addresses: Seq<Seq<Option<Seq<char>>>>,
    i: int,
)
    requires
        txs.len() == addresses.len(),
        0 <= i < txs.len(),
    ensures
        spec_txs_contrib(txs.take(i + 1), addresses.take(i + 1)) == add_totals(
            spec_txs_contrib(txs.take(i), addresses.take(i)),
            spec_tx_contrib(txs[i], addresses[i]),
        ),
{
    assert(txs.take(i + 1).drop_last() =~= txs.take(i));
    assert(addresses.take(i + 1).drop_last() =~= addresses.take(i));
    assert(txs.take(i + 1).last() == txs[i]);
}

/// A prefix of the fold never exceeds the whole fold.
pub proof fn lemma_txs_contrib_prefix_le(
    txs: Seq<TxView>,
    addresses: Seq<Seq<Option<Seq<char>>>>,
    i: int,
)
    requires
        txs.len() == addresses.len(),
        0 <= i <= txs.len(),
    ensures
        totals_le(
            spec_txs_contrib(txs.take(i), addresses.take(i)),
            spec_txs_contrib(txs, addresses),
        ),
    decreases txs.len() - i,
{
    if i == txs.len() {
        assert(txs.take(i) =~= txs);
        assert(addresses.take(i) =~= addresses);
    } else {
        lemma_txs_contrib_step(txs, addresses, i);
        lemma_tx_contrib_wf(txs[i], addresses[i]);
        lemma_txs_contrib_prefix_le(txs, addresses, i + 1);
    }
}

/// Transactions contribute nothing to the block-level sums.
pub proof fn lemma_txs_contrib_block_fields(txs: Seq<TxView>, addresses: Seq<Seq<Option<Seq<char>>>>)
    ensures
        spec_txs_contrib(txs, addresses).blocks_count == 0,
        spec_txs_contrib(txs, addresses).total_fee == 0,
        spec_txs_contrib(txs, addresses).total_subsidy == 0,
    decreases txs.len(),
{
    if txs.len() > 0 {
        lemma_txs_contrib_block_fields(txs.drop_last(), addresses.drop_last());
    }
}

/// Over transactions none of which any heuristic flags as segwit, every
/// segwit numerator of the fold stays zero.
pub proof fn lemma_txs_contrib_all_non_segwit(
    txs: Seq<TxView>,
    addresses: Seq<Seq<Option<Seq<char>>>>,
)
    requires
        txs.len() == addresses.len(),
        forall|i: int|
            0 <= i < txs.len() && !(#[trigger] txs[i]).is_coinbase ==> !hex_marks_segwit(
                txs[i].raw_hex,
            ) && !spec_tx_vout_segwit(txs[i]) && !spec_any_resolved_segwit(addresses[i]),
    ensures
        spec_txs_contrib(txs, addresses).hex_segwit_tx_count == 0,
        spec_txs_contrib(txs, addresses).vout_segwit_tx_count == 0,
        spec_txs_contrib(txs, addresses).vin_segwit_tx_count == 0,
        spec_txs_contrib(txs, addresses).combined_segwit_tx_count == 0,
        spec_txs_contrib(txs, addresses).vin_segwit_payment_count == 0,
    decreases txs.len(),
{
    if txs.len() > 0 {
        assert(txs[txs.len() - 1] == txs.last());
        lemma_txs_contrib_all_non_segwit(txs.drop_last(), addresses.drop_last());
    }
}

/// Over transactions every one of which all three heuristics flag as
/// segwit, every segwit numerator of the fold equals its denominator.
pub proof fn lemma_txs_contrib_all_segwit(txs: Seq<TxView>, addresses: Seq<Seq<Option<Seq<char>>>>)
    requires
        txs.len() == addresses.len(),
        forall|i: int|
            0 <= i < txs.len() && !(#[trigger] txs[i]).is_coinbase ==> hex_marks_segwit(
                txs[i].raw_hex,
            ) && spec_tx_vout_segwit(txs[i]) && spec_any_resolved_segwit(addresses[i]),
    ensures
        spec_txs_contrib(txs, addresses).hex_segwit_tx_count == spec_txs_contrib(
            txs,
            addresses,
        ).tx_count,
        spec_txs_contrib(txs, addresses).vout_segwit_tx_count == spec_txs_contrib(
            txs,
            addresses,
        ).tx_count,
        spec_txs_contrib(txs, addresses).vin_segwit_tx_count == spec_txs_contrib(
            txs,
            addresses,
        ).tx_count,
        spec_txs_contrib(txs, addresses).combined_segwit_tx_count == spec_txs_contrib(
            txs,
            addresses,
        ).tx_count,
        spec_txs_contrib(txs, addresses).vin_segwit_payment_count == spec_txs_contrib(
            txs,
            addresses,
        ).payment_count,
    decreases txs.len(),
{
    if txs.len() > 0 {
        assert(txs[txs.len() - 1] == txs.last());
        lemma_txs_contrib_all_segwit(txs.drop_last(), addresses.drop_last());
    }
}

/// Anything at most a bounded total is itself bounded.
pub proof fn lemma_bounded_le(a: StatTotals, b: StatTotals)
    requires
        totals_le(a, b),
        totals_bounded(b),
        totals_wf(a),
    ensures
        totals_bounded(a),
{
}

/// The running state of one scan: the executable counters behind
/// `StatTotals`. Owned by a single scan; contributions only ever grow it.
#[derive(Clone, Copy, PartialEq, Eq, Structural, Debug)]
pub struct AccumulatorState {
    pub blocks_count: u64,
    pub total_fee: u64,
    pub total_subsidy: u64,
    pub tx_count: u64,
    pub hex_segwit_tx_count: u64,
    pub vout_segwit_tx_count: u64,
    pub vin_segwit_tx_count: u64,
    pub combined_segwit_tx_count: u64,
    pub payment_count: u64,
    pub vin_segwit_payment_count: u64,
}

impl View for AccumulatorState {
    type V = StatTotals;

    open spec fn view(&self) -> StatTotals {
        StatTotals {
            blocks_count: self.blocks_count as int,
            total_fee: self.total_fee as int,
            total_subsidy: self.total_subsidy as int,
            tx_count: self.tx_count as int,
            hex_segwit_tx_count: self.hex_segwit_tx_count as int,
            vout_segwit_tx_count: self.vout_segwit_tx_count as int,
            vin_segwit_tx_count: self.vin_segwit_tx_count as int,
            combined_segwit_tx_count: self.combined_segwit_tx_count as int,
            payment_count: self.payment_count as int,
            vin_segwit_payment_count: self.vin_segwit_payment_count as int,
        }
    }
}

impl AccumulatorState {
    pub fn new() -> (acc: AccumulatorState)
        ensures
            acc@ == zero_totals(),
    {
        AccumulatorState {
            blocks_count: 0,
            total_fee: 0,
            total_subsidy: 0,
            tx_count: 0,
            hex_segwit_tx_count: 0,
            vout_segwit_tx_count: 0,
            vin_segwit_tx_count: 0,
            combined_segwit_tx_count: 0,
            payment_count: 0,
            vin_segwit_payment_count: 0,
        }
    }

    /// Add one classified non-coinbase transaction. Fails, leaving the
    /// state unchanged, exactly when the grown totals would no longer fit.
    fn accumulate_class(&mut self, class: &TxClass) -> (ok: bool)
        requires
            totals_wf(old(self)@),
        ensures
            ok ==> final(self)@ == add_totals(old(self)@, spec_class_contrib(*class)) && totals_wf(
                final(self)@,
            ),
            !ok ==> final(self)@ == old(self)@ && !totals_bounded(
                add_totals(old(self)@, spec_class_contrib(*class)),
            ),
    {
        if self.tx_count < u64::MAX && class.payment_count <= u64::MAX - self.payment_count {
            self.tx_count = self.tx_count + 1;
            if class.hex_segwit {
                self.hex_segwit_tx_count = self.hex_segwit_tx_count + 1;
            }
            if class.vout_segwit {
                self.vout_segwit_tx_count = self.vout_segwit_tx_count + 1;
            }
            if class.vin_segwit {
                self.vin_segwit_tx_count = self.vin_segwit_tx_count + 1;
            }
            if class.vout_segwit || class.vin_segwit {
                self.combined_segwit_tx_count = self.combined_segwit_tx_count + 1;
            }
            self.payment_count = self.payment_count + class.payment_count;
            if class.vin_segwit {
                self.vin_segwit_payment_count = self.vin_segwit_payment_count
                    + class.payment_count;
            }
            true
        } else {
            false
        }
    }

    /// Add the block-level sums: one block, its fee, its subsidy. Fails,
    /// leaving the state unchanged, exactly when they would no longer fit.
    fn accumulate_block_base(&mut self, block: &BlockSnapshot) -> (ok: bool)
        ensures
            ok ==> final(self)@ == add_totals(old(self)@, spec_block_base(block@)),
            !ok ==> final(self)@ == old(self)@ && !totals_bounded(
                add_totals(old(self)@, spec_block_base(block@)),
            ),
    {
        if self.blocks_count < u64::MAX && block.total_fee <= u64::MAX - self.total_fee
            && block.subsidy <= u64::MAX - self.total_subsidy && self.total_fee + block.total_fee
            <= u64::MAX - (self.total_subsidy + block.subsidy) {
            self.blocks_count = self.blocks_count + 1;
            self.total_fee = self.total_fee + block.total_fee;
            self.total_subsidy = self.total_subsidy + block.subsidy;
            true
        } else {
            false
        }
    }
}

/// Feed one visited block to the accumulator: its fee, subsidy and block
/// count, and one classified record per non-coinbase transaction, with
/// `vin_addresses[i]` resolving the inputs of transaction `i`. On success
/// the state has grown by exactly the block's contribution; when the grown
/// totals would not fit in the counters, the state is left as it was.
pub fn accumulate_block(
    acc: &mut AccumulatorState,
    block: &BlockSnapshot,
    vin_addresses: &Vec<Vec<Option<String>>>,
) -> (ok: bool)
    requires
        totals_wf(old(acc)@),
        block_wf(block@),
        vin_addresses@.len() == block.transactions@.len(),
    ensures
        ok ==> final(acc)@ == add_totals(
            old(acc)@,
            spec_block_contrib(block@, block_addrs_view(vin_addresses@)),
        ) && totals_wf(final(acc)@),
        !ok ==> final(acc)@ == old(acc)@ && !totals_bounded(
            add_totals(old(acc)@, spec_block_contrib(block@, block_addrs_view(vin_addresses@))),
        ),
{
    let ghost addresses = block_addrs_view(vin_addresses@);
    let ghost txs = block@.transactions;
    let mut work = *acc;
    if !work.accumulate_block_base(block) {
        proof {
            lemma_txs_contrib_wf(txs, addresses);
            lemma_bounded_failure_base(old(acc)@, block@, addresses);
        }
        return false;
    }
    let n = block.transactions.len();
    for i in 0..n
        invariant
            n == block.transactions.len(),
            vin_addresses@.len() == n,
            txs == block@.transactions,
            addresses == block_addrs_view(vin_addresses@),
            txs.len() == n,
            addresses.len() == n,
            block_wf(block@),
            totals_wf(old(acc)@),
            totals_wf(work@),
            work@ == add_totals(
                old(acc)@,
                add_totals(
                    spec_block_base(block@),
                    spec_txs_contrib(txs.take(i as int), addresses.take(i as int)),
                ),
            ),
    {
        let tx = &block.transactions[i];
        proof {
            assert(txs[i as int] == tx@);
            assert(addresses[i as int] == addrs_view(vin_addresses@[i as int]@));
        }
        if !tx.is_coinbase {
            assert(tx_wf(txs[i as int]));
            let class = classify_transaction(tx, &vin_addresses[i]);
            let ok = work.accumulate_class(&class);
            proof {
                assert(spec_class_contrib(class) =~= spec_tx_contrib(
                    txs[i as int],
                    addresses[i as int],
                ));
            }
            if !ok {
                proof {
                    lemma_bounded_failure_tx(old(acc)@, block@, addresses, i as int);
                }
                return false;
            }
        }
        proof {
            lemma_txs_contrib_step(txs, addresses, i as int);
            if tx.is_coinbase {
                assert(spec_tx_contrib(txs[i as int], addresses[i as int]) == zero_totals());
            }
            assert(work@ =~= add_totals(
                old(acc)@,
                add_totals(
                    spec_block_base(block@),
                    spec_txs_contrib(txs.take(i + 1 as int), addresses.take(i + 1 as int)),
                ),
            ));
        }
    }
    proof {
        assert(txs.take(n as int) =~= txs);
        assert(addresses.take(n as int) =~= addresses);
        assert(work@ =~= add_totals(
            old(acc)@,
            spec_block_contrib(block@, block_addrs_view(vin_addresses@)),
        ));
    }
    *acc = work;
    true
}

/// If the block-level sums alone overflow, the whole contribution does.
proof fn lemma_bounded_failure_base(
    start: StatTotals,
    block: BlockView,
    addresses: Seq<Seq<Option<Seq<char>>>>,
)
    requires
        totals_wf(start),
        block_wf(block),
        !totals_bounded(add_totals(start, spec_block_base(block))),
    ensures
        !totals_bounded(add_totals(start, spec_block_contrib(block, addresses))),
{
    lemma_txs_contrib_wf(block.transactions, addresses);
}

/// If the fold overflows after some prefix of the transactions, the whole
/// contribution does.
proof fn lemma_bounded_failure_tx(
    start: StatTotals,
    block: BlockView,
    addresses: Seq<Seq<Option<Seq<char>>>>,
    i: int,
)
    requires
        totals_wf(start),
        block_wf(block),
        block.transactions.len() == addresses.len(),
        0 <= i < block.transactions.len(),
        !totals_bounded(
            add_totals(
                add_totals(
                    start,
                    add_totals(
                        spec_block_base(block),
                        spec_txs_contrib(
                            block.transactions.take(i),
                            addresses.take(i),
                        ),
                    ),
                ),
                spec_tx_contrib(block.transactions[i], addresses[i]),
            ),
        ),
    ensures
        !totals_bounded(add_totals(start, spec_block_contrib(block, addresses))),
{
    lemma_txs_contrib_step(block.transactions, addresses, i);
    lemma_txs_contrib_prefix_le(block.transactions, addresses, i + 1);
}

} // verus!
