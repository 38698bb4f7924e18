//! Per-transaction segregated-witness classification.
//!
//! Three independent heuristics, applied to each non-coinbase transaction of
//! a visited block:
//! - the hex heuristic reads the raw transaction encoding's marker byte;
//! - the vout heuristic asks whether any output's resolved address is a
//!   segwit-v0 address;
//! - the vin heuristic asks the same of the addresses behind the outputs
//!   that the transaction spends (resolved by the caller, one optional
//!   address per input).
//!
//! An absent or unresolvable address always counts as not-segwit; it never
//! aborts a scan.

use vstd::prelude::*;
use crate::types::{opt_string_view, TransactionRecord, TxView, Vout};

verus! {

/// Whether an address string carries one of the bech32 prefixes of a
/// version-0 witness program: "bc1q" on mainnet, "tb1q" on testnet.
pub open spec fn addr_has_segwit_v0_prefix(s: Seq<char>) -> bool {
    s.len() >= 4 && ((s[0] == 'b' && s[1] == 'c') || (s[0] == 't' && s[1] == 'b')) && s[2] == '1'
        && s[3] == 'q'
}

/// A pay-to-script-hash address: Base58Check length with a "2" or "3"
/// leading symbol. Wrapped-segwit spends hide behind such addresses, which
/// is why the classifier counts them as segwit v0.
pub open spec fn addr_is_p2sh(s: Seq<char>) -> bool {
    (s.len() == 34 || s.len() == 35) && (s[0] == '2' || s[0] == '3')
}

/// A native segwit-v0 address: a bech32 "bc1q"/"tb1q" prefix with the
/// length of either a pubkey-hash (42) or a script-hash (62) program.
pub open spec fn addr_is_segwit_native(s: Seq<char>) -> bool {
    (s.len() == 42 || s.len() == 62) && addr_has_segwit_v0_prefix(s)
}

/// What the address classifier reports as segwit v0: a native witness
/// program, or a P2SH address that may wrap one.
pub open spec fn addr_is_segwit_v0(s: Seq<char>) -> bool {
    addr_is_segwit_native(s) || addr_is_p2sh(s)
}

/// Whether a raw transaction hex encoding carries the segwit marker: its
/// fifth byte, characters 8 and 9, is "00".
pub open spec fn hex_marks_segwit(s: Seq<char>) -> bool
    recommends
        s.len() >= 10,
{
    s[8] == '0' && s[9] == '0'
}

/// Relies on bitcoin_address::is_segwit_v0: an address is segwit v0 iff it
/// is bech32 "bc1q"/"tb1q"-prefixed of length 42 or 62 (is_segwit_native),
/// or "2"/"3"-prefixed of length 34 or 35 (is_p2sh). Lengths count
/// characters.
#[verifier::external_body]
fn address_is_segwit_v0(address: &String) -> (segwit: bool)
    ensures
        segwit == addr_is_segwit_v0(address@),
{
    bitcoin_address::is_segwit_v0(address)
}

/// Relies on bitcoin_transaction_utils::is_transaction_hex_segwit: it reads
/// the hex's characters 8 and 9 and reports whether both are '0'. It panics
/// on a hex shorter than ten characters, hence the requires.
#[verifier::external_body]
fn transaction_hex_is_segwit(hex: &String) -> (segwit: bool)
    requires
        hex@.len() >= 10,
    ensures
        segwit == hex_marks_segwit(hex@),
{
    bitcoin_transaction_utils::is_transaction_hex_segwit(hex)
}

/// Whether an optionally-resolved address classifies as segwit v0; an
/// absent address never does.
pub open spec fn opt_addr_is_segwit(address: Option<Seq<char>>) -> bool {
    match address {
        Some(s) => addr_is_segwit_v0(s),
        None => false,
    }
}

/// The vout heuristic: some output of the transaction pays to a segwit-v0
/// address.
pub open spec fn spec_tx_vout_segwit(tx: TxView) -> bool {
    exists|i: int| 0 <= i < tx.vout.len() && opt_addr_is_segwit(tx.vout[i].resolved_address)
}

/// The vin heuristic, over the already-resolved addresses of the outputs a
/// transaction spends: some input spends a segwit-v0 address.
pub open spec fn spec_any_resolved_segwit(addresses: Seq<Option<Seq<char>>>) -> bool {
    exists|i: int| 0 <= i < addresses.len() && opt_addr_is_segwit(addresses[i])
}

/// The views of a list of optionally-resolved address strings.
pub open spec fn addrs_view(addresses: Seq<Option<String>>) -> Seq<Option<Seq<char>>> {
    addresses.map_values(|a: Option<String>| opt_string_view(a))
}

/// The change-output adjustment: a transaction's payment count is its
/// output count less one presumed change output, except that a
/// single-output transaction still counts one payment.
pub open spec fn spec_adjusted_payment_count(vout_count: nat) -> nat {
    if vout_count > 1 {
        (vout_count - 1) as nat
    } else {
        vout_count
    }
}

fn vout_is_segwit(vout: &Vout) -> (segwit: bool)
    ensures
        segwit == opt_addr_is_segwit(vout@.resolved_address),
{
    match &vout.resolved_address {
        Some(address) => address_is_segwit_v0(address),
        None => false,
    }
}

pub fn transaction_has_segwit_vout(tx: &TransactionRecord) -> (segwit: bool)
    ensures
        segwit == spec_tx_vout_segwit(tx@),
{
    let n = tx.vout.len();
    for i in 0..n
        invariant
            n == tx.vout.len(),
            forall|j: int| 0 <= j < i ==> !opt_addr_is_segwit(tx@.vout[j].resolved_address),
    {
        if vout_is_segwit(&tx.vout[i]) {
            assert(opt_addr_is_segwit(tx@.vout[i as int].resolved_address));
            return true;
        }
    }
    false
}

pub fn any_resolved_address_segwit(addresses: &Vec<Option<String>>) -> (segwit: bool)
    ensures
        segwit == spec_any_resolved_segwit(addrs_view(addresses@)),
{
    let n = addresses.len();
    for i in 0..n
        invariant
            n == addresses.len(),
            forall|j: int| 0 <= j < i ==> !opt_addr_is_segwit(addrs_view(addresses@)[j]),
    {
        let hit = match &addresses[i] {
            Some(address) => address_is_segwit_v0(address),
            None => false,
        };
        if hit {
            assert(opt_addr_is_segwit(addrs_view(addresses@)[i as int]));
            return true;
        }
    }
    false
}

pub fn adjusted_payment_count(vout_count: u64) -> (payments: u64)
    ensures
        payments == spec_adjusted_payment_count(vout_count as nat),
{
    if vout_count > 1 {
        vout_count - 1
    } else {
        vout_count
    }
}

/// The classifier's verdict on one non-coinbase transaction.
pub struct TxClass {
    pub hex_segwit: bool,
    pub vout_segwit: bool,
    pub vin_segwit: bool,
    pub payment_count: u64,
}

/// Classify one non-coinbase transaction. `vin_addresses` holds, for each
/// input in order, the resolved address of the output it spends, or `None`
/// where there is none (a coinbase input, or an address the provider could
/// not resolve).
pub fn classify_transaction(tx: &TransactionRecord, vin_addresses: &Vec<Option<String>>) -> (class:
    TxClass)
    requires
        tx@.raw_hex.len() >= 10,
    ensures
        class.hex_segwit == hex_marks_segwit(tx@.raw_hex),
        class.vout_segwit == spec_tx_vout_segwit(tx@),
        class.vin_segwit == spec_any_resolved_segwit(addrs_view(vin_addresses@)),
        class.payment_count == spec_adjusted_payment_count(tx@.vout.len() as nat),
{
    let vout_count = tx.vout.len() as u64;
    TxClass {
        hex_segwit: transaction_hex_is_segwit(&tx.raw_hex),
        vout_segwit: transaction_has_segwit_vout(tx),
        vin_segwit: any_resolved_address_segwit(vin_addresses),
        payment_count: adjusted_payment_count(vout_count),
    }
}

} // verus!
