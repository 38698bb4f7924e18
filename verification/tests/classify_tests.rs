use bitcoin_node_query::classify::{
    adjusted_payment_count, any_resolved_address_segwit, classify_transaction,
    transaction_has_segwit_vout,
};
use bitcoin_node_query::types::{TransactionRecord, Vin, Vout};

const NATIVE_SEGWIT: &str = "bc1qfvmj8jse4r7203mrchfyt24sjcpna3s2y35ylp";
const NESTED_SEGWIT: &str = "37u4L57bLqZ8NL9bs1GNX2x52KxviDfvPp";
const LEGACY: &str = "1J9uwBYepTm5737RtzkSEePTevGgDGLP5S";
const TAPROOT: &str = "bc1p8denc9m4sqe9hluasrvxkkdqgkydrk5ctxre5nkk4qwdvefn0sdsc6eqxe";

// Characters 8 and 9 are "00": the segwit marker and flag bytes.
const SEGWIT_HEX: &str = "020000000001015555";
// Characters 8 and 9 are "01": a plain pre-segwit encoding.
const NON_SEGWIT_HEX: &str = "010000000188888888";

fn vout_with(address: Option<&str>) -> Vout {
    Vout { index: 0, value: 1000, resolved_address: address.map(|a| a.to_string()) }
}

fn tx_with(hex: &str, vout_addresses: Vec<Option<&str>>) -> TransactionRecord {
    TransactionRecord {
        txid: "tx".to_string(),
        is_coinbase: false,
        vin: vec![Vin::Coinbase],
        vout: vout_addresses.into_iter().map(vout_with).collect(),
        raw_hex: hex.to_string(),
    }
}

#[test]
fn native_segwit_vout_is_detected() {
    let tx = tx_with(NON_SEGWIT_HEX, vec![Some(LEGACY), Some(NATIVE_SEGWIT)]);
    assert!(transaction_has_segwit_vout(&tx));
}

#[test]
fn nested_segwit_vout_counts_as_segwit_v0() {
    let tx = tx_with(NON_SEGWIT_HEX, vec![Some(NESTED_SEGWIT)]);
    assert!(transaction_has_segwit_vout(&tx));
}

#[test]
fn legacy_and_taproot_vouts_are_not_segwit_v0() {
    let tx = tx_with(NON_SEGWIT_HEX, vec![Some(LEGACY), Some(TAPROOT)]);
    assert!(!transaction_has_segwit_vout(&tx));
}

#[test]
fn unresolved_vout_address_counts_as_not_segwit() {
    let tx = tx_with(NON_SEGWIT_HEX, vec![None, None]);
    assert!(!transaction_has_segwit_vout(&tx));
}

#[test]
fn resolved_vin_addresses_any_segwit() {
    let none_then_segwit = vec![None, Some(NATIVE_SEGWIT.to_string())];
    assert!(any_resolved_address_segwit(&none_then_segwit));
    let legacy_only = vec![Some(LEGACY.to_string()), None];
    assert!(!any_resolved_address_segwit(&legacy_only));
    let empty: Vec<Option<String>> = vec![];
    assert!(!any_resolved_address_segwit(&empty));
}

#[test]
fn payment_count_single_output_stays_one() {
    assert_eq!(adjusted_payment_count(1), 1);
}

#[test]
fn payment_count_drops_one_presumed_change_output() {
    assert_eq!(adjusted_payment_count(5), 4);
    assert_eq!(adjusted_payment_count(2), 1);
}

#[test]
fn payment_count_of_no_outputs_is_zero() {
    assert_eq!(adjusted_payment_count(0), 0);
}

#[test]
fn classify_reads_hex_marker() {
    let segwit = tx_with(SEGWIT_HEX, vec![Some(LEGACY)]);
    let class = classify_transaction(&segwit, &vec![]);
    assert!(class.hex_segwit);
    assert!(!class.vout_segwit);
    assert!(!class.vin_segwit);

    let plain = tx_with(NON_SEGWIT_HEX, vec![Some(LEGACY)]);
    let class = classify_transaction(&plain, &vec![]);
    assert!(!class.hex_segwit);
}

#[test]
fn classify_combines_all_heuristics() {
    let tx = tx_with(SEGWIT_HEX, vec![Some(NATIVE_SEGWIT), Some(LEGACY), None, None, None]);
    let vin_addresses = vec![Some(NESTED_SEGWIT.to_string())];
    let class = classify_transaction(&tx, &vin_addresses);
    assert!(class.hex_segwit);
    assert!(class.vout_segwit);
    assert!(class.vin_segwit);
    assert_eq!(class.payment_count, 4);
}
