use bitcoin_node_query::scan::scan_chain;
use bitcoin_node_query::types::{BlockSnapshot, ChainData, TransactionRecord, Vin, Vout};
use bitcoin_node_query::window::WindowPredicate;
use bitcoin_node_query::QueryError;

const TIP_TIMESTAMP: u64 = 2_000_000;
const DAY: u64 = 86_400;

fn coinbase_tx(height: u64) -> TransactionRecord {
    TransactionRecord {
        txid: format!("coinbase{}", height),
        is_coinbase: true,
        vin: vec![Vin::Coinbase],
        vout: vec![Vout { index: 0, value: 5_000, resolved_address: None }],
        raw_hex: "0100000001abcdef00".to_string(),
    }
}

fn simple_block(height: u64, timestamp: u64, total_fee: u64, subsidy: u64) -> BlockSnapshot {
    BlockSnapshot {
        height,
        timestamp,
        blockhash: format!("hash{}", height),
        total_fee,
        subsidy,
        transactions: vec![coinbase_tx(height)],
    }
}

/// A 101-block chain whose tip sits at height 100 with timestamp
/// `TIP_TIMESTAMP`; heights 90..=100 lie within 24 hours of the tip (height
/// 90 exactly on the cutoff), height 89 is one second older than the
/// cutoff. The fee of each block is its height.
fn day_window_chain() -> ChainData {
    let mut blocks = Vec::new();
    for h in 0..=100u64 {
        let timestamp = if h >= 90 {
            TIP_TIMESTAMP - DAY + (h - 90) * 600
        } else {
            TIP_TIMESTAMP - DAY - 1 - (89 - h) * 600
        };
        blocks.push(simple_block(h, timestamp, h, 50_000));
    }
    blocks[100].timestamp = TIP_TIMESTAMP;
    ChainData { blocks, transactions: vec![] }
}

#[test]
fn time_window_visits_eleven_blocks_and_halts() {
    let chain = day_window_chain();
    let predicate = WindowPredicate::TimeWindow { duration_seconds: DAY };
    let acc = scan_chain(&chain, 100, &predicate).unwrap();
    assert_eq!(acc.blocks_count, 11);
    // The exact arithmetic sum of the fees at heights 90..=100.
    let expected: u64 = (90..=100).sum();
    assert_eq!(acc.total_fee, expected);
    assert_eq!(acc.total_subsidy, 11 * 50_000);
}

#[test]
fn time_window_includes_block_exactly_on_cutoff() {
    let chain = day_window_chain();
    // Height 90's timestamp equals the cutoff exactly; it is still visited,
    // and height 89 (one second older) is the first one excluded.
    let predicate = WindowPredicate::TimeWindow { duration_seconds: DAY };
    let acc = scan_chain(&chain, 100, &predicate).unwrap();
    assert_eq!(acc.blocks_count, 11);
}

#[test]
fn count_window_visits_count_plus_one_heights() {
    let chain = day_window_chain();
    let predicate = WindowPredicate::CountWindow { count: 5 };
    let acc = scan_chain(&chain, 100, &predicate).unwrap();
    assert_eq!(acc.blocks_count, 6);
    let expected: u64 = (95..=100).sum();
    assert_eq!(acc.total_fee, expected);
}

#[test]
fn count_window_of_zero_visits_only_the_tip() {
    let chain = day_window_chain();
    let predicate = WindowPredicate::CountWindow { count: 0 };
    let acc = scan_chain(&chain, 100, &predicate).unwrap();
    assert_eq!(acc.blocks_count, 1);
    assert_eq!(acc.total_fee, 100);
}

#[test]
fn fee_aggregation_sums_exactly_the_visited_heights() {
    let mut blocks = Vec::new();
    let fees = [9u64, 7, 5, 3, 8];
    for h in 0..=4u64 {
        blocks.push(simple_block(h, 1_000_000 + h, fees[h as usize], 100));
    }
    let chain = ChainData { blocks, transactions: vec![] };
    let predicate = WindowPredicate::CountWindow { count: 2 };
    let acc = scan_chain(&chain, 4, &predicate).unwrap();
    // Heights 2, 3, 4 carry fees 5, 3, 8: counted once each, none skipped.
    assert_eq!(acc.total_fee, 5 + 3 + 8);
    assert_eq!(acc.blocks_count, 3);
}

#[test]
fn epoch_window_halts_at_the_retarget_height() {
    let mut blocks = Vec::new();
    for h in 0..=2020u64 {
        blocks.push(simple_block(h, 1_000_000 + h, 1, 100));
    }
    let chain = ChainData { blocks, transactions: vec![] };
    let acc = scan_chain(&chain, 2020, &WindowPredicate::EpochWindow).unwrap();
    // The tip's epoch began at height 2016: heights 2016..=2020 are visited.
    assert_eq!(acc.blocks_count, 5);
}

#[test]
fn scan_past_genesis_reports_genesis_reached() {
    let mut blocks = Vec::new();
    for h in 0..=3u64 {
        blocks.push(simple_block(h, 1_000_000 + h, 1, 100));
    }
    let chain = ChainData { blocks, transactions: vec![] };
    let predicate = WindowPredicate::CountWindow { count: 5 };
    assert_eq!(scan_chain(&chain, 3, &predicate), Err(QueryError::GenesisReached));
}

#[test]
fn missing_referenced_transaction_aborts_with_provider_error() {
    let spender = TransactionRecord {
        txid: "spender".to_string(),
        is_coinbase: false,
        vin: vec![Vin::NonCoinbase { prev_txid: "missing".to_string(), prev_vout_index: 0 }],
        vout: vec![Vout { index: 0, value: 10, resolved_address: None }],
        raw_hex: "0100000001abcdef00".to_string(),
    };
    let mut block = simple_block(1, 1_000_000, 1, 100);
    block.transactions.push(spender);
    let blocks = vec![simple_block(0, 900_000, 1, 100), block];
    let chain = ChainData { blocks, transactions: vec![] };
    let predicate = WindowPredicate::CountWindow { count: 0 };
    assert_eq!(scan_chain(&chain, 1, &predicate), Err(QueryError::ProviderError));
}

#[test]
fn vin_resolution_reads_the_referenced_output() {
    const SEGWIT_ADDRESS: &str = "bc1qfvmj8jse4r7203mrchfyt24sjcpna3s2y35ylp";
    let previous = TransactionRecord {
        txid: "previous".to_string(),
        is_coinbase: false,
        vin: vec![Vin::Coinbase],
        vout: vec![
            Vout { index: 0, value: 10, resolved_address: None },
            Vout { index: 1, value: 20, resolved_address: Some(SEGWIT_ADDRESS.to_string()) },
        ],
        raw_hex: "0100000001abcdef00".to_string(),
    };
    let spender = TransactionRecord {
        txid: "spender".to_string(),
        is_coinbase: false,
        vin: vec![Vin::NonCoinbase { prev_txid: "previous".to_string(), prev_vout_index: 1 }],
        vout: vec![Vout { index: 0, value: 10, resolved_address: None }],
        raw_hex: "0100000001abcdef00".to_string(),
    };
    let mut block = simple_block(1, 1_000_000, 1, 100);
    block.transactions.push(spender);
    let blocks = vec![simple_block(0, 900_000, 1, 100), block];
    let chain = ChainData { blocks, transactions: vec![previous] };
    let predicate = WindowPredicate::CountWindow { count: 0 };
    let acc = scan_chain(&chain, 1, &predicate).unwrap();
    // The one non-coinbase transaction spends a segwit output.
    assert_eq!(acc.tx_count, 1);
    assert_eq!(acc.vin_segwit_tx_count, 1);
    assert_eq!(acc.combined_segwit_tx_count, 1);
    assert_eq!(acc.vin_segwit_payment_count, 1);
}

#[test]
fn aborted_scan_returns_no_partial_totals() {
    // The same chain both with and without the transaction index: the
    // failing scan yields an error value, not partly-accumulated totals.
    let spender = TransactionRecord {
        txid: "spender".to_string(),
        is_coinbase: false,
        vin: vec![Vin::NonCoinbase { prev_txid: "previous".to_string(), prev_vout_index: 0 }],
        vout: vec![Vout { index: 0, value: 10, resolved_address: None }],
        raw_hex: "0100000001abcdef00".to_string(),
    };
    let mut tip_block = simple_block(2, 1_000_500, 7, 100);
    tip_block.transactions.push(spender);
    let blocks =
        vec![simple_block(0, 900_000, 1, 100), simple_block(1, 1_000_000, 3, 100), tip_block];
    let chain = ChainData { blocks, transactions: vec![] };
    let predicate = WindowPredicate::CountWindow { count: 1 };
    let outcome = scan_chain(&chain, 2, &predicate);
    assert!(matches!(outcome, Err(QueryError::ProviderError)));
}

#[test]
fn epoch_window_at_an_adjustment_block_visits_only_the_tip() {
    let mut blocks = Vec::new();
    for h in 0..=2016u64 {
        blocks.push(simple_block(h, 1_000_000 + h, 1, 100));
    }
    let chain = ChainData { blocks, transactions: vec![] };
    // The tip sits exactly on an adjustment: its epoch begins at the tip
    // itself, so the scan visits the tip and nothing below it.
    let acc = scan_chain(&chain, 2016, &WindowPredicate::EpochWindow).unwrap();
    assert_eq!(acc.blocks_count, 1);
}

#[test]
fn time_window_halts_at_the_first_older_block() {
    // Heights 3..=5 are within the window, height 2 is older, and height 1
    // would be within the window again; the scan never reaches it.
    let mut blocks = Vec::new();
    blocks.push(simple_block(0, TIP_TIMESTAMP - 2 * DAY, 1, 100));
    blocks.push(simple_block(1, TIP_TIMESTAMP, 1, 100));
    blocks.push(simple_block(2, TIP_TIMESTAMP - DAY - 1, 1, 100));
    blocks.push(simple_block(3, TIP_TIMESTAMP - 600, 1, 100));
    blocks.push(simple_block(4, TIP_TIMESTAMP - 300, 1, 100));
    blocks.push(simple_block(5, TIP_TIMESTAMP, 1, 100));
    let chain = ChainData { blocks, transactions: vec![] };
    let predicate = WindowPredicate::TimeWindow { duration_seconds: DAY };
    let acc = scan_chain(&chain, 5, &predicate).unwrap();
    assert_eq!(acc.blocks_count, 3);
    assert_eq!(acc.total_fee, 3);
}
