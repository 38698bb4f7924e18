use bitcoin_node_query::metrics::{
    get_average_block_time_for_last_2016_blocks,
    get_average_block_time_for_since_last_difficulty_adjustement,
    get_average_fees_per_block_over_last_2016_blocks,
    get_average_fees_per_block_over_last_24_hours, get_blocks_mined_over_last_24_hours_count,
    get_fees_as_a_percent_of_reward_for_last_24_hours,
    get_percent_of_vouts_used_segwit_over_last_24_hours, get_total_fee_for_24_hours, Ratio,
};
use bitcoin_node_query::types::{BlockSnapshot, ChainData, TransactionRecord, Vin, Vout};
use bitcoin_node_query::QueryError;

const TIP_TIMESTAMP: u64 = 2_000_000;
const DAY: u64 = 86_400;

const NATIVE_SEGWIT: &str = "bc1qfvmj8jse4r7203mrchfyt24sjcpna3s2y35ylp";
const LEGACY: &str = "1J9uwBYepTm5737RtzkSEePTevGgDGLP5S";
const SEGWIT_HEX: &str = "020000000001015555";
const NON_SEGWIT_HEX: &str = "010000000188888888";

fn coinbase_tx(height: u64) -> TransactionRecord {
    TransactionRecord {
        txid: format!("coinbase{}", height),
        is_coinbase: true,
        vin: vec![Vin::Coinbase],
        vout: vec![Vout { index: 0, value: 5_000, resolved_address: None }],
        raw_hex: "0100000001abcdef00".to_string(),
    }
}

fn spender_tx(height: u64, hex: &str, vout_address: &str, prev_txid: &str) -> TransactionRecord {
    TransactionRecord {
        txid: format!("spender{}", height),
        is_coinbase: false,
        vin: vec![Vin::NonCoinbase { prev_txid: prev_txid.to_string(), prev_vout_index: 0 }],
        vout: vec![Vout { index: 0, value: 100, resolved_address: Some(vout_address.to_string()) }],
        raw_hex: hex.to_string(),
    }
}

fn previous_tx(txid: &str, address: &str) -> TransactionRecord {
    TransactionRecord {
        txid: txid.to_string(),
        is_coinbase: false,
        vin: vec![Vin::Coinbase],
        vout: vec![Vout { index: 0, value: 500, resolved_address: Some(address.to_string()) }],
        raw_hex: "0100000001abcdef00".to_string(),
    }
}

fn block(height: u64, timestamp: u64, total_fee: u64, subsidy: u64) -> BlockSnapshot {
    BlockSnapshot {
        height,
        timestamp,
        blockhash: format!("hash{}", height),
        total_fee,
        subsidy,
        transactions: vec![coinbase_tx(height)],
    }
}

/// Six blocks; heights 3..=5 lie within 24 hours of the tip (height 5),
/// heights 0..=2 are older. Each in-window block carries one non-coinbase
/// transaction built by `spend`, fee 10 and subsidy 40.
fn window_chain(spend: impl Fn(u64) -> Option<TransactionRecord>, index: Vec<TransactionRecord>) -> ChainData {
    let mut blocks = Vec::new();
    for h in 0..=5u64 {
        let timestamp = if h >= 3 {
            TIP_TIMESTAMP - (5 - h) * 600
        } else {
            TIP_TIMESTAMP - DAY - 1 - (2 - h) * 600
        };
        let mut b = block(h, timestamp, 10, 40);
        if h >= 3 {
            if let Some(tx) = spend(h) {
                b.transactions.push(tx);
            }
        }
        blocks.push(b);
    }
    ChainData { blocks, transactions: index }
}

#[test]
fn total_fee_for_24_hours_sums_the_window() {
    let chain = window_chain(|_| None, vec![]);
    assert_eq!(get_total_fee_for_24_hours(&chain, 5), Ok(30));
}

#[test]
fn blocks_mined_over_last_24_hours() {
    let chain = window_chain(|_| None, vec![]);
    assert_eq!(get_blocks_mined_over_last_24_hours_count(&chain, 5), Ok(3));
}

#[test]
fn average_fees_per_block_over_last_24_hours() {
    let chain = window_chain(|_| None, vec![]);
    // 30 in fees over 3 blocks.
    assert_eq!(get_average_fees_per_block_over_last_24_hours(&chain, 5), Ok(10));
}

#[test]
fn fees_as_share_of_reward_is_exact() {
    let chain = window_chain(|_| None, vec![]);
    // 30 in fees out of 30 + 120 in total reward.
    assert_eq!(
        get_fees_as_a_percent_of_reward_for_last_24_hours(&chain, 5),
        Ok(Ratio { numerator: 30, denominator: 150 })
    );
}

#[test]
fn fees_share_of_zero_reward_is_an_empty_window() {
    let mut blocks = Vec::new();
    for h in 0..=2u64 {
        let timestamp = if h >= 1 { TIP_TIMESTAMP } else { TIP_TIMESTAMP - DAY - 1 };
        blocks.push(block(h, timestamp, 0, 0));
    }
    let chain = ChainData { blocks, transactions: vec![] };
    assert_eq!(
        get_fees_as_a_percent_of_reward_for_last_24_hours(&chain, 2),
        Err(QueryError::EmptyWindowError)
    );
}

#[test]
fn all_non_segwit_window_yields_all_zero_ratios() {
    let index = vec![previous_tx("previous", LEGACY)];
    let chain = window_chain(|h| Some(spender_tx(h, NON_SEGWIT_HEX, LEGACY, "previous")), index);
    let ratios = get_percent_of_vouts_used_segwit_over_last_24_hours(&chain, 5).unwrap();
    assert_eq!(ratios.vout_based, Ratio { numerator: 0, denominator: 3 });
    assert_eq!(ratios.vout_or_vin_based, Ratio { numerator: 0, denominator: 3 });
    assert_eq!(ratios.hex_based, Ratio { numerator: 0, denominator: 3 });
    assert_eq!(ratios.payments_spending_segwit, Ratio { numerator: 0, denominator: 3 });
    assert_eq!(ratios.segwit_spending_transactions, Ratio { numerator: 0, denominator: 3 });
}

#[test]
fn all_segwit_window_yields_all_one_ratios() {
    let index = vec![previous_tx("previous", NATIVE_SEGWIT)];
    let chain = window_chain(|h| Some(spender_tx(h, SEGWIT_HEX, NATIVE_SEGWIT, "previous")), index);
    let ratios = get_percent_of_vouts_used_segwit_over_last_24_hours(&chain, 5).unwrap();
    assert_eq!(ratios.vout_based, Ratio { numerator: 3, denominator: 3 });
    assert_eq!(ratios.vout_or_vin_based, Ratio { numerator: 3, denominator: 3 });
    assert_eq!(ratios.hex_based, Ratio { numerator: 3, denominator: 3 });
    assert_eq!(ratios.payments_spending_segwit, Ratio { numerator: 3, denominator: 3 });
    assert_eq!(ratios.segwit_spending_transactions, Ratio { numerator: 3, denominator: 3 });
}

#[test]
fn window_of_only_coinbase_transactions_is_empty_for_ratios() {
    let chain = window_chain(|_| None, vec![]);
    assert_eq!(
        get_percent_of_vouts_used_segwit_over_last_24_hours(&chain, 5),
        Err(QueryError::EmptyWindowError)
    );
}

#[test]
fn mixed_window_counts_each_heuristic_separately() {
    // Height 3 spends segwit everywhere; heights 4 and 5 nowhere.
    let index =
        vec![previous_tx("segwit_prev", NATIVE_SEGWIT), previous_tx("legacy_prev", LEGACY)];
    let chain = window_chain(
        |h| {
            if h == 3 {
                Some(spender_tx(h, SEGWIT_HEX, NATIVE_SEGWIT, "segwit_prev"))
            } else {
                Some(spender_tx(h, NON_SEGWIT_HEX, LEGACY, "legacy_prev"))
            }
        },
        index,
    );
    let ratios = get_percent_of_vouts_used_segwit_over_last_24_hours(&chain, 5).unwrap();
    assert_eq!(ratios.vout_based, Ratio { numerator: 1, denominator: 3 });
    assert_eq!(ratios.vout_or_vin_based, Ratio { numerator: 1, denominator: 3 });
    assert_eq!(ratios.hex_based, Ratio { numerator: 1, denominator: 3 });
    assert_eq!(ratios.payments_spending_segwit, Ratio { numerator: 1, denominator: 3 });
    assert_eq!(ratios.segwit_spending_transactions, Ratio { numerator: 1, denominator: 3 });
}

fn long_chain(len: u64) -> ChainData {
    let mut blocks = Vec::new();
    for h in 0..len {
        blocks.push(block(h, 1_000_000 + h * 600, 2, 100));
    }
    ChainData { blocks, transactions: vec![] }
}

#[test]
fn average_fees_over_one_difficulty_period() {
    let chain = long_chain(2018);
    // The count window visits 2017 blocks of fee 2 but divides by 2016,
    // exactly as stated: 4034 / 2016 = 2.
    assert_eq!(get_average_fees_per_block_over_last_2016_blocks(&chain, 2017), Ok(2));
}

#[test]
fn count_window_longer_than_the_chain_reaches_genesis() {
    let chain = long_chain(100);
    assert_eq!(
        get_average_fees_per_block_over_last_2016_blocks(&chain, 99),
        Err(QueryError::GenesisReached)
    );
}

#[test]
fn average_block_time_over_one_difficulty_period() {
    let chain = long_chain(2018);
    assert_eq!(get_average_block_time_for_last_2016_blocks(&chain, 2017), 600);
}

#[test]
fn average_block_time_since_last_adjustment() {
    let chain = long_chain(2101);
    // The tip at height 2100 sits 84 blocks past the adjustment at 2016.
    assert_eq!(get_average_block_time_for_since_last_difficulty_adjustement(&chain, 2100), 600);
}
