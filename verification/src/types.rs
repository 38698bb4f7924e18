//! The data model of the scan: blocks, transactions, inputs and outputs,
//! and the in-memory form of the block-data provider.
//!
//! Every executable type has a mathematical view (`@`) over `int`, `Seq` and
//! `Option<Seq<char>>`; all contracts in this crate are stated over those
//! views.

use vstd::prelude::*;

verus! {

/// A transaction output: its position, its value in satoshis, and the
/// address its script resolves to, when the provider could resolve one.
pub struct Vout {
    pub index: u64,
    pub value: u64,
    pub resolved_address: Option<String>,
}

/// A transaction input: either the coinbase input, or a reference to the
/// output it spends.
pub enum Vin {
    Coinbase,
    NonCoinbase { prev_txid: String, prev_vout_index: usize },
}

/// One transaction of a block, as the provider reports it.
pub struct TransactionRecord {
    pub txid: String,
    pub is_coinbase: bool,
    pub vin: Vec<Vin>,
    pub vout: Vec<Vout>,
    pub raw_hex: String,
}

/// Everything the scan needs to know about one block, fetched once per
/// visited height.
pub struct BlockSnapshot {
    pub height: u64,
    pub timestamp: u64,
    pub blockhash: String,
    pub total_fee: u64,
    pub subsidy: u64,
    pub transactions: Vec<TransactionRecord>,
}

pub struct VoutView {
    pub index: int,
    pub value: int,
    pub resolved_address: Option<Seq<char>>,
}

pub enum VinView {
    Coinbase,
    NonCoinbase { prev_txid: Seq<char>, prev_vout_index: int },
}

pub struct TxView {
    pub txid: Seq<char>,
    pub is_coinbase: bool,
    pub vin: Seq<VinView>,
    pub vout: Seq<VoutView>,
    pub raw_hex: Seq<char>,
}

pub struct BlockView {
    pub height: int,
    pub timestamp: int,
    pub blockhash: Seq<char>,
    pub total_fee: int,
    pub subsidy: int,
    pub transactions: Seq<TxView>,
}

pub open spec fn opt_string_view(a: Option<String>) -> Option<Seq<char>> {
    match a {
        Some(s) => Some(s@),
        None => None,
    }
}

impl View for Vout {
    type V = VoutView;

    open spec fn view(&self) -> VoutView {
        VoutView {
            index: self.index as int,
            value: self.value as int,
            resolved_address: opt_string_view(self.resolved_address),
        }
    }
}

impl View for Vin {
    type V = VinView;

    open spec fn view(&self) -> VinView {
        match self {
            Vin::Coinbase => VinView::Coinbase,
            Vin::NonCoinbase { prev_txid, prev_vout_index } => VinView::NonCoinbase {
                prev_txid: prev_txid@,
                prev_vout_index: *prev_vout_index as int,
            },
        }
    }
}

impl View for TransactionRecord {
    type V = TxView;

    open spec fn view(&self) -> TxView {
        TxView {
            txid: self.txid@,
            is_coinbase: self.is_coinbase,
            vin: self.vin@.map_values(|v: Vin| v@),
            vout: self.vout@.map_values(|v: Vout| v@),
            raw_hex: self.raw_hex@,
        }
    }
}

impl View for BlockSnapshot {
    type V = BlockView;

    open spec fn view(&self) -> BlockView {
        BlockView {
            height: self.height as int,
            timestamp: self.timestamp as int,
            blockhash: self.blockhash@,
            total_fee: self.total_fee as int,
            subsidy: self.subsidy as int,
            transactions: self.transactions@.map_values(|t: TransactionRecord| t@),
        }
    }
}

/// An in-memory image of the block-data provider: the chain indexed by
/// height, and the transaction index that raw-transaction fetches consult.
pub struct ChainData {
    pub blocks: Vec<BlockSnapshot>,
    pub transactions: Vec<TransactionRecord>,
}

pub struct ChainView {
    pub blocks: Seq<BlockView>,
    pub transactions: Seq<TxView>,
}

impl View for ChainData {
    type V = ChainView;

    open spec fn view(&self) -> ChainView {
        ChainView {
            blocks: self.blocks@.map_values(|b: BlockSnapshot| b@),
            transactions: self.transactions@.map_values(|t: TransactionRecord| t@),
        }
    }
}

} // verus!
