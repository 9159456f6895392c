//! Blocks in their Ethereum shape, and where a transaction stands in them.

use crate::address::truncated;
use crate::big_endian::zeros;
use crate::client::KakarotClient;
use crate::errors::EthApiError;
use crate::felt::Felt;
use crate::oracle::BASE_FEE_PER_GAS;
use crate::primitives::{Address, H256, U256};
use crate::provider::StarknetBlockId;
use crate::receipt::{confirmed_invoke, MaybePendingTransactionReceipt, StarknetTransactionReceipt};
use crate::transaction::{
    is_eth_transaction_of, translation_failure, StarknetTransaction, Transaction,
};
use vstd::prelude::*;

verus! {

/// A block named by its number or by its place in the chain.
#[derive(Clone, Copy, Debug, PartialEq, Eq)]
pub enum BlockNumberOrTag {
    Latest,
    Finalized,
    Safe,
    Earliest,
    Pending,
    Number(u64),
}

/// The block of the native ledger that an Ethereum name of a block stands for. The latest,
/// the safe and the finalized block are all the latest block of the ledger, which has no
/// blocks that may still be undone; the earliest block is block 0.
pub fn ethers_block_number_to_starknet_block_id(block: BlockNumberOrTag) -> (r: StarknetBlockId)
    ensures
        r == match block {
            BlockNumberOrTag::Latest | BlockNumberOrTag::Safe | BlockNumberOrTag::Finalized => {
                StarknetBlockId::Latest
            },
            BlockNumberOrTag::Earliest => StarknetBlockId::Number(0),
            BlockNumberOrTag::Pending => StarknetBlockId::Pending,
            BlockNumberOrTag::Number(number) => StarknetBlockId::Number(number),
        },
{
    match block {
        BlockNumberOrTag::Latest | BlockNumberOrTag::Safe | BlockNumberOrTag::Finalized => {
            StarknetBlockId::Latest
        },
        BlockNumberOrTag::Earliest => StarknetBlockId::Number(0),
        BlockNumberOrTag::Pending => StarknetBlockId::Pending,
        BlockNumberOrTag::Number(number) => StarknetBlockId::Number(number),
    }
}

/// The header of a native block. A pending block has no hash, number or state root yet.
#[derive(Clone, Copy, Debug, PartialEq, Eq)]
pub enum StarknetBlockHeader {
    Block {
        block_hash: Felt,
        parent_hash: Felt,
        block_number: u64,
        new_root: Felt,
        timestamp: u64,
        sequencer_address: Felt,
    },
    PendingBlock { parent_hash: Felt, timestamp: u64, sequencer_address: Felt },
}

/// The header of a block in its Ethereum shape.
#[derive(Clone, Copy, Debug, PartialEq, Eq)]
pub struct Header {
    pub hash: Option<H256>,
    pub parent_hash: H256,
    pub number: Option<U256>,
    pub state_root: H256,
    pub timestamp: U256,
    pub miner: Address,
    pub base_fee_per_gas: U256,
}

/// The transactions of a block: their hashes, or the transactions themselves.
#[derive(Clone, Debug, PartialEq, Eq)]
pub enum BlockTransactions {
    Hashes(Vec<H256>),
    Full(Vec<Transaction>),
}

/// A block in its Ethereum shape.
#[derive(Clone, Debug, PartialEq, Eq)]
pub struct RichBlock {
    pub header: Header,
    pub transactions: BlockTransactions,
}

/// What the native ledger reports of its catching up with the chain.
#[derive(Clone, Copy, Debug, PartialEq, Eq)]
pub enum SyncStatusType {
    Syncing { starting_block_num: u64, current_block_num: u64, highest_block_num: u64 },
    NotSyncing,
}

/// The progress of a node that is catching up.
#[derive(Clone, Copy, Debug, PartialEq, Eq)]
pub struct SyncInfo {
    pub starting_block: U256,
    pub current_block: U256,
    pub highest_block: U256,
    pub warp_chunks_amount: Option<U256>,
    pub warp_chunks_processed: Option<U256>,
}

/// Whether a node is catching up, and how far it has come.
#[derive(Clone, Copy, Debug, PartialEq, Eq)]
pub enum SyncStatus {
    Info(SyncInfo),
    NotSyncing,
}

/// Whether `header` is the Ethereum shape of the native header `native`: the hashes and the
/// state root keep their 32 bytes, the miner is what is left of the sequencer's account, and
/// the base fee is the fixed one. A pending block has no hash and no number, and a state root
/// of zero bytes.
pub open spec fn is_header_of(header: Header, native: StarknetBlockHeader) -> bool {
    match native {
        StarknetBlockHeader::Block {
            block_hash,
            parent_hash,
            block_number,
            new_root,
            timestamp,
            sequencer_address,
        } => {
            &&& header.hash matches Some(h) && h@ == block_hash@
            &&& header.parent_hash@ == parent_hash@
            &&& header.number matches Some(n) && n.value() == block_number
            &&& header.state_root@ == new_root@
            &&& header.timestamp.value() == timestamp
            &&& header.miner@ == truncated(sequencer_address)
            &&& header.base_fee_per_gas.value() == BASE_FEE_PER_GAS
        },
        StarknetBlockHeader::PendingBlock { parent_hash, timestamp, sequencer_address } => {
            &&& header.hash is None
            &&& header.parent_hash@ == parent_hash@
            &&& header.number is None
            &&& header.state_root@ == zeros(32)
            &&& header.timestamp.value() == timestamp
            &&& header.miner@ == truncated(sequencer_address)
            &&& header.base_fee_per_gas.value() == BASE_FEE_PER_GAS
        },
    }
}

/// The translations that went through, in their order.
pub open spec fn successes(translations: Seq<Result<Transaction, EthApiError>>) -> Seq<
    Transaction,
>
    decreases translations.len(),
{
    if translations.len() == 0 {
        Seq::empty()
    } else {
        match translations.last() {
            Ok(transaction) => successes(translations.drop_last()).push(transaction),
            Err(_) => successes(translations.drop_last()),
        }
    }
}

/// Whether `tx` stands in the block that `receipt` places it in: that of the receipt of a
/// confirmed transaction that invoked a contract, and none for any other receipt.
pub open spec fn is_placed_by(tx: Transaction, receipt: MaybePendingTransactionReceipt) -> bool {
    match confirmed_invoke(receipt) {
        Some(invoke) => {
            &&& tx.block_hash matches Some(h) && h@ == invoke.block_hash@
            &&& tx.block_number matches Some(n) && n.value() == invoke.block_number
        },
        None => tx.block_hash is None && tx.block_number is None,
    }
}

/// The hash and the number of the block that a receipt places its transaction in. Only the
/// receipt of a confirmed transaction that invoked a contract places it.
pub fn receipt_block(receipt: &MaybePendingTransactionReceipt) -> (r: (Option<H256>, Option<U256>))
    ensures
        match confirmed_invoke(*receipt) {
            Some(invoke) => {
                &&& r.0 matches Some(h) && h@ == invoke.block_hash@
                &&& r.1 matches Some(n) && n.value() == invoke.block_number
            },
            None => r.0 is None && r.1 is None,
        },
{
    match receipt {
        MaybePendingTransactionReceipt::Receipt(StarknetTransactionReceipt::Invoke(invoke)) => (
            Some(H256::from_felt(&invoke.block_hash)),
            Some(U256::from_u64(invoke.block_number)),
        ),
        _ => (None, None),
    }
}

impl KakarotClient {
    /// The header of a block in its Ethereum shape.
    pub fn block_header(&self, native: &StarknetBlockHeader) -> (r: Header)
        ensures
            is_header_of(r, *native),
    {
        match native {
            StarknetBlockHeader::Block {
                block_hash,
                parent_hash,
                block_number,
                new_root,
                timestamp,
                sequencer_address,
            } => Header {
                hash: Some(H256::from_felt(block_hash)),
                parent_hash: H256::from_felt(parent_hash),
                number: Some(U256::from_u64(*block_number)),
                state_root: H256::from_felt(new_root),
                timestamp: U256::from_u64(*timestamp),
                miner: sequencer_address.to_address(),
                base_fee_per_gas: self.base_fee_per_gas(),
            },
            StarknetBlockHeader::PendingBlock { parent_hash, timestamp, sequencer_address } => {
                let state_root = H256 { bytes: [0u8; 32] };
                assert(state_root@ =~= zeros(32));
                Header {
                    hash: None,
                    parent_hash: H256::from_felt(parent_hash),
                    number: None,
                    state_root,
                    timestamp: U256::from_u64(*timestamp),
                    miner: sequencer_address.to_address(),
                    base_fee_per_gas: self.base_fee_per_gas(),
                }
            },
        }
    }

    /// The hash and the number that the transactions of a block are placed at: those of the
    /// block, and none for a pending block.
    pub fn block_position(&self, native: &StarknetBlockHeader) -> (r: (Option<H256>, Option<U256>))
        ensures
            match *native {
                StarknetBlockHeader::Block { block_hash, block_number, .. } => {
                    &&& r.0 matches Some(h) && h@ == block_hash@
                    &&& r.1 matches Some(n) && n.value() == block_number
                },
                StarknetBlockHeader::PendingBlock { .. } => r.0 is None && r.1 is None,
            },
    {
        match native {
            StarknetBlockHeader::Block { block_hash, block_number, .. } => (
                Some(H256::from_felt(block_hash)),
                Some(U256::from_u64(*block_number)),
            ),
            StarknetBlockHeader::PendingBlock { .. } => (None, None),
        }
    }

    /// The transactions of a block that have an Ethereum shape, in their order, from the
    /// outcome of translating each. A transaction whose translation failed is left out; the
    /// others are not touched by it.
    pub fn filter_starknet_into_eth_txs(
        &self,
        translations: Vec<Result<Transaction, EthApiError>>,
    ) -> (r: BlockTransactions)
        ensures
            r matches BlockTransactions::Full(transactions) && transactions@ == successes(
                translations@,
            ),
    {
        let ghost all = translations@;
        let mut transactions: Vec<Transaction> = Vec::new();
        for translation in iter: translations.into_iter()
            invariant
                iter.seq() == all,
                transactions@ == successes(all.subrange(0, iter.index())),
        {
            assert(all.subrange(0, iter.index() + 1).drop_last() =~= all.subrange(
                0,
                iter.index(),
            ));
            match translation {
                Ok(transaction) => {
                    transactions.push(transaction);
                },
                Err(_) => {},
            }
        }
        assert(all.subrange(0, all.len() as int) =~= all);
        BlockTransactions::Full(transactions)
    }

    /// The number of transactions that a block shows. Only transactions that are there in
    /// full are counted.
    pub fn get_transaction_count_by_block(&self, transactions: &BlockTransactions) -> (r: u64)
        ensures
            r == match *transactions {
                BlockTransactions::Full(transactions) => transactions@.len(),
                BlockTransactions::Hashes(_) => 0,
            },
    {
        match transactions {
            BlockTransactions::Full(transactions) => transactions.len() as u64,
            BlockTransactions::Hashes(_) => 0,
        }
    }

    /// A block in its Ethereum shape, with the hashes of its transactions.
    pub fn block_with_tx_hashes(&self, native: &StarknetBlockHeader, transactions: &Vec<Felt>) -> (r:
        RichBlock)
        ensures
            is_header_of(r.header, *native),
            r.transactions matches BlockTransactions::Hashes(hashes) && {
                &&& hashes@.len() == transactions@.len()
                &&& forall|i: int|
                    0 <= i < hashes@.len() ==> (#[trigger] hashes@[i])@ == transactions@[i]@
            },
    {
        let mut hashes: Vec<H256> = Vec::new();
        let mut i: usize = 0;
        while i < transactions.len()
            invariant
                i <= transactions.len(),
                hashes@.len() == i,
                forall|j: int| 0 <= j < i ==> (#[trigger] hashes@[j])@ == transactions@[j]@,
            decreases transactions.len() - i,
        {
            hashes.push(H256::from_felt(&transactions[i]));
            i += 1;
        }
        RichBlock { header: self.block_header(native), transactions: BlockTransactions::Hashes(hashes) }
    }

    /// A block in its Ethereum shape, with its transactions in full, from the outcome of
    /// translating each. A transaction whose translation failed is left out, and the block is
    /// there all the same.
    pub fn block_with_txs(
        &self,
        native: &StarknetBlockHeader,
        translations: Vec<Result<Transaction, EthApiError>>,
    ) -> (r: RichBlock)
        ensures
            is_header_of(r.header, *native),
            r.transactions matches BlockTransactions::Full(transactions) && transactions@
                == successes(translations@),
    {
        RichBlock {
            header: self.block_header(native),
            transactions: self.filter_starknet_into_eth_txs(translations),
        }
    }

    /// Whether the node is catching up, and how far it has come.
    pub fn syncing(&self, status: SyncStatusType) -> (r: SyncStatus)
        ensures
            match status {
                SyncStatusType::NotSyncing => r is NotSyncing,
                SyncStatusType::Syncing {
                    starting_block_num,
                    current_block_num,
                    highest_block_num,
                } => {
                    &&& r matches SyncStatus::Info(info)
                    &&& info.starting_block.value() == starting_block_num
                    &&& info.current_block.value() == current_block_num
                    &&& info.highest_block.value() == highest_block_num
                    &&& info.warp_chunks_amount is None
                    &&& info.warp_chunks_processed is None
                },
            },
    {
        match status {
            SyncStatusType::NotSyncing => SyncStatus::NotSyncing,
            SyncStatusType::Syncing { starting_block_num, current_block_num, highest_block_num } => {
                SyncStatus::Info(
                    SyncInfo {
                        starting_block: U256::from_u64(starting_block_num),
                        current_block: U256::from_u64(current_block_num),
                        highest_block: U256::from_u64(highest_block_num),
                        warp_chunks_amount: None,
                        warp_chunks_processed: None,
                    },
                )
            },
        }
    }

    /// A transaction in its Ethereum shape, placed in the block that its receipt names.
    pub fn transaction_by_hash(
        &self,
        transaction: &StarknetTransaction,
        receipt: &MaybePendingTransactionReceipt,
        sender_lookup: Result<Vec<Felt>, EthApiError>,
    ) -> (r: Result<Transaction, EthApiError>)
        ensures
            match translation_failure(*transaction, sender_lookup) {
                Some(e) => r == Err::<Transaction, EthApiError>(e),
                None => r matches Ok(tx) && is_eth_transaction_of(tx, *transaction, sender_lookup)
                    && is_placed_by(tx, *receipt) && tx.transaction_index is None,
            },
    {
        let (block_hash, block_number) = receipt_block(receipt);
        transaction.to_eth_transaction(sender_lookup, block_hash, block_number, None)
    }

    /// A transaction in its Ethereum shape, placed in the block that its receipt names, at
    /// the index at which it was found.
    pub fn transaction_by_block_id_and_index(
        &self,
        transaction: &StarknetTransaction,
        receipt: &MaybePendingTransactionReceipt,
        sender_lookup: Result<Vec<Felt>, EthApiError>,
        index: u64,
    ) -> (r: Result<Transaction, EthApiError>)
        ensures
            match translation_failure(*transaction, sender_lookup) {
                Some(e) => r == Err::<Transaction, EthApiError>(e),
                None => r matches Ok(tx) && is_eth_transaction_of(tx, *transaction, sender_lookup)
                    && is_placed_by(tx, *receipt) && (tx.transaction_index matches Some(i)
                    && i.value() == index),
            },
    {
        let (block_hash, block_number) = receipt_block(receipt);
        transaction.to_eth_transaction(
            sender_lookup,
            block_hash,
            block_number,
            Some(U256::from_u64(index)),
        )
    }
}

} // verus!
