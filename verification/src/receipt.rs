//! Receipts in their Ethereum shape, put together from native receipts.

use crate::address::{evm_address_in, truncated};
use crate::client::KakarotClient;
use crate::errors::EthApiError;
use crate::event::{event_to_log, has_log, is_log_of, Event, Log};
use crate::felt::Felt;
use crate::primitives::{Address, H256, U256};
use crate::transaction::{translation_failure, StarknetTransaction};
use vstd::prelude::*;

verus! {

/// The gas that the block had used after the transaction. The ledger keeps no such count.
pub const CUMULATIVE_GAS_USED: u64 = 1_000_000;

/// The gas that the transaction used. The ledger keeps no such count.
pub const GAS_USED: u64 = 500_000;

/// The price that was paid for each unit of gas. The ledger keeps no such price.
pub const EFFECTIVE_GAS_PRICE: u128 = 1_000_000;

/// The type of every translated transaction.
pub const TRANSACTION_TYPE: u8 = 0;

/// How far the native ledger has come with a transaction.
#[derive(Clone, Copy, Debug, PartialEq, Eq)]
pub enum StarknetTransactionStatus {
    Pending,
    AcceptedOnL2,
    AcceptedOnL1,
    Rejected,
}

/// The native receipt of a transaction that invoked a contract.
#[derive(Clone, Debug, PartialEq, Eq)]
pub struct InvokeTransactionReceipt {
    pub transaction_hash: Felt,
    pub status: StarknetTransactionStatus,
    pub block_hash: Felt,
    pub block_number: u64,
    pub events: Vec<Event>,
}

/// The native receipt of a transaction that is in a block.
#[derive(Clone, Debug, PartialEq, Eq)]
pub enum StarknetTransactionReceipt {
    Invoke(InvokeTransactionReceipt),
    L1Handler,
    Declare,
    Deploy,
    DeployAccount,
}

/// What the native ledger answers when it is asked for a receipt.
#[derive(Clone, Debug, PartialEq, Eq)]
pub enum MaybePendingTransactionReceipt {
    Receipt(StarknetTransactionReceipt),
    PendingReceipt,
}

/// A receipt in its Ethereum shape.
#[derive(Clone, Debug, PartialEq, Eq)]
pub struct TransactionReceipt {
    pub transaction_hash: Option<H256>,
    pub transaction_index: Option<U256>,
    pub block_hash: Option<H256>,
    pub block_number: Option<U256>,
    pub from: Address,
    pub to: Option<Address>,
    pub cumulative_gas_used: U256,
    pub gas_used: Option<U256>,
    pub contract_address: Option<Address>,
    pub logs: Vec<Log>,
    pub state_root: Option<H256>,
    pub logs_bloom: [u8; 256],
    pub status_code: Option<u64>,
    pub effective_gas_price: u128,
    pub transaction_type: u8,
}

/// The status code of a receipt: 1 for a transaction that the ledger accepted, 0 for one that
/// it rejected or has not yet taken in.
pub open spec fn spec_status_code(status: StarknetTransactionStatus) -> u64 {
    match status {
        StarknetTransactionStatus::Rejected | StarknetTransactionStatus::Pending => 0,
        StarknetTransactionStatus::AcceptedOnL1 | StarknetTransactionStatus::AcceptedOnL2 => 1,
    }
}

/// The status code of a receipt: 1 for a transaction that the ledger accepted, 0 for one that
/// it rejected or has not yet taken in.
pub fn status_code(status: StarknetTransactionStatus) -> (r: u64)
    ensures
        r == spec_status_code(status),
        r == 0 || r == 1,
{
    match status {
        StarknetTransactionStatus::Rejected | StarknetTransactionStatus::Pending => 0,
        StarknetTransactionStatus::AcceptedOnL1 | StarknetTransactionStatus::AcceptedOnL2 => 1,
    }
}

/// The events among `events` that stand for a log, in their order.
pub open spec fn events_with_log(events: Seq<Event>, kakarot_address: Felt) -> Seq<Event>
    decreases events.len(),
{
    if events.len() == 0 {
        Seq::empty()
    } else if has_log(events.last(), kakarot_address) {
        events_with_log(events.drop_last(), kakarot_address).push(events.last())
    } else {
        events_with_log(events.drop_last(), kakarot_address)
    }
}

/// Whether `logs` are the logs of the events among `events` that stand for one, in their
/// order, none of them with a position in block or transaction.
pub open spec fn are_logs_of(logs: Seq<Log>, events: Seq<Event>, kakarot_address: Felt) -> bool {
    let kept = events_with_log(events, kakarot_address);
    &&& logs.len() == kept.len()
    &&& forall|i: int| 0 <= i < logs.len() ==> is_positionless_log_of(#[trigger] logs[i], kept[i])
}

/// Whether `log` says what `event` says and has no position in block or transaction.
pub open spec fn is_positionless_log_of(log: Log, event: Event) -> bool {
    &&& is_log_of(log, event)
    &&& log.block_hash is None
    &&& log.block_number is None
    &&& log.transaction_hash is None
    &&& log.log_index is None
    &&& log.transaction_index is None
}

/// The receipt of a confirmed transaction that invoked a contract, if `receipt` is one.
pub open spec fn confirmed_invoke(receipt: MaybePendingTransactionReceipt) -> Option<
    InvokeTransactionReceipt,
> {
    match receipt {
        MaybePendingTransactionReceipt::Receipt(StarknetTransactionReceipt::Invoke(invoke)) => Some(
            invoke,
        ),
        _ => None,
    }
}

/// Whether `out` is the Ethereum shape of the native receipt `invoke` of the transaction
/// `starknet_tx`. Hashes keep their bytes and the block its number. The contract address is
/// the Ethereum address that the sender's contract answered to `contract_lookup`, or what is
/// left of the sender's native account where it answered none. The sender is the one that the
/// transaction has in its Ethereum shape, and there is no receiver. The logs are those of the
/// events that stand for one. What the ledger does not count has its fixed value.
pub open spec fn is_receipt_of(
    out: TransactionReceipt,
    invoke: InvokeTransactionReceipt,
    starknet_tx: StarknetTransaction,
    contract_lookup: Result<Vec<Felt>, EthApiError>,
    sender_lookup: Result<Vec<Felt>, EthApiError>,
    kakarot_address: Felt,
) -> bool {
    &&& starknet_tx matches StarknetTransaction::Invoke(sent)
    &&& out.transaction_hash matches Some(h) && h@ == invoke.transaction_hash@
    &&& out.transaction_index is None
    &&& out.block_hash matches Some(h) && h@ == invoke.block_hash@
    &&& out.block_number matches Some(n) && n.value() == invoke.block_number
    &&& Some(out.from@) == evm_address_in(sender_lookup)
    &&& out.to is None
    &&& out.cumulative_gas_used.value() == CUMULATIVE_GAS_USED
    &&& out.gas_used matches Some(g) && g.value() == GAS_USED
    &&& out.contract_address matches Some(a) && a@ == match evm_address_in(contract_lookup) {
        Some(address) => address,
        None => truncated(sent.sender_address),
    }
    &&& are_logs_of(out.logs@, invoke.events@, kakarot_address)
    &&& out.state_root is None
    &&& out.logs_bloom@ == Seq::new(256, |i: int| 0u8)
    &&& out.status_code == Some(spec_status_code(invoke.status))
    &&& out.effective_gas_price == EFFECTIVE_GAS_PRICE
    &&& out.transaction_type == TRANSACTION_TYPE
}

impl KakarotClient {
    /// The logs of the events of a transaction. An event that stands for no log is left out.
    pub fn logs_of_events(&self, events: &Vec<Event>) -> (r: Vec<Log>)
        ensures
            are_logs_of(r@, events@, self.kakarot_address()),
    {
        let mut logs: Vec<Log> = Vec::new();
        let mut i: usize = 0;
        while i < events.len()
            invariant
                i <= events.len(),
                are_logs_of(logs@, events@.subrange(0, i as int), self.kakarot_address()),
            decreases events.len() - i,
        {
            assert(events@.subrange(0, i + 1).drop_last() =~= events@.subrange(0, i as int));
            match event_to_log(&events[i], self, None, None, None, None, None) {
                Ok(log) => {
                    logs.push(log);
                },
                Err(_) => {},
            }
            i += 1;
        }
        assert(events@.subrange(0, events.len() as int) =~= events@);
        logs
    }

    /// The hash of the transaction that a receipt is about, where the receipt is one that has
    /// an Ethereum shape: that of a confirmed transaction that invoked a contract.
    pub fn receipt_transaction_hash(&self, receipt: &MaybePendingTransactionReceipt) -> (r: Option<
        Felt,
    >)
        ensures
            r == match confirmed_invoke(*receipt) {
                Some(invoke) => Some(invoke.transaction_hash),
                None => None,
            },
    {
        match receipt {
            MaybePendingTransactionReceipt::Receipt(StarknetTransactionReceipt::Invoke(invoke)) => {
                Some(invoke.transaction_hash)
            },
            _ => None,
        }
    }

    /// The receipt in its Ethereum shape, given the native receipt, the transaction that it is
    /// about and the outcomes of asking the sender's contract for its Ethereum address: once
    /// for the contract address, once for the sender of the transaction.
    ///
    /// A receipt that is pending, or of a transaction that did not invoke a contract, has no
    /// Ethereum shape: there is none to give, and that is no failure. The contract address
    /// is the sender's Ethereum address, or what is left of the native account where that is
    /// not known. Sender and receiver are those of the transaction in its Ethereum shape. An
    /// event that stands for no log is left out. What the ledger does not count is set to
    /// fixed values.
    pub fn transaction_receipt(
        &self,
        receipt: &MaybePendingTransactionReceipt,
        starknet_tx: &StarknetTransaction,
        contract_lookup: Result<Vec<Felt>, EthApiError>,
        sender_lookup: Result<Vec<Felt>, EthApiError>,
    ) -> (r: Result<Option<TransactionReceipt>, EthApiError>)
        ensures
            match confirmed_invoke(*receipt) {
                None => r == Ok::<Option<TransactionReceipt>, EthApiError>(None),
                Some(invoke) => match translation_failure(*starknet_tx, sender_lookup) {
                    Some(e) => r == Err::<Option<TransactionReceipt>, EthApiError>(e),
                    None => r matches Ok(Some(out)) && is_receipt_of(
                        out,
                        invoke,
                        *starknet_tx,
                        contract_lookup,
                        sender_lookup,
                        self.kakarot_address(),
                    ),
                },
            },
    {
        let invoke = match receipt {
            MaybePendingTransactionReceipt::Receipt(StarknetTransactionReceipt::Invoke(invoke)) => {
                invoke
            },
            _ => {
                return Ok(None);
            },
        };
        let starknet_sender_address = match starknet_tx.sender_address() {
            Ok(address) => address,
            Err(e) => {
                return Err(e);
            },
        };
        let contract_address = self.safe_get_evm_address(
            &starknet_sender_address,
            contract_lookup,
        );
        let eth_tx = match starknet_tx.to_eth_transaction(sender_lookup, None, None, None) {
            Ok(eth_tx) => eth_tx,
            Err(e) => {
                return Err(e);
            },
        };
        let logs = self.logs_of_events(&invoke.events);
        let logs_bloom = [0u8; 256];
        assert(logs_bloom@ =~= Seq::new(256, |i: int| 0u8));
        Ok(
            Some(
                TransactionReceipt {
                    transaction_hash: Some(H256::from_felt(&invoke.transaction_hash)),
                    transaction_index: None,
                    block_hash: Some(H256::from_felt(&invoke.block_hash)),
                    block_number: Some(U256::from_u64(invoke.block_number)),
                    from: eth_tx.from,
                    to: eth_tx.to,
                    cumulative_gas_used: U256::from_u64(CUMULATIVE_GAS_USED),
                    gas_used: Some(U256::from_u64(GAS_USED)),
                    contract_address: Some(contract_address),
                    logs,
                    state_root: None,
                    logs_bloom,
                    status_code: Some(status_code(invoke.status)),
                    effective_gas_price: EFFECTIVE_GAS_PRICE,
                    transaction_type: TRANSACTION_TYPE,
                },
            ),
        )
    }
}

} // verus!
