//! Transactions of the two models: native ones read as Ethereum transactions, and signed
//! Ethereum transactions relayed as native ones.

use crate::address::{evm_address_in, is_resolution_call};
use crate::call::holds_bytes;
use crate::client::KakarotClient;
use crate::errors::{EthApiError, Operation};
use crate::felt::{concat_bytes, felts_to_bytes, Felt};
use crate::primitives::{Address, H256, U256};
use crate::provider::{ProviderCall, StarknetBlockId};
use crate::selectors::{selector_bytes, Entrypoint};
use vstd::prelude::*;

verus! {

/// The most that the relay of a transaction may cost, in the native token's smallest unit.
pub const MAX_FEE: u64 = 100_000_000_000_000_000;

/// The tip that a transaction offers: there is none to offer, the ledger takes transactions in
/// the order in which they come.
pub const MAX_PRIORITY_FEE_PER_GAS: u128 = 0;

/// A native transaction that invokes a contract.
#[derive(Clone, Debug, PartialEq, Eq)]
pub struct InvokeTransaction {
    pub transaction_hash: Felt,
    pub sender_address: Felt,
    pub nonce: Felt,
    pub calldata: Vec<Felt>,
}

/// A native transaction. Of the kinds that do not invoke a contract only the hash is kept.
#[derive(Clone, Debug, PartialEq, Eq)]
pub enum StarknetTransaction {
    Invoke(InvokeTransaction),
    L1Handler(Felt),
    Declare(Felt),
    Deploy(Felt),
    DeployAccount(Felt),
}

/// A transaction in its Ethereum shape.
#[derive(Clone, Debug, PartialEq, Eq)]
pub struct Transaction {
    pub hash: H256,
    pub nonce: U256,
    pub block_hash: Option<H256>,
    pub block_number: Option<U256>,
    pub transaction_index: Option<U256>,
    pub from: Address,
    pub to: Option<Address>,
    pub input: Vec<u8>,
    pub max_priority_fee_per_gas: Option<u128>,
}

impl StarknetTransaction {
    /// The hash of the transaction.
    pub open spec fn spec_transaction_hash(&self) -> Felt {
        match self {
            StarknetTransaction::Invoke(invoke) => invoke.transaction_hash,
            StarknetTransaction::L1Handler(hash) => *hash,
            StarknetTransaction::Declare(hash) => *hash,
            StarknetTransaction::Deploy(hash) => *hash,
            StarknetTransaction::DeployAccount(hash) => *hash,
        }
    }

    /// The hash of the transaction.
    pub fn transaction_hash(&self) -> (r: Felt)
        ensures
            r == self.spec_transaction_hash(),
    {
        match self {
            StarknetTransaction::Invoke(invoke) => invoke.transaction_hash,
            StarknetTransaction::L1Handler(hash) => *hash,
            StarknetTransaction::Declare(hash) => *hash,
            StarknetTransaction::Deploy(hash) => *hash,
            StarknetTransaction::DeployAccount(hash) => *hash,
        }
    }

    /// The account that sent the transaction. Only a transaction that invokes a contract has
    /// one that the translation knows of.
    pub fn sender_address(&self) -> (r: Result<Felt, EthApiError>)
        ensures
            r == match self {
                StarknetTransaction::Invoke(invoke) => Ok::<Felt, EthApiError>(
                    invoke.sender_address,
                ),
                _ => Err::<Felt, EthApiError>(
                    EthApiError::NotSupported(Operation::ToEthTransaction),
                ),
            },
    {
        match self {
            StarknetTransaction::Invoke(invoke) => Ok(invoke.sender_address),
            _ => Err(EthApiError::NotSupported(Operation::ToEthTransaction)),
        }
    }

    /// The transaction in its Ethereum shape, given the outcome of asking the sender's contract
    /// for its Ethereum address. The positions in the block are the caller's.
    ///
    /// Only a transaction that invokes a contract has an Ethereum shape. A failure to resolve
    /// the sender is passed on.
    pub fn to_eth_transaction(
        &self,
        sender_lookup: Result<Vec<Felt>, EthApiError>,
        block_hash: Option<H256>,
        block_number: Option<U256>,
        transaction_index: Option<U256>,
    ) -> (r: Result<Transaction, EthApiError>)
        ensures
            match translation_failure(*self, sender_lookup) {
                Some(e) => r == Err::<Transaction, EthApiError>(e),
                None => r matches Ok(tx) && is_eth_transaction_of(tx, *self, sender_lookup) && tx.block_hash
                    == block_hash && tx.block_number == block_number && tx.transaction_index
                    == transaction_index,
            },
    {
        match self {
            StarknetTransaction::Invoke(invoke) => {
                let from = match sender_lookup {
                    Ok(felts) => {
                        if felts.len() > 0 {
                            felts[0].to_address()
                        } else {
                            return Err(EthApiError::TranslationError(Operation::GetEvmAddress));
                        }
                    },
                    Err(e) => {
                        return Err(e);
                    },
                };
                Ok(
                    Transaction {
                        hash: H256::from_felt(&invoke.transaction_hash),
                        nonce: U256::from_felt(&invoke.nonce),
                        block_hash,
                        block_number,
                        transaction_index,
                        from,
                        to: None,
                        input: felts_to_bytes(&invoke.calldata),
                        max_priority_fee_per_gas: Some(MAX_PRIORITY_FEE_PER_GAS),
                    },
                )
            },
            _ => Err(EthApiError::NotSupported(Operation::ToEthTransaction)),
        }
    }
}

/// Why a native transaction has no Ethereum shape, if it has none: it does not invoke a
/// contract, or asking the sender's contract for its Ethereum address failed or gave nothing.
pub open spec fn translation_failure(
    transaction: StarknetTransaction,
    sender_lookup: Result<Vec<Felt>, EthApiError>,
) -> Option<EthApiError> {
    if !(transaction is Invoke) {
        Some(EthApiError::NotSupported(Operation::ToEthTransaction))
    } else {
        match sender_lookup {
            Err(e) => Some(e),
            Ok(felts) => if felts@.len() == 0 {
                Some(EthApiError::TranslationError(Operation::GetEvmAddress))
            } else {
                None
            },
        }
    }
}

/// Whether `tx` is the Ethereum shape of the native transaction `transaction`, but for its
/// position in a block: hash and nonce keep their bytes, the sender is the Ethereum address
/// that its contract answered, there is no receiver, the input is the 32 bytes of each element
/// of the calldata, and the tip is the fixed one.
pub open spec fn is_eth_transaction_of(
    tx: Transaction,
    transaction: StarknetTransaction,
    sender_lookup: Result<Vec<Felt>, EthApiError>,
) -> bool {
    &&& transaction matches StarknetTransaction::Invoke(invoke)
    &&& tx.hash@ == invoke.transaction_hash@
    &&& tx.nonce@ == invoke.nonce@
    &&& Some(tx.from@) == evm_address_in(sender_lookup)
    &&& tx.to is None
    &&& tx.input@ == concat_bytes(invoke.calldata@)
    &&& tx.max_priority_fee_per_gas == Some(MAX_PRIORITY_FEE_PER_GAS)
}

/// What was read from the bytes of a signed Ethereum transaction.
#[derive(Clone, Copy, Debug, PartialEq, Eq)]
pub struct DecodedTransaction {
    /// The nonce of the transaction.
    pub nonce: u64,
    /// The signer that the signature gives, if it gives one.
    pub signer: Option<Address>,
}

/// A signed Ethereum transaction on its way to the ledger, between the resolution of its
/// signer and its submission.
#[derive(Clone, Debug, PartialEq, Eq)]
pub struct Relay {
    bytes: Vec<u8>,
    nonce: u64,
}

impl Relay {
    /// The bytes of the signed transaction.
    pub closed spec fn bytes(&self) -> Seq<u8> {
        self.bytes@
    }

    /// The nonce of the signed transaction.
    pub closed spec fn nonce(&self) -> u64 {
        self.nonce
    }
}

/// A native transaction that invokes an account contract, ready to be submitted.
#[derive(Clone, Debug, PartialEq, Eq)]
pub struct BroadcastedInvokeTransactionV1 {
    pub max_fee: Felt,
    pub signature: Vec<Felt>,
    pub nonce: Felt,
    pub sender_address: Felt,
    pub calldata: Vec<Felt>,
}

/// Whether `calldata` has an account contract hand `bytes` to the interpreter's relay: one
/// call, of the interpreter at `kakarot_address`, of its relay entrypoint, with its data at
/// offset zero, the length of the data, the length of the calldata, and then the bytes, one in
/// each element.
pub open spec fn is_relay_calldata(calldata: Seq<Felt>, kakarot_address: Felt, bytes: Seq<u8>) -> bool {
    &&& calldata.len() == 6 + bytes.len()
    &&& calldata[0].value() == 1
    &&& calldata[1] == kakarot_address
    &&& calldata[2]@ == selector_bytes(Entrypoint::EthSendTransaction.spec_name())
    &&& calldata[3].value() == 0
    &&& calldata[4].value() == bytes.len()
    &&& calldata[5].value() == bytes.len()
    &&& holds_bytes(calldata.subrange(6, calldata.len() as int), bytes)
}

/// The calldata that has an account contract hand `bytes` to the interpreter's relay.
pub fn raw_starknet_calldata(kakarot_address: Felt, bytes: &Vec<u8>) -> (r: Vec<Felt>)
    ensures
        is_relay_calldata(r@, kakarot_address, bytes@),
{
    let mut calldata: Vec<Felt> = Vec::new();
    calldata.push(Felt::from_u64(1));
    calldata.push(kakarot_address);
    calldata.push(Entrypoint::EthSendTransaction.selector());
    calldata.push(Felt::zero());
    calldata.push(Felt::from_usize(bytes.len()));
    calldata.push(Felt::from_usize(bytes.len()));
    let mut i: usize = 0;
    while i < bytes.len()
        invariant
            i <= bytes.len(),
            calldata@.len() == 6 + i,
            calldata@[0].value() == 1,
            calldata@[1] == kakarot_address,
            calldata@[2]@ == selector_bytes(Entrypoint::EthSendTransaction.spec_name()),
            calldata@[3].value() == 0,
            calldata@[4].value() == bytes@.len(),
            calldata@[5].value() == bytes@.len(),
            forall|j: int| 0 <= j < i ==> (#[trigger] calldata@[6 + j]).value() == bytes@[j],
        decreases bytes.len() - i,
    {
        calldata.push(Felt::from_u8(bytes[i]));
        i += 1;
    }
    proof {
        let tail = calldata@.subrange(6, calldata@.len() as int);
        assert forall|j: int| 0 <= j < bytes@.len() implies (#[trigger] tail[j]).value()
            == bytes@[j] by {
            assert(tail[j] == calldata@[6 + j]);
        }
    }
    calldata
}

impl KakarotClient {
    /// The call that asks the contract of a transaction's sender for its Ethereum address, at
    /// the latest block. Only a transaction that invokes a contract has a sender to ask.
    pub fn sender_lookup_request(&self, transaction: &StarknetTransaction) -> (r: Result<
        ProviderCall,
        EthApiError,
    >)
        ensures
            !(transaction is Invoke) ==> r == Err::<ProviderCall, EthApiError>(
                EthApiError::NotSupported(Operation::ToEthTransaction),
            ),
            transaction matches StarknetTransaction::Invoke(invoke) ==> (r matches Ok(call)
                && call.is_call(
                invoke.sender_address,
                Entrypoint::GetEvmAddress,
                Seq::empty(),
                StarknetBlockId::Latest,
            )),
    {
        match transaction.sender_address() {
            Ok(sender) => Ok(self.get_evm_address_request(&sender, &StarknetBlockId::Latest)),
            Err(e) => Err(e),
        }
    }

    /// The first step of relaying a signed Ethereum transaction: the call that resolves the
    /// signer's native account, and what the second step needs of the transaction. Writes
    /// always go to the latest block.
    ///
    /// There must be bytes, they must have decoded, and the signature must give a signer.
    pub fn send_transaction_request(
        &self,
        bytes: Vec<u8>,
        decoded: Option<DecodedTransaction>,
    ) -> (r: Result<(Relay, ProviderCall), EthApiError>)
        ensures
            r == Err::<(Relay, ProviderCall), EthApiError>(EthApiError::EmptyPayload)
                <==> bytes@.len() == 0,
            r == Err::<(Relay, ProviderCall), EthApiError>(
                EthApiError::DecodeError(Operation::SendTransaction),
            ) <==> bytes@.len() > 0 && decoded is None,
            r == Err::<(Relay, ProviderCall), EthApiError>(EthApiError::SignatureError)
                <==> bytes@.len() > 0 && decoded is Some && decoded.unwrap().signer is None,
            r is Ok <==> bytes@.len() > 0 && decoded is Some && decoded.unwrap().signer is Some,
            r matches Ok(step) ==> {
                &&& step.0.bytes() == bytes@
                &&& step.0.nonce() == decoded.unwrap().nonce
                &&& is_resolution_call(
                    step.1,
                    self.kakarot_address(),
                    decoded.unwrap().signer.unwrap()@,
                    StarknetBlockId::Latest,
                )
            },
    {
        if bytes.len() == 0 {
            return Err(EthApiError::EmptyPayload);
        }
        let transaction = match decoded {
            Some(transaction) => transaction,
            None => {
                return Err(EthApiError::DecodeError(Operation::SendTransaction));
            },
        };
        let evm_address = match transaction.signer {
            Some(evm_address) => evm_address,
            None => {
                return Err(EthApiError::SignatureError);
            },
        };
        let call = self.compute_starknet_address_request(&evm_address, &StarknetBlockId::Latest);
        Ok((Relay { bytes, nonce: transaction.nonce }, call))
    }

    /// The second step of relaying a signed Ethereum transaction: the native transaction to
    /// submit, once the interpreter has answered which native account stands for the signer.
    ///
    /// The signer's account sends it, with the nonce of the Ethereum transaction, the fixed fee
    /// ceiling and no signature: the account contract checks the signature that the bytes
    /// carry.
    pub fn send_transaction(&self, relay: Relay, resolved: Result<Vec<Felt>, EthApiError>) -> (r:
        Result<BroadcastedInvokeTransactionV1, EthApiError>)
        ensures
            resolved matches Err(e) ==> r == Err::<BroadcastedInvokeTransactionV1, EthApiError>(e),
            resolved matches Ok(felts) ==> (felts@.len() == 0 ==> r == Err::<
                BroadcastedInvokeTransactionV1,
                EthApiError,
            >(EthApiError::TranslationError(Operation::ComputeStarknetAddress))),
            resolved matches Ok(felts) ==> (felts@.len() > 0 ==> (r matches Ok(request) && {
                &&& request.max_fee.value() == MAX_FEE
                &&& request.signature@.len() == 0
                &&& request.nonce.value() == relay.nonce()
                &&& request.sender_address == felts@[0]
                &&& is_relay_calldata(request.calldata@, self.kakarot_address(), relay.bytes())
            })),
    {
        let starknet_address = match self.compute_starknet_address(resolved) {
            Ok(starknet_address) => starknet_address,
            Err(e) => {
                return Err(e);
            },
        };
        Ok(
            BroadcastedInvokeTransactionV1 {
                max_fee: Felt::from_u64(MAX_FEE),
                signature: Vec::new(),
                nonce: Felt::from_u64(relay.nonce),
                sender_address: starknet_address,
                calldata: raw_starknet_calldata(self.kakarot_address(), &relay.bytes),
            },
        )
    }

    /// The Ethereum hash of a submitted transaction: the 32 bytes of its native hash. A
    /// failure to submit is passed on.
    pub fn submit_starknet_transaction(&self, submitted: Result<Felt, EthApiError>) -> (r: Result<
        H256,
        EthApiError,
    >)
        ensures
            submitted matches Err(e) ==> r == Err::<H256, EthApiError>(e),
            submitted matches Ok(hash) ==> (r matches Ok(h) && h@ == hash@),
    {
        match submitted {
            Ok(hash) => Ok(H256::from_felt(&hash)),
            Err(e) => Err(e),
        }
    }
}

} // verus!
