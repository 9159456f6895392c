//! What the bridge answers about fees and balances.

use crate::address::Resolution;
use crate::big_endian::{be_fit32, be_value, lemma_be_value_injective, zeros};
use crate::block::BlockNumberOrTag;
use crate::call::{call_view_result, is_eth_call_arguments, Oversized};
use crate::client::KakarotClient;
use crate::errors::{EthApiError, Operation};
use crate::felt::{concat_bytes, felts_to_bytes, Felt};
use crate::primitives::{Address, U256};
use crate::provider::{FunctionCall, ProviderCall, StarknetBlockId};
use crate::selectors::Entrypoint;
use crate::transaction::MAX_PRIORITY_FEE_PER_GAS;
use vstd::arithmetic::power2::*;
use vstd::prelude::*;

verus! {

/// The base fee of every block. The ledger takes transactions in the order in which they come,
/// so there is no market to read a fee from.
pub const BASE_FEE_PER_GAS: u64 = 1;

/// The share of its gas limit that every block is said to have used, in hundredths.
pub const GAS_USED_RATIO_PERCENT: u8 = 90;

/// The fees of a range of blocks.
#[derive(Clone, Debug, PartialEq, Eq)]
pub struct FeeHistory {
    /// The base fee of each block of the range, and of the block after it.
    pub base_fee_per_gas: Vec<U256>,
    /// The share of its gas limit that each block of the range used, in hundredths.
    pub gas_used_ratio_percent: Vec<u8>,
    /// The first block of the range.
    pub oldest_block: U256,
    /// The tips that were paid. There are none to report.
    pub reward: Option<Vec<Vec<U256>>>,
}

/// The balance of one token. The entries of a batch stand in the order of its tokens.
#[derive(Clone, Debug, PartialEq, Eq)]
pub struct TokenBalance {
    /// The account that the batch was asked for.
    pub contract_address: Address,
    /// The balance, where the lookup gave one.
    pub token_balance: Option<U256>,
    /// Why there is no balance, where the lookup gave none.
    pub error: Option<EthApiError>,
}

/// The balances of an account in a list of tokens.
#[derive(Clone, Debug, PartialEq, Eq)]
pub struct TokenBalances {
    /// The account.
    pub address: Address,
    /// One entry for each token, in the order of the tokens.
    pub token_balances: Vec<TokenBalance>,
}

/// The number of the block that `newest_block` names, where the name alone tells it. The
/// earliest block is block 1. For the other names the ledger has to be asked.
pub fn known_block_number(newest_block: BlockNumberOrTag) -> (r: Option<u64>)
    ensures
        r == match newest_block {
            BlockNumberOrTag::Number(n) => Some(n),
            BlockNumberOrTag::Earliest => Some(1u64),
            _ => None,
        },
{
    match newest_block {
        BlockNumberOrTag::Number(n) => Some(n),
        BlockNumberOrTag::Earliest => Some(1),
        _ => None,
    }
}

/// The native token contract, in which the balance of an account is its balance of coin.
pub fn starknet_native_token() -> (r: Felt)
    ensures
        r@ == native_token_bytes(),
{
    let bytes: [u8; 32] = [
        0x04, 0x9d, 0x36, 0x57, 0x0d, 0x4e, 0x46, 0xf4, 0x8e, 0x99, 0x67, 0x4b, 0xd3, 0xfc, 0xc8,
        0x46, 0x44, 0xdd, 0xd6, 0xb9, 0x6f, 0x7c, 0x74, 0x1b, 0x15, 0x62, 0xb8, 0x2f, 0x9e, 0x00,
        0x4d, 0xc7,
    ];
    assert(bytes@ =~= native_token_bytes());
    Felt::from_bytes_below(bytes)
}

/// The 32 bytes of the native token contract's address.
pub open spec fn native_token_bytes() -> Seq<u8> {
    seq![
        0x04u8, 0x9d, 0x36, 0x57, 0x0d, 0x4e, 0x46, 0xf4, 0x8e, 0x99, 0x67, 0x4b, 0xd3, 0xfc, 0xc8,
        0x46, 0x44, 0xdd, 0xd6, 0xb9, 0x6f, 0x7c, 0x74, 0x1b, 0x15, 0x62, 0xb8, 0x2f, 0x9e, 0x00,
        0x4d, 0xc7,
    ]
}

/// What the outcome of one token's lookup says of the balance: the number that the returned
/// bytes denote, where the lookup went through, its answer follows the schema and the number
/// fits in 256 bits.
pub open spec fn token_balance_in(
    outcome: Result<Vec<Felt>, EthApiError>,
    oversized: Oversized,
) -> Option<nat> {
    match outcome {
        Ok(felts) => match call_view_result(felts@, oversized) {
            Some(bytes) => if be_value(bytes) < pow2(256) {
                Some(be_value(bytes))
            } else {
                None
            },
            None => None,
        },
        Err(_) => None,
    }
}

/// Whether `entry` reports the outcome of one token's lookup for the account `address`: the
/// balance and no error where the outcome gives a balance; else no balance and the error, which
/// is that of the call where the call failed and a decoding failure where it did not.
pub open spec fn is_token_balance(
    entry: TokenBalance,
    address: Address,
    outcome: Result<Vec<Felt>, EthApiError>,
    oversized: Oversized,
) -> bool {
    &&& entry.contract_address == address
    &&& match token_balance_in(outcome, oversized) {
        Some(balance) => {
            &&& entry.token_balance matches Some(b) && b.value() == balance
            &&& entry.error is None
        },
        None => {
            &&& entry.token_balance is None
            &&& entry.error == Some(
                match outcome {
                    Err(e) => e,
                    Ok(felts) => if call_view_result(felts@, oversized) is Some {
                        EthApiError::DecodeError(Operation::TokenBalances)
                    } else {
                        EthApiError::DecodeError(Operation::CallView)
                    },
                },
            )
        },
    }
}

impl KakarotClient {
    /// The call that asks the native token contract for the balance of an account, once the
    /// interpreter has answered which native account stands for the Ethereum address. The
    /// balance is read at the block at which the account was resolved.
    pub fn balance_request(
        &self,
        resolution: &Resolution,
        resolved: Result<Vec<Felt>, EthApiError>,
    ) -> (r: Result<ProviderCall, EthApiError>)
        ensures
            resolved matches Err(e) ==> r == Err::<ProviderCall, EthApiError>(e),
            resolved matches Ok(felts) ==> (felts@.len() == 0 ==> r == Err::<
                ProviderCall,
                EthApiError,
            >(EthApiError::TranslationError(Operation::ComputeStarknetAddress))),
            resolved matches Ok(felts) ==> (felts@.len() > 0 ==> (r matches Ok(call) && {
                &&& call.request.contract_address@ == native_token_bytes()
                &&& call.is_call(
                    call.request.contract_address,
                    Entrypoint::BalanceOf,
                    seq![felts@[0]],
                    resolution.block_id(),
                )
            })),
    {
        let starknet_address = match self.compute_starknet_address(resolved) {
            Ok(starknet_address) => starknet_address,
            Err(e) => {
                return Err(e);
            },
        };
        let mut calldata: Vec<Felt> = Vec::new();
        calldata.push(starknet_address);
        assert(calldata@ =~= seq![starknet_address]);
        Ok(
            ProviderCall {
                request: FunctionCall {
                    contract_address: starknet_native_token(),
                    entry_point_selector: Entrypoint::BalanceOf.selector(),
                    calldata,
                },
                block_id: resolution.block_id(),
            },
        )
    }

    /// The balance of an account, from the outcome of asking the native token contract: the
    /// number that the first element of the answer stands for. A failure of the call is passed
    /// on; an answer without elements is a decoding failure.
    pub fn balance(&self, outcome: Result<Vec<Felt>, EthApiError>) -> (r: Result<U256, EthApiError>)
        ensures
            outcome matches Err(e) ==> r == Err::<U256, EthApiError>(e),
            outcome matches Ok(felts) ==> (felts@.len() == 0 ==> r == Err::<U256, EthApiError>(
                EthApiError::DecodeError(Operation::Balance),
            )),
            outcome matches Ok(felts) ==> (felts@.len() > 0 ==> (r matches Ok(balance)
                && balance@ == felts@[0]@ && balance.value() == felts@[0].value())),
    {
        match outcome {
            Ok(felts) => {
                if felts.len() > 0 {
                    Ok(U256::from_felt(&felts[0]))
                } else {
                    Err(EthApiError::DecodeError(Operation::Balance))
                }
            },
            Err(e) => Err(e),
        }
    }

    /// The calls that ask each token of a list for the balance of the account `address`, in
    /// the order of the tokens. Each has the interpreter call the token, at the latest block,
    /// with the 32 bytes of `entrypoint` and then the address as 32 bytes.
    pub fn token_balances_requests(
        &self,
        entrypoint: &Felt,
        address: &Address,
        contract_addresses: &Vec<Address>,
    ) -> (r: Vec<ProviderCall>)
        ensures
            r@.len() == contract_addresses@.len(),
            forall|i: int|
                0 <= i < r@.len() ==> {
                    let call = #[trigger] r@[i];
                    &&& is_eth_call_arguments(
                        call.request.calldata@,
                        contract_addresses@[i]@,
                        entrypoint@ + (zeros(12) + address@),
                    )
                    &&& call.is_call(
                        self.kakarot_address(),
                        Entrypoint::EthCall,
                        call.request.calldata@,
                        StarknetBlockId::Latest,
                    )
                },
    {
        let mut words: Vec<Felt> = Vec::new();
        words.push(*entrypoint);
        words.push(Felt::from_address(address));
        let calldata = felts_to_bytes(&words);
        proof {
            assert(words@.drop_last() =~= seq![*entrypoint]);
            assert(seq![*entrypoint].drop_last() =~= Seq::<Felt>::empty());
            assert(concat_bytes(Seq::<Felt>::empty()) =~= Seq::<u8>::empty());
            assert(concat_bytes(seq![*entrypoint]) =~= entrypoint@);
            assert(calldata@ =~= entrypoint@ + (zeros(12) + address@));
        }
        let mut calls: Vec<ProviderCall> = Vec::new();
        let mut i: usize = 0;
        while i < contract_addresses.len()
            invariant
                i <= contract_addresses.len(),
                calls@.len() == i,
                calldata@ == entrypoint@ + (zeros(12) + address@),
                forall|j: int|
                    0 <= j < i ==> {
                        let call = #[trigger] calls@[j];
                        &&& is_eth_call_arguments(
                            call.request.calldata@,
                            contract_addresses@[j]@,
                            entrypoint@ + (zeros(12) + address@),
                        )
                        &&& call.is_call(
                            self.kakarot_address(),
                            Entrypoint::EthCall,
                            call.request.calldata@,
                            StarknetBlockId::Latest,
                        )
                    },
            decreases contract_addresses.len() - i,
        {
            let call = self.call_view_request(
                &contract_addresses[i],
                &calldata,
                &StarknetBlockId::Latest,
            );
            calls.push(call);
            i += 1;
        }
        calls
    }

    /// What one token's lookup says of the balance of the account `address`.
    pub fn token_balance(&self, address: Address, outcome: Result<Vec<Felt>, EthApiError>) -> (r:
        TokenBalance)
        ensures
            is_token_balance(r, address, outcome, self.oversized()),
    {
        match self.call_view(outcome) {
            Ok(bytes) => match be_fit32(&bytes) {
                Some(balance) => TokenBalance {
                    contract_address: address,
                    token_balance: Some(U256 { bytes: balance }),
                    error: None,
                },
                None => TokenBalance {
                    contract_address: address,
                    token_balance: None,
                    error: Some(EthApiError::DecodeError(Operation::TokenBalances)),
                },
            },
            Err(e) => TokenBalance {
                contract_address: address,
                token_balance: None,
                error: Some(e),
            },
        }
    }

    /// The balances of the account `address` in a list of tokens, from the outcomes of the
    /// lookups, one for each token and in the order of the tokens. Each outcome is reported by
    /// itself: a lookup that failed leaves the others as they are.
    pub fn token_balances(
        &self,
        address: Address,
        outcomes: Vec<Result<Vec<Felt>, EthApiError>>,
    ) -> (r: TokenBalances)
        ensures
            r.address == address,
            r.token_balances@.len() == outcomes@.len(),
            forall|i: int|
                0 <= i < outcomes@.len() ==> is_token_balance(
                    #[trigger] r.token_balances@[i],
                    address,
                    outcomes@[i],
                    self.oversized(),
                ),
    {
        let ghost all = outcomes@;
        let mut token_balances: Vec<TokenBalance> = Vec::new();
        for outcome in iter: outcomes.into_iter()
            invariant
                iter.seq() == all,
                token_balances@.len() == iter.index(),
                forall|i: int|
                    0 <= i < iter.index() ==> is_token_balance(
                        #[trigger] token_balances@[i],
                        address,
                        all[i],
                        self.oversized(),
                    ),
        {
            let entry = self.token_balance(address, outcome);
            token_balances.push(entry);
        }
        TokenBalances { address, token_balances }
    }
}

/// Each entry of a batch depends on its own lookup alone: where two batches for one account
/// have the same outcome at a place, their entries at that place report the same balance and
/// the same error, whatever the other lookups came to.
pub proof fn lemma_batch_isolation(
    address: Address,
    first: TokenBalance,
    second: TokenBalance,
    outcome: Result<Vec<Felt>, EthApiError>,
    oversized: Oversized,
)
    requires
        is_token_balance(first, address, outcome, oversized),
        is_token_balance(second, address, outcome, oversized),
    ensures
        first.contract_address == second.contract_address,
        first.error == second.error,
        first.token_balance is Some <==> second.token_balance is Some,
        first.token_balance is Some ==> first.token_balance.unwrap() == second.token_balance.unwrap(),
        first.token_balance is Some <==> first.error is None,
        outcome is Err ==> first.token_balance is None && first.error == Some(outcome->Err_0),
{
    if first.token_balance is Some {
        let a = first.token_balance.unwrap();
        let b = second.token_balance.unwrap();
        lemma_be_value_injective(a@, b@);
        assert(a.bytes =~= b.bytes);
    }
}

impl KakarotClient {
    /// The nonce of an account, from the outcome of asking the ledger for it. A failure of the
    /// lookup is passed on.
    pub fn nonce(&self, outcome: Result<Felt, EthApiError>) -> (r: Result<U256, EthApiError>)
        ensures
            outcome matches Err(e) ==> r == Err::<U256, EthApiError>(e),
            outcome matches Ok(nonce) ==> (r matches Ok(n) && n@ == nonce@),
    {
        match outcome {
            Ok(nonce) => Ok(U256::from_felt(&nonce)),
            Err(e) => Err(e),
        }
    }

    /// The base fee: a fixed amount.
    pub fn base_fee_per_gas(&self) -> (r: U256)
        ensures
            r.value() == BASE_FEE_PER_GAS,
    {
        U256::from_u64(BASE_FEE_PER_GAS)
    }

    /// The tip to offer: a fixed amount, the smallest there is.
    pub fn max_priority_fee_per_gas(&self) -> (r: u128)
        ensures
            r == MAX_PRIORITY_FEE_PER_GAS,
    {
        MAX_PRIORITY_FEE_PER_GAS
    }

    /// The fees of the `block_count` blocks that end with `newest_block`: the fixed base fee
    /// for each of them and for the block after them, the fixed share of gas used for each, and
    /// no tips. The range starts at `newest_block - block_count`.
    pub fn fee_history(&self, block_count: u64, newest_block: u64) -> (r: FeeHistory)
        requires
            block_count <= newest_block,
            block_count < usize::MAX,
        ensures
            r.base_fee_per_gas@.len() == block_count + 1,
            forall|i: int|
                0 <= i < r.base_fee_per_gas@.len() ==> (#[trigger] r.base_fee_per_gas@[i]).value()
                    == BASE_FEE_PER_GAS,
            r.gas_used_ratio_percent@.len() == block_count,
            forall|i: int|
                0 <= i < r.gas_used_ratio_percent@.len() ==> #[trigger] r.gas_used_ratio_percent@[i]
                    == GAS_USED_RATIO_PERCENT,
            r.oldest_block.value() == newest_block - block_count,
            r.reward is None,
    {
        let base_fee = self.base_fee_per_gas();
        let mut base_fee_per_gas: Vec<U256> = Vec::new();
        let mut gas_used_ratio_percent: Vec<u8> = Vec::new();
        let mut i: u64 = 0;
        while i < block_count
            invariant
                i <= block_count,
                base_fee.value() == BASE_FEE_PER_GAS,
                base_fee_per_gas@.len() == i,
                gas_used_ratio_percent@.len() == i,
                forall|j: int|
                    0 <= j < i ==> (#[trigger] base_fee_per_gas@[j]).value() == BASE_FEE_PER_GAS,
                forall|j: int|
                    0 <= j < i ==> #[trigger] gas_used_ratio_percent@[j] == GAS_USED_RATIO_PERCENT,
            decreases block_count - i,
        {
            base_fee_per_gas.push(base_fee);
            gas_used_ratio_percent.push(GAS_USED_RATIO_PERCENT);
            i += 1;
        }
        base_fee_per_gas.push(base_fee);
        FeeHistory {
            base_fee_per_gas,
            gas_used_ratio_percent,
            oldest_block: U256::from_u64(newest_block - block_count),
            reward: None,
        }
    }

    /// The gas that a call would use. Nothing estimates it.
    pub fn estimate_gas(&self) -> (r: Result<U256, EthApiError>)
        ensures
            r == Err::<U256, EthApiError>(EthApiError::NotSupported(Operation::EstimateGas)),
    {
        Err(EthApiError::NotSupported(Operation::EstimateGas))
    }
}

} // verus!
