//! Accounts of the two models, mapped onto each other.

use crate::big_endian::zeros;
use crate::client::KakarotClient;
use crate::errors::{EthApiError, Operation};
use crate::felt::Felt;
use crate::primitives::Address;
use crate::provider::{FunctionCall, ProviderCall, StarknetBlockId};
use crate::selectors::Entrypoint;
use vstd::prelude::*;

verus! {

/// Whether `call` asks the interpreter at `kakarot_address`, at the block `block_id`, for the
/// native account of the Ethereum address `address`.
pub open spec fn is_resolution_call(
    call: ProviderCall,
    kakarot_address: Felt,
    address: Seq<u8>,
    block_id: StarknetBlockId,
) -> bool {
    &&& call.request.calldata@.len() == 1
    &&& call.request.calldata@[0]@ == zeros(12) + address
    &&& call.is_call(
        kakarot_address,
        Entrypoint::ComputeStarknetAddress,
        call.request.calldata@,
        block_id,
    )
}

/// The block at which an Ethereum address is being resolved. What is asked of the resolved
/// account afterwards is asked at this block, since another block may map the address onto
/// another account.
#[derive(Clone, Copy, Debug, PartialEq, Eq)]
pub struct Resolution {
    block_id: StarknetBlockId,
}

impl Resolution {
    /// The block of the resolution.
    pub closed spec fn spec_block_id(&self) -> StarknetBlockId {
        self.block_id
    }

    /// The block of the resolution.
    #[verifier::when_used_as_spec(spec_block_id)]
    pub fn block_id(&self) -> (r: StarknetBlockId)
        ensures
            r == self.spec_block_id(),
    {
        self.block_id
    }
}

/// The low 20 bytes of a field element: what is left of a native account where no Ethereum
/// address is known for it.
pub open spec fn truncated(native: Felt) -> Seq<u8> {
    native@.subrange(12, 32)
}

/// The Ethereum address that the answer of an account contract's `get_evm_address` gives:
/// the low 20 bytes of its first element, where the call went through and answered at all.
pub open spec fn evm_address_in(outcome: Result<Vec<Felt>, EthApiError>) -> Option<Seq<u8>> {
    match outcome {
        Ok(felts) => if felts@.len() > 0 {
            Some(truncated(felts@[0]))
        } else {
            None
        },
        Err(_) => None,
    }
}

impl KakarotClient {
    /// The call that asks the interpreter for the native account of an Ethereum address.
    pub fn compute_starknet_address_request(
        &self,
        ethereum_address: &Address,
        starknet_block_id: &StarknetBlockId,
    ) -> (r: ProviderCall)
        ensures
            is_resolution_call(
                r,
                self.kakarot_address(),
                ethereum_address@,
                *starknet_block_id,
            ),
    {
        let mut calldata: Vec<Felt> = Vec::new();
        calldata.push(Felt::from_address(ethereum_address));
        ProviderCall {
            request: FunctionCall {
                contract_address: self.kakarot_address(),
                entry_point_selector: Entrypoint::ComputeStarknetAddress.selector(),
                calldata,
            },
            block_id: *starknet_block_id,
        }
    }

    /// The first step of a question about an Ethereum account: the call that resolves its
    /// native account, and the block to ask the account at.
    pub fn resolve(&self, ethereum_address: &Address, starknet_block_id: &StarknetBlockId) -> (r: (
        Resolution,
        ProviderCall,
    ))
        ensures
            r.0.block_id() == *starknet_block_id,
            is_resolution_call(
                r.1,
                self.kakarot_address(),
                ethereum_address@,
                *starknet_block_id,
            ),
    {
        (
            Resolution { block_id: *starknet_block_id },
            self.compute_starknet_address_request(ethereum_address, starknet_block_id),
        )
    }

    /// The native account in the interpreter's answer: its first element. An answer without
    /// elements resolves nothing; a failure of the call is passed on.
    pub fn compute_starknet_address(&self, outcome: Result<Vec<Felt>, EthApiError>) -> (r: Result<
        Felt,
        EthApiError,
    >)
        ensures
            outcome matches Err(e) ==> r == Err::<Felt, EthApiError>(e),
            outcome matches Ok(felts) ==> r == if felts@.len() > 0 {
                Ok::<Felt, EthApiError>(felts@[0])
            } else {
                Err::<Felt, EthApiError>(
                    EthApiError::TranslationError(Operation::ComputeStarknetAddress),
                )
            },
    {
        match outcome {
            Ok(felts) => {
                if felts.len() > 0 {
                    Ok(felts[0])
                } else {
                    Err(EthApiError::TranslationError(Operation::ComputeStarknetAddress))
                }
            },
            Err(e) => Err(e),
        }
    }

    /// The call that asks an account contract for the Ethereum address that it stands for.
    pub fn get_evm_address_request(
        &self,
        starknet_address: &Felt,
        starknet_block_id: &StarknetBlockId,
    ) -> (r: ProviderCall)
        ensures
            r.is_call(
                *starknet_address,
                Entrypoint::GetEvmAddress,
                Seq::empty(),
                *starknet_block_id,
            ),
    {
        ProviderCall {
            request: FunctionCall {
                contract_address: *starknet_address,
                entry_point_selector: Entrypoint::GetEvmAddress.selector(),
                calldata: Vec::new(),
            },
            block_id: *starknet_block_id,
        }
    }

    /// The Ethereum address in an account contract's answer: the low 20 bytes of its first
    /// element. An answer without elements resolves nothing; a failure of the call is passed
    /// on.
    pub fn get_evm_address(&self, outcome: Result<Vec<Felt>, EthApiError>) -> (r: Result<
        Address,
        EthApiError,
    >)
        ensures
            outcome matches Err(e) ==> r == Err::<Address, EthApiError>(e),
            outcome matches Ok(felts) && felts@.len() == 0 ==> r == Err::<Address, EthApiError>(
                EthApiError::TranslationError(Operation::GetEvmAddress),
            ),
            r is Ok <==> evm_address_in(outcome) is Some,
            r matches Ok(address) ==> Some(address@) == evm_address_in(outcome),
    {
        match outcome {
            Ok(felts) => {
                if felts.len() > 0 {
                    Ok(felts[0].to_address())
                } else {
                    Err(EthApiError::TranslationError(Operation::GetEvmAddress))
                }
            },
            Err(e) => Err(e),
        }
    }

    /// The Ethereum address of a native account, whatever the outcome of asking its contract:
    /// the address that the contract answered, else the low 20 bytes of the account itself.
    pub fn safe_get_evm_address(
        &self,
        starknet_address: &Felt,
        outcome: Result<Vec<Felt>, EthApiError>,
    ) -> (r: Address)
        ensures
            r@ == match evm_address_in(outcome) {
                Some(address) => address,
                None => truncated(*starknet_address),
            },
    {
        match self.get_evm_address(outcome) {
            Ok(address) => address,
            Err(_) => starknet_address.to_address(),
        }
    }
}

} // verus!
