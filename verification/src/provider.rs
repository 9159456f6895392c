//! What the ledger's client is asked: calls of contracts, and the blocks to make them at.

use crate::felt::Felt;
use crate::selectors::{selector_bytes, Entrypoint};
use vstd::prelude::*;

verus! {

/// The block that a question to the ledger is about.
#[derive(Clone, Copy, Debug, PartialEq, Eq)]
pub enum StarknetBlockId {
    Hash(Felt),
    Number(u64),
    Latest,
    Pending,
}

/// A call of a contract's entrypoint.
#[derive(Clone, Debug, PartialEq, Eq)]
pub struct FunctionCall {
    pub contract_address: Felt,
    pub entry_point_selector: Felt,
    pub calldata: Vec<Felt>,
}

/// A call for the ledger's client to make, and the block to make it at.
#[derive(Clone, Debug, PartialEq, Eq)]
pub struct ProviderCall {
    pub request: FunctionCall,
    pub block_id: StarknetBlockId,
}

impl ProviderCall {
    /// Whether this is a call of `entrypoint` on `contract` at `block_id` with `calldata`.
    pub open spec fn is_call(
        self,
        contract: Felt,
        entrypoint: Entrypoint,
        calldata: Seq<Felt>,
        block_id: StarknetBlockId,
    ) -> bool {
        &&& self.request.contract_address == contract
        &&& self.request.entry_point_selector@ == selector_bytes(entrypoint.spec_name())
        &&& self.request.calldata@ == calldata
        &&& self.block_id == block_id
    }
}

} // verus!
