//! The entrypoints that the translation layer calls, and their selectors.

use crate::big_endian::be_value;
use crate::felt::Felt;
use vstd::arithmetic::power2::*;
use vstd::prelude::*;
use vstd::string::*;

verus! {

/// The 32 big-endian bytes of the selector that the native ledger gives to a function's name.
pub uninterp spec fn selector_bytes(name: Seq<char>) -> Seq<u8>;

/// `starknet::core::utils::get_selector_from_name`: the bytes of the selector of an ASCII name.
/// A selector is a hash cut to 250 bits. Which bytes it has is left to the crate.
#[verifier::external_body]
fn selector_from_name(name: &str) -> (r: [u8; 32])
    requires
        is_ascii(name),
    ensures
        r@ == selector_bytes(name@),
        be_value(r@) < pow2(250),
{
    starknet::core::utils::get_selector_from_name(name).unwrap().to_bytes_be()
}

/// An entrypoint that the translation layer calls.
#[derive(Clone, Copy, Debug, PartialEq, Eq, Hash)]
pub enum Entrypoint {
    /// Of the interpreter: the native account of an Ethereum address.
    ComputeStarknetAddress,
    /// Of an account contract: the Ethereum address that it stands for.
    GetEvmAddress,
    /// Of an account contract: the code of the Ethereum account.
    Bytecode,
    /// Of the interpreter: a call that changes nothing.
    EthCall,
    /// Of the native token contract: the balance of a native account.
    BalanceOf,
    /// Of the interpreter: the relay of a signed Ethereum transaction.
    EthSendTransaction,
}

impl Entrypoint {
    /// The name of the entrypoint.
    pub open spec fn spec_name(self) -> Seq<char> {
        match self {
            Entrypoint::ComputeStarknetAddress => "compute_starknet_address"@,
            Entrypoint::GetEvmAddress => "get_evm_address"@,
            Entrypoint::Bytecode => "bytecode"@,
            Entrypoint::EthCall => "eth_call"@,
            Entrypoint::BalanceOf => "balance_of"@,
            Entrypoint::EthSendTransaction => "eth_send_transaction"@,
        }
    }

    /// The name of the entrypoint.
    pub fn name(self) -> (r: &'static str)
        ensures
            r@ == self.spec_name(),
            is_ascii(r),
    {
        proof {
            reveal_strlit("compute_starknet_address");
            reveal_strlit("get_evm_address");
            reveal_strlit("bytecode");
            reveal_strlit("eth_call");
            reveal_strlit("balance_of");
            reveal_strlit("eth_send_transaction");
        }
        match self {
            Entrypoint::ComputeStarknetAddress => "compute_starknet_address",
            Entrypoint::GetEvmAddress => "get_evm_address",
            Entrypoint::Bytecode => "bytecode",
            Entrypoint::EthCall => "eth_call",
            Entrypoint::BalanceOf => "balance_of",
            Entrypoint::EthSendTransaction => "eth_send_transaction",
        }
    }

    /// The selector of the entrypoint.
    pub fn selector(self) -> (r: Felt)
        ensures
            r@ == selector_bytes(self.spec_name()),
    {
        let bytes = selector_from_name(self.name());
        proof {
            lemma_pow2_strictly_increases(250, 251);
            lemma_pow2_pos(192);
        }
        Felt::from_bytes_be(bytes).unwrap()
    }
}

} // verus!
