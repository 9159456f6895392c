//! The fixed-width values of the Ethereum-shaped model: addresses, hashes and quantities.

use crate::big_endian::{be32_from_u64, be_value};
use crate::errors::{EthApiError, Operation};
use crate::felt::{field_prime, Felt};
use vstd::prelude::*;

verus! {

/// A 20-byte account address.
#[derive(Clone, Copy, Debug, PartialEq, Eq, Hash)]
pub struct Address {
    pub bytes: [u8; 20],
}

impl View for Address {
    type V = Seq<u8>;

    open spec fn view(&self) -> Seq<u8> {
        self.bytes@
    }
}

/// A 32-byte hash.
#[derive(Clone, Copy, Debug, PartialEq, Eq, Hash)]
pub struct H256 {
    pub bytes: [u8; 32],
}

impl View for H256 {
    type V = Seq<u8>;

    open spec fn view(&self) -> Seq<u8> {
        self.bytes@
    }
}

impl H256 {
    /// The field element with the bytes of the hash. A hash that denotes no number below the
    /// field's prime names nothing on the ledger: that is a failure to translate, of
    /// `operation`.
    pub fn to_felt(&self, operation: Operation) -> (r: Result<Felt, EthApiError>)
        ensures
            r is Ok <==> be_value(self@) < field_prime(),
            r matches Ok(felt) ==> felt@ == self@,
            r matches Err(e) ==> e == EthApiError::TranslationError(operation),
    {
        match Felt::from_bytes_be(self.bytes) {
            Some(felt) => Ok(felt),
            None => Err(EthApiError::TranslationError(operation)),
        }
    }

    /// The hash with the bytes of a field element.
    pub fn from_felt(felt: &Felt) -> (r: H256)
        ensures
            r@ == felt@,
    {
        H256 { bytes: felt.to_bytes_be() }
    }
}

/// A 256-bit quantity, held as its 32 big-endian bytes.
#[derive(Clone, Copy, Debug, PartialEq, Eq, Hash)]
pub struct U256 {
    pub bytes: [u8; 32],
}

impl View for U256 {
    type V = Seq<u8>;

    open spec fn view(&self) -> Seq<u8> {
        self.bytes@
    }
}

impl U256 {
    /// The number that the quantity stands for.
    pub open spec fn value(self) -> nat {
        be_value(self@)
    }

    /// The quantity `v`.
    pub fn from_u64(v: u64) -> (r: U256)
        ensures
            r.value() == v,
    {
        U256 { bytes: be32_from_u64(v) }
    }

    /// The quantity that a field element stands for.
    pub fn from_felt(felt: &Felt) -> (r: U256)
        ensures
            r@ == felt@,
            r.value() == felt.value(),
    {
        U256 { bytes: felt.to_bytes_be() }
    }
}

} // verus!
