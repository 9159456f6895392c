//! Arithmetic on numbers of any size, done by `num_bigint`.

use crate::big_endian::be_value;
use num_bigint::BigUint;
use vstd::arithmetic::power::pow;
use vstd::prelude::*;

verus! {

/// Whether a byte string is the shortest that denotes its number: it has at least one byte, and
/// it starts with a zero byte only if that is its only byte.
pub open spec fn is_shortest(s: Seq<u8>) -> bool {
    s.len() >= 1 && (s.len() > 1 ==> s[0] != 0)
}

/// `BigUint::pow`, on `BigUint::from(base)`: the shortest big-endian bytes of `base` to the
/// power of `exponent`.
#[verifier::external_body]
pub(crate) fn big_pow(base: u128, exponent: u32) -> (r: Vec<u8>)
    requires
        exponent <= 1024,
    ensures
        be_value(r@) == pow(base as int, exponent as nat),
        is_shortest(r@),
{
    BigUint::from(base).pow(exponent).to_bytes_be()
}

/// `*` on `BigUint`: the shortest big-endian bytes of the product of the numbers that `a` and
/// `b` denote.
#[verifier::external_body]
pub(crate) fn big_mul(a: &[u8], b: &[u8]) -> (r: Vec<u8>)
    ensures
        be_value(r@) == be_value(a@) * be_value(b@),
        is_shortest(r@),
{
    (BigUint::from_bytes_be(a) * BigUint::from_bytes_be(b)).to_bytes_be()
}

/// `+` on `BigUint`: the shortest big-endian bytes of the sum of the numbers that `a` and `b`
/// denote.
#[verifier::external_body]
pub(crate) fn big_add(a: &[u8], b: &[u8]) -> (r: Vec<u8>)
    ensures
        be_value(r@) == be_value(a@) + be_value(b@),
        is_shortest(r@),
{
    (BigUint::from_bytes_be(a) + BigUint::from_bytes_be(b)).to_bytes_be()
}

} // verus!
