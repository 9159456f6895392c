//! Field elements of the native ledger.

use crate::big_endian::{
    be32_from_u64, be32_to_u64, be_less, be_value, lemma_be_value_bound, lemma_be_value_concat,
    lemma_be_value_left_pad, lemma_be_value_single, lemma_be_value_zeros, zeros,
};
use crate::primitives::Address;
use vstd::arithmetic::power2::*;
use vstd::prelude::*;

verus! {

/// The prime of the native ledger's field: `2^251 + 17 * 2^192 + 1`.
pub open spec fn field_prime() -> nat {
    pow2(251) + 17 * pow2(192) + 1
}

/// The 32 big-endian bytes of the field's prime.
fn prime_bytes() -> (r: [u8; 32])
    ensures
        be_value(r@) == field_prime(),
{
    let mut r = [0u8; 32];
    r[0] = 0x08;
    r[7] = 0x11;
    r[31] = 0x01;
    proof {
        lemma_layout(r@, 1);
    }
    r
}

/// The value of a 32-byte string that is zero but for `8` in front, `17` at place 7 and
/// `last` at the end.
proof fn lemma_layout(s: Seq<u8>, last: u8)
    requires
        s.len() == 32,
        s[0] == 8,
        s[7] == 17,
        s[31] == last,
        forall|i: int| 0 <= i < 32 && i != 0 && i != 7 && i != 31 ==> s[i] == 0,
    ensures
        be_value(s) == pow2(251) + 17 * pow2(192) + last,
{
    let rest = s.subrange(1, 32);
    let middle = s.subrange(7, 32);
    let low = s.subrange(8, 32);
    assert(s =~= seq![8u8] + rest);
    assert(rest =~= zeros(6) + middle);
    assert(middle =~= seq![17u8] + low);
    assert(low =~= zeros(23) + seq![last]);
    lemma_be_value_single(8);
    lemma_be_value_single(17);
    lemma_be_value_single(last);
    lemma_be_value_concat(seq![8u8], rest);
    lemma_be_value_left_pad(6, middle);
    lemma_be_value_concat(seq![17u8], low);
    lemma_be_value_left_pad(23, seq![last]);
    lemma_pow2_adds(3, 248);
    lemma2_to64();
}

/// A field element, held as the 32 big-endian bytes of a number below the field's prime.
#[derive(Clone, Copy, Debug, PartialEq, Eq, Hash)]
pub struct Felt {
    bytes: [u8; 32],
}

impl View for Felt {
    type V = Seq<u8>;

    closed spec fn view(&self) -> Seq<u8> {
        self.bytes@
    }
}

impl Felt {
    #[verifier::type_invariant]
    spec fn in_field(self) -> bool {
        be_value(self.bytes@) < field_prime()
    }

    /// The number that the element stands for.
    pub open spec fn value(self) -> nat {
        be_value(self@)
    }

    /// Every element is 32 bytes wide.
    pub proof fn lemma_width(self)
        ensures
            self@.len() == 32,
    {
    }

    /// Every element lies below the prime. Calling this tells the verifier so of `self`; it
    /// does nothing when run.
    pub fn in_field_witness(&self)
        ensures
            self.value() < field_prime(),
    {
        proof {
            use_type_invariant(self);
        }
    }

    /// The element zero.
    pub fn zero() -> (r: Felt)
        ensures
            r.value() == 0,
            r@ == zeros(32),
    {
        let bytes = [0u8; 32];
        proof {
            assert(bytes@ =~= zeros(32));
            lemma_be_value_zeros(32);
            lemma_pow2_pos(251);
        }
        Felt { bytes }
    }

    /// The largest element, one below the prime.
    pub fn max() -> (r: Felt)
        ensures
            r.value() == field_prime() - 1,
    {
        let mut bytes = [0u8; 32];
        bytes[0] = 0x08;
        bytes[7] = 0x11;
        proof {
            lemma_layout(bytes@, 0);
        }
        Felt { bytes }
    }

    /// The element that the 32 big-endian bytes denote, where they denote a number below the
    /// prime.
    pub fn from_bytes_be(bytes: [u8; 32]) -> (r: Option<Felt>)
        ensures
            r is Some <==> be_value(bytes@) < field_prime(),
            r is Some ==> r.unwrap()@ == bytes@,
    {
        let prime = prime_bytes();
        if be_less(&bytes, &prime) {
            Some(Felt { bytes })
        } else {
            None
        }
    }

    /// The element that the 32 big-endian bytes denote, for bytes whose first is below 8: those
    /// denote a number below `2^251`.
    pub fn from_bytes_below(bytes: [u8; 32]) -> (r: Felt)
        requires
            bytes@[0] < 8,
        ensures
            r@ == bytes@,
    {
        proof {
            let tail = bytes@.subrange(1, 32);
            assert(bytes@ =~= seq![bytes@[0]] + tail);
            lemma_be_value_concat(seq![bytes@[0]], tail);
            lemma_be_value_single(bytes@[0]);
            lemma_be_value_bound(tail);
            lemma_pow2_adds(3, 248);
            lemma2_to64();
            lemma_pow2_pos(192);
            let p = pow2(248);
            let head = bytes@[0] as nat;
            assert(head * p + p <= 8 * p) by (nonlinear_arith)
                requires
                    head < 8,
            ;
        }
        Felt { bytes }
    }

    /// The element that stands for `v`.
    pub fn from_u64(v: u64) -> (r: Felt)
        ensures
            r.value() == v,
    {
        let bytes = be32_from_u64(v);
        proof {
            lemma2_to64();
            lemma_pow2_strictly_increases(64, 251);
            lemma_pow2_pos(192);
        }
        Felt { bytes }
    }

    /// The element that stands for the byte `b`: 31 zero bytes, then `b`.
    pub fn from_u8(b: u8) -> (r: Felt)
        ensures
            r.value() == b,
            r@ == zeros(31).push(b),
    {
        let mut bytes = [0u8; 32];
        bytes[31] = b;
        proof {
            assert(bytes@ =~= zeros(31).push(b));
            assert(bytes@ =~= zeros(31) + seq![b]);
            lemma_be_value_left_pad(31, seq![b]);
            lemma_be_value_single(b);
            lemma2_to64();
            lemma_pow2_strictly_increases(8, 251);
            lemma_pow2_pos(192);
        }
        Felt { bytes }
    }

    /// The element that stands for an address: 12 zero bytes, then the address.
    pub fn from_address(address: &Address) -> (r: Felt)
        ensures
            r@ == zeros(12) + address@,
            r.value() == be_value(address@),
    {
        let mut bytes = [0u8; 32];
        let mut i: usize = 0;
        while i < 20
            invariant
                i <= 20,
                forall|j: int| 0 <= j < 12 ==> bytes@[j] == 0u8,
                forall|j: int| 12 <= j < 12 + i ==> bytes@[j] == address.bytes@[j - 12],
            decreases 20 - i,
        {
            bytes[12 + i] = address.bytes[i];
            i += 1;
        }
        proof {
            assert(bytes@ =~= zeros(12) + address@);
            lemma_be_value_left_pad(12, address@);
            lemma_be_value_bound(address@);
            lemma_pow2_strictly_increases(160, 251);
            lemma_pow2_pos(192);
        }
        Felt { bytes }
    }

    /// The address in the low 20 bytes of the element. The 12 bytes in front are dropped.
    pub fn to_address(&self) -> (r: Address)
        ensures
            r@ == self@.subrange(12, 32),
    {
        let mut bytes = [0u8; 20];
        let mut i: usize = 0;
        while i < 20
            invariant
                i <= 20,
                forall|j: int| 0 <= j < i ==> bytes@[j] == self.bytes@[j + 12],
            decreases 20 - i,
        {
            bytes[i] = self.bytes[12 + i];
            i += 1;
        }
        assert(bytes@ =~= self.bytes@.subrange(12, 32));
        Address { bytes }
    }

    /// The element that stands for the length `n`.
    pub fn from_usize(n: usize) -> (r: Felt)
        ensures
            r.value() == n,
    {
        Felt::from_u64(n as u64)
    }

    /// The number that the element stands for, where it fits in 64 bits.
    pub fn to_u64(&self) -> (r: Option<u64>)
        ensures
            r is Some <==> self.value() <= u64::MAX,
            r is Some ==> r.unwrap() == self.value(),
    {
        be32_to_u64(&self.bytes)
    }

    /// The number that the element stands for, where it fits in one byte.
    pub fn to_u8(&self) -> (r: Option<u8>)
        ensures
            r is Some <==> self.value() <= 255,
            r is Some ==> r.unwrap() == self.value(),
    {
        match be32_to_u64(&self.bytes) {
            Some(v) => if v <= 255 {
                Some(v as u8)
            } else {
                None
            },
            None => None,
        }
    }

    /// The number that the element stands for, where it fits in a `usize`.
    pub fn to_usize(&self) -> (r: Option<usize>)
        ensures
            r is Some <==> self.value() <= usize::MAX,
            r is Some ==> r.unwrap() == self.value(),
    {
        match be32_to_u64(&self.bytes) {
            Some(v) => if v <= usize::MAX as u64 {
                Some(v as usize)
            } else {
                None
            },
            None => None,
        }
    }

    /// Whether the element is zero.
    pub fn is_zero(&self) -> (r: bool)
        ensures
            r == (self.value() == 0),
    {
        match be32_to_u64(&self.bytes) {
            Some(v) => v == 0,
            None => false,
        }
    }

    /// The 32 big-endian bytes of the element.
    pub fn to_bytes_be(&self) -> (r: [u8; 32])
        ensures
            r@ == self@,
    {
        self.bytes
    }

    /// Whether two elements are the same number.
    pub fn is_equal(&self, other: &Felt) -> (r: bool)
        ensures
            r == (self@ == other@),
            r == (*self == *other),
    {
        let mut i: usize = 0;
        while i < 32
            invariant
                i <= 32,
                forall|j: int| 0 <= j < i ==> self.bytes@[j] == other.bytes@[j],
            decreases 32 - i,
        {
            if self.bytes[i] != other.bytes[i] {
                return false;
            }
            i += 1;
        }
        assert(self.bytes@ =~= other.bytes@);
        assert(self.bytes =~= other.bytes);
        true
    }
}

/// The 32 bytes of each element, one element after the other.
pub open spec fn concat_bytes(felts: Seq<Felt>) -> Seq<u8>
    decreases felts.len(),
{
    if felts.len() == 0 {
        Seq::empty()
    } else {
        concat_bytes(felts.drop_last()) + felts.last()@
    }
}

/// The 32 bytes of each element, one element after the other.
pub fn felts_to_bytes(felts: &Vec<Felt>) -> (r: Vec<u8>)
    ensures
        r@ == concat_bytes(felts@),
{
    let mut out: Vec<u8> = Vec::new();
    let mut i: usize = 0;
    while i < felts.len()
        invariant
            i <= felts.len(),
            out@ == concat_bytes(felts@.subrange(0, i as int)),
        decreases felts.len() - i,
    {
        let bytes = felts[i].to_bytes_be();
        let ghost before = out@;
        let mut j: usize = 0;
        while j < 32
            invariant
                j <= 32,
                bytes@.len() == 32,
                out@ == before + bytes@.subrange(0, j as int),
            decreases 32 - j,
        {
            out.push(bytes[j]);
            assert(bytes@.subrange(0, j + 1) =~= bytes@.subrange(0, j as int).push(bytes@[j as int]));
            j += 1;
        }
        proof {
            assert(bytes@.subrange(0, 32) =~= bytes@);
            assert(felts@.subrange(0, i + 1).drop_last() =~= felts@.subrange(0, i as int));
        }
        i += 1;
    }
    assert(felts@.subrange(0, felts.len() as int) =~= felts@);
    out
}

/// Two elements with the same bytes are the same element.
pub proof fn lemma_felt_equal(a: Felt, b: Felt)
    requires
        a@ == b@,
    ensures
        a == b,
{
    assert(a.bytes =~= b.bytes);
}

/// An address comes back unchanged from the element that stands for it.
pub proof fn lemma_address_round_trip(address: Seq<u8>)
    requires
        address.len() == 20,
    ensures
        (zeros(12) + address).subrange(12, 32) == address,
{
    assert((zeros(12) + address).subrange(12, 32) =~= address);
}

} // verus!
