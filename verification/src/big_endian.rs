//! Big-endian byte strings as numbers.

use vstd::arithmetic::power2::*;
use vstd::prelude::*;

verus! {

/// The number that a byte string denotes when it is read most significant byte first.
pub open spec fn be_value(s: Seq<u8>) -> nat
    decreases s.len(),
{
    if s.len() == 0 {
        0
    } else {
        be_value(s.drop_last()) * 256 + s.last() as nat
    }
}

/// A byte string of `n` bytes denotes a number below `2^(8n)`.
pub proof fn lemma_be_value_bound(s: Seq<u8>)
    ensures
        be_value(s) < pow2(8 * s.len()),
    decreases s.len(),
{
    if s.len() == 0 {
        lemma2_to64();
    } else {
        lemma_be_value_bound(s.drop_last());
        lemma_pow2_adds(8 * s.drop_last().len(), 8);
        lemma2_to64();
        let p = pow2(8 * s.drop_last().len());
        let v = be_value(s.drop_last());
        assert(v * 256 + 255 < p * 256) by (nonlinear_arith)
            requires
                v < p,
        ;
    }
}

/// A single byte denotes itself.
pub proof fn lemma_be_value_single(b: u8)
    ensures
        be_value(seq![b]) == b as nat,
{
    assert(seq![b].drop_last() =~= Seq::<u8>::empty());
    assert(be_value(Seq::<u8>::empty()) == 0);
}

/// Reading `a` followed by `b` shifts `a` left by the width of `b`.
pub proof fn lemma_be_value_concat(a: Seq<u8>, b: Seq<u8>)
    ensures
        be_value(a + b) == be_value(a) * pow2(8 * b.len()) + be_value(b),
    decreases b.len(),
{
    if b.len() == 0 {
        assert(a + b =~= a);
        lemma2_to64();
        assert(be_value(a) * 1 == be_value(a)) by (nonlinear_arith);
    } else {
        let front = b.drop_last();
        assert((a + b).drop_last() =~= a + front);
        assert((a + b).last() == b.last());
        lemma_be_value_concat(a, front);
        lemma_pow2_adds(8 * front.len(), 8);
        lemma2_to64();
        let p = pow2(8 * front.len());
        let va = be_value(a);
        let vf = be_value(front);
        assert(8 * b.len() == 8 * front.len() + 8);
        assert(pow2(8 * b.len()) == p * 256);
        assert((va * p + vf) * 256 == va * (p * 256) + vf * 256) by (nonlinear_arith);
    }
}

/// The byte string of `n` zero bytes.
pub open spec fn zeros(n: nat) -> Seq<u8> {
    Seq::new(n, |i: int| 0u8)
}

/// Zero bytes denote zero.
pub proof fn lemma_be_value_zeros(n: nat)
    ensures
        be_value(zeros(n)) == 0,
    decreases n,
{
    if n > 0 {
        assert(zeros(n).drop_last() =~= zeros((n - 1) as nat));
        lemma_be_value_zeros((n - 1) as nat);
    }
}

/// Zero bytes in front of a byte string leave its value unchanged.
pub proof fn lemma_be_value_left_pad(n: nat, s: Seq<u8>)
    ensures
        be_value(zeros(n) + s) == be_value(s),
{
    lemma_be_value_concat(zeros(n), s);
    lemma_be_value_zeros(n);
    assert(0 * pow2(8 * s.len()) == 0) by (nonlinear_arith);
}

/// A byte string whose first byte is not zero denotes at least `2^(8(n-1))`.
pub proof fn lemma_be_value_lower_bound(s: Seq<u8>)
    requires
        s.len() >= 1,
        s[0] != 0,
    ensures
        be_value(s) >= pow2((8 * (s.len() - 1)) as nat),
{
    let head = s.subrange(0, 1);
    let tail = s.subrange(1, s.len() as int);
    assert(s =~= head + tail);
    lemma_be_value_concat(head, tail);
    assert(head.drop_last() =~= Seq::<u8>::empty());
    assert(be_value(head.drop_last()) == 0);
    assert(be_value(head) == s[0] as nat);
    let p = pow2(8 * tail.len());
    let h = be_value(head);
    assert(h * p >= p) by (nonlinear_arith)
        requires
            h >= 1,
            p >= 0,
    ;
}

/// Two byte strings of one length that denote one number are the same string.
pub proof fn lemma_be_value_injective(a: Seq<u8>, b: Seq<u8>)
    requires
        a.len() == b.len(),
        be_value(a) == be_value(b),
    ensures
        a == b,
    decreases a.len(),
{
    if a.len() > 0 {
        let va = be_value(a.drop_last());
        let vb = be_value(b.drop_last());
        let la = a.last() as nat;
        let lb = b.last() as nat;
        assert(va == vb && la == lb) by (nonlinear_arith)
            requires
                va * 256 + la == vb * 256 + lb,
                la < 256,
                lb < 256,
        ;
        lemma_be_value_injective(a.drop_last(), b.drop_last());
        assert(a =~= a.drop_last().push(a.last()));
        assert(b =~= b.drop_last().push(b.last()));
    } else {
        assert(a =~= b);
    }
}

/// Of two byte strings of one length, the one with the smaller byte at the first place where
/// they differ denotes the smaller number.
pub proof fn lemma_be_value_first_difference(a: Seq<u8>, b: Seq<u8>, k: int)
    requires
        a.len() == b.len(),
        0 <= k < a.len(),
        a.subrange(0, k) == b.subrange(0, k),
        a[k] < b[k],
    ensures
        be_value(a) < be_value(b),
{
    let n = a.len() as int;
    let head_a = a.subrange(0, k + 1);
    let head_b = b.subrange(0, k + 1);
    let tail_a = a.subrange(k + 1, n);
    let tail_b = b.subrange(k + 1, n);
    assert(a =~= head_a + tail_a);
    assert(b =~= head_b + tail_b);
    lemma_be_value_concat(head_a, tail_a);
    lemma_be_value_concat(head_b, tail_b);
    lemma_be_value_bound(tail_a);
    assert(head_a.drop_last() =~= a.subrange(0, k));
    assert(head_b.drop_last() =~= b.subrange(0, k));
    let p = pow2(8 * tail_a.len());
    let ha = be_value(head_a);
    let hb = be_value(head_b);
    let ta = be_value(tail_a);
    assert(ha * p + ta < hb * p) by (nonlinear_arith)
        requires
            ha < hb,
            ta < p,
    ;
}

/// Whether the first of two 32-byte strings denotes the smaller number.
pub fn be_less(a: &[u8; 32], b: &[u8; 32]) -> (r: bool)
    ensures
        r == (be_value(a@) < be_value(b@)),
{
    let mut i: usize = 0;
    while i < 32
        invariant
            i <= 32,
            a@.subrange(0, i as int) == b@.subrange(0, i as int),
        decreases 32 - i,
    {
        if a[i] < b[i] {
            proof {
                lemma_be_value_first_difference(a@, b@, i as int);
            }
            return true;
        }
        if a[i] > b[i] {
            proof {
                lemma_be_value_first_difference(b@, a@, i as int);
            }
            return false;
        }
        assert(a@.subrange(0, i + 1) =~= a@.subrange(0, i as int).push(a@[i as int]));
        assert(b@.subrange(0, i + 1) =~= b@.subrange(0, i as int).push(b@[i as int]));
        i += 1;
    }
    assert(a@ =~= a@.subrange(0, 32));
    assert(b@ =~= b@.subrange(0, 32));
    false
}

/// The 32-byte string that denotes `v`.
pub fn be32_from_u64(v: u64) -> (r: [u8; 32])
    ensures
        be_value(r@) == v,
        r@.subrange(0, 24) == zeros(24),
{
    let mut r = [0u8; 32];
    let mut x: u64 = v;
    let mut i: usize = 0;
    proof {
        lemma2_to64();
        assert(r@.subrange(32, 32) =~= Seq::<u8>::empty());
        assert(x * 1 == x) by (nonlinear_arith);
    }
    while i < 8
        invariant
            i <= 8,
            r@.subrange(0, 32 - i) == zeros((32 - i) as nat),
            x * pow2(8 * i as nat) + be_value(r@.subrange(32 - i, 32)) == v,
        decreases 8 - i,
    {
        let ghost low = r@.subrange(32 - i, 32);
        let ghost before = r@;
        let ghost old_x = x;
        let byte: u8 = (x % 256) as u8;
        r[31 - i] = byte;
        x = x / 256;
        proof {
            let next = r@.subrange(31 - i, 32);
            assert(next =~= seq![byte] + low);
            lemma_be_value_concat(seq![byte], low);
            lemma_be_value_single(byte);
            lemma_pow2_adds(8 * i as nat, 8);
            lemma2_to64();
            let p = pow2(8 * i as nat);
            assert(pow2(8 * (i + 1) as nat) == p * 256);
            assert(old_x == x * 256 + byte);
            assert(x * (p * 256) + byte * p == old_x * p) by (nonlinear_arith)
                requires
                    old_x == x * 256 + byte,
            ;
            assert forall|j: int| 0 <= j < 31 - i implies r@[j] == 0u8 by {
                assert(before.subrange(0, 32 - i)[j] == zeros((32 - i) as nat)[j]);
            }
            assert(r@.subrange(0, 32 - (i + 1)) =~= zeros((32 - (i + 1)) as nat));
        }
        i += 1;
    }
    proof {
        lemma2_to64();
        lemma_be_value_bound(r@.subrange(24, 32));
        let low = be_value(r@.subrange(24, 32));
        assert(x == 0) by (nonlinear_arith)
            requires
                x * 0x1_0000_0000_0000_0000 + low == v,
                v < 0x1_0000_0000_0000_0000,
                low >= 0,
                x >= 0,
        ;
        assert(r@ =~= zeros(24) + r@.subrange(24, 32));
        lemma_be_value_left_pad(24, r@.subrange(24, 32));
    }
    r
}

/// A byte string with a byte that is not zero at place `k` denotes at least `2^(8(n-1-k))`.
pub proof fn lemma_be_value_nonzero_at(s: Seq<u8>, k: int)
    requires
        0 <= k < s.len(),
        s[k] != 0,
    ensures
        be_value(s) >= pow2((8 * (s.len() - 1 - k)) as nat),
{
    let head = s.subrange(0, k);
    let tail = s.subrange(k, s.len() as int);
    assert(s =~= head + tail);
    lemma_be_value_concat(head, tail);
    lemma_be_value_lower_bound(tail);
    let p = pow2(8 * tail.len());
    let h = be_value(head);
    assert(h * p >= 0) by (nonlinear_arith)
        requires
            h >= 0,
            p >= 0,
    ;
}

/// The number that a 32-byte string denotes, where it fits in 64 bits.
pub fn be32_to_u64(a: &[u8; 32]) -> (r: Option<u64>)
    ensures
        r is Some <==> be_value(a@) <= u64::MAX,
        r is Some ==> r.unwrap() == be_value(a@),
{
    let mut k: usize = 0;
    while k < 24
        invariant
            k <= 24,
            a@.subrange(0, k as int) == zeros(k as nat),
        decreases 24 - k,
    {
        if a[k] != 0 {
            proof {
                lemma_be_value_nonzero_at(a@, k as int);
                lemma2_to64();
                if 31 - k > 8 {
                    lemma_pow2_strictly_increases(64, (8 * (31 - k)) as nat);
                }
            }
            return None;
        }
        assert(a@.subrange(0, k + 1) =~= zeros((k + 1) as nat)) by {
            assert forall|j: int| 0 <= j < k implies a@[j] == 0u8 by {
                assert(a@.subrange(0, k as int)[j] == zeros(k as nat)[j]);
            }
        }
        k += 1;
    }
    let mut acc: u64 = 0;
    let mut i: usize = 0;
    proof {
        lemma2_to64();
        assert(a@.subrange(24, 24) =~= Seq::<u8>::empty());
    }
    while i < 8
        invariant
            i <= 8,
            acc == be_value(a@.subrange(24, 24 + i)),
            acc < pow2(8 * i as nat),
        decreases 8 - i,
    {
        proof {
            lemma2_to64();
            lemma2_to64_rest();
            lemma_pow2_adds(8 * i as nat, 8);
            if i < 7 {
                lemma_pow2_strictly_increases(8 * (i + 1) as nat, 64);
            }
            let p = pow2(8 * i as nat);
            assert(acc * 256 + 255 < p * 256) by (nonlinear_arith)
                requires
                    acc < p,
            ;
            assert(a@.subrange(24, 24 + i + 1).drop_last() =~= a@.subrange(24, 24 + i));
        }
        acc = acc * 256 + a[24 + i] as u64;
        i += 1;
    }
    proof {
        lemma2_to64();
        assert(a@ =~= zeros(24) + a@.subrange(24, 32));
        lemma_be_value_left_pad(24, a@.subrange(24, 32));
    }
    Some(acc)
}

/// The 32-byte string that denotes the same number as `bytes`, where that number is below
/// `2^256`.
pub fn be_fit32(bytes: &Vec<u8>) -> (r: Option<[u8; 32]>)
    ensures
        r is Some <==> be_value(bytes@) < pow2(256),
        r is Some ==> be_value(r.unwrap()@) == be_value(bytes@),
{
    let n = bytes.len();
    let start: usize = if n > 32 {
        n - 32
    } else {
        0
    };
    let mut k: usize = 0;
    while k < start
        invariant
            k <= start,
            start + 32 == n || (start == 0 && n <= 32),
            n == bytes@.len(),
            bytes@.subrange(0, k as int) == zeros(k as nat),
        decreases start - k,
    {
        if bytes[k] != 0 {
            proof {
                lemma_be_value_nonzero_at(bytes@, k as int);
                if n - 1 - k > 32 {
                    lemma_pow2_strictly_increases(256, (8 * (n - 1 - k)) as nat);
                }
            }
            return None;
        }
        assert(bytes@.subrange(0, k + 1) =~= zeros((k + 1) as nat)) by {
            assert forall|j: int| 0 <= j < k implies bytes@[j] == 0u8 by {
                assert(bytes@.subrange(0, k as int)[j] == zeros(k as nat)[j]);
            }
        }
        k += 1;
    }
    let m: usize = n - start;
    let mut r = [0u8; 32];
    let mut j: usize = 0;
    while j < m
        invariant
            j <= m <= 32,
            m + start == n,
            n == bytes@.len(),
            forall|t: int| 0 <= t < 32 - m ==> r@[t] == 0u8,
            forall|t: int| 32 - m <= t < 32 - m + j ==> r@[t] == bytes@[t - (32 - m) + start],
        decreases m - j,
    {
        r[32 - m + j] = bytes[start + j];
        j += 1;
    }
    proof {
        let tail = bytes@.subrange(start as int, n as int);
        assert(bytes@ =~= zeros(start as nat) + tail);
        assert(r@ =~= zeros((32 - m) as nat) + tail);
        lemma_be_value_left_pad(start as nat, tail);
        lemma_be_value_left_pad((32 - m) as nat, tail);
        lemma_be_value_bound(r@);
    }
    Some(r)
}

} // verus!
