//! The canonical binary codec of the extension call interface.
//!
//! Fixed-width unsigned integers travel as little-endian bytes; an
//! address travels as its 32 raw bytes; a byte string travels behind a
//! compact length prefix whose low two bits of the first byte select
//! one of four modes. Encoding and decoding are verified inverses.

use vstd::prelude::*;
use vstd::arithmetic::div_mod::lemma_fundamental_div_mod;
use vstd::arithmetic::div_mod::lemma_div_denominator;

use crate::types::Address;

verus! {

/// `256^e`: the number of values that `e` bytes can denote.
pub open spec fn p256(e: nat) -> nat
    decreases e,
{
    if e == 0 {
        1
    } else {
        256 * p256((e - 1) as nat)
    }
}

/// The low `count` little-endian bytes of `x`.
pub open spec fn le_bytes(x: nat, count: nat) -> Seq<u8>
    decreases count,
{
    if count == 0 {
        Seq::empty()
    } else {
        seq![(x % 256) as u8] + le_bytes(x / 256, (count - 1) as nat)
    }
}

/// The value that a little-endian byte string denotes.
pub open spec fn from_le(s: Seq<u8>) -> nat
    decreases s.len(),
{
    if s.len() == 0 {
        0
    } else {
        (s[0] + 256 * from_le(s.drop_first())) as nat
    }
}

/// The powers of 256 at the widths the codec reads.
pub proof fn lemma_p256_wide()
    ensures
        p256(1) == 0x100,
        p256(2) == 0x10000,
        p256(4) == 0x100000000,
        p256(15) == 0x1000000000000000000000000000000,
        p256(16) == 0x100000000000000000000000000000000,
{
    reveal_with_fuel(p256, 17);
}

/// Powers of 256 grow with the exponent.
proof fn lemma_p256_increases(e1: nat, e2: nat)
    requires
        e1 <= e2,
    ensures
        p256(e1) <= p256(e2),
    decreases e2,
{
    if e1 < e2 {
        lemma_p256_increases(e1, (e2 - 1) as nat);
    }
}

/// A little-endian encoding has exactly the asked-for length.
pub proof fn lemma_le_bytes_len(x: nat, count: nat)
    ensures
        le_bytes(x, count).len() == count,
    decreases count,
{
    if count > 0 {
        lemma_le_bytes_len(x / 256, (count - 1) as nat);
    }
}

/// A little-endian byte string of length `n` denotes a value below `256^n`.
pub proof fn lemma_from_le_bound(s: Seq<u8>)
    ensures
        from_le(s) < p256(s.len()),
    decreases s.len(),
{
    if s.len() == 0 {
    } else {
        lemma_from_le_bound(s.drop_first());
    }
}

/// The low two bits of a little-endian value are those of its first
/// byte.
pub proof fn lemma_from_le_mod4(s: Seq<u8>)
    requires
        s.len() >= 1,
    ensures
        from_le(s) % 4 == s[0] % 4,
{
    vstd::arithmetic::div_mod::lemma_mod_multiples_vanish(
        64 * (from_le(s.drop_first()) as int),
        s[0] as int,
        4,
    );
    assert(4 * (64 * from_le(s.drop_first())) == 256 * from_le(s.drop_first()));
}

/// Decoding inverts encoding: the low `count` bytes of `x < 256^count`
/// denote `x` itself.
pub proof fn lemma_from_le_of_le_bytes(x: nat, count: nat)
    requires
        x < p256(count),
    ensures
        from_le(le_bytes(x, count)) == x,
    decreases count,
{
    if count == 0 {
    } else {
        lemma_fundamental_div_mod(x as int, 256);
        assert(x / 256 < p256((count - 1) as nat)) by (nonlinear_arith)
            requires
                x < 256 * p256((count - 1) as nat),
                0 <= x,
        ;
        lemma_from_le_of_le_bytes(x / 256, (count - 1) as nat);
        assert(le_bytes(x, count).drop_first() =~= le_bytes(x / 256, (count - 1) as nat));
    }
}

/// Encoding inverts decoding: a byte string of length `count` is the
/// encoding of the value it denotes.
pub proof fn lemma_le_bytes_of_from_le(s: Seq<u8>)
    ensures
        le_bytes(from_le(s), s.len()) == s,
    decreases s.len(),
{
    if s.len() == 0 {
        assert(le_bytes(from_le(s), s.len()) =~= s);
    } else {
        let v = from_le(s);
        assert(v == s[0] + 256 * from_le(s.drop_first()));
        assert(v % 256 == s[0] && v / 256 == from_le(s.drop_first())) by (nonlinear_arith)
            requires
                v == s[0] + 256 * from_le(s.drop_first()),
                0 <= s[0] < 256,
        ;
        lemma_le_bytes_of_from_le(s.drop_first());
        assert(le_bytes(v, s.len()) =~= s);
    }
}

/// Appending one more byte to a little-endian encoding.
pub proof fn lemma_le_bytes_snoc(x: nat, count: nat)
    ensures
        le_bytes(x, count + 1) == le_bytes(x, count).push(((x / p256(count)) % 256) as u8),
    decreases count,
{
    if count == 0 {
        assert(le_bytes(x / 256, 0) =~= Seq::<u8>::empty());
        assert(p256(0) == 1);
        assert(x / 1 == x);
        assert(le_bytes(x, 1) =~= le_bytes(x, 0).push((x % 256) as u8));
    } else {
        lemma_le_bytes_snoc(x / 256, (count - 1) as nat);
        lemma_p256_positive((count - 1) as nat);
        lemma_div_denominator(x as int, 256, p256((count - 1) as nat) as int);
        assert(le_bytes(x, count + 1) =~= le_bytes(x, count).push(
            ((x / p256(count)) % 256) as u8,
        ));
    }
}

/// Powers of 256 are positive.
proof fn lemma_p256_positive(e: nat)
    ensures
        p256(e) > 0,
    decreases e,
{
    if e > 0 {
        lemma_p256_positive((e - 1) as nat);
    }
}

/// Encodes the low `count` bytes of `x`, little-endian first.
pub fn le_encode(x: u128, count: usize) -> (r: Vec<u8>)
    ensures
        r@ == le_bytes(x as nat, count as nat),
        r@.len() == count,
{
    let mut r: Vec<u8> = Vec::new();
    let mut cur: u128 = x;
    let mut i: usize = 0;
    proof {
        assert(le_bytes(x as nat, 0) =~= r@);
        assert(p256(0) == 1);
        assert(x as nat / 1 == x as nat);
    }
    while i < count
        invariant
            0 <= i <= count,
            r@ == le_bytes(x as nat, i as nat),
            r@.len() == i,
            cur as nat == x as nat / p256(i as nat),
        decreases count - i,
    {
        proof {
            lemma_le_bytes_snoc(x as nat, i as nat);
            lemma_p256_positive(i as nat);
            lemma_div_denominator(x as int, p256(i as nat) as int, 256);
            assert(p256(i as nat) * 256 == 256 * p256(i as nat)) by (nonlinear_arith);
        }
        r.push((cur % 256) as u8);
        cur = cur / 256;
        i = i + 1;
    }
    r
}

/// Reads a value from `count` little-endian bytes of `s` starting at
/// `start`.
pub fn le_decode(s: &Vec<u8>, start: usize, count: usize) -> (r: u128)
    requires
        start + count <= s@.len(),
        count <= 16,
    ensures
        r as nat == from_le(s@.subrange(start as int, start as int + count as int)),
{
    let n: usize = s.len();
    let mut r: u128 = 0;
    let mut i: usize = count;
    proof {
        assert(s@.subrange(start as int + count as int, start as int + count as int)
            =~= Seq::<u8>::empty());
    }
    while i > 0
        invariant
            0 <= i <= count,
            count <= 16,
            start + count <= n,
            n == s@.len(),
            r as nat == from_le(s@.subrange(start as int + i as int, start as int + count as int)),
        decreases i,
    {
        proof {
            let tail = s@.subrange(start as int + i as int, start as int + count as int);
            let whole = s@.subrange(start as int + i as int - 1, start as int + count as int);
            assert(whole.drop_first() =~= tail);
            lemma_from_le_bound(tail);
            lemma_p256_increases(tail.len(), 15);
            lemma_p256_wide();
        }
        i = i - 1;
        r = r * 256 + (s[start + i] as u128);
    }
    proof {
        assert(s@.subrange(start as int, start as int + count as int) =~= s@.subrange(
            start as int + 0,
            start as int + count as int,
        ));
    }
    r
}

/// The 32-byte wire form of an address: the low half then the high
/// half, each as sixteen little-endian bytes.
pub open spec fn address_bytes(a: Address) -> Seq<u8> {
    le_bytes(a.lo as nat, 16) + le_bytes(a.hi as nat, 16)
}

/// Encodes an address as its 32 raw bytes.
pub fn encode_address(a: &Address) -> (r: Vec<u8>)
    ensures
        r@ == address_bytes(*a),
        r@.len() == 32,
{
    let mut r = le_encode(a.lo, 16);
    let mut hi = le_encode(a.hi, 16);
    r.append(&mut hi);
    proof {
        assert(r@ =~= address_bytes(*a));
    }
    r
}

} // verus!
