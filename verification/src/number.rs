//! Natural numbers of any size, held as big-endian byte strings.

use crate::bridge::{
    add_bytes, canonical_bytes, decode_hex, eq_bytes, ge_bytes, modpow_bytes, mul_bytes,
    random_below_bytes, rem_bytes, sub_bytes,
};
use crate::hexadecimal::{hex_value, is_hex_text, lemma_hex_bytes_value};
use vstd::arithmetic::div_mod::lemma_div_denominator;
use vstd::arithmetic::power::pow;
use vstd::arithmetic::power2::{lemma2_to64, lemma_pow2_adds, lemma_pow2_pos, pow2};
use vstd::bits::lemma_u64_shr_is_div;
use vstd::prelude::*;
use vstd::slice::slice_to_vec;
use vstd::std_specs::cmp::PartialEqSpecImpl;

verus! {

/// The natural number that a big-endian byte string denotes. The empty string
/// denotes zero, and leading zero bytes do not change the value.
pub open spec fn be_value(bytes: Seq<u8>) -> nat
    decreases bytes.len(),
{
    if bytes.len() == 0 {
        0
    } else {
        be_value(bytes.drop_last()) * 256 + bytes.last() as nat
    }
}

/// A byte string is canonical when it is the shortest one of its value that is
/// not empty: zero is the single byte `0`, any other number starts with a
/// byte that is not zero.
pub open spec fn is_canonical(bytes: Seq<u8>) -> bool {
    bytes.len() >= 1 && (bytes.len() == 1 || bytes[0] != 0)
}

/// Appending a byte multiplies the value by 256 and adds the byte.
pub proof fn lemma_be_value_push(bytes: Seq<u8>, last: u8)
    ensures
        be_value(bytes.push(last)) == be_value(bytes) * 256 + last as nat,
{
    assert(bytes.push(last).drop_last() =~= bytes);
}

/// The value of a byte string lies under `256 ^ len`.
pub proof fn lemma_be_value_bound(bytes: Seq<u8>)
    ensures
        be_value(bytes) < pow(256, bytes.len()),
    decreases bytes.len(),
{
    reveal(pow);
    if bytes.len() > 0 {
        lemma_be_value_bound(bytes.drop_last());
    }
}

/// The value of a byte string is at least its first byte, moved up by the
/// bytes that follow it.
pub proof fn lemma_be_value_leading_byte(bytes: Seq<u8>)
    requires
        bytes.len() >= 1,
    ensures
        be_value(bytes) >= bytes[0] * pow(256, (bytes.len() - 1) as nat),
    decreases bytes.len(),
{
    if bytes.len() == 1 {
        assert(be_value(bytes.drop_last()) == 0);
        assert(pow(256, 0) == 1) by {
            reveal(pow);
        }
    } else {
        let front = bytes.drop_last();
        lemma_be_value_leading_byte(front);
        let scale = pow(256, (front.len() - 1) as nat);
        assert(front[0] == bytes[0]);
        assert(pow(256, (bytes.len() - 1) as nat) == 256 * scale) by {
            reveal(pow);
        }
        assert(bytes[0] * (256 * scale) == (bytes[0] * scale) * 256) by (nonlinear_arith);
        assert(be_value(front) * 256 >= (bytes[0] * scale) * 256);
    }
}

/// Byte strings of one length and one value are the same.
pub proof fn lemma_be_value_injective(a: Seq<u8>, b: Seq<u8>)
    requires
        a.len() == b.len(),
        be_value(a) == be_value(b),
    ensures
        a == b,
    decreases a.len(),
{
    if a.len() > 0 {
        lemma_be_value_injective(a.drop_last(), b.drop_last());
        assert(a =~= a.drop_last().push(a.last()));
        assert(b =~= b.drop_last().push(b.last()));
    } else {
        assert(a =~= b);
    }
}

/// A number has one canonical byte string: canonical byte strings of one
/// value are the same.
pub proof fn lemma_canonical_unique(a: Seq<u8>, b: Seq<u8>)
    requires
        is_canonical(a),
        is_canonical(b),
        be_value(a) == be_value(b),
    ensures
        a == b,
{
    if a.len() < b.len() {
        lemma_canonical_longer_is_larger(a, b);
    } else if b.len() < a.len() {
        lemma_canonical_longer_is_larger(b, a);
    } else {
        lemma_be_value_injective(a, b);
    }
}

/// A canonical byte string denotes a larger number than any shorter byte
/// string that is not empty.
proof fn lemma_canonical_longer_is_larger(short: Seq<u8>, long: Seq<u8>)
    requires
        is_canonical(long),
        1 <= short.len() < long.len(),
    ensures
        be_value(short) < be_value(long),
{
    lemma_be_value_bound(short);
    lemma_be_value_leading_byte(long);
    let top = pow(256, (long.len() - 1) as nat);
    assert(pow(256, short.len()) <= top) by {
        vstd::arithmetic::power::lemma_pow_increases(256, short.len(), (long.len() - 1) as nat);
    }
    assert(long[0] * top >= top) by (nonlinear_arith)
        requires
            long[0] >= 1,
            top >= 0,
    ;
}

/// The byte of `n` that starts at bit `shift` is what the division by
/// `2 ^ shift` adds to the division by `2 ^ (shift + 8)`.
proof fn lemma_shifted_byte(n: u64, shift: u32)
    requires
        shift <= 56,
    ensures
        ((n >> shift) & 0xff) < 256,
        n as nat / pow2(shift as nat) == (n as nat / pow2((shift + 8) as nat)) * 256 + ((n
            >> shift) & 0xff),
{
    let low = n as nat / pow2(shift as nat);
    assert(((n >> shift) & 0xff) == (n >> shift) % 256) by (bit_vector);
    assert((n >> shift) == n as nat / pow2(shift as nat)) by {
        lemma_u64_shr_is_div(n, shift as u64);
    }
    assert(pow2((shift + 8) as nat) == pow2(shift as nat) * 256) by {
        lemma_pow2_adds(shift as nat, 8);
        lemma2_to64();
    }
    assert(pow2(shift as nat) > 0) by {
        lemma_pow2_pos(shift as nat);
    }
    assert(n as nat / pow2((shift + 8) as nat) == low / 256) by {
        lemma_div_denominator(n as int, pow2(shift as nat) as int, 256);
    }
}

/// A natural number of any size.
#[derive(Debug)]
pub struct BigNat {
    bytes: Vec<u8>,
}

impl View for BigNat {
    type V = nat;

    closed spec fn view(&self) -> nat {
        be_value(self.bytes@)
    }
}

impl BigNat {
    /// The number that `bytes` denotes in big-endian order.
    pub fn from_bytes_be(bytes: &[u8]) -> (r: BigNat)
        ensures
            r@ == be_value(bytes@),
    {
        BigNat { bytes: slice_to_vec(bytes) }
    }

    /// The number `n`.
    pub fn from_u64(n: u64) -> (r: BigNat)
        ensures
            r@ == n,
    {
        let mut bytes: Vec<u8> = Vec::new();
        let mut shift: u32 = 64;
        proof {
            lemma2_to64();
            assert(n as nat / pow2(64) == 0);
            assert(n as nat / pow2(0) == n);
        }
        while shift > 0
            invariant
                shift <= 64,
                shift % 8 == 0,
                be_value(bytes@) == n as nat / pow2(shift as nat),
                n as nat / pow2(0) == n,
            decreases shift,
        {
            shift = shift - 8;
            let byte: u8 = ((n >> shift) & 0xff) as u8;
            proof {
                lemma_be_value_push(bytes@, byte);
                lemma_shifted_byte(n, shift);
            }
            bytes.push(byte);
        }
        BigNat { bytes }
    }

    /// The number that `text` writes out in hexadecimal, where `text` is an
    /// even number of hexadecimal digits; `None` for any other text.
    pub fn from_hex(text: &str) -> (r: Option<BigNat>)
        ensures
            r is Some <==> is_hex_text(text@),
            r matches Some(n) ==> n@ == hex_value(text@),
    {
        match decode_hex(text) {
            Some(bytes) => {
                proof {
                    lemma_hex_bytes_value(text@);
                }
                Some(BigNat { bytes })
            },
            None => None,
        }
    }

    /// A random number under `bound`, which is not zero.
    pub fn random_below(bound: &BigNat) -> (r: BigNat)
        requires
            bound@ != 0,
        ensures
            r@ < bound@,
    {
        BigNat { bytes: random_below_bytes(bound.bytes.as_slice()) }
    }

    /// The shortest big-endian byte string of the number; zero is the one byte `0`.
    pub fn to_bytes_be(&self) -> (r: Vec<u8>)
        ensures
            be_value(r@) == self@,
            is_canonical(r@),
    {
        canonical_bytes(self.bytes.as_slice())
    }

    /// Whether the number is zero.
    pub fn is_zero(&self) -> (r: bool)
        ensures
            r == (self@ == 0),
    {
        let none: Vec<u8> = Vec::new();
        eq_bytes(self.bytes.as_slice(), none.as_slice())
    }

    /// Whether the number is `other` or larger.
    pub fn ge(&self, other: &BigNat) -> (r: bool)
        ensures
            r == (self@ >= other@),
    {
        ge_bytes(self.bytes.as_slice(), other.bytes.as_slice())
    }

    /// The sum of the two numbers.
    pub fn plus(&self, other: &BigNat) -> (r: BigNat)
        ensures
            r@ == self@ + other@,
    {
        BigNat { bytes: add_bytes(self.bytes.as_slice(), other.bytes.as_slice()) }
    }

    /// The difference of the two numbers, where `other` is not the larger one.
    pub fn minus(&self, other: &BigNat) -> (r: BigNat)
        requires
            self@ >= other@,
        ensures
            r@ == self@ - other@,
    {
        BigNat { bytes: sub_bytes(self.bytes.as_slice(), other.bytes.as_slice()) }
    }

    /// The product of the two numbers.
    pub fn times(&self, other: &BigNat) -> (r: BigNat)
        ensures
            r@ == self@ * other@,
    {
        BigNat { bytes: mul_bytes(self.bytes.as_slice(), other.bytes.as_slice()) }
    }

    /// The remainder of the number on division by `modulus`, which is not zero.
    pub fn modulo(&self, modulus: &BigNat) -> (r: BigNat)
        requires
            modulus@ != 0,
        ensures
            r@ == self@ % modulus@,
            r@ < modulus@,
    {
        proof {
            vstd::arithmetic::div_mod::lemma_mod_bound(self@ as int, modulus@ as int);
        }
        BigNat { bytes: rem_bytes(self.bytes.as_slice(), modulus.bytes.as_slice()) }
    }

    /// The power `self ^ exponent`, reduced by `modulus`, which is not zero.
    pub fn modpow(&self, exponent: &BigNat, modulus: &BigNat) -> (r: BigNat)
        requires
            modulus@ != 0,
        ensures
            r@ == pow(self@ as int, exponent@) % (modulus@ as int),
            r@ < modulus@,
    {
        proof {
            vstd::arithmetic::div_mod::lemma_mod_bound(
                pow(self@ as int, exponent@),
                modulus@ as int,
            );
        }
        BigNat {
            bytes: modpow_bytes(
                self.bytes.as_slice(),
                exponent.bytes.as_slice(),
                modulus.bytes.as_slice(),
            ),
        }
    }
}

impl Clone for BigNat {
    fn clone(&self) -> (r: Self)
        ensures
            r@ == self@,
    {
        BigNat { bytes: slice_to_vec(self.bytes.as_slice()) }
    }
}

impl Default for BigNat {
    fn default() -> (r: Self)
        ensures
            r@ == 0,
    {
        BigNat { bytes: Vec::new() }
    }
}

impl PartialEq for BigNat {
    fn eq(&self, other: &Self) -> (r: bool) {
        eq_bytes(self.bytes.as_slice(), other.bytes.as_slice())
    }
}

impl PartialEqSpecImpl for BigNat {
    open spec fn obeys_eq_spec() -> bool {
        true
    }

    open spec fn eq_spec(&self, other: &Self) -> bool {
        self@ == other@
    }
}

} // verus!
