//! The calls into `num-bigint`, `rand` and `hex`. Verus takes the contracts in
//! this file on trust: each one restates what the called function documents.
//!
//! Numbers go in and come out as big-endian byte strings. Each function on
//! numbers reads its arguments with `BigUint::from_bytes_be` and writes its
//! result with `BigUint::to_bytes_be`, and its contract takes on trust that
//! the two agree with `be_value`.

use crate::hexadecimal::{hex_bytes, is_hex_text};
use crate::number::{be_value, is_canonical};
use crate::zkp::is_alphanumeric;
use num_bigint::{BigUint, RandBigInt};
use rand::Rng;
use vstd::arithmetic::power::pow;
use vstd::prelude::*;

verus! {

/// `BigUint::to_bytes_be` after `BigUint::from_bytes_be`: the shortest
/// big-endian byte string of the same number, where zero is the one byte `0`.
#[verifier::external_body]
pub(crate) fn canonical_bytes(a: &[u8]) -> (r: Vec<u8>)
    ensures
        be_value(r@) == be_value(a@),
        is_canonical(r@),
{
    BigUint::from_bytes_be(a).to_bytes_be()
}

/// `BigUint::modpow`: the power `base ^ exponent` reduced by `modulus`. The
/// outside function panics on a zero modulus, which `requires` leaves out.
#[verifier::external_body]
pub(crate) fn modpow_bytes(base: &[u8], exponent: &[u8], modulus: &[u8]) -> (r: Vec<u8>)
    requires
        be_value(modulus@) != 0,
    ensures
        be_value(r@) == pow(be_value(base@) as int, be_value(exponent@)) % (be_value(
            modulus@,
        ) as int),
{
    let b = BigUint::from_bytes_be(base);
    let e = BigUint::from_bytes_be(exponent);
    let m = BigUint::from_bytes_be(modulus);
    b.modpow(&e, &m).to_bytes_be()
}

/// `*` of two `BigUint`: the exact product.
#[verifier::external_body]
pub(crate) fn mul_bytes(a: &[u8], b: &[u8]) -> (r: Vec<u8>)
    ensures
        be_value(r@) == be_value(a@) * be_value(b@),
{
    (BigUint::from_bytes_be(a) * BigUint::from_bytes_be(b)).to_bytes_be()
}

/// `%` of two `BigUint`: the remainder of the division. The outside operator
/// panics on a zero divisor, which `requires` leaves out.
#[verifier::external_body]
pub(crate) fn rem_bytes(a: &[u8], modulus: &[u8]) -> (r: Vec<u8>)
    requires
        be_value(modulus@) != 0,
    ensures
        be_value(r@) == be_value(a@) % be_value(modulus@),
{
    (BigUint::from_bytes_be(a) % BigUint::from_bytes_be(modulus)).to_bytes_be()
}

/// `+` of two `BigUint`: the exact sum.
#[verifier::external_body]
pub(crate) fn add_bytes(a: &[u8], b: &[u8]) -> (r: Vec<u8>)
    ensures
        be_value(r@) == be_value(a@) + be_value(b@),
{
    (BigUint::from_bytes_be(a) + BigUint::from_bytes_be(b)).to_bytes_be()
}

/// `-` of two `BigUint`: the exact difference. The outside operator panics
/// where the second number is the larger one, which `requires` leaves out.
#[verifier::external_body]
pub(crate) fn sub_bytes(a: &[u8], b: &[u8]) -> (r: Vec<u8>)
    requires
        be_value(a@) >= be_value(b@),
    ensures
        be_value(r@) == be_value(a@) - be_value(b@),
{
    (BigUint::from_bytes_be(a) - BigUint::from_bytes_be(b)).to_bytes_be()
}

/// `>=` of two `BigUint`: the order of the numbers.
#[verifier::external_body]
pub(crate) fn ge_bytes(a: &[u8], b: &[u8]) -> (r: bool)
    ensures
        r == (be_value(a@) >= be_value(b@)),
{
    BigUint::from_bytes_be(a) >= BigUint::from_bytes_be(b)
}

/// `==` of two `BigUint`: whether the numbers are the same.
#[verifier::external_body]
pub(crate) fn eq_bytes(a: &[u8], b: &[u8]) -> (r: bool)
    ensures
        r == (be_value(a@) == be_value(b@)),
{
    BigUint::from_bytes_be(a) == BigUint::from_bytes_be(b)
}

/// `RandBigInt::gen_biguint_below` on `rand::thread_rng()`: some number under
/// the bound. Which one is left open: two calls may differ. The outside
/// function panics on a zero bound, which `requires` leaves out.
#[verifier::external_body]
pub(crate) fn random_below_bytes(bound: &[u8]) -> (r: Vec<u8>)
    requires
        be_value(bound@) != 0,
    ensures
        be_value(r@) < be_value(bound@),
{
    rand::thread_rng().gen_biguint_below(&BigUint::from_bytes_be(bound)).to_bytes_be()
}

/// `Rng::sample_iter` with `rand::distributions::Alphanumeric` on
/// `rand::thread_rng()`: `size` characters, each an ASCII letter or digit.
/// Which ones is left open: two calls may differ.
#[verifier::external_body]
pub(crate) fn random_alphanumeric(size: usize) -> (r: String)
    ensures
        r@.len() == size,
        forall|i: int| 0 <= i < r@.len() ==> is_alphanumeric(#[trigger] r@[i]),
{
    rand::thread_rng()
        .sample_iter(rand::distributions::Alphanumeric)
        .take(size)
        .map(char::from)
        .collect()
}

/// `hex::decode`: the bytes of an even number of hexadecimal digits, two
/// digits a byte; any other text is an error, which comes back as `None`.
#[verifier::external_body]
pub(crate) fn decode_hex(text: &str) -> (r: Option<Vec<u8>>)
    ensures
        r is Some <==> is_hex_text(text@),
        r matches Some(bytes) ==> bytes@ == hex_bytes(text@),
{
    match hex::decode(text) {
        Ok(bytes) => Some(bytes),
        Err(_) => None,
    }
}

} // verus!
