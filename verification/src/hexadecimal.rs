//! Hexadecimal text, the bytes it stands for and the number it writes out.

use crate::number::{be_value, lemma_be_value_push};
use vstd::arithmetic::power::{lemma_pow0, lemma_pow_adds, lemma_pow1, pow};
use vstd::prelude::*;

verus! {

/// Whether `c` is one of `0`-`9`, `a`-`f`, `A`-`F`.
pub open spec fn is_hex_digit(c: char) -> bool {
    let n = c as u32;
    (0x30 <= n <= 0x39) || (0x41 <= n <= 0x46) || (0x61 <= n <= 0x66)
}

/// The value of a hexadecimal digit, from 0 to 15; 0 for any other character.
pub open spec fn hex_digit_value(c: char) -> nat {
    let n = c as u32;
    if 0x30 <= n <= 0x39 {
        (n - 0x30) as nat
    } else if 0x41 <= n <= 0x46 {
        (n - 0x41 + 10) as nat
    } else if 0x61 <= n <= 0x66 {
        (n - 0x61 + 10) as nat
    } else {
        0
    }
}

/// Text that stands for bytes: an even number of hexadecimal digits.
pub open spec fn is_hex_text(text: Seq<char>) -> bool {
    text.len() % 2 == 0 && forall|i: int| 0 <= i < text.len() ==> is_hex_digit(#[trigger] text[i])
}

/// The bytes that hexadecimal text stands for: two digits a byte, the high one first.
pub open spec fn hex_bytes(text: Seq<char>) -> Seq<u8> {
    Seq::new(
        text.len() / 2,
        |i: int| (16 * hex_digit_value(text[2 * i]) + hex_digit_value(text[2 * i + 1])) as u8,
    )
}

/// The number that the digits of `text` from index `from` up to `to` write out.
pub open spec fn hex_range_value(text: Seq<char>, from: int, to: int) -> nat
    decreases to - from,
{
    if to <= from {
        0
    } else {
        hex_range_value(text, from, to - 1) * 16 + hex_digit_value(text[to - 1])
    }
}

/// The number that `text` writes out in hexadecimal.
pub open spec fn hex_value(text: Seq<char>) -> nat {
    hex_range_value(text, 0, text.len() as int)
}

/// Whether the characters of `text` from index `from` up to `to` are hexadecimal digits.
pub open spec fn hex_range_ok(text: Seq<char>, from: int, to: int) -> bool
    decreases to - from,
{
    to <= from || (hex_range_ok(text, from, to - 1) && is_hex_digit(text[to - 1]))
}

/// A range of digits is the two parts it is cut into, checked one after the other.
pub proof fn lemma_hex_range_ok_split(text: Seq<char>, from: int, mid: int, to: int)
    requires
        from <= mid <= to,
    ensures
        hex_range_ok(text, from, to) == (hex_range_ok(text, from, mid) && hex_range_ok(
            text,
            mid,
            to,
        )),
    decreases to - mid,
{
    if mid < to {
        lemma_hex_range_ok_split(text, from, mid, to - 1);
    }
}

/// A range of digits writes out its first part, moved up by the digits of the
/// second part, plus the second part.
pub proof fn lemma_hex_range_value_split(text: Seq<char>, from: int, mid: int, to: int)
    requires
        from <= mid <= to,
    ensures
        hex_range_value(text, from, to) == hex_range_value(text, from, mid) * pow(
            16,
            (to - mid) as nat,
        ) + hex_range_value(text, mid, to),
    decreases to - mid,
{
    let high = hex_range_value(text, from, mid) as int;
    if mid < to {
        lemma_hex_range_value_split(text, from, mid, to - 1);
        let scale = pow(16, (to - 1 - mid) as nat);
        assert(pow(16, (to - mid) as nat) == scale * 16) by {
            lemma_pow_adds(16, (to - 1 - mid) as nat, 1);
            lemma_pow1(16);
        }
        assert(high * (scale * 16) == (high * scale) * 16) by (nonlinear_arith);
    } else {
        lemma_pow0(16);
    }
}

/// Whether the four characters of `text` from index `at` on are hexadecimal digits.
pub open spec fn hex_quad_ok(text: Seq<char>, at: int) -> bool {
    is_hex_digit(text[at]) && is_hex_digit(text[at + 1]) && is_hex_digit(text[at + 2])
        && is_hex_digit(text[at + 3])
}

/// The number that the four digits of `text` from index `at` on write out.
pub open spec fn hex_quad_value(text: Seq<char>, at: int) -> nat {
    hex_digit_value(text[at]) * 0x1000 + hex_digit_value(text[at + 1]) * 0x100 + hex_digit_value(
        text[at + 2],
    ) * 0x10 + hex_digit_value(text[at + 3])
}

/// Four more digits: the digits before them move up by 16 bits.
pub proof fn lemma_hex_range_quad(text: Seq<char>, from: int, at: int)
    requires
        from <= at,
    ensures
        hex_range_ok(text, from, at + 4) == (hex_range_ok(text, from, at) && hex_quad_ok(
            text,
            at,
        )),
        hex_range_value(text, from, at + 4) == hex_range_value(text, from, at) * 0x1_0000
            + hex_quad_value(text, at),
{
    reveal_with_fuel(hex_range_ok, 5);
    reveal_with_fuel(hex_range_value, 5);
}

/// Sixteen more digits, taken four at a time: the digits before them move up
/// by 64 bits.
pub proof fn lemma_hex_range_extend(text: Seq<char>, mid: int)
    requires
        0 <= mid,
    ensures
        hex_range_ok(text, 0, mid + 16) == (hex_range_ok(text, 0, mid) && hex_quad_ok(text, mid)
            && hex_quad_ok(text, mid + 4) && hex_quad_ok(text, mid + 8) && hex_quad_ok(
            text,
            mid + 12,
        )),
        hex_range_value(text, 0, mid + 16) == hex_range_value(text, 0, mid)
            * 0x1_0000_0000_0000_0000 + hex_quad_value(text, mid) * 0x1_0000_0000_0000
            + hex_quad_value(text, mid + 4) * 0x1_0000_0000 + hex_quad_value(text, mid + 8)
            * 0x1_0000 + hex_quad_value(text, mid + 12),
{
    lemma_hex_range_quad(text, 0, mid);
    lemma_hex_range_quad(text, 0, mid + 4);
    lemma_hex_range_quad(text, 0, mid + 8);
    lemma_hex_range_quad(text, 0, mid + 12);
}

/// Where every character up to `text.len()` is a hexadecimal digit and their
/// number is even, the text stands for bytes.
pub proof fn lemma_hex_text(text: Seq<char>)
    requires
        text.len() % 2 == 0,
        hex_range_ok(text, 0, text.len() as int),
    ensures
        is_hex_text(text),
{
    assert forall|i: int| 0 <= i < text.len() implies is_hex_digit(#[trigger] text[i]) by {
        lemma_hex_range_ok_split(text, 0, i + 1, text.len() as int);
    }
}

/// The bytes of hexadecimal text denote, in big-endian order, the number that
/// the text writes out.
pub proof fn lemma_hex_bytes_value(text: Seq<char>)
    requires
        is_hex_text(text),
    ensures
        be_value(hex_bytes(text)) == hex_value(text),
{
    lemma_hex_bytes_prefix_value(text, text.len() / 2);
    assert(hex_bytes(text).subrange(0, (text.len() / 2) as int) =~= hex_bytes(text));
}

proof fn lemma_hex_bytes_prefix_value(text: Seq<char>, n: nat)
    requires
        is_hex_text(text),
        n <= text.len() / 2,
    ensures
        be_value(hex_bytes(text).subrange(0, n as int)) == hex_range_value(text, 0, 2 * n as int),
    decreases n,
{
    let bytes = hex_bytes(text);
    if n > 0 {
        lemma_hex_bytes_prefix_value(text, (n - 1) as nat);
        assert(bytes.subrange(0, n as int) =~= bytes.subrange(0, n - 1).push(bytes[n - 1]));
        lemma_be_value_push(bytes.subrange(0, n - 1), bytes[n - 1]);
        assert(is_hex_digit(text[2 * n - 2]) && is_hex_digit(text[2 * n - 1]));
        assert(hex_range_value(text, 0, 2 * n as int) == (hex_range_value(text, 0, 2 * n - 2) * 16
            + hex_digit_value(text[2 * n - 2])) * 16 + hex_digit_value(text[2 * n - 1])) by {
            reveal_with_fuel(hex_range_value, 3);
        }
    } else {
        assert(bytes.subrange(0, 0) =~= Seq::<u8>::empty());
    }
}

} // verus!
