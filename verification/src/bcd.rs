//! Packed binary-coded-decimal codec.
//!
//! The RTC stores every time field as one packed BCD byte: the high nibble
//! holds the tens digit and the low nibble the ones digit.

use vstd::prelude::*;

verus! {

/// The decimal value a byte denotes when read as packed BCD:
/// ten times the high nibble plus the low nibble.
pub open spec fn decimal_of(b: int) -> int {
    10 * (b / 16) + b % 16
}

/// The packed BCD byte for a decimal value: the tens digit in the high
/// nibble, the ones digit in the low nibble.
pub open spec fn bcd_of(d: int) -> int {
    16 * (d / 10) + d % 10
}

/// A well-formed packed BCD byte: both nibbles are decimal digits.
pub open spec fn is_bcd(b: int) -> bool {
    &&& 0 <= b
    &&& b / 16 <= 9
    &&& b % 16 <= 9
}

/// Decodes a packed BCD byte to its decimal value.
///
/// Defined for every byte; flag bits must be masked off by the caller first,
/// and a byte whose nibbles are not digits decodes to a value above 99, which
/// callers must reject.
pub fn bcd_to_decimal(bcd: u8) -> (d: u8)
    ensures
        d == decimal_of(bcd as int),
{
    proof {
        assert((bcd & 0xf0) >> 4 == bcd / 16) by (bit_vector);
        assert(bcd & 0x0f == bcd % 16) by (bit_vector);
        assert(bcd / 16 <= 15 && bcd % 16 <= 15);
    }
    ((bcd & 0xf0) >> 4) * 10 + (bcd & 0x0f)
}

/// Encodes a decimal value in 0..=99 as a packed BCD byte.
pub fn decimal_to_bcd(decimal: u8) -> (b: u8)
    requires
        decimal <= 99,
    ensures
        b == bcd_of(decimal as int),
        is_bcd(b as int),
{
    proof {
        assert(decimal <= 99 ==> decimal / 10 << 4 == 16 * (decimal / 10)) by (bit_vector);
        assert(decimal / 10 <= 9 && decimal % 10 <= 9);
        lemma_bcd_of_well_formed(decimal as int);
    }
    (decimal / 10 << 4) + decimal % 10
}

/// The encoding of a decimal value in 0..=99 is a well-formed BCD byte,
/// and it fits in `0x00..=0x99`.
pub proof fn lemma_bcd_of_well_formed(d: int)
    requires
        0 <= d <= 99,
    ensures
        is_bcd(bcd_of(d)),
        0 <= bcd_of(d) <= 0x99,
{
    let q = d / 10;
    let r = d % 10;
    assert(0 <= q <= 9 && 0 <= r <= 9);
    assert((16 * q + r) / 16 == q && (16 * q + r) % 16 == r) by (nonlinear_arith)
        requires
            0 <= q <= 9 && 0 <= r <= 9,
    ;
}

/// Round trip through the codec, decimal side: decoding the encoding of any
/// decimal value in 0..=99 gives that value back.
pub proof fn lemma_decode_of_encode(d: int)
    requires
        0 <= d <= 99,
    ensures
        decimal_of(bcd_of(d)) == d,
{
    lemma_bcd_of_well_formed(d);
    let q = d / 10;
    let r = d % 10;
    assert((16 * q + r) / 16 == q && (16 * q + r) % 16 == r) by (nonlinear_arith)
        requires
            0 <= q <= 9 && 0 <= r <= 9,
    ;
    assert(10 * q + r == d);
}

/// Round trip through the codec, byte side: encoding the decimal value of any
/// well-formed BCD byte gives that byte back, and that value is in 0..=99.
pub proof fn lemma_encode_of_decode(b: int)
    requires
        is_bcd(b),
    ensures
        bcd_of(decimal_of(b)) == b,
        0 <= decimal_of(b) <= 99,
{
    let h = b / 16;
    let l = b % 16;
    assert(0 <= h <= 9 && 0 <= l <= 9);
    assert((10 * h + l) / 10 == h && (10 * h + l) % 10 == l) by (nonlinear_arith)
        requires
            0 <= h <= 9 && 0 <= l <= 9,
    ;
    assert(16 * h + l == b);
}

} // verus!
