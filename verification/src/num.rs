//! Integer helpers: two's-complement bytes, clamping and truncating division.
use vstd::prelude::*;

verus! {

/// The byte that carries a signed value on the wire (two's complement).
pub open spec fn byte_of(value: i8) -> u8 {
    if value < 0 {
        (value + 256) as u8
    } else {
        value as u8
    }
}

/// The signed value that a wire byte stands for.
pub open spec fn signed_of(byte: u8) -> i8 {
    if byte < 128 {
        byte as i8
    } else {
        (byte - 256) as i8
    }
}

/// Reinterprets a signed value as its wire byte.
pub fn to_byte(value: i8) -> (byte: u8)
    ensures
        byte == byte_of(value),
{
    let byte: u8 = value as u8;
    assert(value as u8 == if value < 0 { (value + 256) as u8 } else { value as u8 })
        by (bit_vector);
    byte
}

/// Reinterprets a wire byte as the signed value it carries.
pub fn to_signed(byte: u8) -> (value: i8)
    ensures
        value == signed_of(byte),
{
    let value: i8 = byte as i8;
    assert(byte as i8 == if byte < 128 { byte as i8 } else { (byte - 256) as i8 }) by (bit_vector);
    value
}

/// The absolute value of an integer.
pub open spec fn abs(value: int) -> int {
    if value < 0 {
        -value
    } else {
        value
    }
}

/// The larger of two integers.
pub open spec fn max(a: int, b: int) -> int {
    if a >= b {
        a
    } else {
        b
    }
}

/// The smaller of two integers.
pub open spec fn min(a: int, b: int) -> int {
    if a <= b {
        a
    } else {
        b
    }
}

/// `value` moved to the nearest end of `[low, high]` if it lies outside.
pub open spec fn clamp(value: int, low: int, high: int) -> int {
    if value < low {
        low
    } else if value > high {
        high
    } else {
        value
    }
}

/// Division that rounds toward zero, as machine division does.
pub open spec fn trunc_div(a: int, b: int) -> int
    recommends
        b != 0,
{
    if a >= 0 {
        a / b
    } else {
        -((-a) / b)
    }
}

/// A truncated quotient is no larger in magnitude than the dividend.
pub proof fn lemma_trunc_div_bounds(a: int, b: int)
    requires
        b != 0,
    ensures
        -abs(a) <= trunc_div(a, b) <= abs(a),
{
    let x = abs(a);
    assert(-x <= x / b <= x) by (nonlinear_arith)
        requires
            b != 0,
            x >= 0,
    ;
}

/// The magnitude of a signed byte.
pub fn magnitude(value: i8) -> (result: i16)
    ensures
        result == abs(value as int),
{
    if value < 0 {
        -(value as i16)
    } else {
        value as i16
    }
}

/// Restricts `value` to `[low, high]`.
pub fn clamp_i16(value: i16, low: i16, high: i16) -> (result: i16)
    requires
        low <= high,
    ensures
        result == clamp(value as int, low as int, high as int),
{
    if value < low {
        low
    } else if value > high {
        high
    } else {
        value
    }
}

/// Restricts `value` to `[low, high]`.
pub fn clamp_i32(value: i32, low: i32, high: i32) -> (result: i32)
    requires
        low <= high,
    ensures
        result == clamp(value as int, low as int, high as int),
{
    if value < low {
        low
    } else if value > high {
        high
    } else {
        value
    }
}

/// Restricts `value` to `[low, high]`.
pub fn clamp_i8(value: i8, low: i8, high: i8) -> (result: i8)
    requires
        low <= high,
    ensures
        result == clamp(value as int, low as int, high as int),
{
    if value < low {
        low
    } else if value > high {
        high
    } else {
        value
    }
}

/// A wire byte and the signed value it carries agree modulo 256, both ways, and
/// the way there and back is the identity.
pub proof fn law_wire_byte(value: i8, byte: u8)
    ensures
        (byte_of(value) - value) % 256 == 0,
        (signed_of(byte) - byte) % 256 == 0,
        signed_of(byte_of(value)) == value,
        byte_of(signed_of(byte)) == byte,
{
}

/// A magnitude is not negative and is the value or its opposite; of two values the
/// larger and the smaller are the two, and no other value lies outside of them.
pub proof fn law_order(a: int, b: int)
    ensures
        abs(a) >= 0,
        abs(a) == a || abs(a) == -a,
        max(a, b) >= a && max(a, b) >= b,
        max(a, b) == a || max(a, b) == b,
        min(a, b) <= a && min(a, b) <= b,
        min(a, b) == a || min(a, b) == b,
{
}

/// Clamping gives the value of the range that is nearest.
pub proof fn law_clamp_is_nearest(value: int, low: int, high: int, other: int)
    requires
        low <= other <= high,
    ensures
        low <= clamp(value, low, high) <= high,
        low <= value <= high ==> clamp(value, low, high) == value,
        value <= low ==> clamp(value, low, high) == low,
        value >= high ==> clamp(value, low, high) == high,
        abs(value - clamp(value, low, high)) <= abs(value - other),
{
}

/// A truncated quotient is the largest number of times that the divisor fits into
/// the magnitude of the dividend, and it has the sign of the dividend.
pub proof fn law_truncated_quotient(a: int, b: int)
    requires
        b > 0,
    ensures
        a >= 0 ==> trunc_div(a, b) >= 0 && trunc_div(a, b) * b <= a < (trunc_div(a, b) + 1) * b,
        a <= 0 ==> trunc_div(a, b) <= 0 && (trunc_div(a, b) - 1) * b < a <= trunc_div(a, b) * b,
        trunc_div(-a, b) == -trunc_div(a, b),
{
    let x = abs(a);
    let q = x / b;
    vstd::arithmetic::div_mod::lemma_fundamental_div_mod(x, b);
    vstd::arithmetic::div_mod::lemma_mod_bound(x, b);
    assert(q >= 0 && q * b <= x < (q + 1) * b && (-q - 1) * b < -x <= (-q) * b)
        by (nonlinear_arith)
        requires
            x >= 0,
            b > 0,
            x == b * q + x % b,
            0 <= x % b < b,
    ;
    if a == 0 {
        assert(0int / b == 0) by (nonlinear_arith)
            requires
                b > 0,
        ;
    }
}

/// A divisor below zero turns the quotient around.
pub proof fn law_negative_divisor(a: int, b: int)
    requires
        b > 0,
    ensures
        trunc_div(a, -b) == -trunc_div(a, b),
{
    let x = abs(a);
    assert(x / (-b) == -(x / b)) by (nonlinear_arith)
        requires
            x >= 0,
            b > 0,
    ;
}

} // verus!
