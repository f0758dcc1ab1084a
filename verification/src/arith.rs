//! Small integer helpers shared by the layout and mapping code.
use vstd::prelude::*;

verus! {

/// The smaller of two integers.
pub open spec fn lesser(a: int, b: int) -> int {
    if a <= b {
        a
    } else {
        b
    }
}

/// The larger of two integers.
pub open spec fn greater(a: int, b: int) -> int {
    if a >= b {
        a
    } else {
        b
    }
}

/// `value` moved to the nearest point of `low..=high`.
pub open spec fn clamped(value: int, low: int, high: int) -> int {
    if value < low {
        low
    } else if value > high {
        high
    } else {
        value
    }
}

/// Division that rounds toward zero, for a positive divisor.
pub open spec fn quotient(a: int, b: int) -> int {
    if a >= 0 {
        a / b
    } else {
        -((-a) / b)
    }
}

/// Whether an integer is representable as a signed 32-bit coordinate.
pub open spec fn fits_i32(value: int) -> bool {
    i32::MIN <= value <= i32::MAX
}

pub fn min_i32(a: i32, b: i32) -> (r: i32)
    ensures
        r == lesser(a as int, b as int),
{
    if a <= b {
        a
    } else {
        b
    }
}

pub fn max_i32(a: i32, b: i32) -> (r: i32)
    ensures
        r == greater(a as int, b as int),
{
    if a >= b {
        a
    } else {
        b
    }
}

pub fn clamp_i32(value: i32, low: i32, high: i32) -> (r: i32)
    requires
        low <= high,
    ensures
        r == clamped(value as int, low as int, high as int),
{
    if value < low {
        low
    } else if value > high {
        high
    } else {
        value
    }
}

pub fn clamp_i64(value: i64, low: i64, high: i64) -> (r: i64)
    requires
        low <= high,
    ensures
        r == clamped(value as int, low as int, high as int),
{
    if value < low {
        low
    } else if value > high {
        high
    } else {
        value
    }
}

/// Difference of two coordinates, held at the ends of the 32-bit range.
pub fn saturating_difference(a: i32, b: i32) -> (r: i32)
    ensures
        r == clamped(a - b, i32::MIN as int, i32::MAX as int),
{
    let wide: i64 = a as i64 - b as i64;
    clamp_i64(wide, i32::MIN as i64, i32::MAX as i64) as i32
}

/// The smaller and the larger of two integers are these two.
pub proof fn extremes_bound_both(a: int, b: int)
    ensures
        lesser(a, b) <= a && lesser(a, b) <= b,
        greater(a, b) >= a && greater(a, b) >= b,
        lesser(a, b) + greater(a, b) == a + b,
{
}

/// A clamped value lies between the limits, and no value between them is nearer to
/// the one that was asked for.
pub proof fn clamped_values_are_nearest(value: int, low: int, high: int, other: int)
    requires
        low <= other <= high,
    ensures
        low <= clamped(value, low, high) <= high,
        low <= value <= high ==> clamped(value, low, high) == value,
        clamped(value, low, high) - value <= greater(other - value, value - other),
        value - clamped(value, low, high) <= greater(other - value, value - other),
{
}

/// A quotient times its divisor is the dividend less a remainder that is smaller
/// than the divisor and never points away from the dividend.
pub proof fn quotients_round_toward_zero(a: int, b: int)
    requires
        b > 0,
    ensures
        a >= 0 ==> 0 <= a - quotient(a, b) * b < b,
        a <= 0 ==> -b < a - quotient(a, b) * b <= 0,
        quotient(-a, b) == -quotient(a, b),
{
    if a >= 0 {
        vstd::arithmetic::div_mod::lemma_fundamental_div_mod(a, b);
        vstd::arithmetic::div_mod::lemma_mod_bound(a, b);
        let q = a / b;
        assert(b * q == q * b) by (nonlinear_arith);
    } else {
        vstd::arithmetic::div_mod::lemma_fundamental_div_mod(-a, b);
        vstd::arithmetic::div_mod::lemma_mod_bound(-a, b);
        let q = (-a) / b;
        assert(b * q == q * b && (-q) * b == -(q * b)) by (nonlinear_arith);
    }
    if a == 0 {
        assert(0int / b == 0) by (nonlinear_arith)
            requires
                b > 0,
        ;
    }
}

} // verus!
