//! What holds of the operations for all operands, proved over their model.

use crate::model::{magnitude, trunc_div, trunc_rem, wrap32};
use vstd::prelude::*;

verus! {

/// Wrapping is reduction modulo `2^32` into the signed 32-bit range: the
/// result lies in that range and differs from `x` by a multiple of `2^32`.
/// A value already in the range is left as it is.
pub proof fn lemma_wrap32(x: int)
    ensures
        i32::MIN <= wrap32(x) <= i32::MAX,
        (wrap32(x) - x) % 0x1_0000_0000 == 0,
        i32::MIN <= x <= i32::MAX ==> wrap32(x) == x,
{
}

/// No other value of the signed 32-bit range differs from `x` by a multiple
/// of `2^32`.
pub proof fn lemma_wrap32_unique(x: int, y: int)
    requires
        i32::MIN <= y <= i32::MAX,
        (y - x) % 0x1_0000_0000 == 0,
    ensures
        y == wrap32(x),
{
}

/// Wrapping addition does not depend on the order of its operands.
pub proof fn lemma_add_commutes(a: i32, b: i32)
    ensures
        wrap32(a + b) == wrap32(b + a),
{
}

/// Wrapping multiplication does not depend on the order of its operands.
pub proof fn lemma_mul_commutes(a: i32, b: i32)
    ensures
        wrap32(a * b) == wrap32(b * a),
{
    assert(a * b == b * a) by (nonlinear_arith);
}

/// Dividing by `-d` gives the negated quotient and the same remainder.
proof fn lemma_div_by_negated(x: int, d: int)
    by (nonlinear_arith)
    requires
        d != 0,
    ensures
        x / (-d) == -(x / d),
        x % (-d) == x % d,
{
}

/// Rounding toward zero, written with the Euclidean quotient and remainder,
/// whose remainder is never negative.
pub proof fn lemma_trunc_unfold(a: int, b: int)
    requires
        b != 0,
    ensures
        trunc_div(a, b) == if a >= 0 {
            a / b
        } else {
            -((-a) / b)
        },
        trunc_rem(a, b) == if a >= 0 {
            a % b
        } else {
            -((-a) % b)
        },
{
    if b < 0 {
        lemma_div_by_negated(magnitude(a), b);
    }
}

/// What makes `trunc_div` and `trunc_rem` the quotient and remainder that
/// round toward zero: together they give `a` back, the remainder is smaller
/// than the divisor and has the sign of `a`, and the quotient is no larger
/// than `a`.
pub proof fn lemma_trunc_div_rem(a: int, b: int)
    requires
        b != 0,
    ensures
        trunc_div(a, b) * b + trunc_rem(a, b) == a,
        magnitude(trunc_rem(a, b)) < magnitude(b),
        trunc_rem(a, b) > 0 ==> a > 0,
        trunc_rem(a, b) < 0 ==> a < 0,
        magnitude(trunc_div(a, b)) <= magnitude(a),
{
    let x = magnitude(a);
    let d = magnitude(b);
    let q = x / d;
    // Division of the magnitudes, where nothing is negative.
    assert(x == d * q + x % d && 0 <= x % d < d && 0 <= q <= x) by (nonlinear_arith)
        requires
            x >= 0,
            d > 0,
            q == x / d,
    ;
    // Putting the signs back on the product.
    assert(q * b == -(q * (-b)) && (-q) * b == -(q * b) && d * q == q * d) by (nonlinear_arith);
}

/// Among 32-bit operands only `i32::MIN / -1` has a quotient that does not
/// fit in 32 bits: it is `2^31`, which wraps around to `i32::MIN`. Every other
/// quotient, and every remainder, is left as it is by wrapping.
pub proof fn lemma_trunc_fits(a: i32, b: i32)
    requires
        b != 0,
    ensures
        a == i32::MIN && b == -1 ==> trunc_div(a as int, b as int) == 0x8000_0000 && wrap32(
            trunc_div(a as int, b as int),
        ) == i32::MIN,
        !(a == i32::MIN && b == -1) ==> wrap32(trunc_div(a as int, b as int)) == trunc_div(
            a as int,
            b as int,
        ),
        wrap32(trunc_rem(a as int, b as int)) == trunc_rem(a as int, b as int),
{
    let q = trunc_div(a as int, b as int);
    let r = trunc_rem(a as int, b as int);
    lemma_trunc_div_rem(a as int, b as int);
    if a == i32::MIN && b == -1 {
        assert(0x8000_0000int / 1 == 0x8000_0000);
    } else {
        assert(q != 0x8000_0000) by (nonlinear_arith)
            requires
                q * b + r == a,
                -0x8000_0000 <= a < 0x8000_0000,
                !(a == -0x8000_0000 && b == -1),
                b != 0,
                r > 0 ==> a > 0,
                r < 0 ==> a < 0,
                r < b || r < -b,
                -r < b || -r < -b,
        ;
    }
}

/// In wrapping arithmetic the quotient times the divisor, plus the
/// remainder, is the dividend again, for every non-zero divisor: also for
/// `i32::MIN / -1`, whose quotient wraps around.
pub proof fn lemma_div_mod_recompose(a: i32, b: i32)
    requires
        b != 0,
    ensures
        wrap32(wrap32(wrap32(trunc_div(a as int, b as int)) * b) + trunc_rem(a as int, b as int))
            == a,
{
    lemma_trunc_div_rem(a as int, b as int);
    lemma_trunc_fits(a, b);
}

} // verus!
