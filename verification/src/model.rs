//! The mathematical meaning of the operations: two's-complement reduction and
//! division that rounds toward zero, stated over unbounded integers.

use vstd::prelude::*;

verus! {

/// The signed 32-bit value that an unbounded integer wraps to: the one member
/// of `[-2^31, 2^31)` that differs from `x` by a multiple of `2^32`.
pub open spec fn wrap32(x: int) -> int {
    (x + 0x8000_0000) % 0x1_0000_0000 - 0x8000_0000
}

/// The absolute value of `x`.
pub open spec fn magnitude(x: int) -> int {
    if x < 0 {
        -x
    } else {
        x
    }
}

/// The quotient of `a` by `b` rounded toward zero. Meaningful for `b != 0`.
pub open spec fn trunc_div(a: int, b: int) -> int
    recommends
        b != 0,
{
    if (a < 0) == (b < 0) {
        magnitude(a) / magnitude(b)
    } else {
        -(magnitude(a) / magnitude(b))
    }
}

/// The remainder that goes with [`trunc_div`]: it takes the sign of `a`.
/// Meaningful for `b != 0`.
pub open spec fn trunc_rem(a: int, b: int) -> int
    recommends
        b != 0,
{
    if a < 0 {
        -(magnitude(a) % magnitude(b))
    } else {
        a % magnitude(b)
    }
}

} // verus!
