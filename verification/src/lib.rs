//! Wrapping 32-bit integer arithmetic with a masked zero divisor, and a
//! greeting, all reporting through a log sink that the caller supplies.

use vstd::prelude::*;

pub mod laws;
pub mod model;
pub mod sink;

use crate::laws::{lemma_trunc_fits, lemma_trunc_unfold};
use crate::model::{trunc_div, trunc_rem, wrap32};
use crate::sink::LogSink;
use vstd::string::StringExecFns;

verus! {

/// The text of the warning that [`div`] emits on a zero divisor.
pub open spec fn division_warning() -> Seq<char> {
    "Warning: Division by zero!"@
}

/// The text of the warning that [`mod_op`] emits on a zero divisor.
pub open spec fn modulus_warning() -> Seq<char> {
    "Warning: Modulus by zero!"@
}

/// The greeting for `name`.
pub open spec fn greeting(name: Seq<char>) -> Seq<char> {
    "Hello, "@ + name + "!"@
}

/// Adds two integers, wrapping around on overflow.
pub fn add(a: i32, b: i32) -> (sum: i32)
    ensures
        sum == wrap32(a + b),
{
    a.wrapping_add(b)
}

/// Divides `a` by `b`, rounding toward zero. A zero divisor is not an error:
/// the result is then 0, and one warning goes to the sink. The one quotient
/// that does not fit, `i32::MIN / -1`, wraps around to `i32::MIN`.
pub fn div(a: i32, b: i32, sink: &mut LogSink) -> (quotient: i32)
    ensures
        b == 0 ==> quotient == 0,
        b != 0 ==> quotient == wrap32(trunc_div(a as int, b as int)),
        b != 0 && !(a == i32::MIN && b == -1) ==> quotient == trunc_div(a as int, b as int),
        final(sink)@ == if b == 0 {
            old(sink)@.push(division_warning())
        } else {
            old(sink)@
        },
{
    if b == 0 {
        sink.record("Warning: Division by zero!".to_owned());
        return 0;
    }
    proof {
        lemma_trunc_unfold(a as int, b as int);
        lemma_trunc_fits(a, b);
    }
    if a == i32::MIN && b == -1 {
        return i32::MIN;
    }
    a / b
}

/// The remainder of `a` by `b` under division that rounds toward zero: it
/// takes the sign of `a`. A zero divisor is not an error: the result is then
/// 0, and one warning goes to the sink.
pub fn mod_op(a: i32, b: i32, sink: &mut LogSink) -> (remainder: i32)
    ensures
        b == 0 ==> remainder == 0,
        b != 0 ==> remainder == trunc_rem(a as int, b as int),
        final(sink)@ == if b == 0 {
            old(sink)@.push(modulus_warning())
        } else {
            old(sink)@
        },
{
    if b == 0 {
        sink.record("Warning: Modulus by zero!".to_owned());
        return 0;
    }
    proof {
        lemma_trunc_unfold(a as int, b as int);
        lemma_trunc_fits(a, b);
    }
    if a == i32::MIN && b == -1 {
        return 0;
    }
    a % b
}

/// Sends the greeting for `name` to the sink.
pub fn greet(name: &str, sink: &mut LogSink)
    ensures
        final(sink)@ == old(sink)@.push(greeting(name@)),
{
    let mut message = "Hello, ".to_owned();
    message.append(name);
    message.append("!");
    sink.record(message);
}

/// Subtracts `b` from `a`, wrapping around on overflow.
pub fn sub(a: i32, b: i32) -> (difference: i32)
    ensures
        difference == wrap32(a - b),
{
    a.wrapping_sub(b)
}

/// Multiplies two integers, wrapping around on overflow.
pub fn mul(a: i32, b: i32) -> (product: i32)
    ensures
        product == wrap32(a * b),
{
    a.wrapping_mul(b)
}

} // verus!
