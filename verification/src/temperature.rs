//! Fahrenheit-to-Celsius conversion on 32-bit integers.

use vstd::prelude::*;

verus! {

/// Truncating integer division (rounding toward zero), the semantics the
/// executable `/` operator has on signed integers with a positive divisor.
pub open spec fn trunc_div(a: int, b: int) -> int
    recommends
        b > 0,
{
    if a >= 0 {
        a / b
    } else {
        -((-a) / b)
    }
}

/// The Celsius value of a Fahrenheit temperature: `(f - 32) * 5 / 9`,
/// with the division truncating toward zero.
pub open spec fn celsius_of(f: int) -> int {
    trunc_div((f - 32) * 5, 9)
}

/// Converts a Fahrenheit temperature to Celsius, truncating toward zero.
/// Defined on the whole 32-bit range: the intermediate product is widened
/// to 64 bits, and the quotient always fits back in 32 bits.
pub fn fahr_to_cel(num: i32) -> (r: i32)
    ensures
        r as int == celsius_of(num as int),
{
    let prod: i64 = (num as i64 - 32) * 5;
    let q: i64 = if prod >= 0 {
        ((prod as u64) / 9) as i64
    } else {
        -((((-prod) as u64) / 9) as i64)
    };
    q as i32
}

/// The conversion is a pure function of its input: any two results that its
/// contract admits for the same Fahrenheit value are equal.
pub proof fn lemma_fahr_to_cel_pure(f: int, r1: int, r2: int)
    requires
        r1 == celsius_of(f),
        r2 == celsius_of(f),
    ensures
        r1 == r2,
{
}

} // verus!
