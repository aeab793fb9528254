//! IEEE-754 double arithmetic on bit patterns.
//!
//! The library carries floating-point cells as the bit patterns of IEEE-754
//! doubles. The two arithmetic operations the computation needs are done by
//! `rustc_apfloat`, a software implementation of IEEE-754 binary64 with
//! round-to-nearest-even (the default rounding of the `-` and `/` operators
//! on hardware doubles), working directly on bit patterns. Each operation is
//! deterministic — for fixed operand bits the result bits are fixed — so its
//! result is given a name that the contracts downstream speak of.

use vstd::prelude::*;
use rustc_apfloat::Float;
use rustc_apfloat::ieee::Double;

verus! {

/// Bit pattern of the IEEE-754 double difference `minuend - subtrahend`
/// of the doubles with the given bit patterns.
pub uninterp spec fn f64_sub_bits(minuend: u64, subtrahend: u64) -> u64;

/// Bit pattern of the IEEE-754 double quotient `numerator / denominator`
/// of the doubles with the given bit patterns.
pub uninterp spec fn f64_div_bits(numerator: u64, denominator: u64) -> u64;

/// Relies on `rustc_apfloat::ieee::Double`'s subtraction (IEEE-754 binary64,
/// round to nearest even): the result bits depend on the operand bits alone.
#[verifier::external_body]
fn sub_bits(minuend: u64, subtrahend: u64) -> (r: u64)
    ensures
        r == f64_sub_bits(minuend, subtrahend),
{
    let a = Double::from_bits(minuend as u128);
    let b = Double::from_bits(subtrahend as u128);
    (a - b).value.to_bits() as u64
}

/// Relies on `rustc_apfloat::ieee::Double`'s division (IEEE-754 binary64,
/// round to nearest even): the result bits depend on the operand bits alone.
/// A zero denominator yields the IEEE infinity or NaN bit pattern, not a
/// failure.
#[verifier::external_body]
fn div_bits(numerator: u64, denominator: u64) -> (r: u64)
    ensures
        r == f64_div_bits(numerator, denominator),
{
    let a = Double::from_bits(numerator as u128);
    let b = Double::from_bits(denominator as u128);
    (a / b).value.to_bits() as u64
}

/// Bit pattern of the percentage return `(end - start) / start`, both
/// operands and the result being IEEE-754 double bit patterns.
pub open spec fn percent_return_bits(start: u64, end: u64) -> u64 {
    f64_div_bits(f64_sub_bits(end, start), start)
}

/// Computes the percentage return `(end - start) / start` on double bit
/// patterns.
pub fn percent_return(start: u64, end: u64) -> (r: u64)
    ensures
        r == percent_return_bits(start, end),
{
    let difference = sub_bits(end, start);
    div_bits(difference, start)
}

} // verus!
