//! The boundary to the arbitrary-precision integers and fractions of the
//! `num` crate. Verus reads none of that crate's code: what this module says
//! about it is taken on trust, and everything else in the library is proved
//! from it.

use crate::fraction::{lowest_terms, quotient};
use num::bigint::BigInt;
use num::rational::Ratio;
use vstd::prelude::*;

verus! {

/// `num::bigint::BigInt`, an integer of unbounded size. Nothing is known of
/// how it is held.
#[verifier::external_type_specification]
#[verifier::external_body]
pub struct ExBigInt(num::bigint::BigInt);

/// `num::rational::Ratio`, a numerator and a denominator. Nothing is known of
/// how it is held.
#[verifier::external_type_specification]
#[verifier::external_body]
#[verifier::reject_recursive_types(T)]
pub struct ExRatio<T>(num::rational::Ratio<T>);

/// The integer that a big integer holds.
pub uninterp spec fn big_value(b: BigInt) -> int;

/// The numerator that a fraction holds.
pub uninterp spec fn ratio_numer(r: Ratio<BigInt>) -> int;

/// The denominator that a fraction holds.
pub uninterp spec fn ratio_denom(r: Ratio<BigInt>) -> int;

/// The real number that a fraction stands for.
pub open spec fn ratio_value(r: Ratio<BigInt>) -> real {
    quotient(ratio_numer(r), ratio_denom(r))
}

/// The fraction is held in lowest terms, with a positive denominator.
pub open spec fn ratio_reduced(r: Ratio<BigInt>) -> bool {
    lowest_terms(ratio_numer(r), ratio_denom(r))
}

/// The decimal digit `d`, for `d` from 0 to 9.
pub open spec fn digit(d: int) -> char {
    if d == 0 {
        '0'
    } else if d == 1 {
        '1'
    } else if d == 2 {
        '2'
    } else if d == 3 {
        '3'
    } else if d == 4 {
        '4'
    } else if d == 5 {
        '5'
    } else if d == 6 {
        '6'
    } else if d == 7 {
        '7'
    } else if d == 8 {
        '8'
    } else {
        '9'
    }
}

/// The decimal digits of a natural number, without leading zeros.
pub open spec fn digits(n: nat) -> Seq<char>
    decreases n,
{
    if n < 10 {
        seq![digit(n as int)]
    } else {
        digits(n / 10).push(digit((n % 10) as int))
    }
}

/// The decimal notation of an integer: a minus sign where it is negative,
/// then the digits of its magnitude.
pub open spec fn decimal(v: int) -> Seq<char> {
    if v < 0 {
        seq!['-'] + digits((-v) as nat)
    } else {
        digits(v as nat)
    }
}

/// `ToString::to_string` on a `BigInt`: the integer in decimal notation.
#[verifier::external_body]
pub(crate) fn big_to_string(b: &BigInt) -> (s: String)
    ensures
        s@ == decimal(big_value(*b)),
{
    b.to_string()
}

/// `BigInt::from` on an `i128`: the result holds the same integer.
#[verifier::external_body]
pub(crate) fn big_from_i128(x: i128) -> (b: BigInt)
    ensures
        big_value(b) == x,
{
    BigInt::from(x)
}

/// `Zero::is_zero` on a `BigInt`: whether the integer is zero.
#[verifier::external_body]
pub(crate) fn big_is_zero(b: &BigInt) -> (z: bool)
    ensures
        z == (big_value(*b) == 0),
{
    num::Zero::is_zero(b)
}

/// `Ratio::new`, which panics on a zero denominator: the result is the
/// fraction `n / d` in lowest terms, with a positive denominator.
#[verifier::external_body]
pub(crate) fn ratio_new(n: BigInt, d: BigInt) -> (r: Ratio<BigInt>)
    requires
        big_value(d) != 0,
    ensures
        ratio_reduced(r),
        ratio_value(r) == quotient(big_value(n), big_value(d)),
{
    Ratio::new(n, d)
}

/// `Ratio::numer`: a copy of the numerator.
#[verifier::external_body]
pub(crate) fn ratio_numer_of(r: &Ratio<BigInt>) -> (n: BigInt)
    ensures
        big_value(n) == ratio_numer(*r),
{
    r.numer().clone()
}

/// `Ratio::denom`: a copy of the denominator.
#[verifier::external_body]
pub(crate) fn ratio_denom_of(r: &Ratio<BigInt>) -> (d: BigInt)
    ensures
        big_value(d) == ratio_denom(*r),
{
    r.denom().clone()
}

/// `Clone::clone` on a `Ratio`: the same fraction again.
#[verifier::external_body]
pub(crate) fn ratio_clone(a: &Ratio<BigInt>) -> (r: Ratio<BigInt>)
    ensures
        r == *a,
{
    a.clone()
}

/// `Add::add` on two `Ratio`s: the sum, in lowest terms.
#[verifier::external_body]
pub(crate) fn ratio_add(a: &Ratio<BigInt>, b: &Ratio<BigInt>) -> (r: Ratio<BigInt>)
    requires
        ratio_reduced(*a),
        ratio_reduced(*b),
    ensures
        ratio_reduced(r),
        ratio_value(r) == ratio_value(*a) + ratio_value(*b),
{
    a + b
}

/// `Sub::sub` on two `Ratio`s: the difference, in lowest terms.
#[verifier::external_body]
pub(crate) fn ratio_sub(a: &Ratio<BigInt>, b: &Ratio<BigInt>) -> (r: Ratio<BigInt>)
    requires
        ratio_reduced(*a),
        ratio_reduced(*b),
    ensures
        ratio_reduced(r),
        ratio_value(r) == ratio_value(*a) - ratio_value(*b),
{
    a - b
}

/// `Mul::mul` on two `Ratio`s: the product, in lowest terms.
#[verifier::external_body]
pub(crate) fn ratio_mul(a: &Ratio<BigInt>, b: &Ratio<BigInt>) -> (r: Ratio<BigInt>)
    requires
        ratio_reduced(*a),
        ratio_reduced(*b),
    ensures
        ratio_reduced(r),
        ratio_value(r) == ratio_value(*a) * ratio_value(*b),
{
    a * b
}

/// `Div::div` on two `Ratio`s, which panics on a zero divisor: the quotient,
/// in lowest terms.
#[verifier::external_body]
pub(crate) fn ratio_div(a: &Ratio<BigInt>, b: &Ratio<BigInt>) -> (r: Ratio<BigInt>)
    requires
        ratio_reduced(*a),
        ratio_reduced(*b),
        ratio_numer(*b) != 0,
    ensures
        ratio_reduced(r),
        ratio_value(r) == ratio_value(*a) / ratio_value(*b),
{
    a / b
}

/// `Zero::is_zero` on a `Ratio`: whether the numerator is zero.
#[verifier::external_body]
pub(crate) fn ratio_is_zero(a: &Ratio<BigInt>) -> (z: bool)
    ensures
        z == (ratio_numer(*a) == 0),
{
    num::Zero::is_zero(a)
}

/// `PartialEq::eq` on two `Ratio`s in lowest terms: whether they stand for
/// the same number.
#[verifier::external_body]
pub(crate) fn ratio_eq(a: &Ratio<BigInt>, b: &Ratio<BigInt>) -> (e: bool)
    requires
        ratio_reduced(*a),
        ratio_reduced(*b),
    ensures
        e == (ratio_value(*a) == ratio_value(*b)),
{
    a == b
}

/// `PartialOrd::lt` on two `Ratio`s in lowest terms: whether the first
/// stands for the smaller number.
#[verifier::external_body]
pub(crate) fn ratio_lt(a: &Ratio<BigInt>, b: &Ratio<BigInt>) -> (l: bool)
    requires
        ratio_reduced(*a),
        ratio_reduced(*b),
    ensures
        l == (ratio_value(*a) < ratio_value(*b)),
{
    a < b
}

} // verus!
