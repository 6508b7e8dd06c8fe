use num::BigInt;
use rgb_xyz::error::Error;
use rgb_xyz::rational::Rational;

fn q(n: i128, d: i128) -> Rational {
    Rational::from_i128(n, d).unwrap()
}

fn pair(r: &Rational) -> (BigInt, BigInt) {
    (r.numer(), r.denom())
}

fn big(n: i128, d: i128) -> (BigInt, BigInt) {
    (BigInt::from(n), BigInt::from(d))
}

#[test]
fn make_reduces_by_the_greatest_common_divisor() {
    let r = Rational::make(BigInt::from(6), BigInt::from(4)).unwrap();
    assert_eq!(pair(&r), big(3, 2));
    assert_eq!(pair(&q(3127, 10000)), big(3127, 10000));
    assert_eq!(pair(&q(3290, 10000)), big(329, 1000));
    assert_eq!(pair(&q(10, 5)), big(2, 1));
}

#[test]
fn make_puts_the_sign_on_the_numerator() {
    assert_eq!(pair(&q(1, -2)), big(-1, 2));
    assert_eq!(pair(&q(-1, -2)), big(1, 2));
    assert_eq!(pair(&q(-4, 6)), big(-2, 3));
}

#[test]
fn make_of_zero_is_zero_over_one() {
    assert_eq!(pair(&q(0, 5)), big(0, 1));
    assert_eq!(pair(&q(0, -7)), big(0, 1));
    assert!(q(0, 5).is_zero());
}

#[test]
fn make_refuses_a_zero_denominator() {
    let r = Rational::make(BigInt::from(1), BigInt::from(0));
    assert_eq!(r.err(), Some(Error::ZeroDenominator));
    assert_eq!(Rational::from_i128(0, 0).err(), Some(Error::ZeroDenominator));
    assert_eq!(Rational::from_i128(-3, 0).err(), Some(Error::ZeroDenominator));
}

#[test]
fn make_takes_integers_beyond_machine_size() {
    let n = BigInt::from(i128::MAX) * BigInt::from(6);
    let d = BigInt::from(i128::MAX) * BigInt::from(4);
    let r = Rational::make(n, d).unwrap();
    assert_eq!(pair(&r), big(3, 2));
}

#[test]
fn from_integer_is_over_one() {
    assert_eq!(pair(&Rational::from_integer(-7)), big(-7, 1));
    assert_eq!(pair(&Rational::zero()), big(0, 1));
    assert_eq!(pair(&Rational::one()), big(1, 1));
}

#[test]
fn add_gives_the_reduced_sum() {
    assert_eq!(pair(&q(1, 2).add(&q(1, 3))), big(5, 6));
    assert_eq!(pair(&q(1, 6).add(&q(1, 3))), big(1, 2));
    assert_eq!(pair(&q(1, 2).add(&q(-1, 2))), big(0, 1));
}

#[test]
fn sub_gives_the_reduced_difference() {
    assert_eq!(pair(&q(1, 2).sub(&q(1, 3))), big(1, 6));
    assert_eq!(pair(&q(1, 3).sub(&q(1, 2))), big(-1, 6));
    assert_eq!(pair(&q(5, 6).sub(&q(1, 3))), big(1, 2));
}

#[test]
fn mul_gives_the_reduced_product() {
    assert_eq!(pair(&q(2, 3).mul(&q(3, 4))), big(1, 2));
    assert_eq!(pair(&q(-2, 3).mul(&q(3, 2))), big(-1, 1));
    assert_eq!(pair(&q(0, 1).mul(&q(3, 2))), big(0, 1));
}

#[test]
fn mul_does_not_overflow() {
    let large = q(i128::MAX, 1);
    let square = large.mul(&large);
    let want = BigInt::from(i128::MAX) * BigInt::from(i128::MAX);
    assert_eq!(square.numer(), want);
    assert_eq!(square.denom(), BigInt::from(1));
}

#[test]
fn div_gives_the_reduced_quotient() {
    assert_eq!(pair(&q(1, 2).div(&q(3, 4)).unwrap()), big(2, 3));
    assert_eq!(pair(&q(1, 2).div(&q(-3, 4)).unwrap()), big(-2, 3));
    assert_eq!(pair(&q(0, 1).div(&q(3, 4)).unwrap()), big(0, 1));
    assert_eq!(pair(&q(1, 2).div(&q(1, 4)).unwrap()), big(2, 1));
}

#[test]
fn div_refuses_a_zero_divisor() {
    assert_eq!(q(1, 2).div(&q(0, 3)).err(), Some(Error::DivisionByZero));
    assert_eq!(q(0, 1).div(&Rational::zero()).err(), Some(Error::DivisionByZero));
}

#[test]
fn is_zero_tells_zero_from_the_rest() {
    assert!(Rational::zero().is_zero());
    assert!(q(1, 2).sub(&q(2, 4)).is_zero());
    assert!(!q(1, 1000000).is_zero());
    assert!(!q(-1, 2).is_zero());
}

#[test]
fn equality_is_of_the_reduced_pairs() {
    assert!(q(1, 2) == q(2, 4));
    assert!(q(-1, 2) == q(1, -2));
    assert!(q(1, 2) != q(1, 3));
    assert!(q(1, 2) != q(-1, 2));
    assert_eq!(q(3, 9).clone(), q(1, 3));
}

#[test]
fn ordering_is_of_the_numbers() {
    assert!(q(1, 3).lt(&q(1, 2)));
    assert!(!q(1, 2).lt(&q(1, 3)));
    assert!(!q(1, 2).lt(&q(2, 4)));
    assert!(q(-1, 2).lt(&q(1, 3)));
    assert!(q(-1, 2).lt(&q(-1, 3)));
    assert!(q(1, 2).le(&q(2, 4)));
    assert!(q(1, 3).le(&q(1, 2)));
    assert!(!q(1, 2).le(&q(1, 3)));
}
