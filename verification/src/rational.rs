//! Exact rational numbers of unbounded size, held in lowest terms.

use crate::error::Error;
use crate::fraction::{
    lemma_integer_quotient, lemma_lowest_terms_by_gcd, lemma_quotient_unique, lemma_quotient_zero,
    lowest_terms, quotient, reduction_of,
};
use crate::scalar::{
    big_from_i128, big_is_zero, big_value, ratio_add, ratio_clone, ratio_denom, ratio_denom_of,
    ratio_div, ratio_eq, ratio_is_zero, ratio_lt, ratio_mul, ratio_new, ratio_numer,
    ratio_numer_of, ratio_sub,
};
use num::bigint::BigInt;
use num::rational::Ratio;
use vstd::prelude::*;
use vstd::std_specs::cmp::PartialEqSpecImpl;

verus! {

/// A rational number: a numerator and a positive denominator without a common
/// factor, both of unbounded size.
#[derive(Debug)]
pub struct Rational {
    pub(crate) inner: Ratio<BigInt>,
}

impl View for Rational {
    type V = real;

    /// The real number that the fraction stands for.
    open spec fn view(&self) -> real {
        quotient(self.numerator(), self.denominator())
    }
}

impl Rational {
    /// The numerator that is held.
    pub closed spec fn numerator(&self) -> int {
        ratio_numer(self.inner)
    }

    /// The denominator that is held.
    pub closed spec fn denominator(&self) -> int {
        ratio_denom(self.inner)
    }

    /// The fraction is in lowest terms, with a positive denominator. Every
    /// value that a program holds is.
    #[verifier::type_invariant]
    pub open spec fn reduced(&self) -> bool {
        lowest_terms(self.numerator(), self.denominator())
    }

    /// The fraction `numerator / denominator`, reduced by the greatest common
    /// divisor of the two, with the sign on the numerator. A zero denominator
    /// is refused.
    pub fn make(numerator: BigInt, denominator: BigInt) -> (r: Result<Rational, Error>)
        ensures
            match r {
                Ok(q) => big_value(denominator) != 0 && q.reduced() && q@ == quotient(
                    big_value(numerator),
                    big_value(denominator),
                ) && reduction_of(
                    q.numerator(),
                    q.denominator(),
                    big_value(numerator),
                    big_value(denominator),
                ),
                Err(e) => big_value(denominator) == 0 && e == Error::ZeroDenominator,
            },
    {
        if big_is_zero(&denominator) {
            Err(Error::ZeroDenominator)
        } else {
            let q = Rational { inner: ratio_new(numerator, denominator) };
            proof {
                lemma_lowest_terms_by_gcd(
                    q.numerator(),
                    q.denominator(),
                    big_value(numerator),
                    big_value(denominator),
                );
            }
            Ok(q)
        }
    }

    /// The fraction `numerator / denominator` of two machine integers,
    /// brought to lowest terms. A zero denominator is refused.
    pub fn from_i128(numerator: i128, denominator: i128) -> (r: Result<Rational, Error>)
        ensures
            match r {
                Ok(q) => denominator != 0 && q.reduced() && q@ == quotient(
                    numerator as int,
                    denominator as int,
                ) && reduction_of(
                    q.numerator(),
                    q.denominator(),
                    numerator as int,
                    denominator as int,
                ),
                Err(e) => denominator == 0 && e == Error::ZeroDenominator,
            },
    {
        Rational::make(big_from_i128(numerator), big_from_i128(denominator))
    }

    /// The integer `n` as a fraction.
    pub fn from_integer(n: i128) -> (r: Rational)
        ensures
            r.reduced(),
            r@ == n as real,
            r.numerator() == n,
            r.denominator() == 1,
    {
        let r = Rational { inner: ratio_new(big_from_i128(n), big_from_i128(1)) };
        proof {
            lemma_integer_quotient(n as int);
            lemma_quotient_unique(r.numerator(), r.denominator(), n as int, 1);
        }
        r
    }

    /// The number zero.
    pub fn zero() -> (r: Rational)
        ensures
            r.reduced(),
            r@ == 0 as real,
            r.numerator() == 0,
            r.denominator() == 1,
    {
        Rational::from_integer(0)
    }

    /// The number one.
    pub fn one() -> (r: Rational)
        ensures
            r.reduced(),
            r@ == 1 as real,
            r.numerator() == 1,
            r.denominator() == 1,
    {
        Rational::from_integer(1)
    }

    /// A copy of the numerator.
    pub fn numer(&self) -> (n: BigInt)
        ensures
            big_value(n) == self.numerator(),
    {
        ratio_numer_of(&self.inner)
    }

    /// A copy of the denominator.
    pub fn denom(&self) -> (d: BigInt)
        ensures
            big_value(d) == self.denominator(),
            big_value(d) > 0,
    {
        proof {
            use_type_invariant(self);
        }
        ratio_denom_of(&self.inner)
    }

    /// The sum, in lowest terms.
    pub fn add(&self, rhs: &Rational) -> (r: Rational)
        ensures
            r.reduced(),
            r@ == self@ + rhs@,
    {
        proof {
            use_type_invariant(self);
            use_type_invariant(rhs);
        }
        Rational { inner: ratio_add(&self.inner, &rhs.inner) }
    }

    /// The difference, in lowest terms.
    pub fn sub(&self, rhs: &Rational) -> (r: Rational)
        ensures
            r.reduced(),
            r@ == self@ - rhs@,
    {
        proof {
            use_type_invariant(self);
            use_type_invariant(rhs);
        }
        Rational { inner: ratio_sub(&self.inner, &rhs.inner) }
    }

    /// The product, in lowest terms.
    pub fn mul(&self, rhs: &Rational) -> (r: Rational)
        ensures
            r.reduced(),
            r@ == self@ * rhs@,
    {
        proof {
            use_type_invariant(self);
            use_type_invariant(rhs);
        }
        Rational { inner: ratio_mul(&self.inner, &rhs.inner) }
    }

    /// The quotient, in lowest terms. Division by zero is refused.
    pub fn div(&self, rhs: &Rational) -> (r: Result<Rational, Error>)
        ensures
            match r {
                Ok(q) => rhs@ != 0 as real && q.reduced() && q@ == self@ / rhs@,
                Err(e) => rhs@ == 0 as real && e == Error::DivisionByZero,
            },
    {
        proof {
            use_type_invariant(self);
            use_type_invariant(rhs);
            lemma_quotient_zero(rhs.numerator(), rhs.denominator());
        }
        if ratio_is_zero(&rhs.inner) {
            Err(Error::DivisionByZero)
        } else {
            Ok(self.over(rhs))
        }
    }

    /// The quotient by a number that is not zero, in lowest terms.
    pub(crate) fn over(&self, rhs: &Rational) -> (r: Rational)
        requires
            rhs@ != 0 as real,
        ensures
            r.reduced(),
            r@ == self@ / rhs@,
    {
        proof {
            use_type_invariant(self);
            use_type_invariant(rhs);
            lemma_quotient_zero(rhs.numerator(), rhs.denominator());
        }
        Rational { inner: ratio_div(&self.inner, &rhs.inner) }
    }

    /// Whether the number is zero.
    pub fn is_zero(&self) -> (z: bool)
        ensures
            z == (self@ == 0 as real),
            z == (self.numerator() == 0),
    {
        proof {
            use_type_invariant(self);
            lemma_quotient_zero(self.numerator(), self.denominator());
        }
        ratio_is_zero(&self.inner)
    }

    /// Whether `self` is the smaller number.
    pub fn lt(&self, other: &Rational) -> (l: bool)
        ensures
            l == (self@ < other@),
    {
        proof {
            use_type_invariant(self);
            use_type_invariant(other);
        }
        ratio_lt(&self.inner, &other.inner)
    }

    /// Whether `self` is at most `other`.
    pub fn le(&self, other: &Rational) -> (l: bool)
        ensures
            l == (self@ <= other@),
    {
        !other.lt(self)
    }
}

impl Clone for Rational {
    fn clone(&self) -> (r: Self)
        ensures
            r == *self,
    {
        proof {
            use_type_invariant(self);
        }
        Rational { inner: ratio_clone(&self.inner) }
    }
}

impl PartialEq for Rational {
    fn eq(&self, other: &Self) -> (r: bool) {
        proof {
            use_type_invariant(self);
            use_type_invariant(other);
            lemma_equal_fractions(*self, *other);
        }
        ratio_eq(&self.inner, &other.inner)
    }
}

impl PartialEqSpecImpl for Rational {
    open spec fn obeys_eq_spec() -> bool {
        true
    }

    /// Two fractions are equal when they hold the same numerator and the
    /// same denominator.
    open spec fn eq_spec(&self, other: &Self) -> bool {
        self.numerator() == other.numerator() && self.denominator() == other.denominator()
    }
}

/// Two fractions in lowest terms stand for the same number exactly when they
/// hold the same numerator and the same denominator.
pub proof fn lemma_equal_fractions(a: Rational, b: Rational)
    requires
        a.reduced(),
        b.reduced(),
    ensures
        a@ == b@ <==> a.numerator() == b.numerator() && a.denominator() == b.denominator(),
{
    if a@ == b@ {
        lemma_same_value_same_fraction(a, b);
    }
}

/// Two fractions in lowest terms that stand for the same number have the
/// same numerator and the same denominator.
pub proof fn lemma_same_value_same_fraction(a: Rational, b: Rational)
    requires
        a.reduced(),
        b.reduced(),
        a@ == b@,
    ensures
        a.numerator() == b.numerator(),
        a.denominator() == b.denominator(),
{
    lemma_quotient_unique(a.numerator(), a.denominator(), b.numerator(), b.denominator());
}

} // verus!
