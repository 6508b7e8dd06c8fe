//! Points of the CIE xy chromaticity diagram.

use crate::error::Error;
use crate::fraction::{lemma_quotient_zero, quotient};
use crate::linear::Vec3;
use crate::matrix::Vector3;
use crate::rational::Rational;
use vstd::prelude::*;

verus! {

/// A chromaticity: the coordinates `(x, y)` of a colour in the CIE xy
/// diagram, with `y` other than zero.
#[derive(Debug)]
pub struct Chromaticity {
    x: Rational,
    y: Rational,
}

/// The XYZ tristimulus of unit luminance with the chromaticity `(x, y)`:
/// `X = x / y`, `Y = 1`, `Z = (1 - x - y) / y`.
pub open spec fn xyz(c: (real, real)) -> Vec3 {
    Vec3 { x: c.0 / c.1, y: 1 as real, z: (1 as real - c.0 - c.1) / c.1 }
}

impl View for Chromaticity {
    type V = (real, real);

    /// The coordinates `(x, y)`.
    closed spec fn view(&self) -> (real, real) {
        (self.x@, self.y@)
    }
}

impl Chromaticity {
    #[verifier::type_invariant]
    spec fn projects(&self) -> bool {
        self.y@ != 0 as real
    }

    /// The chromaticity `(x, y)`. One with `y` zero is refused, whatever `x`
    /// is; nothing else is asked of the coordinates.
    pub fn make(x: Rational, y: Rational) -> (r: Result<Chromaticity, Error>)
        ensures
            match r {
                Ok(c) => y@ != 0 as real && c@ == (x@, y@),
                Err(e) => y@ == 0 as real && e == Error::DegenerateChromaticity,
            },
    {
        if y.is_zero() {
            Err(Error::DegenerateChromaticity)
        } else {
            Ok(Chromaticity { x, y })
        }
    }

    /// The `x` coordinate.
    pub fn x(&self) -> (r: &Rational)
        ensures
            r@ == self@.0,
    {
        &self.x
    }

    /// The `y` coordinate, which is not zero.
    pub fn y(&self) -> (r: &Rational)
        ensures
            r@ == self@.1,
            r@ != 0 as real,
    {
        proof {
            use_type_invariant(self);
        }
        &self.y
    }

    /// The XYZ tristimulus of unit luminance with this chromaticity.
    pub fn to_xyz(&self) -> (v: Vector3)
        ensures
            v.reduced(),
            v@ == xyz(self@),
    {
        proof {
            use_type_invariant(self);
        }
        let one = Rational::one();
        let big_x = self.x.over(&self.y);
        let big_z = one.sub(&self.x).sub(&self.y).over(&self.y);
        Vector3::new(big_x, one, big_z)
    }
}

/// The chromaticity with the coordinates `x.0 / x.1` and `y.0 / y.1`. A
/// zero denominator is refused, and so is a `y` of zero.
pub fn chromaticity(x: (i128, i128), y: (i128, i128)) -> (r: Result<Chromaticity, Error>)
    ensures
        match r {
            Ok(c) => x.1 != 0 && y.1 != 0 && y.0 != 0 && c@ == (
                quotient(x.0 as int, x.1 as int),
                quotient(y.0 as int, y.1 as int),
            ),
            Err(e) => if x.1 == 0 || y.1 == 0 {
                e == Error::ZeroDenominator
            } else {
                y.0 == 0 && e == Error::DegenerateChromaticity
            },
        },
{
    proof {
        if y.1 != 0 {
            lemma_quotient_zero(y.0 as int, y.1 as int);
        }
    }
    match Rational::from_i128(x.0, x.1) {
        Ok(cx) => match Rational::from_i128(y.0, y.1) {
            Ok(cy) => Chromaticity::make(cx, cy),
            Err(e) => Err(e),
        },
        Err(e) => Err(e),
    }
}

impl Clone for Chromaticity {
    fn clone(&self) -> (r: Self)
        ensures
            r == *self,
    {
        proof {
            use_type_invariant(self);
        }
        Chromaticity { x: self.x.clone(), y: self.y.clone() }
    }
}

} // verus!
