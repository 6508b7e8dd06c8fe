//! The ways in which an operation of this library can fail.

use vstd::prelude::*;

verus! {

/// Why an operation could not produce a value.
#[derive(Clone, Copy, Debug, PartialEq, Eq, Structural)]
pub enum Error {
    /// A fraction was asked for with the denominator zero.
    ZeroDenominator,
    /// A division was asked for with the divisor zero.
    DivisionByZero,
    /// A chromaticity was asked for with `y` zero: it has no finite
    /// projection to XYZ.
    DegenerateChromaticity,
    /// A matrix whose determinant is zero has no inverse.
    SingularMatrix,
    /// The three primaries do not span XYZ space.
    SingularPrimaries,
}

} // verus!
