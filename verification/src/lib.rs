//! Exact derivation of the matrices that convert between the linear RGB space
//! of a display and CIE XYZ, from the chromaticities of the three primaries
//! and the white point. All arithmetic is on fractions of integers of
//! unbounded size, so every result is exact.
//!
//! - [`rational`]: the fractions, held in lowest terms.
//! - [`chromaticity`]: points of the xy diagram and their projection to XYZ.
//! - [`matrix`]: vectors and 3×3 matrices, with determinant, inverse and
//!   transpose.
//! - [`derivation`]: the RGB to XYZ matrix of a colour space.
//! - [`report`] and [`render`]: the matrices of a colour space as text.
//! - [`laws`]: what holds of these operations taken together.
//! - [`fraction`] and [`linear`]: the mathematics that the contracts are
//!   stated in, with its lemmas.
//! - [`scalar`]: the boundary to the `num` crate, which does the arithmetic.

pub mod chromaticity;
pub mod derivation;
pub mod error;
pub mod fraction;
pub mod laws;
pub mod linear;
pub mod matrix;
pub mod rational;
pub mod render;
pub mod report;
pub mod scalar;
