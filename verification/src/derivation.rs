//! The derivation of the RGB to XYZ matrix of a colour space from its white
//! point and the chromaticities of its primaries.

use crate::chromaticity::{xyz, Chromaticity};
use crate::error::Error;
use crate::linear::{Mat3, Vec3};
use crate::matrix::{Matrix3, Vector3};
use vstd::prelude::*;

verus! {

/// The unscaled matrix of three primaries: its columns are their XYZ
/// tristimuli of unit luminance.
pub open spec fn primaries_matrix(p: [Chromaticity; 3]) -> Mat3 {
    Mat3::from_columns(xyz(p[0]@), xyz(p[1]@), xyz(p[2]@))
}

/// The matrix `m` with each column scaled so that (1, 1, 1) is sent to
/// `white`: the scale factors solve `m · s = white`.
pub open spec fn scaled_to_white(m: Mat3, white: Vec3) -> Mat3 {
    m.scale_columns(m.inverse().apply(white))
}

/// What `derive` returns for a white point and three primaries: the scaled
/// matrix, in lowest terms, where the primaries span XYZ space, and the
/// refusal where they do not.
pub open spec fn derives(white: Vector3, p: [Chromaticity; 3], r: Result<Matrix3, Error>) -> bool {
    match r {
        Ok(m) => primaries_matrix(p).det() != 0 as real && m.reduced() && m@ == scaled_to_white(
            primaries_matrix(p),
            white@,
        ),
        Err(e) => primaries_matrix(p).det() == 0 as real && e == Error::SingularPrimaries,
    }
}

/// The RGB to XYZ matrix of the colour space with the white point `white`,
/// given in XYZ, and the three primaries: column `i` is the tristimulus of
/// primary `i`, scaled so that RGB (1, 1, 1) is the white point. Primaries
/// that do not span XYZ space are refused.
pub fn derive(white: &Vector3, primaries: &[Chromaticity; 3]) -> (r: Result<Matrix3, Error>)
    ensures
        derives(*white, *primaries, r),
{
    let red = primaries[0].to_xyz();
    let green = primaries[1].to_xyz();
    let blue = primaries[2].to_xyz();
    let unscaled = Matrix3::from_columns(&red, &green, &blue);
    match unscaled.invert() {
        Ok(inverse) => {
            let scale = inverse.apply(white);
            Ok(unscaled.scale_columns(&scale))
        },
        Err(_) => Err(Error::SingularPrimaries),
    }
}

} // verus!
