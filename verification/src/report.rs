//! The three matrices that describe a colour space, and their listing.

use crate::chromaticity::Chromaticity;
use crate::derivation;
use crate::derivation::{derives, primaries_matrix, scaled_to_white};
use crate::error::Error;
use crate::matrix::{Matrix3, Vector3};
use crate::render::{format_matrix, matrix_lines, texts};
use vstd::prelude::*;
use vstd::string::*;

verus! {

/// The matrices of a colour space.
#[derive(Debug)]
pub struct ColorSpaceMatrices {
    /// The primaries in XYZ, one in each row.
    pub primaries: Matrix3,
    /// The matrix from linear RGB to XYZ.
    pub to_xyz: Matrix3,
    /// The matrix from XYZ to linear RGB.
    pub from_xyz: Matrix3,
}

/// The header over the primaries.
pub open spec fn primaries_header() -> Seq<char> {
    seq![' ', ' ', 'P', 'r', 'i', 'm', 'a', 'r', 'i', 'e', 's']
}

/// The header over the matrix to XYZ.
pub open spec fn to_xyz_header() -> Seq<char> {
    seq![' ', ' ', 'T', 'o', ' ', 'X', 'Y', 'Z']
}

/// The header over the matrix from XYZ.
pub open spec fn from_xyz_header() -> Seq<char> {
    seq![' ', ' ', 'F', 'r', 'o', 'm', ' ', 'X', 'Y', 'Z']
}

/// The listing of a colour space: an empty line, its name, and its three
/// matrices.
pub open spec fn listing(name: Seq<char>, c: ColorSpaceMatrices) -> Seq<Seq<char>> {
    seq![Seq::<char>::empty(), name] + matrix_lines(primaries_header(), c.primaries)
        + matrix_lines(to_xyz_header(), c.to_xyz) + matrix_lines(from_xyz_header(), c.from_xyz)
}

/// The matrices of the colour space with the white point `white`, given in
/// XYZ, and the three primaries: the matrix to XYZ as `derive` gives it, its
/// inverse, and its transpose. Primaries that do not span XYZ space are
/// refused, and so is a white point for which the matrix to XYZ has no
/// inverse.
pub fn color_space_matrices(white: &Vector3, primaries: &[Chromaticity; 3]) -> (r: Result<
    ColorSpaceMatrices,
    Error,
>)
    ensures
        match r {
            Ok(c) => derives(*white, *primaries, Ok(c.to_xyz)) && c.to_xyz@.det() != 0 as real
                && c.from_xyz.reduced() && c.from_xyz@ == c.to_xyz@.inverse()
                && c.primaries.is_transpose_of(c.to_xyz),
            Err(e) => if primaries_matrix(*primaries).det() == 0 as real {
                e == Error::SingularPrimaries
            } else {
                e == Error::SingularMatrix && scaled_to_white(
                    primaries_matrix(*primaries),
                    white@,
                ).det() == 0 as real
            },
        },
{
    match derivation::derive(white, primaries) {
        Ok(to_xyz) => match to_xyz.invert() {
            Ok(from_xyz) => {
                let primaries_xyz = to_xyz.transpose();
                Ok(ColorSpaceMatrices { primaries: primaries_xyz, to_xyz, from_xyz })
            },
            Err(e) => Err(e),
        },
        Err(e) => Err(e),
    }
}

/// Moves the lines of `more` to the end of `lines`.
fn extend(lines: &mut Vec<String>, more: Vec<String>)
    ensures
        texts(final(lines)@) == texts(old(lines)@) + texts(more@),
{
    let mut rest = more;
    lines.append(&mut rest);
    assert(texts(lines@) =~= texts(old(lines)@) + texts(more@));
}

/// The first two lines of a listing: an empty line and the name.
fn title_lines(name: &str) -> (lines: Vec<String>)
    ensures
        texts(lines@) == seq![Seq::<char>::empty(), name@],
{
    let mut lines: Vec<String> = Vec::new();
    lines.push(String::from_str(""));
    lines.push(String::from_str(name));
    proof {
        reveal_strlit("");
        assert(""@ =~= Seq::<char>::empty());
        assert(texts(lines@) =~= seq![Seq::<char>::empty(), name@]);
    }
    lines
}

/// The primaries under their header.
fn primaries_lines(m: &Matrix3) -> (lines: Vec<String>)
    ensures
        texts(lines@) == matrix_lines(primaries_header(), *m),
{
    proof {
        reveal_strlit("  Primaries");
        assert("  Primaries"@ =~= primaries_header());
    }
    format_matrix("  Primaries", m)
}

/// The matrix to XYZ under its header.
fn to_xyz_lines(m: &Matrix3) -> (lines: Vec<String>)
    ensures
        texts(lines@) == matrix_lines(to_xyz_header(), *m),
{
    proof {
        reveal_strlit("  To XYZ");
        assert("  To XYZ"@ =~= to_xyz_header());
    }
    format_matrix("  To XYZ", m)
}

/// The matrix from XYZ under its header.
fn from_xyz_lines(m: &Matrix3) -> (lines: Vec<String>)
    ensures
        texts(lines@) == matrix_lines(from_xyz_header(), *m),
{
    proof {
        reveal_strlit("  From XYZ");
        assert("  From XYZ"@ =~= from_xyz_header());
    }
    format_matrix("  From XYZ", m)
}

/// The listing of a colour space as lines of text: an empty line, the name,
/// then the primaries, the matrix to XYZ and the matrix from XYZ, each under
/// its header.
pub fn format_color_space(name: &str, c: &ColorSpaceMatrices) -> (lines: Vec<String>)
    ensures
        texts(lines@) == listing(name@, *c),
{
    let mut lines = title_lines(name);
    extend(&mut lines, primaries_lines(&c.primaries));
    extend(&mut lines, to_xyz_lines(&c.to_xyz));
    extend(&mut lines, from_xyz_lines(&c.from_xyz));
    lines
}

} // verus!
