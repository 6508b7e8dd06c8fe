//! What holds of the operations taken together.

use crate::chromaticity::{xyz, Chromaticity};
use crate::derivation::{derives, primaries_matrix};
use crate::error::Error;
use crate::fraction::{lemma_integer_quotient, lemma_quotient_unique};
use crate::linear::{
    dot, lemma_apply_apply, lemma_apply_identity, lemma_commute, lemma_det_transpose,
    lemma_divide, lemma_inverse, lemma_kernel_singular, lemma_scale_columns_ones,
    lemma_triple_repeated, lemma_unit_zero, Mat3, Vec3,
};
use crate::matrix::{Matrix3, Vector3};
use crate::rational::{lemma_same_value_same_fraction, Rational};
use vstd::prelude::*;

verus! {

/// Every diagonal entry is the fraction 1/1 and every other entry 0/1.
pub open spec fn is_exact_identity(m: Matrix3) -> bool {
    forall|i: int, j: int|
        0 <= i < 3 && 0 <= j < 3 ==> (#[trigger] m.0[i][j]).numerator() == (if i == j {
            1int
        } else {
            0int
        }) && m.0[i][j].denominator() == 1
}

/// The two matrices hold the same numerators and denominators.
pub open spec fn same_fractions(a: Matrix3, b: Matrix3) -> bool {
    forall|i: int, j: int|
        0 <= i < 3 && 0 <= j < 3 ==> (#[trigger] a.0[i][j]).numerator() == b.0[i][j].numerator()
            && a.0[i][j].denominator() == b.0[i][j].denominator()
}

/// A fraction in lowest terms that stands for an integer is that integer
/// over one.
pub proof fn lemma_integer_fraction(q: Rational, n: int)
    requires
        q.reduced(),
        q@ == n as real,
    ensures
        q.numerator() == n,
        q.denominator() == 1,
{
    lemma_integer_quotient(n);
    lemma_quotient_unique(q.numerator(), q.denominator(), n, 1);
}

/// A matrix in lowest terms that stands for the identity holds 1/1 on the
/// diagonal and 0/1 elsewhere.
pub proof fn lemma_exact_identity(m: Matrix3)
    requires
        m.reduced(),
        m@ == Mat3::identity(),
    ensures
        is_exact_identity(m),
{
    assert forall|i: int, j: int| 0 <= i < 3 && 0 <= j < 3 implies (#[trigger] m.0[i][j]).numerator()
        == (if i == j {
        1int
    } else {
        0int
    }) && m.0[i][j].denominator() == 1 by {
        let n = if i == j {
            1int
        } else {
            0int
        };
        assert(m.0[i][j].reduced());
        lemma_integer_fraction(m.0[i][j], n);
    }
}

/// Where the determinant of `m` is not zero, the inverse that `invert`
/// returns, multiplied with `m` from the left or from the right, gives the
/// identity matrix exactly: 1/1 on the diagonal, 0/1 elsewhere.
pub proof fn law_round_trip(m: Matrix3, inverse: Matrix3, left: Matrix3, right: Matrix3)
    requires
        m@.det() != 0 as real,
        inverse@ == m@.inverse(),
        left.reduced(),
        left@ == inverse@.mul(m@),
        right.reduced(),
        right@ == m@.mul(inverse@),
    ensures
        left@ == Mat3::identity(),
        right@ == Mat3::identity(),
        is_exact_identity(left),
        is_exact_identity(right),
{
    lemma_inverse(m@);
    lemma_exact_identity(left);
    lemma_exact_identity(right);
}

/// The matrix that `derive` returns sends (1, 1, 1) to the white point it
/// was derived for, exactly: component by component the same numerator and
/// denominator.
pub proof fn law_white_point_fidelity(
    white: Vector3,
    p: [Chromaticity; 3],
    m: Matrix3,
    image: Vector3,
)
    requires
        white.reduced(),
        derives(white, p, Ok(m)),
        image.reduced(),
        image@ == m@.apply(Vec3::ones()),
    ensures
        image@ == white@,
        forall|i: int|
            0 <= i < 3 ==> (#[trigger] image.0[i]).numerator() == white.0[i].numerator()
                && image.0[i].denominator() == white.0[i].denominator(),
{
    let unscaled = primaries_matrix(p);
    let scale = unscaled.inverse().apply(white@);
    lemma_scale_columns_ones(unscaled, scale);
    lemma_apply_apply(unscaled, unscaled.inverse(), white@);
    lemma_inverse(unscaled);
    lemma_apply_identity(white@);
    assert forall|i: int| 0 <= i < 3 implies (#[trigger] image.0[i]).numerator()
        == white.0[i].numerator() && image.0[i].denominator() == white.0[i].denominator() by {
        assert(image.0[i].reduced());
        assert(white.0[i].reduced());
        lemma_same_value_same_fraction(image.0[i], white.0[i]);
    }
}

/// Two calls of `derive` on the same white point and primaries both succeed
/// or both fail, and where they succeed the two matrices hold the same
/// numerators and denominators.
pub proof fn law_derive_deterministic(
    white: Vector3,
    p: [Chromaticity; 3],
    first: Result<Matrix3, Error>,
    second: Result<Matrix3, Error>,
)
    requires
        derives(white, p, first),
        derives(white, p, second),
    ensures
        first is Err ==> second == first,
        first is Ok ==> second is Ok && same_fractions(first->Ok_0, second->Ok_0),
{
    if let Ok(a) = first {
        let b = second->Ok_0;
        assert forall|i: int, j: int| 0 <= i < 3 && 0 <= j < 3 implies (#[trigger] a.0[i][j]).numerator()
            == b.0[i][j].numerator() && a.0[i][j].denominator() == b.0[i][j].denominator() by {
            assert(a.0[i][j].reduced());
            assert(b.0[i][j].reduced());
            lemma_same_value_same_fraction(a.0[i][j], b.0[i][j]);
        }
    }
}

/// Where two of the three primaries have the same chromaticity, `derive`
/// fails with `SingularPrimaries`.
pub proof fn law_identical_primaries_refused(
    white: Vector3,
    p: [Chromaticity; 3],
    r: Result<Matrix3, Error>,
)
    requires
        p[0]@ == p[1]@ || p[0]@ == p[2]@ || p[1]@ == p[2]@,
        derives(white, p, r),
    ensures
        r == Err::<Matrix3, Error>(Error::SingularPrimaries),
{
    let m = primaries_matrix(p);
    lemma_det_transpose(m);
    let (a, b, c) = (xyz(p[0]@), xyz(p[1]@), xyz(p[2]@));
    assert(m.transpose() == (Mat3 { r0: a, r1: b, r2: c }));
    lemma_triple_repeated(a, c);
    lemma_triple_repeated(a, b);
    lemma_triple_repeated(b, a);
}

/// Where the three chromaticities lie on one line `a·x + b·y + c = 0` of the
/// diagram, `derive` fails with `SingularPrimaries`.
pub proof fn law_collinear_primaries_refused(
    white: Vector3,
    p: [Chromaticity; 3],
    r: Result<Matrix3, Error>,
    a: real,
    b: real,
    c: real,
)
    requires
        a != 0 as real || b != 0 as real,
        forall|i: int| 0 <= i < 3 ==> (#[trigger] p[i])@.1 != 0 as real,
        forall|i: int| 0 <= i < 3 ==> a * (#[trigger] p[i])@.0 + b * p[i]@.1 + c == 0 as real,
        derives(white, p, r),
    ensures
        r == Err::<Matrix3, Error>(Error::SingularPrimaries),
{
    let m = primaries_matrix(p);
    let t = m.transpose();
    let normal = Vec3 { x: a + c, y: b + c, z: c };
    lemma_det_transpose(m);
    lemma_on_line(p[0]@, a, b, c);
    lemma_on_line(p[1]@, a, b, c);
    lemma_on_line(p[2]@, a, b, c);
    assert(t.apply(normal) == Vec3::splat(0 as real));
    lemma_kernel_singular(t, normal);
}

/// The tristimulus of a chromaticity on the line `a·x + b·y + c = 0` lies in
/// the plane through the origin with the normal `(a + c, b + c, c)`.
proof fn lemma_on_line(xy: (real, real), a: real, b: real, c: real)
    requires
        xy.1 != 0 as real,
        a * xy.0 + b * xy.1 + c == 0 as real,
    ensures
        dot(xyz(xy), Vec3 { x: a + c, y: b + c, z: c }) == 0 as real,
{
    let (x, y) = xy;
    let z = 1 as real - x - y;
    let one = 1 as real;
    assert((x / y) * (a + c) + one * (b + c) + (z / y) * c == ((a + c) * x) / y + (b + c) + (c
        * z) / y) by {
        lemma_divide(x, a + c, y);
        lemma_divide(z, c, y);
        lemma_commute(x / y, a + c);
        lemma_commute(z / y, c);
        lemma_unit_zero(b + c, one, 0 as real);
    }
    assert(((a + c) * x) / y + (c * z) / y == ((a + c) * x + c * z) / y) by {
        lemma_divide((a + c) * x, c * z, y);
    }
    assert((a + c) * x + c * z == -(b + c) * y) by (nonlinear_arith)
        requires
            z == 1 as real - x - y,
            a * x + b * y + c == 0 as real,
    ;
    assert((-(b + c) * y) / y == -(b + c)) by {
        lemma_divide(-(b + c), 0 as real, y);
    }
}

/// Transposing twice gives the matrix back, entry for entry.
pub proof fn law_transpose_twice(m: Matrix3, once: Matrix3, twice: Matrix3)
    requires
        once.is_transpose_of(m),
        twice.is_transpose_of(once),
    ensures
        twice == m,
{
    assert forall|i: int| 0 <= i < 3 implies twice.0[i] == m.0[i] by {
        assert forall|j: int| 0 <= j < 3 implies twice.0[i][j] == m.0[i][j] by {
            assert(twice.0[i][j] == once.0[j][i]);
            assert(once.0[j][i] == m.0[i][j]);
        }
        assert(twice.0[i] =~= m.0[i]);
    }
    assert(twice.0 =~= m.0);
}

} // verus!
