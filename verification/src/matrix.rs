//! Vectors and 3×3 matrices of exact rational numbers.

use crate::error::Error;
use crate::linear::{cross, dot, Mat3, Vec3};
use crate::rational::{lemma_equal_fractions, Rational};
use vstd::prelude::*;
use vstd::std_specs::cmp::PartialEqSpecImpl;

verus! {

/// An ordered triple of rational numbers: a tristimulus such as (X, Y, Z) or
/// (R, G, B).
#[derive(Debug)]
pub struct Vector3(pub [Rational; 3]);

/// A 3×3 matrix of rational numbers, as an array of rows.
#[derive(Debug)]
pub struct Matrix3(pub [[Rational; 3]; 3]);

impl View for Vector3 {
    type V = Vec3;

    open spec fn view(&self) -> Vec3 {
        Vec3 { x: self.0[0]@, y: self.0[1]@, z: self.0[2]@ }
    }
}

impl View for Matrix3 {
    type V = Mat3;

    open spec fn view(&self) -> Mat3 {
        Mat3 {
            r0: Vec3 { x: self.0[0][0]@, y: self.0[0][1]@, z: self.0[0][2]@ },
            r1: Vec3 { x: self.0[1][0]@, y: self.0[1][1]@, z: self.0[1][2]@ },
            r2: Vec3 { x: self.0[2][0]@, y: self.0[2][1]@, z: self.0[2][2]@ },
        }
    }
}

impl Vector3 {
    /// Every component is in lowest terms.
    pub open spec fn reduced(&self) -> bool {
        forall|i: int| 0 <= i < 3 ==> (#[trigger] self.0[i]).reduced()
    }

    /// The vector with the components `x`, `y` and `z`.
    pub fn new(x: Rational, y: Rational, z: Rational) -> (v: Vector3)
        ensures
            v.0[0] == x,
            v.0[1] == y,
            v.0[2] == z,
    {
        Vector3([x, y, z])
    }

    /// The scalar product with `other`.
    pub fn dot(&self, other: &Vector3) -> (r: Rational)
        ensures
            r.reduced(),
            r@ == dot(self@, other@),
    {
        let a = self.0[0].mul(&other.0[0]);
        let b = self.0[1].mul(&other.0[1]);
        let c = self.0[2].mul(&other.0[2]);
        a.add(&b).add(&c)
    }

    /// The vector product with `other`.
    pub fn cross(&self, other: &Vector3) -> (r: Vector3)
        ensures
            r.reduced(),
            r@ == cross(self@, other@),
    {
        let x = self.0[1].mul(&other.0[2]).sub(&self.0[2].mul(&other.0[1]));
        let y = self.0[2].mul(&other.0[0]).sub(&self.0[0].mul(&other.0[2]));
        let z = self.0[0].mul(&other.0[1]).sub(&self.0[1].mul(&other.0[0]));
        Vector3([x, y, z])
    }

    /// The component-wise product with `other`.
    pub fn times(&self, other: &Vector3) -> (r: Vector3)
        ensures
            r.reduced(),
            r@ == self@.times(other@),
    {
        let x = self.0[0].mul(&other.0[0]);
        let y = self.0[1].mul(&other.0[1]);
        let z = self.0[2].mul(&other.0[2]);
        Vector3([x, y, z])
    }
}

impl Clone for Vector3 {
    fn clone(&self) -> (r: Self)
        ensures
            r == *self,
    {
        let r = Vector3([self.0[0].clone(), self.0[1].clone(), self.0[2].clone()]);
        assert(r.0 =~= self.0);
        r
    }
}

impl PartialEq for Vector3 {
    fn eq(&self, other: &Self) -> (r: bool) {
        let (a, b, c) = (&self.0[0], &self.0[1], &self.0[2]);
        let (d, e, f) = (&other.0[0], &other.0[1], &other.0[2]);
        proof {
            use_type_invariant(a);
            use_type_invariant(b);
            use_type_invariant(c);
            use_type_invariant(d);
            use_type_invariant(e);
            use_type_invariant(f);
            lemma_equal_fractions(*a, *d);
            lemma_equal_fractions(*b, *e);
            lemma_equal_fractions(*c, *f);
        }
        *a == *d && *b == *e && *c == *f
    }
}

impl PartialEqSpecImpl for Vector3 {
    open spec fn obeys_eq_spec() -> bool {
        true
    }

    /// Two vectors are equal when their components stand for the same
    /// numbers.
    open spec fn eq_spec(&self, other: &Self) -> bool {
        self@ == other@
    }
}

/// `rgb_derivation::matrix::transposed_copy`: the entry in row `i` and column
/// `j` of the result is a copy of the entry in row `j` and column `i`.
#[verifier::external_body]
fn transposed_copy(m: &Matrix3) -> (t: Matrix3)
    ensures
        forall|i: int, j: int| 0 <= i < 3 && 0 <= j < 3 ==> (#[trigger] t.0[i][j]) == m.0[j][i],
{
    Matrix3(rgb_derivation::matrix::transposed_copy(&m.0))
}

/// `rgb_derivation::matrix::inversed_copy` on fractions of unbounded size: it
/// fails exactly when the determinant, expanded along the first row, is
/// zero; otherwise each entry of the result is the cofactor of the mirrored
/// entry divided by the determinant, in lowest terms.
#[verifier::external_body]
fn inversed_copy(m: &Matrix3) -> (r: Option<Matrix3>)
    requires
        m.reduced(),
    ensures
        match r {
            Some(inv) => m@.det() != 0 as real && inv.reduced() && inv@ == m@.inverse(),
            None => m@.det() == 0 as real,
        },
{
    let raw = m.0.each_ref().map(|row| row.each_ref().map(|q| q.inner.clone()));
    match rgb_derivation::matrix::inversed_copy(&raw) {
        Ok(inv) => Some(Matrix3(inv.map(|row| row.map(|inner| Rational { inner })))),
        Err(_) => None,
    }
}

impl Matrix3 {
    /// `self` has the rows of `m` as its columns, entry for entry.
    pub open spec fn is_transpose_of(&self, m: Matrix3) -> bool {
        forall|i: int, j: int| 0 <= i < 3 && 0 <= j < 3 ==> (#[trigger] self.0[i][j]) == m.0[j][i]
    }

    /// Every entry is in lowest terms.
    pub open spec fn reduced(&self) -> bool {
        forall|i: int, j: int| 0 <= i < 3 && 0 <= j < 3 ==> (#[trigger] self.0[i][j]).reduced()
    }

    /// Every entry of a matrix that a program holds is in lowest terms.
    fn recall_reduced(&self)
        ensures
            self.reduced(),
    {
        let (a, b, c) = (&self.0[0][0], &self.0[0][1], &self.0[0][2]);
        let (d, e, f) = (&self.0[1][0], &self.0[1][1], &self.0[1][2]);
        let (g, h, i) = (&self.0[2][0], &self.0[2][1], &self.0[2][2]);
        proof {
            use_type_invariant(a);
            use_type_invariant(b);
            use_type_invariant(c);
            use_type_invariant(d);
            use_type_invariant(e);
            use_type_invariant(f);
            use_type_invariant(g);
            use_type_invariant(h);
            use_type_invariant(i);
        }
    }

    /// The matrix with the rows `r0`, `r1` and `r2`.
    pub fn from_rows(r0: Vector3, r1: Vector3, r2: Vector3) -> (m: Matrix3)
        ensures
            m.0[0] == r0.0,
            m.0[1] == r1.0,
            m.0[2] == r2.0,
            m@ == (Mat3 { r0: r0@, r1: r1@, r2: r2@ }),
    {
        Matrix3([r0.0, r1.0, r2.0])
    }

    /// The matrix with the columns `c0`, `c1` and `c2`.
    pub fn from_columns(c0: &Vector3, c1: &Vector3, c2: &Vector3) -> (m: Matrix3)
        ensures
            forall|i: int| 0 <= i < 3 ==> (#[trigger] m.0[i][0]) == c0.0[i],
            forall|i: int| 0 <= i < 3 ==> (#[trigger] m.0[i][1]) == c1.0[i],
            forall|i: int| 0 <= i < 3 ==> (#[trigger] m.0[i][2]) == c2.0[i],
            m@ == Mat3::from_columns(c0@, c1@, c2@),
    {
        Matrix3(
            [
                [c0.0[0].clone(), c1.0[0].clone(), c2.0[0].clone()],
                [c0.0[1].clone(), c1.0[1].clone(), c2.0[1].clone()],
                [c0.0[2].clone(), c1.0[2].clone(), c2.0[2].clone()],
            ],
        )
    }

    /// The identity matrix.
    pub fn identity() -> (m: Matrix3)
        ensures
            m.reduced(),
            m@ == Mat3::identity(),
    {
        Matrix3(
            [
                [Rational::one(), Rational::zero(), Rational::zero()],
                [Rational::zero(), Rational::one(), Rational::zero()],
                [Rational::zero(), Rational::zero(), Rational::one()],
            ],
        )
    }

    /// A copy of row `i`.
    pub(crate) fn row(&self, i: usize) -> (v: Vector3)
        requires
            i < 3,
        ensures
            v.0 == self.0[i as int],
    {
        let v = Vector3([self.0[i][0].clone(), self.0[i][1].clone(), self.0[i][2].clone()]);
        assert(v.0 =~= self.0[i as int]);
        v
    }

    /// A copy of column `j`.
    pub(crate) fn column(&self, j: usize) -> (v: Vector3)
        requires
            j < 3,
        ensures
            forall|i: int| 0 <= i < 3 ==> (#[trigger] v.0[i]) == self.0[i][j as int],
    {
        Vector3([self.0[0][j].clone(), self.0[1][j].clone(), self.0[2][j].clone()])
    }

    /// The determinant, by cofactor expansion along the first row.
    pub fn determinant(&self) -> (d: Rational)
        ensures
            d.reduced(),
            d@ == self@.det(),
    {
        let r0 = self.row(0);
        let r1 = self.row(1);
        let r2 = self.row(2);
        r0.dot(&r1.cross(&r2))
    }

    /// The matrix with rows and columns exchanged.
    pub fn transpose(&self) -> (t: Matrix3)
        ensures
            t.is_transpose_of(*self),
            t@ == self@.transpose(),
    {
        transposed_copy(self)
    }

    /// The inverse: the adjugate divided, entry by entry, by the
    /// determinant. A matrix whose determinant is zero is refused.
    pub fn invert(&self) -> (r: Result<Matrix3, Error>)
        ensures
            match r {
                Ok(inv) => self@.det() != 0 as real && inv.reduced() && inv@ == self@.inverse(),
                Err(e) => self@.det() == 0 as real && e == Error::SingularMatrix,
            },
    {
        self.recall_reduced();
        match inversed_copy(self) {
            Some(inv) => Ok(inv),
            None => Err(Error::SingularMatrix),
        }
    }

    /// The image of the column vector `v`.
    pub fn apply(&self, v: &Vector3) -> (r: Vector3)
        ensures
            r.reduced(),
            r@ == self@.apply(v@),
    {
        let x = self.row(0).dot(v);
        let y = self.row(1).dot(v);
        let z = self.row(2).dot(v);
        Vector3([x, y, z])
    }

    /// The matrix product `self · rhs`.
    pub fn mul(&self, rhs: &Matrix3) -> (r: Matrix3)
        ensures
            r.reduced(),
            r@ == self@.mul(rhs@),
    {
        let c0 = self.apply(&rhs.column(0));
        let c1 = self.apply(&rhs.column(1));
        let c2 = self.apply(&rhs.column(2));
        Matrix3::from_columns(&c0, &c1, &c2)
    }

    /// The matrix with column `i` multiplied by component `i` of `s`.
    pub fn scale_columns(&self, s: &Vector3) -> (r: Matrix3)
        ensures
            r.reduced(),
            r@ == self@.scale_columns(s@),
    {
        let r0 = self.row(0).times(s);
        let r1 = self.row(1).times(s);
        let r2 = self.row(2).times(s);
        Matrix3::from_rows(r0, r1, r2)
    }
}

impl PartialEq for Matrix3 {
    fn eq(&self, other: &Self) -> (r: bool) {
        self.row(0) == other.row(0) && self.row(1) == other.row(1) && self.row(2) == other.row(2)
    }
}

impl PartialEqSpecImpl for Matrix3 {
    open spec fn obeys_eq_spec() -> bool {
        true
    }

    /// Two matrices are equal when their entries stand for the same numbers.
    open spec fn eq_spec(&self, other: &Self) -> bool {
        self@ == other@
    }
}

impl Clone for Matrix3 {
    fn clone(&self) -> (r: Self)
        ensures
            r == *self,
    {
        let r = Matrix3::from_rows(self.row(0), self.row(1), self.row(2));
        assert(r.0 =~= self.0);
        r
    }
}

} // verus!
