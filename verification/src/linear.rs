//! Three-dimensional linear algebra over the real numbers: the mathematical
//! model in which the contracts of the matrix operations are stated.

use vstd::prelude::*;

verus! {

/// A point of three-dimensional space.
pub struct Vec3 {
    pub x: real,
    pub y: real,
    pub z: real,
}

/// A 3×3 matrix, given by its rows.
pub struct Mat3 {
    pub r0: Vec3,
    pub r1: Vec3,
    pub r2: Vec3,
}

/// The scalar product of two vectors.
pub open spec fn dot(a: Vec3, b: Vec3) -> real {
    a.x * b.x + a.y * b.y + a.z * b.z
}

/// The vector product of two vectors.
pub open spec fn cross(a: Vec3, b: Vec3) -> Vec3 {
    Vec3 { x: a.y * b.z - a.z * b.y, y: a.z * b.x - a.x * b.z, z: a.x * b.y - a.y * b.x }
}

/// The triple product `a · (b × c)`: the determinant of the matrix whose
/// rows are `a`, `b` and `c`, in its six signed products.
pub open spec fn triple(a: Vec3, b: Vec3, c: Vec3) -> real {
    dot(a, cross(b, c))
}

impl Vec3 {
    /// The vector whose components are all one.
    pub open spec fn ones() -> Vec3 {
        Vec3 { x: 1 as real, y: 1 as real, z: 1 as real }
    }

    /// The vector whose components are all `d`.
    pub open spec fn splat(d: real) -> Vec3 {
        Vec3 { x: d, y: d, z: d }
    }

    /// Every component divided by `d`.
    pub open spec fn over(self, d: real) -> Vec3 {
        Vec3 { x: self.x / d, y: self.y / d, z: self.z / d }
    }

    /// The component-wise product with `s`.
    pub open spec fn times(self, s: Vec3) -> Vec3 {
        Vec3 { x: self.x * s.x, y: self.y * s.y, z: self.z * s.z }
    }
}

impl Mat3 {
    /// The identity matrix.
    pub open spec fn identity() -> Mat3 {
        Mat3 {
            r0: Vec3 { x: 1 as real, y: 0 as real, z: 0 as real },
            r1: Vec3 { x: 0 as real, y: 1 as real, z: 0 as real },
            r2: Vec3 { x: 0 as real, y: 0 as real, z: 1 as real },
        }
    }

    /// The matrix whose columns are `a`, `b` and `c`.
    pub open spec fn from_columns(a: Vec3, b: Vec3, c: Vec3) -> Mat3 {
        Mat3 {
            r0: Vec3 { x: a.x, y: b.x, z: c.x },
            r1: Vec3 { x: a.y, y: b.y, z: c.y },
            r2: Vec3 { x: a.z, y: b.z, z: c.z },
        }
    }

    /// The first column.
    pub open spec fn c0(self) -> Vec3 {
        Vec3 { x: self.r0.x, y: self.r1.x, z: self.r2.x }
    }

    /// The second column.
    pub open spec fn c1(self) -> Vec3 {
        Vec3 { x: self.r0.y, y: self.r1.y, z: self.r2.y }
    }

    /// The third column.
    pub open spec fn c2(self) -> Vec3 {
        Vec3 { x: self.r0.z, y: self.r1.z, z: self.r2.z }
    }

    /// Rows and columns exchanged.
    pub open spec fn transpose(self) -> Mat3 {
        Mat3 { r0: self.c0(), r1: self.c1(), r2: self.c2() }
    }

    /// The determinant, expanded along the first row.
    pub open spec fn det(self) -> real {
        triple(self.r0, self.r1, self.r2)
    }

    /// The adjugate, the transpose of the matrix of cofactors: its columns
    /// are the vector products of the rows taken in cyclic order.
    pub open spec fn adjugate(self) -> Mat3 {
        Mat3::from_columns(
            cross(self.r1, self.r2),
            cross(self.r2, self.r0),
            cross(self.r0, self.r1),
        )
    }

    /// Every entry divided by `d`.
    pub open spec fn over(self, d: real) -> Mat3 {
        Mat3 { r0: self.r0.over(d), r1: self.r1.over(d), r2: self.r2.over(d) }
    }

    /// The inverse of a matrix whose determinant is not zero: the adjugate
    /// divided, entry by entry, by the determinant.
    pub open spec fn inverse(self) -> Mat3 {
        self.adjugate().over(self.det())
    }

    /// The image of the column vector `v`.
    pub open spec fn apply(self, v: Vec3) -> Vec3 {
        Vec3 { x: dot(self.r0, v), y: dot(self.r1, v), z: dot(self.r2, v) }
    }

    /// The matrix product `self · rhs`.
    pub open spec fn mul(self, rhs: Mat3) -> Mat3 {
        Mat3::from_columns(self.apply(rhs.c0()), self.apply(rhs.c1()), self.apply(rhs.c2()))
    }

    /// Column `i` multiplied by component `i` of `s`.
    pub open spec fn scale_columns(self, s: Vec3) -> Mat3 {
        Mat3 { r0: self.r0.times(s), r1: self.r1.times(s), r2: self.r2.times(s) }
    }
}

/// A product of two factors does not depend on their order.
pub proof fn lemma_commute(x: real, y: real)
    ensures
        x * y == y * x,
{
    assert(x * y == y * x) by (nonlinear_arith);
}

/// A product of three factors does not depend on their order or grouping.
pub proof fn lemma_mul3(x: real, y: real, z: real)
    ensures
        x * (z * y) == x * (y * z),
        y * (x * z) == x * (y * z),
        y * (z * x) == x * (y * z),
        z * (x * y) == x * (y * z),
        z * (y * x) == x * (y * z),
        (x * y) * z == x * (y * z),
        (y * x) * z == x * (y * z),
        (x * z) * y == x * (y * z),
        (z * x) * y == x * (y * z),
        (y * z) * x == x * (y * z),
        (z * y) * x == x * (y * z),
{
    assert(x * (z * y) == x * (y * z)) by (nonlinear_arith);
    assert(y * (x * z) == x * (y * z)) by (nonlinear_arith);
    assert(y * (z * x) == x * (y * z)) by (nonlinear_arith);
    assert(z * (x * y) == x * (y * z)) by (nonlinear_arith);
    assert(z * (y * x) == x * (y * z)) by (nonlinear_arith);
    assert((x * y) * z == x * (y * z)) by (nonlinear_arith);
    assert((y * x) * z == x * (y * z)) by (nonlinear_arith);
    assert((x * z) * y == x * (y * z)) by (nonlinear_arith);
    assert((z * x) * y == x * (y * z)) by (nonlinear_arith);
    assert((y * z) * x == x * (y * z)) by (nonlinear_arith);
    assert((z * y) * x == x * (y * z)) by (nonlinear_arith);
}

/// Multiplication by one changes nothing, and multiplication by zero gives
/// zero.
pub proof fn lemma_unit_zero(x: real, one: real, zero: real)
    requires
        one == 1 as real,
        zero == 0 as real,
    ensures
        x * one == x,
        one * x == x,
        x * zero == 0 as real,
        zero * x == 0 as real,
{
    assert(x * one == x && one * x == x) by (nonlinear_arith)
        requires
            one == 1 as real,
    ;
    assert(x * zero == 0 as real && zero * x == 0 as real) by (nonlinear_arith)
        requires
            zero == 0 as real,
    ;
}

/// Multiplication distributes over sums and differences.
pub proof fn lemma_distribute(x: real, y: real, z: real)
    ensures
        x * (y + z) == x * y + x * z,
        x * (y - z) == x * y - x * z,
{
    assert(x * (y + z) == x * y + x * z) by (nonlinear_arith);
    assert(x * (y - z) == x * y - x * z) by (nonlinear_arith);
}

/// Division by a number other than zero: it undoes multiplication, and it
/// commutes with products and sums.
pub proof fn lemma_divide(a: real, b: real, d: real)
    requires
        d != 0 as real,
    ensures
        (a / d) * d == a,
        (a * d) / d == a,
        b * (a / d) == (b * a) / d,
        (a + b) / d == a / d + b / d,
        d / d == 1 as real,
        (0 as real) / d == 0 as real,
{
    assert((a / d) * d == a) by (nonlinear_arith)
        requires
            d != 0 as real,
    ;
    assert((a * d) / d == a) by (nonlinear_arith)
        requires
            d != 0 as real,
    ;
    assert(b * (a / d) == (b * a) / d) by (nonlinear_arith)
        requires
            d != 0 as real,
    ;
    assert((a + b) / d == a / d + b / d) by (nonlinear_arith)
        requires
            d != 0 as real,
    ;
    assert(d / d == 1 as real) by (nonlinear_arith)
        requires
            d != 0 as real,
    ;
    assert((0 as real) / d == 0 as real) by (nonlinear_arith)
        requires
            d != 0 as real,
    ;
}

/// The six signed products of a triple product.
pub open spec fn triple_terms(a: Vec3, b: Vec3, c: Vec3) -> real {
    a.x * (b.y * c.z) - a.x * (b.z * c.y) + a.y * (b.z * c.x) - a.y * (b.x * c.z) + a.z * (b.x
        * c.y) - a.z * (b.y * c.x)
}

/// A triple product is the sum of its six signed products.
pub proof fn lemma_triple_terms(a: Vec3, b: Vec3, c: Vec3)
    ensures
        triple(a, b, c) == triple_terms(a, b, c),
{
    lemma_distribute(a.x, b.y * c.z, b.z * c.y);
    lemma_distribute(a.y, b.z * c.x, b.x * c.z);
    lemma_distribute(a.z, b.x * c.y, b.y * c.x);
}

/// A triple product keeps its value when its arguments are rotated.
pub proof fn lemma_triple_cyclic(a: Vec3, b: Vec3, c: Vec3)
    ensures
        triple(a, b, c) == triple(b, c, a),
        triple(a, b, c) == triple(c, a, b),
{
    lemma_triple_terms(a, b, c);
    lemma_triple_terms(b, c, a);
    lemma_triple_terms(c, a, b);
    lemma_mul3(a.x, b.y, c.z);
    lemma_mul3(a.x, b.z, c.y);
    lemma_mul3(a.y, b.z, c.x);
    lemma_mul3(a.y, b.x, c.z);
    lemma_mul3(a.z, b.x, c.y);
    lemma_mul3(a.z, b.y, c.x);
}

/// A triple product in which a vector occurs twice is zero.
pub proof fn lemma_triple_repeated(a: Vec3, b: Vec3)
    ensures
        triple(a, a, b) == 0 as real,
        triple(a, b, a) == 0 as real,
        triple(b, a, a) == 0 as real,
{
    lemma_triple_terms(a, a, b);
    lemma_mul3(a.x, a.y, b.z);
    lemma_mul3(a.x, a.z, b.y);
    lemma_mul3(a.y, a.z, b.x);
    lemma_triple_cyclic(a, a, b);
}

/// A matrix and its transpose have the same determinant.
pub proof fn lemma_det_transpose(m: Mat3)
    ensures
        m.transpose().det() == m.det(),
{
    let (a, b, c) = (m.r0.x, m.r0.y, m.r0.z);
    let (d, e, f) = (m.r1.x, m.r1.y, m.r1.z);
    let (g, h, i) = (m.r2.x, m.r2.y, m.r2.z);
    lemma_triple_terms(m.r0, m.r1, m.r2);
    lemma_triple_terms(m.c0(), m.c1(), m.c2());
    assert(m.det() == a * (e * i) - a * (f * h) + b * (f * g) - b * (d * i) + c * (d * h) - c * (e
        * g));
    assert(m.transpose().det() == a * (e * i) - a * (h * f) + d * (h * c) - d * (b * i) + g * (b
        * f) - g * (e * c));
    lemma_mul3(b, f, g);
    lemma_mul3(b, d, i);
    lemma_mul3(c, d, h);
    lemma_mul3(c, e, g);
    lemma_mul3(a, f, h);
    assert(d * (h * c) == c * (d * h));
    assert(d * (b * i) == b * (d * i));
    assert(g * (b * f) == b * (f * g));
    assert(g * (e * c) == c * (e * g));
}

/// The adjugate of the transpose is the transpose of the adjugate.
pub proof fn lemma_adjugate_transpose(m: Mat3)
    ensures
        m.transpose().adjugate() == m.adjugate().transpose(),
{
    let p = m.transpose().adjugate();
    let q = m.adjugate().transpose();
    let (a, b, c) = (m.r0.x, m.r0.y, m.r0.z);
    let (d, e, f) = (m.r1.x, m.r1.y, m.r1.z);
    let (g, h, i) = (m.r2.x, m.r2.y, m.r2.z);
    lemma_commute(h, f);
    lemma_commute(i, d);
    lemma_commute(g, e);
    lemma_commute(b, i);
    lemma_commute(c, g);
    lemma_commute(a, h);
    lemma_commute(e, c);
    lemma_commute(f, a);
    lemma_commute(d, b);
    assert(p.r0 == q.r0);
    assert(p.r1 == q.r1);
    assert(p.r2 == q.r2);
}

/// A matrix times its adjugate is the determinant times the identity.
pub proof fn lemma_mul_adjugate(m: Mat3)
    ensures
        m.mul(m.adjugate()) == Mat3::identity().scale_columns(Vec3::splat(m.det())),
{
    lemma_triple_cyclic(m.r0, m.r1, m.r2);
    lemma_triple_repeated(m.r0, m.r1);
    lemma_triple_repeated(m.r0, m.r2);
    lemma_triple_repeated(m.r1, m.r0);
    lemma_triple_repeated(m.r1, m.r2);
    lemma_triple_repeated(m.r2, m.r0);
    lemma_triple_repeated(m.r2, m.r1);
}

/// The adjugate times the matrix is the determinant times the identity.
pub proof fn lemma_adjugate_mul(m: Mat3)
    ensures
        m.adjugate().mul(m) == Mat3::identity().scale_columns(Vec3::splat(m.det())),
{
    let t = m.transpose();
    lemma_mul_adjugate(t);
    lemma_adjugate_transpose(m);
    lemma_det_transpose(m);
    lemma_mul_transpose(t, t.adjugate());
    let d = Vec3::splat(m.det());
    assert(Mat3::identity().scale_columns(d).transpose() == Mat3::identity().scale_columns(d));
    assert(m.adjugate().transpose().transpose() == m.adjugate());
    assert(t.transpose() == m);
}

/// The transpose of a product is the product of the transposes in reverse
/// order.
pub proof fn lemma_mul_transpose(a: Mat3, b: Mat3)
    ensures
        a.mul(b).transpose() == b.transpose().mul(a.transpose()),
{
    lemma_dot_commute(a.r0, b.c0());
    lemma_dot_commute(a.r0, b.c1());
    lemma_dot_commute(a.r0, b.c2());
    lemma_dot_commute(a.r1, b.c0());
    lemma_dot_commute(a.r1, b.c1());
    lemma_dot_commute(a.r1, b.c2());
    lemma_dot_commute(a.r2, b.c0());
    lemma_dot_commute(a.r2, b.c1());
    lemma_dot_commute(a.r2, b.c2());
}

/// The scalar product does not depend on the order of its arguments.
pub proof fn lemma_dot_commute(a: Vec3, b: Vec3)
    ensures
        dot(a, b) == dot(b, a),
{
    lemma_commute(a.x, b.x);
    lemma_commute(a.y, b.y);
    lemma_commute(a.z, b.z);
}

/// Dividing one argument of a scalar product divides the product.
pub proof fn lemma_dot_over(a: Vec3, b: Vec3, d: real)
    requires
        d != 0 as real,
    ensures
        dot(a, b.over(d)) == dot(a, b) / d,
        dot(b.over(d), a) == dot(a, b) / d,
{
    lemma_divide(b.x, a.x, d);
    lemma_divide(b.y, a.y, d);
    lemma_divide(b.z, a.z, d);
    lemma_divide(a.x * b.x, a.y * b.y, d);
    lemma_divide(a.x * b.x + a.y * b.y, a.z * b.z, d);
    lemma_dot_commute(a, b.over(d));
}

/// The inverse, multiplied with the matrix from either side, gives the
/// identity.
pub proof fn lemma_inverse(m: Mat3)
    requires
        m.det() != 0 as real,
    ensures
        m.mul(m.inverse()) == Mat3::identity(),
        m.inverse().mul(m) == Mat3::identity(),
{
    let d = m.det();
    let adj = m.adjugate();
    let inv = m.inverse();
    lemma_mul_adjugate(m);
    lemma_adjugate_mul(m);
    lemma_divide(0 as real, 0 as real, d);
    assert(m.mul(inv) == Mat3::identity()) by {
        lemma_dot_over(m.r0, adj.c0(), d);
        lemma_dot_over(m.r0, adj.c1(), d);
        lemma_dot_over(m.r0, adj.c2(), d);
        lemma_dot_over(m.r1, adj.c0(), d);
        lemma_dot_over(m.r1, adj.c1(), d);
        lemma_dot_over(m.r1, adj.c2(), d);
        lemma_dot_over(m.r2, adj.c0(), d);
        lemma_dot_over(m.r2, adj.c1(), d);
        lemma_dot_over(m.r2, adj.c2(), d);
        assert(inv.c0() == adj.c0().over(d));
        assert(inv.c1() == adj.c1().over(d));
        assert(inv.c2() == adj.c2().over(d));
    }
    assert(inv.mul(m) == Mat3::identity()) by {
        lemma_dot_over(m.c0(), adj.r0, d);
        lemma_dot_over(m.c0(), adj.r1, d);
        lemma_dot_over(m.c0(), adj.r2, d);
        lemma_dot_over(m.c1(), adj.r0, d);
        lemma_dot_over(m.c1(), adj.r1, d);
        lemma_dot_over(m.c1(), adj.r2, d);
        lemma_dot_over(m.c2(), adj.r0, d);
        lemma_dot_over(m.c2(), adj.r1, d);
        lemma_dot_over(m.c2(), adj.r2, d);
        lemma_dot_commute(adj.r0, m.c0());
        lemma_dot_commute(adj.r0, m.c1());
        lemma_dot_commute(adj.r0, m.c2());
        lemma_dot_commute(adj.r1, m.c0());
        lemma_dot_commute(adj.r1, m.c1());
        lemma_dot_commute(adj.r1, m.c2());
        lemma_dot_commute(adj.r2, m.c0());
        lemma_dot_commute(adj.r2, m.c1());
        lemma_dot_commute(adj.r2, m.c2());
    }
}

/// Multiplication distributes over a sum of three terms, from either side.
pub proof fn lemma_distribute3(x: real, p: real, q: real, t: real)
    ensures
        x * (p + q + t) == x * p + x * q + x * t,
        (p + q + t) * x == p * x + q * x + t * x,
{
    lemma_distribute(x, p + q, t);
    lemma_distribute(x, p, q);
    lemma_commute(x, p + q + t);
    lemma_commute(x, p);
    lemma_commute(x, q);
    lemma_commute(x, t);
}

/// The scalar product of `r` with the image of `v` is the scalar product of
/// `r`'s products with the columns and `v`.
pub proof fn lemma_dot_apply(r: Vec3, b: Mat3, v: Vec3)
    ensures
        dot(r, b.apply(v)) == dot(
            Vec3 { x: dot(r, b.c0()), y: dot(r, b.c1()), z: dot(r, b.c2()) },
            v,
        ),
{
    lemma_distribute3(r.x, b.r0.x * v.x, b.r0.y * v.y, b.r0.z * v.z);
    lemma_distribute3(r.y, b.r1.x * v.x, b.r1.y * v.y, b.r1.z * v.z);
    lemma_distribute3(r.z, b.r2.x * v.x, b.r2.y * v.y, b.r2.z * v.z);
    lemma_distribute3(v.x, r.x * b.r0.x, r.y * b.r1.x, r.z * b.r2.x);
    lemma_distribute3(v.y, r.x * b.r0.y, r.y * b.r1.y, r.z * b.r2.y);
    lemma_distribute3(v.z, r.x * b.r0.z, r.y * b.r1.z, r.z * b.r2.z);
    lemma_mul3(r.x, b.r0.x, v.x);
    lemma_mul3(r.x, b.r0.y, v.y);
    lemma_mul3(r.x, b.r0.z, v.z);
    lemma_mul3(r.y, b.r1.x, v.x);
    lemma_mul3(r.y, b.r1.y, v.y);
    lemma_mul3(r.y, b.r1.z, v.z);
    lemma_mul3(r.z, b.r2.x, v.x);
    lemma_mul3(r.z, b.r2.y, v.y);
    lemma_mul3(r.z, b.r2.z, v.z);
}

/// Applying two matrices in turn is applying their product.
pub proof fn lemma_apply_apply(a: Mat3, b: Mat3, v: Vec3)
    ensures
        a.apply(b.apply(v)) == a.mul(b).apply(v),
{
    lemma_dot_apply(a.r0, b, v);
    lemma_dot_apply(a.r1, b, v);
    lemma_dot_apply(a.r2, b, v);
}

/// The identity matrix sends every vector to itself.
pub proof fn lemma_apply_identity(v: Vec3)
    ensures
        Mat3::identity().apply(v) == v,
{
}

/// Scaling the columns by `s` and applying the result to (1, 1, 1) is
/// applying the matrix to `s`.
pub proof fn lemma_scale_columns_ones(m: Mat3, s: Vec3)
    ensures
        m.scale_columns(s).apply(Vec3::ones()) == m.apply(s),
{
    let one = 1 as real;
    let zero = 0 as real;
    lemma_unit_zero(m.r0.x * s.x, one, zero);
    lemma_unit_zero(m.r0.y * s.y, one, zero);
    lemma_unit_zero(m.r0.z * s.z, one, zero);
    lemma_unit_zero(m.r1.x * s.x, one, zero);
    lemma_unit_zero(m.r1.y * s.y, one, zero);
    lemma_unit_zero(m.r1.z * s.z, one, zero);
    lemma_unit_zero(m.r2.x * s.x, one, zero);
    lemma_unit_zero(m.r2.y * s.y, one, zero);
    lemma_unit_zero(m.r2.z * s.z, one, zero);
}

/// The scalar product with the zero vector is zero.
pub proof fn lemma_dot_zero(a: Vec3)
    ensures
        dot(a, Vec3::splat(0 as real)) == 0 as real,
{
    let one = 1 as real;
    let zero = 0 as real;
    lemma_unit_zero(a.x, one, zero);
    lemma_unit_zero(a.y, one, zero);
    lemma_unit_zero(a.z, one, zero);
}

/// A matrix that sends a vector other than zero to zero has the determinant
/// zero.
pub proof fn lemma_kernel_singular(m: Mat3, v: Vec3)
    requires
        m.apply(v) == Vec3::splat(0 as real),
        v != Vec3::splat(0 as real),
    ensures
        m.det() == 0 as real,
{
    let adj = m.adjugate();
    let d = m.det();
    let one = 1 as real;
    let zero = 0 as real;
    lemma_adjugate_mul(m);
    lemma_apply_apply(adj, m, v);
    lemma_dot_zero(adj.r0);
    lemma_dot_zero(adj.r1);
    lemma_dot_zero(adj.r2);
    assert(adj.apply(Vec3::splat(0 as real)) == Vec3::splat(0 as real));
    let scaled = Mat3::identity().scale_columns(Vec3::splat(d));
    assert(scaled.apply(v) == Vec3 { x: d * v.x, y: d * v.y, z: d * v.z }) by {
        lemma_unit_zero(d, one, zero);
        lemma_unit_zero(v.x, one, zero);
        lemma_unit_zero(v.y, one, zero);
        lemma_unit_zero(v.z, one, zero);
        assert(scaled.r0 == Vec3 { x: d, y: zero, z: zero });
        assert(scaled.r1 == Vec3 { x: zero, y: d, z: zero });
        assert(scaled.r2 == Vec3 { x: zero, y: zero, z: d });
    }
    assert(d == 0 as real) by (nonlinear_arith)
        requires
            d * v.x == 0 as real,
            d * v.y == 0 as real,
            d * v.z == 0 as real,
            v.x != 0 as real || v.y != 0 as real || v.z != 0 as real,
    ;
}

} // verus!
