//! Fractions of integers as a mathematical model: lowest terms, the real
//! number a fraction stands for, and the fact that a real number has at most
//! one representation in lowest terms.

use vstd::arithmetic::div_mod::lemma_fundamental_div_mod;
use vstd::math::abs;
use vstd::prelude::*;

verus! {

/// The greatest common divisor, by Euclid's recursion.
pub open spec fn gcd(a: nat, b: nat) -> nat
    decreases b,
{
    if b == 0 {
        a
    } else {
        gcd(b, a % b)
    }
}

/// `n / d` is in lowest terms: the denominator is positive and shares no
/// factor with the numerator.
pub open spec fn lowest_terms(n: int, d: int) -> bool {
    d > 0 && gcd(abs(n), d as nat) == 1
}

/// `p / q` is what is left of `n / d` when both are divided by their
/// greatest common divisor and the sign is moved to the numerator.
pub open spec fn reduction_of(p: int, q: int, n: int, d: int) -> bool {
    let g = gcd(abs(n), abs(d));
    p * g == (if d < 0 {
        -n
    } else {
        n
    }) && q * g == abs(d)
}

/// The real number `n / d`.
pub open spec fn quotient(n: int, d: int) -> real {
    n as real / d as real
}

/// Bezout's identity: the greatest common divisor is an integer combination
/// of its arguments. Returns the two coefficients.
pub proof fn lemma_bezout(a: nat, b: nat) -> (c: (int, int))
    ensures
        c.0 * a + c.1 * b == gcd(a, b),
    decreases b,
{
    if b == 0 {
        (1, 0)
    } else {
        let (x, y) = lemma_bezout(b, a % b);
        let q = a as int / b as int;
        let r = a as int % b as int;
        lemma_fundamental_div_mod(a as int, b as int);
        assert(y * a + (x - q * y) * b == x * b + y * r) by (nonlinear_arith)
            requires
                a == b * q + r,
        ;
        (y, x - q * y)
    }
}

/// A denominator coprime to its numerator divides every denominator that
/// expresses the same ratio.
proof fn lemma_coprime_denominator_divides(n1: int, d1: int, n2: int, d2: int) -> (k: int)
    requires
        lowest_terms(n1, d1),
        d2 > 0,
        n1 * d2 == n2 * d1,
    ensures
        d2 == d1 * k,
        k > 0,
{
    let (x0, y) = lemma_bezout(abs(n1), d1 as nat);
    let x = if n1 < 0 {
        -x0
    } else {
        x0
    };
    assert(x * n1 == x0 * abs(n1)) by (nonlinear_arith)
        requires
            n1 < 0 ==> x == -x0 && abs(n1) == -n1,
            n1 >= 0 ==> x == x0 && abs(n1) == n1,
    ;
    let k = x * n2 + y * d2;
    assert(d2 == d2 * (x * n1 + y * d1)) by (nonlinear_arith)
        requires
            x * n1 + y * d1 == 1,
    ;
    assert(d2 * (x * n1 + y * d1) == x * (n1 * d2) + y * (d1 * d2)) by (nonlinear_arith);
    assert(x * (n2 * d1) + y * (d1 * d2) == d1 * (x * n2 + y * d2)) by (nonlinear_arith);
    assert(d2 == d1 * k);
    assert(k > 0) by (nonlinear_arith)
        requires
            d2 == d1 * k,
            d1 > 0,
            d2 > 0,
    ;
    k
}

/// Two fractions in lowest terms that express the same ratio are the same
/// pair of integers.
pub proof fn lemma_lowest_terms_unique(n1: int, d1: int, n2: int, d2: int)
    requires
        lowest_terms(n1, d1),
        lowest_terms(n2, d2),
        n1 * d2 == n2 * d1,
    ensures
        n1 == n2,
        d1 == d2,
{
    let k = lemma_coprime_denominator_divides(n1, d1, n2, d2);
    let j = lemma_coprime_denominator_divides(n2, d2, n1, d1);
    assert(d1 * k >= d1) by (nonlinear_arith)
        requires
            k >= 1,
            d1 > 0,
    ;
    assert(d2 * j >= d2) by (nonlinear_arith)
        requires
            j >= 1,
            d2 > 0,
    ;
    assert(d1 == d2);
    assert(n1 == n2) by (nonlinear_arith)
        requires
            n1 * d1 == n2 * d1,
            d1 > 0,
    ;
}

/// Two quotients are the same real number exactly when they agree after
/// cross-multiplication.
pub proof fn lemma_quotient_eq(a: int, b: int, c: int, d: int)
    requires
        b != 0,
        d != 0,
    ensures
        quotient(a, b) == quotient(c, d) <==> a * d == c * b,
{
    let ar = a as real;
    let br = b as real;
    let cr = c as real;
    let dr = d as real;
    assert((ar / br == cr / dr) <==> (ar * dr == cr * br)) by (nonlinear_arith)
        requires
            br != 0 as real,
            dr != 0 as real,
    ;
    assert((a * d) as real == ar * dr) by (nonlinear_arith)
        requires
            ar == a as real,
            dr == d as real,
    ;
    assert((c * b) as real == cr * br) by (nonlinear_arith)
        requires
            cr == c as real,
            br == b as real,
    ;
}

/// A real number has at most one representation in lowest terms.
pub proof fn lemma_quotient_unique(n1: int, d1: int, n2: int, d2: int)
    requires
        lowest_terms(n1, d1),
        lowest_terms(n2, d2),
        quotient(n1, d1) == quotient(n2, d2),
    ensures
        n1 == n2,
        d1 == d2,
{
    lemma_quotient_eq(n1, d1, n2, d2);
    lemma_lowest_terms_unique(n1, d1, n2, d2);
}

/// A quotient is zero exactly when its numerator is.
pub proof fn lemma_quotient_zero(n: int, d: int)
    requires
        d != 0,
    ensures
        quotient(n, d) == 0 as real <==> n == 0,
{
    lemma_quotient_eq(n, d, 0, 1);
    lemma_integer_quotient(0);
}

/// An integer is the quotient of itself by one, which is in lowest terms.
pub proof fn lemma_integer_quotient(n: int)
    ensures
        lowest_terms(n, 1),
        quotient(n, 1) == n as real,
{
    assert(gcd(abs(n), 1) == 1) by {
        reveal_with_fuel(gcd, 3);
    }
    let nr = n as real;
    assert(nr / (1 as real) == nr) by (nonlinear_arith);
}

/// The greatest common divisor divides both of its arguments. Returns the
/// two cofactors.
pub proof fn lemma_gcd_divides(a: nat, b: nat) -> (c: (nat, nat))
    requires
        a > 0 || b > 0,
    ensures
        gcd(a, b) > 0,
        a == gcd(a, b) * c.0,
        b == gcd(a, b) * c.1,
    decreases b,
{
    if b == 0 {
        assert(a == a * 1 && 0 == a * 0) by (nonlinear_arith);
        (1, 0)
    } else {
        let (u, v) = lemma_gcd_divides(b, a % b);
        let g = gcd(a, b);
        let q = a / b;
        let r = a % b;
        lemma_fundamental_div_mod(a as int, b as int);
        assert(a == g * (u * q + v)) by (nonlinear_arith)
            requires
                a == b * q + r,
                b == g * u,
                r == g * v,
        ;
        (u * q + v, u)
    }
}

/// Two numbers with an integer combination equal to one have no common
/// factor.
pub proof fn lemma_combination_coprime(a: nat, b: nat, x: int, y: int)
    requires
        x * a + y * b == 1,
    ensures
        gcd(a, b) == 1,
{
    assert(a > 0 || b > 0) by (nonlinear_arith)
        requires
            x * a + y * b == 1,
    ;
    let (u, v) = lemma_gcd_divides(a, b);
    let h = gcd(a, b);
    assert(h * (x * u + y * v) == 1) by (nonlinear_arith)
        requires
            x * a + y * b == 1,
            a == h * u,
            b == h * v,
    ;
    assert(h == 1) by (nonlinear_arith)
        requires
            h > 0,
            h * (x * u + y * v) == 1,
    ;
}

/// The fraction in lowest terms that stands for `n / d` is `n` and `d`
/// divided by their greatest common divisor, with the sign on the numerator.
pub proof fn lemma_lowest_terms_by_gcd(p: int, q: int, n: int, d: int)
    requires
        d != 0,
        lowest_terms(p, q),
        quotient(p, q) == quotient(n, d),
    ensures
        gcd(abs(n), abs(d)) > 0,
        reduction_of(p, q, n, d),
{
    let g = gcd(abs(n), abs(d));
    let (u, v) = lemma_gcd_divides(abs(n), abs(d));
    let (x, y) = lemma_bezout(abs(n), abs(d));
    assert(g * (x * u + y * v) == g) by (nonlinear_arith)
        requires
            x * (g * u) + y * (g * v) == g,
    ;
    assert(x * u + y * v == 1) by (nonlinear_arith)
        requires
            g * (x * u + y * v) == g,
            g > 0,
    ;
    lemma_combination_coprime(u, v, x, y);
    let signed = if d < 0 {
        -n
    } else {
        n
    };
    let a: int = if signed < 0 {
        -(u as int)
    } else {
        u as int
    };
    assert(signed == g * a) by (nonlinear_arith)
        requires
            abs(n) == g * u,
            abs(signed) == abs(n),
            abs(signed) == (if signed < 0 {
                -signed
            } else {
                signed
            }),
            a == (if signed < 0 {
                -(u as int)
            } else {
                u as int
            }),
    ;
    assert(v > 0) by (nonlinear_arith)
        requires
            abs(d) == g * v,
            abs(d) > 0,
            g > 0,
    ;
    assert(abs(a) == u);
    lemma_quotient_eq(p, q, n, d);
    assert(p * abs(d) == signed * q) by (nonlinear_arith)
        requires
            p * d == n * q,
            d < 0 ==> abs(d) == -d && signed == -n,
            d > 0 ==> abs(d) == d && signed == n,
            d != 0,
    ;
    assert(a * q == p * (v as int)) by (nonlinear_arith)
        requires
            p * abs(d) == signed * q,
            abs(d) == g * v,
            signed == g * a,
            g > 0,
    ;
    lemma_lowest_terms_unique(a, v as int, p, q);
    assert(p * g == signed && q * g == abs(d)) by (nonlinear_arith)
        requires
            signed == g * a,
            abs(d) == g * v,
            p == a,
            q == v,
    ;
}

} // verus!
