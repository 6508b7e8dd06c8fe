//! Vectors and matrices as text: fractions written `numerator / denominator`,
//! the columns of a matrix aligned.

use crate::matrix::{Matrix3, Vector3};
use crate::rational::Rational;
use crate::scalar::{big_to_string, decimal};
use vstd::prelude::*;
use vstd::string::*;

verus! {

/// `n` spaces.
pub open spec fn blank(n: nat) -> Seq<char> {
    Seq::new(n, |i: int| ' ')
}

/// `text`, with spaces in front of it where it is shorter than `width`.
pub open spec fn right_aligned(text: Seq<char>, width: nat) -> Seq<char> {
    if text.len() >= width {
        text
    } else {
        blank((width - text.len()) as nat) + text
    }
}

/// The largest of three numbers.
pub open spec fn largest(a: nat, b: nat, c: nat) -> nat {
    if a >= b && a >= c {
        a
    } else if b >= c {
        b
    } else {
        c
    }
}

/// The numerator of `q` in decimal notation.
pub open spec fn numerator_text(q: Rational) -> Seq<char> {
    decimal(q.numerator())
}

/// The denominator of `q` in decimal notation.
pub open spec fn denominator_text(q: Rational) -> Seq<char> {
    decimal(q.denominator())
}

/// The fraction `q` as text, its numerator aligned to the width `nw` and its
/// denominator to `dw`.
pub open spec fn fraction_text(q: Rational, nw: nat, dw: nat) -> Seq<char> {
    right_aligned(numerator_text(q), nw) + seq![' ', '/', ' '] + right_aligned(
        denominator_text(q),
        dw,
    )
}

/// A vector as one line of text: the header, then the three fractions in
/// square brackets.
pub open spec fn vector_text(header: Seq<char>, v: Vector3) -> Seq<char> {
    header + seq![':', ' ', '[', ' '] + fraction_text(v.0[0], 0, 0) + seq![',', ' '] + fraction_text(
        v.0[1],
        0,
        0,
    ) + seq![',', ' '] + fraction_text(v.0[2], 0, 0) + seq![' ', ']']
}

/// The width of the longest numerator in column `j`.
pub open spec fn numerator_width(m: Matrix3, j: int) -> nat {
    largest(
        numerator_text(m.0[0][j]).len(),
        numerator_text(m.0[1][j]).len(),
        numerator_text(m.0[2][j]).len(),
    )
}

/// The width of the longest denominator in column `j`.
pub open spec fn denominator_width(m: Matrix3, j: int) -> nat {
    largest(
        denominator_text(m.0[0][j]).len(),
        denominator_text(m.0[1][j]).len(),
        denominator_text(m.0[2][j]).len(),
    )
}

/// The entry in row `i` and column `j` as text, aligned with the other
/// entries of its column.
pub open spec fn cell_text(m: Matrix3, i: int, j: int) -> Seq<char> {
    fraction_text(m.0[i][j], numerator_width(m, j), denominator_width(m, j))
}

/// Row `i` of a matrix as one line of text.
pub open spec fn row_text(m: Matrix3, i: int) -> Seq<char> {
    seq![' ', ' ', ' ', ' ', '[', ' '] + cell_text(m, i, 0) + seq![',', ' '] + cell_text(m, i, 1)
        + seq![',', ' '] + cell_text(m, i, 2) + seq![' ', ']', ',']
}

/// The first line of a matrix: the header and a colon.
pub open spec fn heading_text(header: Seq<char>) -> Seq<char> {
    header + seq![':']
}

/// A matrix as four lines of text: the heading, then the three rows.
pub open spec fn matrix_lines(header: Seq<char>, m: Matrix3) -> Seq<Seq<char>> {
    seq![heading_text(header), row_text(m, 0), row_text(m, 1), row_text(m, 2)]
}

/// The characters of each of the lines.
pub open spec fn texts(lines: Seq<String>) -> Seq<Seq<char>> {
    Seq::new(lines.len(), |i: int| lines[i]@)
}

/// `n` spaces.
fn spaces(n: usize) -> (s: String)
    ensures
        s@ == blank(n as nat),
{
    let mut s = String::new();
    let mut i: usize = 0;
    while i < n
        invariant
            i <= n,
            s@ == blank(i as nat),
        decreases n - i,
    {
        proof {
            reveal_strlit(" ");
            assert(blank(i as nat) + " "@ =~= blank((i + 1) as nat));
        }
        s.append(" ");
        i = i + 1;
    }
    s
}

/// `text`, with spaces in front of it where it is shorter than `width`.
fn align_right(text: &str, width: usize) -> (s: String)
    ensures
        s@ == right_aligned(text@, width as nat),
{
    let len = text.unicode_len();
    if len >= width {
        String::from_str(text)
    } else {
        let mut s = spaces(width - len);
        s.append(text);
        s
    }
}

/// The largest of three numbers.
fn max3(a: usize, b: usize, c: usize) -> (m: usize)
    ensures
        m as nat == largest(a as nat, b as nat, c as nat),
{
    if a >= b && a >= c {
        a
    } else if b >= c {
        b
    } else {
        c
    }
}

/// The numerator of `q` in decimal notation.
fn numerator_string(q: &Rational) -> (s: String)
    ensures
        s@ == numerator_text(*q),
{
    big_to_string(&q.numer())
}

/// The denominator of `q` in decimal notation.
fn denominator_string(q: &Rational) -> (s: String)
    ensures
        s@ == denominator_text(*q),
{
    big_to_string(&q.denom())
}

/// The fraction `q` as text, its numerator aligned to the width `nw` and its
/// denominator to `dw`.
fn fraction_string(q: &Rational, nw: usize, dw: usize) -> (s: String)
    ensures
        s@ == fraction_text(*q, nw as nat, dw as nat),
{
    let n = numerator_string(q);
    let d = denominator_string(q);
    let mut s = align_right(n.as_str(), nw);
    let tail = align_right(d.as_str(), dw);
    proof {
        reveal_strlit(" / ");
        assert(" / "@ =~= seq![' ', '/', ' ']);
    }
    s.append(" / ");
    s.append(tail.as_str());
    s
}

/// The widths of the longest numerator and the longest denominator in
/// column `j`.
fn column_widths(m: &Matrix3, j: usize) -> (w: (usize, usize))
    requires
        j < 3,
    ensures
        w.0 as nat == numerator_width(*m, j as int),
        w.1 as nat == denominator_width(*m, j as int),
{
    let n0 = numerator_string(&m.0[0][j]).as_str().unicode_len();
    let n1 = numerator_string(&m.0[1][j]).as_str().unicode_len();
    let n2 = numerator_string(&m.0[2][j]).as_str().unicode_len();
    let d0 = denominator_string(&m.0[0][j]).as_str().unicode_len();
    let d1 = denominator_string(&m.0[1][j]).as_str().unicode_len();
    let d2 = denominator_string(&m.0[2][j]).as_str().unicode_len();
    (max3(n0, n1, n2), max3(d0, d1, d2))
}

/// A vector as one line of text: the header, a colon, and in square brackets
/// the three fractions, separated by commas.
pub fn format_vector(header: &str, v: &Vector3) -> (line: String)
    ensures
        line@ == vector_text(header@, *v),
{
    let mut s = String::from_str(header);
    proof {
        reveal_strlit(": [ ");
        reveal_strlit(", ");
        reveal_strlit(" ]");
        assert(": [ "@ =~= seq![':', ' ', '[', ' ']);
        assert(", "@ =~= seq![',', ' ']);
        assert(" ]"@ =~= seq![' ', ']']);
    }
    s.append(": [ ");
    s.append(fraction_string(&v.0[0], 0, 0).as_str());
    s.append(", ");
    s.append(fraction_string(&v.0[1], 0, 0).as_str());
    s.append(", ");
    s.append(fraction_string(&v.0[2], 0, 0).as_str());
    s.append(" ]");
    s
}

/// Row `i` of a matrix as one line of text, given the widths of the three
/// columns.
fn format_row(m: &Matrix3, i: usize, w0: (usize, usize), w1: (usize, usize), w2: (usize, usize)) -> (line:
    String)
    requires
        i < 3,
        w0.0 as nat == numerator_width(*m, 0),
        w0.1 as nat == denominator_width(*m, 0),
        w1.0 as nat == numerator_width(*m, 1),
        w1.1 as nat == denominator_width(*m, 1),
        w2.0 as nat == numerator_width(*m, 2),
        w2.1 as nat == denominator_width(*m, 2),
    ensures
        line@ == row_text(*m, i as int),
{
    let mut s = String::from_str("    [ ");
    proof {
        reveal_strlit("    [ ");
        reveal_strlit(", ");
        reveal_strlit(" ],");
        assert("    [ "@ =~= seq![' ', ' ', ' ', ' ', '[', ' ']);
        assert(", "@ =~= seq![',', ' ']);
        assert(" ],"@ =~= seq![' ', ']', ',']);
    }
    s.append(fraction_string(&m.0[i][0], w0.0, w0.1).as_str());
    s.append(", ");
    s.append(fraction_string(&m.0[i][1], w1.0, w1.1).as_str());
    s.append(", ");
    s.append(fraction_string(&m.0[i][2], w2.0, w2.1).as_str());
    s.append(" ],");
    s
}

/// A matrix as four lines of text: the header and a colon, then one line for
/// each row, in which the numerators of a column are aligned to the right,
/// and so are its denominators.
pub fn format_matrix(header: &str, m: &Matrix3) -> (lines: Vec<String>)
    ensures
        texts(lines@) == matrix_lines(header@, *m),
{
    let w0 = column_widths(m, 0);
    let w1 = column_widths(m, 1);
    let w2 = column_widths(m, 2);
    let mut heading = String::from_str(header);
    proof {
        reveal_strlit(":");
        assert(":"@ =~= seq![':']);
    }
    heading.append(":");
    let mut lines: Vec<String> = Vec::new();
    lines.push(heading);
    lines.push(format_row(m, 0, w0, w1, w2));
    lines.push(format_row(m, 1, w0, w1, w2));
    lines.push(format_row(m, 2, w0, w1, w2));
    assert(texts(lines@) =~= matrix_lines(header@, *m));
    lines
}

} // verus!
