use rgb_xyz::chromaticity::{chromaticity, Chromaticity};
use rgb_xyz::error::Error;
use rgb_xyz::matrix::{Matrix3, Vector3};
use rgb_xyz::rational::Rational;
use rgb_xyz::render::{format_matrix, format_vector};
use rgb_xyz::report::{color_space_matrices, format_color_space};

fn q(n: i128, d: i128) -> Rational {
    Rational::from_i128(n, d).unwrap()
}

fn xy(x: (i128, i128), y: (i128, i128)) -> Chromaticity {
    chromaticity(x, y).unwrap()
}

fn srgb_primaries() -> [Chromaticity; 3] {
    [xy((640, 1000), (330, 1000)), xy((300, 1000), (600, 1000)), xy((150, 1000), (60, 1000))]
}

fn d65() -> Vector3 {
    xy((3127, 10000), (3290, 10000)).to_xyz()
}

#[test]
fn vector_on_one_line() {
    assert_eq!(
        format_vector("D65 white point", &d65()),
        "D65 white point: [ 3127 / 3290, 1 / 1, 3583 / 3290 ]"
    );
    let d50 = xy((3457, 10000), (3585, 10000)).to_xyz();
    assert_eq!(
        format_vector("D50 white point", &d50),
        "D50 white point: [ 3457 / 3585, 1 / 1, 986 / 1195 ]"
    );
}

#[test]
fn vector_with_negative_and_empty_parts() {
    let v = Vector3::new(q(-1, 2), q(0, 1), q(100, 3));
    assert_eq!(format_vector("", &v), ": [ -1 / 2, 0 / 1, 100 / 3 ]");
}

#[test]
fn matrix_columns_are_aligned() {
    let m = Matrix3([
        [q(1, 2), q(-10, 3), q(0, 1)],
        [q(100, 7), q(5, 1), q(-1, 1000)],
        [q(-3, 1), q(7, 11), q(12345, 2)],
    ]);
    let lines = format_matrix("M", &m);
    assert_eq!(
        lines,
        vec![
            "M:",
            "    [   1 / 2, -10 /  3,     0 /    1 ],",
            "    [ 100 / 7,   5 /  1,    -1 / 1000 ],",
            "    [  -3 / 1,   7 / 11, 12345 /    2 ],",
        ]
    );
}

#[test]
fn matrix_of_equal_widths_has_no_padding() {
    let lines = format_matrix("  Identity", &Matrix3::identity());
    assert_eq!(
        lines,
        vec![
            "  Identity:",
            "    [ 1 / 1, 0 / 1, 0 / 1 ],",
            "    [ 0 / 1, 1 / 1, 0 / 1 ],",
            "    [ 0 / 1, 0 / 1, 1 / 1 ],",
        ]
    );
}

#[test]
fn color_space_matrices_of_srgb() {
    let c = color_space_matrices(&d65(), &srgb_primaries()).unwrap();
    assert_eq!(c.to_xyz.0[0][1], q(87881, 245763));
    assert_eq!(c.primaries.0[1][0], q(87881, 245763));
    assert_eq!(c.primaries.0[0][1], q(87098, 409605));
    assert_eq!(c.from_xyz.0[0][1], q(-329, 214));
}

#[test]
fn color_space_matrices_refuses_degenerate_primaries() {
    let p = [xy((1, 10), (1, 10)), xy((2, 10), (2, 10)), xy((3, 10), (3, 10))];
    assert_eq!(color_space_matrices(&d65(), &p).err(), Some(Error::SingularPrimaries));
}

#[test]
fn color_space_matrices_refuses_a_white_point_without_inverse() {
    let p = [xy((1, 2), (1, 2)), xy((0, 1), (1, 2)), xy((1, 2), (1, 4))];
    let white = Vector3::new(q(1, 1), q(1, 1), q(1, 1));
    assert_eq!(color_space_matrices(&white, &p).err(), Some(Error::SingularMatrix));
}

#[test]
fn listing_of_srgb() {
    let c = color_space_matrices(&d65(), &srgb_primaries()).unwrap();
    let lines = format_color_space("srgb", &c);
    assert_eq!(
        lines,
        vec![
            "",
            "srgb",
            "  Primaries:",
            "    [ 506752 / 1228815,  87098 / 409605,    7918 /  409605 ],",
            "    [  87881 /  245763, 175762 / 245763,   87881 /  737289 ],",
            "    [  12673 /   70218,  12673 / 175545, 1001167 / 1053270 ],",
            "  To XYZ:",
            "    [ 506752 / 1228815,  87881 / 245763,   12673 /   70218 ],",
            "    [  87098 /  409605, 175762 / 245763,   12673 /  175545 ],",
            "    [   7918 /  409605,  87881 / 737289, 1001167 / 1053270 ],",
            "  From XYZ:",
            "    [   12831 /   3959,    -329 /    214, -1974 /   3959 ],",
            "    [ -851781 / 878810, 1648619 / 878810, 36519 / 878810 ],",
            "    [     705 /  12673,   -2585 /  12673,   705 /    667 ],",
        ]
    );
}
