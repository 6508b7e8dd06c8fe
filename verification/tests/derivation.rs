use num::{BigInt, BigRational, ToPrimitive};
use rgb_xyz::chromaticity::{chromaticity, Chromaticity};
use rgb_xyz::derivation;
use rgb_xyz::error::Error;
use rgb_xyz::matrix::{Matrix3, Vector3};
use rgb_xyz::rational::Rational;

fn q(n: i128, d: i128) -> Rational {
    Rational::from_i128(n, d).unwrap()
}

fn xy(x: (i128, i128), y: (i128, i128)) -> Chromaticity {
    chromaticity(x, y).unwrap()
}

fn pair(r: &Rational) -> (BigInt, BigInt) {
    (r.numer(), r.denom())
}

fn big(n: i128, d: i128) -> (BigInt, BigInt) {
    (BigInt::from(n), BigInt::from(d))
}

fn float(r: &Rational) -> f64 {
    r.numer().to_f64().unwrap() / r.denom().to_f64().unwrap()
}

fn holds(m: &Matrix3, want: [[(i128, i128); 3]; 3]) -> bool {
    (0..3).all(|i| (0..3).all(|j| pair(&m.0[i][j]) == big(want[i][j].0, want[i][j].1)))
}

fn same(a: &Matrix3, b: &Matrix3) -> bool {
    (0..3).all(|i| (0..3).all(|j| pair(&a.0[i][j]) == pair(&b.0[i][j])))
}

type Pair = (i128, i128);

fn spaces() -> Vec<(Pair, Pair, [(Pair, Pair); 3])> {
    let d50 = ((3457, 10000), (3585, 10000));
    let d65 = ((3127, 10000), (3290, 10000));
    vec![
        (d65.0, d65.1, [((640, 1000), (330, 1000)), ((300, 1000), (600, 1000)), ((150, 1000), (60, 1000))]),
        (d65.0, d65.1, [((680, 1000), (320, 1000)), ((265, 1000), (690, 1000)), ((150, 1000), (60, 1000))]),
        (d65.0, d65.1, [((6400, 10000), (3300, 10000)), ((2100, 10000), (7100, 10000)), ((1500, 10000), (600, 10000))]),
        (d50.0, d50.1, [((734699, 1000000), (265301, 1000000)), ((159597, 1000000), (840403, 1000000)), ((36598, 1000000), (105, 1000000))]),
        (d65.0, d65.1, [((708, 1000), (292, 1000)), ((170, 1000), (797, 1000)), ((131, 1000), (46, 1000))]),
    ]
}

fn primaries_of(p: &[(Pair, Pair); 3]) -> [Chromaticity; 3] {
    [xy(p[0].0, p[0].1), xy(p[1].0, p[1].1), xy(p[2].0, p[2].1)]
}

fn srgb_primaries() -> [Chromaticity; 3] {
    primaries_of(&spaces()[0].2)
}

fn d65() -> Vector3 {
    xy((3127, 10000), (3290, 10000)).to_xyz()
}

#[test]
fn srgb_white_point_projects_to_xyz() {
    let white = d65();
    assert_eq!(pair(&white.0[0]), big(3127, 3290));
    assert_eq!(pair(&white.0[1]), big(1, 1));
    assert_eq!(pair(&white.0[2]), big(3583, 3290));
}

#[test]
fn srgb_matrix_is_the_canonical_one() {
    let m = derivation::derive(&d65(), &srgb_primaries()).unwrap();
    assert!(holds(
        &m,
        [
            [(506752, 1228815), (87881, 245763), (12673, 70218)],
            [(87098, 409605), (175762, 245763), (12673, 175545)],
            [(7918, 409605), (87881, 737289), (1001167, 1053270)],
        ]
    ));
    assert!((float(&m.0[0][0]) - 0.412391).abs() < 1e-6);
    assert!((float(&m.0[1][1]) - 0.715169).abs() < 1e-6);
    assert!((float(&m.0[2][2]) - 0.950532).abs() < 1e-6);
}

#[test]
fn srgb_inverse_is_the_canonical_one() {
    let m = derivation::derive(&d65(), &srgb_primaries()).unwrap();
    let inv = m.invert().unwrap();
    assert!(holds(
        &inv,
        [
            [(12831, 3959), (-329, 214), (-1974, 3959)],
            [(-851781, 878810), (1648619, 878810), (36519, 878810)],
            [(705, 12673), (-2585, 12673), (705, 667)],
        ]
    ));
    assert!((float(&inv.0[0][0]) - 3.240970).abs() < 1e-6);
    assert!((float(&inv.0[0][1]) + 1.537383).abs() < 1e-6);
    assert!((float(&inv.0[2][2]) - 1.056972).abs() < 1e-6);
}

#[test]
fn srgb_matrix_from_a_finer_white_point() {
    let white = xy((312713, 1000000), (41127, 125000)).to_xyz();
    let m = derivation::derive(&white, &srgb_primaries()).unwrap();
    assert!(holds(
        &m,
        [
            [(4223344, 10240623), (14647555, 40962492), (14783675, 81924984)],
            [(2903549, 13654164), (14647555, 20481246), (2956735, 40962492)],
            [(263959, 13654164), (14647555, 122887476), (233582065, 245774952)],
        ]
    ));
    assert!(holds(
        &m.invert().unwrap(),
        [
            [(4277208, 1319795), (-2028932, 1319795), (-658032, 1319795)],
            [(-70985202, 73237775), (137391598, 73237775), (3043398, 73237775)],
            [(164508, 2956735), (-603196, 2956735), (3125652, 2956735)],
        ]
    ));
}

#[test]
fn derive_scales_the_columns_of_the_primaries() {
    let p = [xy((1, 2), (1, 2)), xy((0, 1), (1, 2)), xy((1, 2), (1, 4))];
    let white = Vector3::new(q(3, 1), q(3, 1), q(2, 1));
    let m = derivation::derive(&white, &p).unwrap();
    assert!(holds(&m, [[(1, 1), (0, 1), (2, 1)], [(1, 1), (1, 1), (1, 1)], [(0, 1), (1, 1), (1, 1)]]));
    let white = Vector3::new(q(2, 1), q(5, 2), q(3, 2));
    let m = derivation::derive(&white, &p).unwrap();
    assert!(holds(&m, [[(1, 1), (0, 1), (1, 1)], [(1, 1), (1, 1), (1, 2)], [(0, 1), (1, 1), (1, 2)]]));
}

#[test]
fn derive_takes_any_white_point() {
    let p = [xy((1, 2), (1, 2)), xy((0, 1), (1, 2)), xy((1, 2), (1, 4))];
    let white = Vector3::new(q(-3, 1), q(-3, 1), q(-2, 1));
    let m = derivation::derive(&white, &p).unwrap();
    assert!(holds(&m, [[(-1, 1), (0, 1), (-2, 1)], [(-1, 1), (-1, 1), (-1, 1)], [(0, 1), (-1, 1), (-1, 1)]]));
    let white = Vector3::new(q(0, 1), q(0, 1), q(0, 1));
    let m = derivation::derive(&white, &p).unwrap();
    assert!(holds(&m, [[(0, 1), (0, 1), (0, 1)], [(0, 1), (0, 1), (0, 1)], [(0, 1), (0, 1), (0, 1)]]));
}

#[test]
fn derive_refuses_identical_primaries() {
    let a = ((64, 100), (33, 100));
    let b = ((15, 100), (6, 100));
    for p in [[a, a, b], [a, b, a], [b, a, a], [a, a, a]] {
        let r = derivation::derive(&d65(), &primaries_of(&p));
        assert_eq!(r.err(), Some(Error::SingularPrimaries));
    }
}

#[test]
fn derive_refuses_collinear_primaries() {
    let on_diagonal = [((1, 10), (1, 10)), ((2, 10), (2, 10)), ((3, 10), (3, 10))];
    let r = derivation::derive(&d65(), &primaries_of(&on_diagonal));
    assert_eq!(r.err(), Some(Error::SingularPrimaries));
    let on_a_line = [((1, 10), (3, 10)), ((2, 10), (5, 10)), ((3, 10), (7, 10))];
    let r = derivation::derive(&d65(), &primaries_of(&on_a_line));
    assert_eq!(r.err(), Some(Error::SingularPrimaries));
    let level = [((1, 10), (1, 2)), ((2, 10), (1, 2)), ((7, 10), (1, 2))];
    let r = derivation::derive(&d65(), &primaries_of(&level));
    assert_eq!(r.err(), Some(Error::SingularPrimaries));
}

#[test]
fn derive_twice_gives_the_same_fractions() {
    for (wx, wy, p) in spaces() {
        let white = xy(wx, wy).to_xyz();
        let first = derivation::derive(&white, &primaries_of(&p)).unwrap();
        let second = derivation::derive(&white, &primaries_of(&p)).unwrap();
        assert!(same(&first, &second));
    }
    let a = ((64, 100), (33, 100));
    let first = derivation::derive(&d65(), &primaries_of(&[a, a, a]));
    let second = derivation::derive(&d65(), &primaries_of(&[a, a, a]));
    assert_eq!(first.err(), second.err());
}

#[test]
fn derived_matrix_sends_ones_to_the_white_point() {
    for (wx, wy, p) in spaces() {
        let white = xy(wx, wy).to_xyz();
        let m = derivation::derive(&white, &primaries_of(&p)).unwrap();
        let image = m.apply(&Vector3::new(q(1, 1), q(1, 1), q(1, 1)));
        for i in 0..3 {
            assert_eq!(pair(&image.0[i]), pair(&white.0[i]));
        }
    }
}

#[test]
fn derived_matrix_and_inverse_give_the_identity() {
    for (wx, wy, p) in spaces() {
        let white = xy(wx, wy).to_xyz();
        let m = derivation::derive(&white, &primaries_of(&p)).unwrap();
        let inv = m.invert().unwrap();
        let want = [[(1, 1), (0, 1), (0, 1)], [(0, 1), (1, 1), (0, 1)], [(0, 1), (0, 1), (1, 1)]];
        assert!(holds(&inv.mul(&m), want));
        assert!(holds(&m.mul(&inv), want));
    }
}

#[test]
fn derive_agrees_with_the_generic_routine() {
    for (wx, wy, p) in spaces() {
        let ratio = |v: Pair| BigRational::new(BigInt::from(v.0), BigInt::from(v.1));
        let point = |c: (Pair, Pair)| rgb_derivation::Chromaticity::new(ratio(c.0), ratio(c.1)).unwrap();
        let white = point((wx, wy)).to_xyz();
        let primaries = [point(p[0]), point(p[1]), point(p[2])];
        let want = rgb_derivation::matrix::calculate(&white, &primaries).unwrap();
        let got = derivation::derive(&xy(wx, wy).to_xyz(), &primaries_of(&p)).unwrap();
        for i in 0..3 {
            for j in 0..3 {
                assert_eq!(&got.0[i][j].numer(), want[i][j].numer());
                assert_eq!(&got.0[i][j].denom(), want[i][j].denom());
            }
        }
    }
}
