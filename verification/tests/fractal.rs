use simdnoise::binary32::Binary32;
use simdnoise::fractal::{
    base, fbm_1d, fbm_2d, fbm_3d, fbm_4d, fractal, ridge_1d, ridge_2d, ridge_3d, ridge_4d,
    turbulence_1d, turbulence_2d, turbulence_3d, turbulence_4d, Dimension, Fractal, Point,
    Weighting,
};
use simdnoise::simplex::{simplex_1d, simplex_2d, simplex_3d, simplex_4d};

fn v(x: f32) -> Binary32 {
    Binary32::from_bits(x.to_bits())
}

fn f(v: Binary32) -> f32 {
    f32::from_bits(v.to_bits())
}

fn point(x: f32, y: f32, z: f32, w: f32) -> Point {
    Point { x: v(x), y: v(y), z: v(z), w: v(w) }
}

#[test]
fn base_dispatches_on_dimension() {
    let p = point(0.3, 0.4, 0.5, 0.6);
    assert_eq!(base(Dimension::One, p, 42), simplex_1d(p.x, 42));
    assert_eq!(base(Dimension::Two, p, 42), simplex_2d(p.x, p.y, 42));
    assert_eq!(base(Dimension::Three, p, 42), simplex_3d(p.x, p.y, p.z, 42));
    assert_eq!(base(Dimension::Four, p, 42), simplex_4d(p.x, p.y, p.z, p.w, 42));
}

#[test]
fn single_octave_fbm_is_the_base_kernel() {
    let (x, y, z, w) = (v(1.7), v(-3.2), v(4.4), v(-0.9));
    let (lac, gain) = (v(2.0), v(0.5));
    assert_eq!(fbm_1d(x, lac, gain, 1, 9), simplex_1d(x, 9));
    assert_eq!(fbm_2d(x, y, lac, gain, 1, 9), simplex_2d(x, y, 9));
    assert_eq!(fbm_3d(x, y, z, lac, gain, 1, 9), simplex_3d(x, y, z, 9));
    assert_eq!(fbm_4d(x, y, z, w, lac, gain, 1, 9), simplex_4d(x, y, z, w, 9));
}

#[test]
fn single_octave_ridge_is_one_minus_absolute_simplex() {
    let (lac, gain) = (v(3.0), v(0.25));
    for i in 0..40 {
        let x = v(i as f32 * 0.41 - 7.0);
        let y = v(i as f32 * 0.13 + 1.0);
        let z = v(i as f32 * -0.29);
        let w = v(i as f32 * 0.07 - 2.0);
        assert_eq!(f(ridge_1d(x, lac, gain, 1, 3)), 1.0 - f(simplex_1d(x, 3)).abs());
        assert_eq!(f(ridge_2d(x, y, lac, gain, 1, 3)), 1.0 - f(simplex_2d(x, y, 3)).abs());
        assert_eq!(f(ridge_3d(x, y, z, lac, gain, 1, 3)), 1.0 - f(simplex_3d(x, y, z, 3)).abs());
        assert_eq!(
            f(ridge_4d(x, y, z, w, lac, gain, 1, 3)),
            1.0 - f(simplex_4d(x, y, z, w, 3)).abs()
        );
    }
}

#[test]
fn single_octave_turbulence_is_absolute_simplex() {
    let (x, y, z, w) = (v(1.7), v(-3.2), v(4.4), v(-0.9));
    let (lac, gain) = (v(2.0), v(0.5));
    assert_eq!(f(turbulence_1d(x, lac, gain, 1, 9)), f(simplex_1d(x, 9)).abs());
    assert_eq!(f(turbulence_2d(x, y, lac, gain, 1, 9)), f(simplex_2d(x, y, 9)).abs());
    assert_eq!(f(turbulence_3d(x, y, z, lac, gain, 1, 9)), f(simplex_3d(x, y, z, 9)).abs());
    assert_eq!(f(turbulence_4d(x, y, z, w, lac, gain, 1, 9)), f(simplex_4d(x, y, z, w, 9)).abs());
}

#[test]
fn zero_octaves_count_as_one() {
    let p = point(0.3, 0.4, 0.5, 0.6);
    let (lac, gain) = (v(2.0), v(0.5));
    for kind in [Fractal::Fbm, Fractal::Ridge, Fractal::Turbulence] {
        assert_eq!(
            fractal(Dimension::Two, kind, Weighting::AfterAbs, p, lac, gain, 0, 1),
            fractal(Dimension::Two, kind, Weighting::AfterAbs, p, lac, gain, 1, 1)
        );
    }
}

#[test]
fn four_octaves_known_values() {
    let (x, y, z, w) = (v(0.3), v(0.4), v(0.5), v(0.6));
    let (lac, gain) = (v(2.0), v(0.5));
    assert_eq!(fbm_1d(x, lac, gain, 4, 42).to_bits(), 0xbf827998);
    assert_eq!(turbulence_1d(x, lac, gain, 4, 42).to_bits(), 0x3f925f3c);
    assert_eq!(ridge_1d(x, lac, gain, 4, 42).to_bits(), 0x40056427);
    assert_eq!(fbm_2d(x, y, lac, gain, 4, 42).to_bits(), 0xbc00b9f8);
    assert_eq!(turbulence_2d(x, y, lac, gain, 4, 42).to_bits(), 0x3c6a582a);
    assert_eq!(ridge_2d(x, y, lac, gain, 4, 42).to_bits(), 0x407f15a8);
    assert_eq!(fbm_3d(x, y, z, lac, gain, 4, 42).to_bits(), 0x3b4b5cd4);
    assert_eq!(turbulence_3d(x, y, z, lac, gain, 4, 42).to_bits(), 0x3c7662b5);
    assert_eq!(ridge_3d(x, y, z, lac, gain, 4, 42).to_bits(), 0x407f099d);
    assert_eq!(fbm_4d(x, y, z, w, lac, gain, 4, 42).to_bits(), 0x3cfef4cd);
    assert_eq!(turbulence_4d(x, y, z, w, lac, gain, 4, 42).to_bits(), 0x3d092a0d);
    assert_eq!(ridge_4d(x, y, z, w, lac, gain, 4, 42).to_bits(), 0x407ddb58);
}

#[test]
fn fbm_adds_octaves_weighted_by_amplitude() {
    let (x, y) = (1.7f32, -3.2f32);
    let (lac, gain) = (2.5f32, 0.4f32);
    let s0 = f(simplex_2d(v(x), v(y), 11));
    let s1 = f(simplex_2d(v(x * lac), v(y * lac), 11));
    let s2 = f(simplex_2d(v(x * lac * lac), v(y * lac * lac), 11));
    let expected = (s0 + s1 * gain) + s2 * (gain * gain);
    assert_eq!(f(fbm_2d(v(x), v(y), v(lac), v(gain), 3, 11)), expected);
}

#[test]
fn weighting_places_the_amplitude() {
    let p = point(1.7, -3.2, 0.0, 0.0);
    let (lac, gain) = (2.5f32, 0.4f32);
    let s0 = f(simplex_2d(p.x, p.y, 11));
    let s1 = f(simplex_2d(v(1.7 * lac), v(-3.2 * lac), 11));
    let run = |kind, weighting| {
        f(fractal(Dimension::Two, kind, weighting, p, v(lac), v(gain), 2, 11))
    };
    assert_eq!(run(Fractal::Fbm, Weighting::Unweighted), s0 + s1);
    assert_eq!(run(Fractal::Fbm, Weighting::BeforeAbs), s0 + s1 * gain);
    assert_eq!(run(Fractal::Fbm, Weighting::AfterAbs), s0 + s1 * gain);
    assert_eq!(run(Fractal::Ridge, Weighting::Unweighted), (1.0 - s0.abs()) + (1.0 - s1.abs()));
    assert_eq!(
        run(Fractal::Ridge, Weighting::BeforeAbs),
        (1.0 - s0.abs()) + (1.0 - (s1 * gain).abs())
    );
    assert_eq!(
        run(Fractal::Ridge, Weighting::AfterAbs),
        (1.0 - s0.abs()) + (1.0 - s1.abs() * gain)
    );
    assert_eq!(run(Fractal::Turbulence, Weighting::Unweighted), s0.abs() + s1.abs());
    assert_eq!(run(Fractal::Turbulence, Weighting::BeforeAbs), s0.abs() + (s1 * gain).abs());
    assert_eq!(run(Fractal::Turbulence, Weighting::AfterAbs), s0.abs() + s1.abs() * gain);
}

#[test]
fn named_ridges_use_the_weighting_of_their_dimension() {
    let p = point(0.3, 0.4, 0.5, 0.6);
    let (lac, gain) = (v(2.0), v(0.5));
    assert_eq!(
        ridge_1d(p.x, lac, gain, 3, 5),
        fractal(Dimension::One, Fractal::Ridge, Weighting::Unweighted, p, lac, gain, 3, 5)
    );
    assert_eq!(
        ridge_2d(p.x, p.y, lac, gain, 3, 5),
        fractal(Dimension::Two, Fractal::Ridge, Weighting::AfterAbs, p, lac, gain, 3, 5)
    );
    assert_eq!(
        ridge_3d(p.x, p.y, p.z, lac, gain, 3, 5),
        fractal(Dimension::Three, Fractal::Ridge, Weighting::AfterAbs, p, lac, gain, 3, 5)
    );
    assert_eq!(
        ridge_4d(p.x, p.y, p.z, p.w, lac, gain, 3, 5),
        fractal(Dimension::Four, Fractal::Ridge, Weighting::BeforeAbs, p, lac, gain, 3, 5)
    );
}
