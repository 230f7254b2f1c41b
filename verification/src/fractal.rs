//! Fractal combinators: several octaves of simplex noise, each at a higher
//! frequency and a lower amplitude than the one before, added up.
use crate::binary32::{
    difference, lit, magnitude, neg_mul_add, product, sum, Binary32, ONE, ZERO,
};
use crate::simplex::{
    simplex_1d, simplex_1d_spec, simplex_2d, simplex_2d_spec, simplex_3d, simplex_3d_spec,
    simplex_4d, simplex_4d_spec,
};
use vstd::prelude::*;

verus! {

/// How many coordinates a sample point has.
#[derive(Clone, Copy, Debug, PartialEq, Eq, Structural)]
pub enum Dimension {
    One,
    Two,
    Three,
    Four,
}

/// What each octave contributes to the sum.
#[derive(Clone, Copy, Debug, PartialEq, Eq, Structural)]
pub enum Fractal {
    /// The sample itself.
    Fbm,
    /// One minus the absolute value of the sample.
    Ridge,
    /// The absolute value of the sample.
    Turbulence,
}

/// Where the amplitude of an octave after the first enters its contribution.
#[derive(Clone, Copy, Debug, PartialEq, Eq, Structural)]
pub enum Weighting {
    /// Nowhere: every octave counts like the first.
    Unweighted,
    /// The sample is multiplied by the amplitude before the absolute value is
    /// taken.
    BeforeAbs,
    /// The absolute value of the sample is multiplied by the amplitude.
    AfterAbs,
}

/// A sample point. Coordinates beyond the dimension in use are carried along
/// and never read.
#[derive(Clone, Copy, Debug, PartialEq, Eq, Structural)]
pub struct Point {
    pub x: Binary32,
    pub y: Binary32,
    pub z: Binary32,
    pub w: Binary32,
}

/// Single-octave simplex noise of the given dimension at `p`.
pub open spec fn base_spec(dim: Dimension, p: Point, seed: i32) -> Binary32 {
    match dim {
        Dimension::One => simplex_1d_spec(p.x, seed),
        Dimension::Two => simplex_2d_spec(p.x, p.y, seed),
        Dimension::Three => simplex_3d_spec(p.x, p.y, p.z, seed),
        Dimension::Four => simplex_4d_spec(p.x, p.y, p.z, p.w, seed),
    }
}

/// The point with every coordinate multiplied by `factor`.
pub open spec fn scaled(p: Point, factor: Binary32) -> Point {
    Point {
        x: product(p.x, factor),
        y: product(p.y, factor),
        z: product(p.z, factor),
        w: product(p.w, factor),
    }
}

/// The point at which octave `octave` samples: `p` scaled by the lacunarity
/// once for every octave before it.
pub open spec fn octave_point(p: Point, lacunarity: Binary32, octave: nat) -> Point
    decreases octave,
{
    if octave == 0 {
        p
    } else {
        scaled(octave_point(p, lacunarity, (octave - 1) as nat), lacunarity)
    }
}

/// The amplitude of octave `octave`: one, multiplied by the gain once for
/// every octave before it.
pub open spec fn octave_amplitude(gain: Binary32, octave: nat) -> Binary32
    decreases octave,
{
    if octave == 0 {
        lit(ONE)
    } else {
        product(octave_amplitude(gain, (octave - 1) as nat), gain)
    }
}

/// What a sample contributes at amplitude one.
pub open spec fn plain_layer(kind: Fractal, sample: Binary32) -> Binary32 {
    match kind {
        Fractal::Fbm => sample,
        Fractal::Ridge => difference(lit(ONE), magnitude(sample)),
        Fractal::Turbulence => magnitude(sample),
    }
}

/// What a sample contributes in an octave after the first.
pub open spec fn weighted_layer(
    kind: Fractal,
    weighting: Weighting,
    sample: Binary32,
    amplitude: Binary32,
) -> Binary32 {
    match weighting {
        Weighting::Unweighted => plain_layer(kind, sample),
        Weighting::BeforeAbs => plain_layer(kind, product(sample, amplitude)),
        Weighting::AfterAbs => match kind {
            Fractal::Fbm => product(sample, amplitude),
            Fractal::Ridge => neg_mul_add(magnitude(sample), amplitude, lit(ONE)),
            Fractal::Turbulence => product(magnitude(sample), amplitude),
        },
    }
}

/// The sum of the octaves `0..=last`.
pub open spec fn accumulated(
    dim: Dimension,
    kind: Fractal,
    weighting: Weighting,
    p: Point,
    lacunarity: Binary32,
    gain: Binary32,
    seed: i32,
    last: nat,
) -> Binary32
    decreases last,
{
    if last == 0 {
        plain_layer(kind, base_spec(dim, p, seed))
    } else {
        sum(
            accumulated(dim, kind, weighting, p, lacunarity, gain, seed, (last - 1) as nat),
            weighted_layer(
                kind,
                weighting,
                base_spec(dim, octave_point(p, lacunarity, last), seed),
                octave_amplitude(gain, last),
            ),
        )
    }
}

/// Fractal noise of `octaves` octaves. A count of zero is taken as one.
pub open spec fn fractal_spec(
    dim: Dimension,
    kind: Fractal,
    weighting: Weighting,
    p: Point,
    lacunarity: Binary32,
    gain: Binary32,
    octaves: nat,
    seed: i32,
) -> Binary32 {
    accumulated(
        dim,
        kind,
        weighting,
        p,
        lacunarity,
        gain,
        seed,
        if octaves == 0 {
            0
        } else {
            (octaves - 1) as nat
        },
    )
}

/// The one-dimensional point `x`.
pub open spec fn point_1d(x: Binary32) -> Point {
    Point { x, y: lit(ZERO), z: lit(ZERO), w: lit(ZERO) }
}

/// The two-dimensional point `(x, y)`.
pub open spec fn point_2d(x: Binary32, y: Binary32) -> Point {
    Point { x, y, z: lit(ZERO), w: lit(ZERO) }
}

/// The three-dimensional point `(x, y, z)`.
pub open spec fn point_3d(x: Binary32, y: Binary32, z: Binary32) -> Point {
    Point { x, y, z, w: lit(ZERO) }
}

/// The weighting that `ridge_1d` to `ridge_4d` use: none in one dimension,
/// after the absolute value in two and three, before it in four.
pub open spec fn ridge_weighting(dim: Dimension) -> Weighting {
    match dim {
        Dimension::One => Weighting::Unweighted,
        Dimension::Two => Weighting::AfterAbs,
        Dimension::Three => Weighting::AfterAbs,
        Dimension::Four => Weighting::BeforeAbs,
    }
}

/// The weighting that `ridge_1d` to `ridge_4d` use in the given dimension.
pub fn default_ridge_weighting(dim: Dimension) -> (r: Weighting)
    ensures
        r == ridge_weighting(dim),
{
    match dim {
        Dimension::One => Weighting::Unweighted,
        Dimension::Two => Weighting::AfterAbs,
        Dimension::Three => Weighting::AfterAbs,
        Dimension::Four => Weighting::BeforeAbs,
    }
}

/// With a single octave, fractal noise is the plain contribution of one
/// sample of the base kernel at the point itself: lacunarity, gain and
/// weighting play no part.
pub proof fn lemma_single_octave(
    dim: Dimension,
    kind: Fractal,
    weighting: Weighting,
    p: Point,
    lacunarity: Binary32,
    gain: Binary32,
    seed: i32,
)
    ensures
        fractal_spec(dim, kind, weighting, p, lacunarity, gain, 1, seed) == plain_layer(
            kind,
            base_spec(dim, p, seed),
        ),
        plain_layer(Fractal::Fbm, base_spec(dim, p, seed)) == base_spec(dim, p, seed),
        plain_layer(Fractal::Ridge, base_spec(dim, p, seed)) == difference(
            lit(ONE),
            magnitude(base_spec(dim, p, seed)),
        ),
        plain_layer(Fractal::Turbulence, base_spec(dim, p, seed)) == magnitude(
            base_spec(dim, p, seed),
        ),
{
}

/// Single-octave simplex noise of the given dimension at `p`.
pub fn base(dim: Dimension, p: Point, seed: i32) -> (r: Binary32)
    ensures
        r == base_spec(dim, p, seed),
{
    match dim {
        Dimension::One => simplex_1d(p.x, seed),
        Dimension::Two => simplex_2d(p.x, p.y, seed),
        Dimension::Three => simplex_3d(p.x, p.y, p.z, seed),
        Dimension::Four => simplex_4d(p.x, p.y, p.z, p.w, seed),
    }
}

fn plain_layer_of(kind: Fractal, sample: Binary32) -> (r: Binary32)
    ensures
        r == plain_layer(kind, sample),
{
    match kind {
        Fractal::Fbm => sample,
        Fractal::Ridge => Binary32::lit(ONE).minus(sample.abs()),
        Fractal::Turbulence => sample.abs(),
    }
}

fn weighted_layer_of(kind: Fractal, weighting: Weighting, sample: Binary32, amplitude: Binary32) -> (r:
    Binary32)
    ensures
        r == weighted_layer(kind, weighting, sample, amplitude),
{
    match weighting {
        Weighting::Unweighted => plain_layer_of(kind, sample),
        Weighting::BeforeAbs => plain_layer_of(kind, sample.times(amplitude)),
        Weighting::AfterAbs => match kind {
            Fractal::Fbm => sample.times(amplitude),
            Fractal::Ridge => sample.abs().neg_mul_add(amplitude, Binary32::lit(ONE)),
            Fractal::Turbulence => sample.abs().times(amplitude),
        },
    }
}

fn scale(p: Point, factor: Binary32) -> (r: Point)
    ensures
        r == scaled(p, factor),
{
    Point { x: p.x.times(factor), y: p.y.times(factor), z: p.z.times(factor), w: p.w.times(factor) }
}

/// Fractal noise at `p`: the first octave samples the base kernel at `p` and
/// counts in full; each later octave samples at the previous point times the
/// lacunarity, with the previous amplitude times the gain.
pub fn fractal(
    dim: Dimension,
    kind: Fractal,
    weighting: Weighting,
    p: Point,
    lacunarity: Binary32,
    gain: Binary32,
    octaves: u8,
    seed: i32,
) -> (r: Binary32)
    ensures
        r == fractal_spec(dim, kind, weighting, p, lacunarity, gain, octaves as nat, seed),
{
    let mut result = plain_layer_of(kind, base(dim, p, seed));
    let mut amp = Binary32::lit(ONE);
    let mut q = p;
    let mut octave: u8 = 1;
    while octave < octaves
        invariant
            1 <= octave,
            octaves >= 1 ==> octave <= octaves,
            octaves == 0 ==> octave == 1,
            q == octave_point(p, lacunarity, (octave - 1) as nat),
            amp == octave_amplitude(gain, (octave - 1) as nat),
            result == accumulated(
                dim,
                kind,
                weighting,
                p,
                lacunarity,
                gain,
                seed,
                (octave - 1) as nat,
            ),
        decreases octaves - octave,
    {
        q = scale(q, lacunarity);
        amp = amp.times(gain);
        result = result.plus(weighted_layer_of(kind, weighting, base(dim, q, seed), amp));
        octave = octave + 1;
    }
    result
}

/// Fractional Brownian motion over one-dimensional simplex noise: each octave counts times its amplitude.
pub fn fbm_1d(
    x: Binary32,
    lacunarity: Binary32,
    gain: Binary32,
    octaves: u8,
    seed: i32,
) -> (r: Binary32)
    ensures
        r == fractal_spec(
            Dimension::One,
            Fractal::Fbm,
            Weighting::BeforeAbs,
            point_1d(x),
            lacunarity,
            gain,
            octaves as nat,
            seed,
        ),
{
    let zero = Binary32::lit(ZERO);
    fractal(
        Dimension::One,
        Fractal::Fbm,
        Weighting::BeforeAbs,
        Point { x, y: zero, z: zero, w: zero },
        lacunarity,
        gain,
        octaves,
        seed,
    )
}

/// Ridged noise over one-dimensional simplex noise: each octave counts as one minus the absolute value of its sample; the amplitude plays no part.
pub fn ridge_1d(
    x: Binary32,
    lacunarity: Binary32,
    gain: Binary32,
    octaves: u8,
    seed: i32,
) -> (r: Binary32)
    ensures
        r == fractal_spec(
            Dimension::One,
            Fractal::Ridge,
            ridge_weighting(Dimension::One),
            point_1d(x),
            lacunarity,
            gain,
            octaves as nat,
            seed,
        ),
{
    let zero = Binary32::lit(ZERO);
    fractal(
        Dimension::One,
        Fractal::Ridge,
        Weighting::Unweighted,
        Point { x, y: zero, z: zero, w: zero },
        lacunarity,
        gain,
        octaves,
        seed,
    )
}

/// Turbulence over one-dimensional simplex noise: each octave counts as the absolute value of its sample times its amplitude.
pub fn turbulence_1d(
    x: Binary32,
    lacunarity: Binary32,
    gain: Binary32,
    octaves: u8,
    seed: i32,
) -> (r: Binary32)
    ensures
        r == fractal_spec(
            Dimension::One,
            Fractal::Turbulence,
            Weighting::BeforeAbs,
            point_1d(x),
            lacunarity,
            gain,
            octaves as nat,
            seed,
        ),
{
    let zero = Binary32::lit(ZERO);
    fractal(
        Dimension::One,
        Fractal::Turbulence,
        Weighting::BeforeAbs,
        Point { x, y: zero, z: zero, w: zero },
        lacunarity,
        gain,
        octaves,
        seed,
    )
}

/// Fractional Brownian motion over two-dimensional simplex noise: each octave counts times its amplitude.
pub fn fbm_2d(
    x: Binary32,
    y: Binary32,
    lacunarity: Binary32,
    gain: Binary32,
    octaves: u8,
    seed: i32,
) -> (r: Binary32)
    ensures
        r == fractal_spec(
            Dimension::Two,
            Fractal::Fbm,
            Weighting::BeforeAbs,
            point_2d(x, y),
            lacunarity,
            gain,
            octaves as nat,
            seed,
        ),
{
    let zero = Binary32::lit(ZERO);
    fractal(
        Dimension::Two,
        Fractal::Fbm,
        Weighting::BeforeAbs,
        Point { x, y, z: zero, w: zero },
        lacunarity,
        gain,
        octaves,
        seed,
    )
}

/// Ridged noise over two-dimensional simplex noise: each octave counts as one minus the absolute value of its sample, the absolute value weighted by the amplitude.
pub fn ridge_2d(
    x: Binary32,
    y: Binary32,
    lacunarity: Binary32,
    gain: Binary32,
    octaves: u8,
    seed: i32,
) -> (r: Binary32)
    ensures
        r == fractal_spec(
            Dimension::Two,
            Fractal::Ridge,
            ridge_weighting(Dimension::Two),
            point_2d(x, y),
            lacunarity,
            gain,
            octaves as nat,
            seed,
        ),
{
    let zero = Binary32::lit(ZERO);
    fractal(
        Dimension::Two,
        Fractal::Ridge,
        Weighting::AfterAbs,
        Point { x, y, z: zero, w: zero },
        lacunarity,
        gain,
        octaves,
        seed,
    )
}

/// Turbulence over two-dimensional simplex noise: each octave counts as the absolute value of its sample times its amplitude.
pub fn turbulence_2d(
    x: Binary32,
    y: Binary32,
    lacunarity: Binary32,
    gain: Binary32,
    octaves: u8,
    seed: i32,
) -> (r: Binary32)
    ensures
        r == fractal_spec(
            Dimension::Two,
            Fractal::Turbulence,
            Weighting::BeforeAbs,
            point_2d(x, y),
            lacunarity,
            gain,
            octaves as nat,
            seed,
        ),
{
    let zero = Binary32::lit(ZERO);
    fractal(
        Dimension::Two,
        Fractal::Turbulence,
        Weighting::BeforeAbs,
        Point { x, y, z: zero, w: zero },
        lacunarity,
        gain,
        octaves,
        seed,
    )
}

/// Fractional Brownian motion over three-dimensional simplex noise: each octave counts times its amplitude.
pub fn fbm_3d(
    x: Binary32,
    y: Binary32,
    z: Binary32,
    lacunarity: Binary32,
    gain: Binary32,
    octaves: u8,
    seed: i32,
) -> (r: Binary32)
    ensures
        r == fractal_spec(
            Dimension::Three,
            Fractal::Fbm,
            Weighting::BeforeAbs,
            point_3d(x, y, z),
            lacunarity,
            gain,
            octaves as nat,
            seed,
        ),
{
    let zero = Binary32::lit(ZERO);
    fractal(
        Dimension::Three,
        Fractal::Fbm,
        Weighting::BeforeAbs,
        Point { x, y, z, w: zero },
        lacunarity,
        gain,
        octaves,
        seed,
    )
}

/// Ridged noise over three-dimensional simplex noise: each octave counts as one minus the absolute value of its sample, the absolute value weighted by the amplitude.
pub fn ridge_3d(
    x: Binary32,
    y: Binary32,
    z: Binary32,
    lacunarity: Binary32,
    gain: Binary32,
    octaves: u8,
    seed: i32,
) -> (r: Binary32)
    ensures
        r == fractal_spec(
            Dimension::Three,
            Fractal::Ridge,
            ridge_weighting(Dimension::Three),
            point_3d(x, y, z),
            lacunarity,
            gain,
            octaves as nat,
            seed,
        ),
{
    let zero = Binary32::lit(ZERO);
    fractal(
        Dimension::Three,
        Fractal::Ridge,
        Weighting::AfterAbs,
        Point { x, y, z, w: zero },
        lacunarity,
        gain,
        octaves,
        seed,
    )
}

/// Turbulence over three-dimensional simplex noise: each octave counts as the absolute value of its sample times its amplitude.
pub fn turbulence_3d(
    x: Binary32,
    y: Binary32,
    z: Binary32,
    lacunarity: Binary32,
    gain: Binary32,
    octaves: u8,
    seed: i32,
) -> (r: Binary32)
    ensures
        r == fractal_spec(
            Dimension::Three,
            Fractal::Turbulence,
            Weighting::BeforeAbs,
            point_3d(x, y, z),
            lacunarity,
            gain,
            octaves as nat,
            seed,
        ),
{
    let zero = Binary32::lit(ZERO);
    fractal(
        Dimension::Three,
        Fractal::Turbulence,
        Weighting::BeforeAbs,
        Point { x, y, z, w: zero },
        lacunarity,
        gain,
        octaves,
        seed,
    )
}

/// Fractional Brownian motion over four-dimensional simplex noise: each octave counts times its amplitude.
pub fn fbm_4d(
    x: Binary32,
    y: Binary32,
    z: Binary32,
    w: Binary32,
    lacunarity: Binary32,
    gain: Binary32,
    octaves: u8,
    seed: i32,
) -> (r: Binary32)
    ensures
        r == fractal_spec(
            Dimension::Four,
            Fractal::Fbm,
            Weighting::BeforeAbs,
            Point { x, y, z, w },
            lacunarity,
            gain,
            octaves as nat,
            seed,
        ),
{
    fractal(
        Dimension::Four,
        Fractal::Fbm,
        Weighting::BeforeAbs,
        Point { x, y, z, w },
        lacunarity,
        gain,
        octaves,
        seed,
    )
}

/// Ridged noise over four-dimensional simplex noise: each octave counts as one minus the absolute value of its sample, the sample weighted by the amplitude before the absolute value is taken.
pub fn ridge_4d(
    x: Binary32,
    y: Binary32,
    z: Binary32,
    w: Binary32,
    lacunarity: Binary32,
    gain: Binary32,
    octaves: u8,
    seed: i32,
) -> (r: Binary32)
    ensures
        r == fractal_spec(
            Dimension::Four,
            Fractal::Ridge,
            ridge_weighting(Dimension::Four),
            Point { x, y, z, w },
            lacunarity,
            gain,
            octaves as nat,
            seed,
        ),
{
    fractal(
        Dimension::Four,
        Fractal::Ridge,
        Weighting::BeforeAbs,
        Point { x, y, z, w },
        lacunarity,
        gain,
        octaves,
        seed,
    )
}

/// Turbulence over four-dimensional simplex noise: each octave counts as the absolute value of its sample times its amplitude.
pub fn turbulence_4d(
    x: Binary32,
    y: Binary32,
    z: Binary32,
    w: Binary32,
    lacunarity: Binary32,
    gain: Binary32,
    octaves: u8,
    seed: i32,
) -> (r: Binary32)
    ensures
        r == fractal_spec(
            Dimension::Four,
            Fractal::Turbulence,
            Weighting::BeforeAbs,
            Point { x, y, z, w },
            lacunarity,
            gain,
            octaves as nat,
            seed,
        ),
{
    fractal(
        Dimension::Four,
        Fractal::Turbulence,
        Weighting::BeforeAbs,
        Point { x, y, z, w },
        lacunarity,
        gain,
        octaves,
        seed,
    )
}

} // verus!
