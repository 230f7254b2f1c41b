//! Generation of a dense buffer of noise over a rectangular grid.
//!
//! The grid has one to four axes. Its points are visited in row-major order,
//! the first axis varying fastest; point `i` along an axis lies at the axis'
//! offset plus `i`, and is multiplied by the frequency before the kernel
//! samples it.
use crate::binary32::{
    advanced, order_key, order_key_of, product, Binary32, INFINITY, ONE,
};
use crate::cellular::{
    cellular_2d_seeded_spec, cellular_3d_seeded, cellular_3d_seeded_spec, new_cellular_2d_seeded,
    CellDistanceFunction, CellReturnType,
};
use crate::fractal::{
    base, base_spec, fractal, fractal_spec, Dimension, Fractal, Point, Weighting,
};
use crate::scale::{scale, scaled_buffer};
use vstd::arithmetic::div_mod::{
    lemma_div_pos_is_pos, lemma_fundamental_div_mod, lemma_fundamental_div_mod_converse,
    lemma_mod_pos_bound,
};
use vstd::prelude::*;

verus! {

/// The kernel that produces the samples.
#[derive(Clone, Copy, Debug, PartialEq, Eq, Structural)]
pub enum Kernel {
    /// Single-octave simplex noise.
    Simplex,
    /// Fractional Brownian motion over simplex noise.
    Fbm,
    /// Ridged fractal noise over simplex noise.
    Ridge,
    /// Turbulence over simplex noise.
    Turbulence,
    /// Cellular noise.
    Cellular,
}

/// Everything a generation call is given.
#[derive(Clone, Copy, Debug, PartialEq, Eq, Structural)]
pub struct Settings {
    pub dimension: Dimension,
    pub kernel: Kernel,
    /// Extent of the first axis.
    pub width: usize,
    /// Extent of the second axis; read in two dimensions and above.
    pub height: usize,
    /// Extent of the third axis; read in three dimensions and above.
    pub depth: usize,
    /// Extent of the fourth axis; read in four dimensions.
    pub steps: usize,
    /// Where the grid starts along each axis.
    pub offset: Point,
    pub seed: i32,
    pub frequency: Binary32,
    /// Read by the fractal kernels.
    pub octaves: u8,
    /// Read by the fractal kernels.
    pub lacunarity: Binary32,
    /// Read by the fractal kernels.
    pub gain: Binary32,
    /// Read by the ridge kernel.
    pub weighting: Weighting,
    /// Read by the cellular kernel.
    pub jitter: Binary32,
    /// Read by the cellular kernel.
    pub distance_function: CellDistanceFunction,
    /// Read by the cellular kernel.
    pub return_type: CellReturnType,
}

/// Why a generation call was turned down.
#[derive(Clone, Copy, Debug, PartialEq, Eq, Structural)]
pub enum GenerateError {
    /// The kernel does not exist in this dimension.
    Unsupported { dimension: Dimension, kernel: Kernel },
    /// A fractal kernel was asked for less than one octave.
    Octaves,
    /// The frequency is zero, infinite or not a number.
    Frequency,
}

/// Simplex noise and its fractals exist in every dimension, cellular noise
/// in two and three.
pub open spec fn supported(dimension: Dimension, kernel: Kernel) -> bool {
    kernel != Kernel::Cellular || dimension == Dimension::Two || dimension == Dimension::Three
}

/// Whether the kernel adds up octaves.
pub open spec fn is_fractal(kernel: Kernel) -> bool {
    kernel == Kernel::Fbm || kernel == Kernel::Ridge || kernel == Kernel::Turbulence
}

/// A frequency is usable where it is finite and not zero: its key lies
/// strictly between those of the two infinities and is not that of zero.
pub open spec fn usable_frequency(frequency: Binary32) -> bool {
    order_key(frequency) != 0 && -INFINITY < order_key(frequency) < INFINITY
}

/// The first reason, if any, to turn the settings down: the pairing of
/// dimension and kernel is looked at first, then the octaves, then the
/// frequency.
pub open spec fn rejection(s: Settings) -> Option<GenerateError> {
    if !supported(s.dimension, s.kernel) {
        Some(GenerateError::Unsupported { dimension: s.dimension, kernel: s.kernel })
    } else if is_fractal(s.kernel) && s.octaves < 1 {
        Some(GenerateError::Octaves)
    } else if !usable_frequency(s.frequency) {
        Some(GenerateError::Frequency)
    } else {
        None
    }
}

/// Number of axes of the grid.
pub open spec fn axes(dimension: Dimension) -> nat {
    match dimension {
        Dimension::One => 1,
        Dimension::Two => 2,
        Dimension::Three => 3,
        Dimension::Four => 4,
    }
}

/// Extent of axis `axis` (0 to 3) of the grid: what the settings say for an
/// axis in use, one for an axis beyond the dimension.
pub open spec fn extent(s: Settings, axis: nat) -> nat {
    if axis >= axes(s.dimension) {
        1
    } else if axis == 0 {
        s.width as nat
    } else if axis == 1 {
        s.height as nat
    } else if axis == 2 {
        s.depth as nat
    } else {
        s.steps as nat
    }
}

/// Number of points of the grid: the product of its extents.
pub open spec fn sample_count(s: Settings) -> nat {
    (extent(s, 3) * extent(s, 2) * extent(s, 1) * extent(s, 0)) as nat
}

/// Position of the point with the flat index `n` along each axis.
pub struct GridIndex {
    pub x: nat,
    pub y: nat,
    pub z: nat,
    pub w: nat,
}

/// Row-major decomposition of the flat index `n` over a grid whose first
/// three extents are `width`, `height` and `depth`.
pub open spec fn grid_index(n: nat, width: nat, height: nat, depth: nat) -> GridIndex {
    GridIndex {
        x: n % width,
        y: (n / width) % height,
        z: (n / width / height) % depth,
        w: n / width / height / depth,
    }
}

/// Row-major composition: the flat index of the point at `(x, y, z, w)`.
pub open spec fn flat_index(width: nat, height: nat, depth: nat, x: nat, y: nat, z: nat, w: nat) -> nat {
    (((w * depth + z) * height + y) * width + x) as nat
}

/// The point that the kernel samples for the grid point at `at`.
pub open spec fn sample_point(s: Settings, at: GridIndex) -> Point {
    Point {
        x: product(advanced(s.offset.x, at.x), s.frequency),
        y: product(advanced(s.offset.y, at.y), s.frequency),
        z: product(advanced(s.offset.z, at.z), s.frequency),
        w: product(advanced(s.offset.w, at.w), s.frequency),
    }
}

/// The raw sample of the configured kernel at `p`.
pub open spec fn sample_spec(s: Settings, p: Point) -> Binary32 {
    match s.kernel {
        Kernel::Simplex => base_spec(s.dimension, p, s.seed),
        Kernel::Fbm => fractal_spec(
            s.dimension,
            Fractal::Fbm,
            Weighting::BeforeAbs,
            p,
            s.lacunarity,
            s.gain,
            s.octaves as nat,
            s.seed,
        ),
        Kernel::Ridge => fractal_spec(
            s.dimension,
            Fractal::Ridge,
            s.weighting,
            p,
            s.lacunarity,
            s.gain,
            s.octaves as nat,
            s.seed,
        ),
        Kernel::Turbulence => fractal_spec(
            s.dimension,
            Fractal::Turbulence,
            Weighting::BeforeAbs,
            p,
            s.lacunarity,
            s.gain,
            s.octaves as nat,
            s.seed,
        ),
        Kernel::Cellular => match s.dimension {
            Dimension::Three => cellular_3d_seeded_spec(
                s.seed,
                p.x,
                p.y,
                p.z,
                s.distance_function,
                s.return_type,
                s.jitter,
            ),
            _ => cellular_2d_seeded_spec(
                s.seed,
                p.x,
                p.y,
                s.distance_function,
                s.return_type,
                s.jitter,
            ),
        },
    }
}

/// The raw sample at the grid point with the flat index `n`.
pub open spec fn sample_at(s: Settings, n: int) -> Binary32 {
    sample_spec(s, sample_point(s, grid_index(n as nat, extent(s, 0), extent(s, 1), extent(s, 2))))
}

/// The buffer of raw samples that the settings describe.
pub open spec fn raw_noise(s: Settings) -> Seq<Binary32> {
    Seq::new(sample_count(s), |n: int| sample_at(s, n))
}

/// The buffer has one sample for every grid point, whatever the settings; a
/// grid with an axis of extent zero has none.
pub proof fn lemma_shape(s: Settings)
    ensures
        raw_noise(s).len() == extent(s, 3) * extent(s, 2) * extent(s, 1) * extent(s, 0),
        (extent(s, 0) == 0 || extent(s, 1) == 0 || extent(s, 2) == 0 || extent(s, 3) == 0)
            ==> raw_noise(s).len() == 0,
{
    assert((extent(s, 0) == 0 || extent(s, 1) == 0 || extent(s, 2) == 0 || extent(s, 3) == 0)
        ==> extent(s, 3) * extent(s, 2) * extent(s, 1) * extent(s, 0) == 0) by (nonlinear_arith);
    assert(extent(s, 3) * extent(s, 2) * extent(s, 1) * extent(s, 0) >= 0) by (nonlinear_arith);
}

/// Generation is repeatable: two buffers that are each the raw noise of the
/// same settings hold the same samples at the same places.
pub proof fn lemma_repeatable(s: Settings, first: Seq<Binary32>, second: Seq<Binary32>)
    requires
        first.len() == sample_count(s),
        second.len() == sample_count(s),
        forall|n: int| 0 <= n < first.len() ==> #[trigger] first[n] == sample_at(s, n),
        forall|n: int| 0 <= n < second.len() ==> #[trigger] second[n] == sample_at(s, n),
    ensures
        first == second,
        first == raw_noise(s),
{
    assert(first =~= raw_noise(s));
    assert(second =~= raw_noise(s));
}

/// Composition and decomposition of flat indices are inverse to each other.
pub proof fn lemma_grid_index(width: nat, height: nat, depth: nat, x: nat, y: nat, z: nat, w: nat)
    requires
        x < width,
        y < height,
        z < depth,
    ensures
        grid_index(flat_index(width, height, depth, x, y, z, w), width, height, depth)
            == (GridIndex { x, y, z, w }),
{
    let q2 = (w * depth + z) as int;
    let q1 = (q2 * height + y) as int;
    let n = (q1 * width + x) as int;
    assert(q2 >= 0 && q1 >= 0) by (nonlinear_arith)
        requires
            q2 == w * depth + z,
            q1 == q2 * height + y,
    ;
    assert(n >= 0) by (nonlinear_arith)
        requires
            q1 >= 0,
            n == q1 * width + x,
    ;
    lemma_fundamental_div_mod_converse(n, width as int, q1, x as int);
    lemma_fundamental_div_mod_converse(q1, height as int, q2, y as int);
    lemma_fundamental_div_mod_converse(q2, depth as int, w as int, z as int);
}

/// Every flat index below the number of grid points decomposes into a
/// position inside the grid, and composes back into itself.
pub proof fn lemma_flat_index(width: nat, height: nat, depth: nat, steps: nat, n: nat)
    requires
        n < steps * depth * height * width,
    ensures
        ({
            let at = grid_index(n, width, height, depth);
            &&& at.x < width
            &&& at.y < height
            &&& at.z < depth
            &&& at.w < steps
            &&& flat_index(width, height, depth, at.x, at.y, at.z, at.w) == n
        }),
{
    assert(width > 0 && height > 0 && depth > 0) by (nonlinear_arith)
        requires
            n < steps * depth * height * width,
    ;
    let q1 = n as int / width as int;
    let q2 = q1 / height as int;
    let q3 = q2 / depth as int;
    lemma_fundamental_div_mod(n as int, width as int);
    lemma_fundamental_div_mod(q1, height as int);
    lemma_fundamental_div_mod(q2, depth as int);
    lemma_mod_pos_bound(n as int, width as int);
    lemma_mod_pos_bound(q1, height as int);
    lemma_mod_pos_bound(q2, depth as int);
    lemma_div_pos_is_pos(n as int, width as int);
    lemma_div_pos_is_pos(q1, height as int);
    lemma_div_pos_is_pos(q2, depth as int);
    assert(n == ((q3 * depth + q2 % depth as int) * height + q1 % height as int) * width + n as int
        % width as int) by (nonlinear_arith)
        requires
            n == width * q1 + n as int % width as int,
            q1 == height * q2 + q1 % height as int,
            q2 == depth * q3 + q2 % depth as int,
    ;
    assert(q3 < steps) by (nonlinear_arith)
        requires
            n < steps * depth * height * width,
            n == ((q3 * depth + q2 % depth as int) * height + q1 % height as int) * width + n as int
                % width as int,
            0 <= q2 % depth as int,
            0 <= q1 % height as int,
            0 <= n as int % width as int,
            width > 0,
            height > 0,
            depth > 0,
            q3 >= 0,
    ;
}

fn axes_of(dimension: Dimension) -> (r: u8)
    ensures
        r == axes(dimension),
{
    match dimension {
        Dimension::One => 1,
        Dimension::Two => 2,
        Dimension::Three => 3,
        Dimension::Four => 4,
    }
}

/// Whether the kernel exists in the dimension.
pub fn is_supported(dimension: Dimension, kernel: Kernel) -> (r: bool)
    ensures
        r == supported(dimension, kernel),
{
    match kernel {
        Kernel::Cellular => match dimension {
            Dimension::Two => true,
            Dimension::Three => true,
            _ => false,
        },
        _ => true,
    }
}

fn is_fractal_of(kernel: Kernel) -> (r: bool)
    ensures
        r == is_fractal(kernel),
{
    match kernel {
        Kernel::Fbm => true,
        Kernel::Ridge => true,
        Kernel::Turbulence => true,
        _ => false,
    }
}

fn usable_frequency_of(frequency: Binary32) -> (r: bool)
    ensures
        r == usable_frequency(frequency),
{
    let key = order_key_of(frequency);
    key != 0 && -INFINITY < key && key < INFINITY
}

/// Checks the settings before anything is computed.
pub fn validate(settings: &Settings) -> (r: Result<(), GenerateError>)
    ensures
        match r {
            Ok(_) => rejection(*settings) is None,
            Err(e) => rejection(*settings) == Some(e),
        },
{
    if !is_supported(settings.dimension, settings.kernel) {
        Err(GenerateError::Unsupported { dimension: settings.dimension, kernel: settings.kernel })
    } else if is_fractal_of(settings.kernel) && settings.octaves < 1 {
        Err(GenerateError::Octaves)
    } else if !usable_frequency_of(settings.frequency) {
        Err(GenerateError::Frequency)
    } else {
        Ok(())
    }
}

/// The raw sample of the configured kernel at `p`.
pub fn sample(settings: &Settings, p: Point) -> (r: Binary32)
    requires
        supported(settings.dimension, settings.kernel),
    ensures
        r == sample_spec(*settings, p),
{
    match settings.kernel {
        Kernel::Simplex => base(settings.dimension, p, settings.seed),
        Kernel::Fbm => fractal(
            settings.dimension,
            Fractal::Fbm,
            Weighting::BeforeAbs,
            p,
            settings.lacunarity,
            settings.gain,
            settings.octaves,
            settings.seed,
        ),
        Kernel::Ridge => fractal(
            settings.dimension,
            Fractal::Ridge,
            settings.weighting,
            p,
            settings.lacunarity,
            settings.gain,
            settings.octaves,
            settings.seed,
        ),
        Kernel::Turbulence => fractal(
            settings.dimension,
            Fractal::Turbulence,
            Weighting::BeforeAbs,
            p,
            settings.lacunarity,
            settings.gain,
            settings.octaves,
            settings.seed,
        ),
        Kernel::Cellular => match settings.dimension {
            Dimension::Three => cellular_3d_seeded(
                settings.seed,
                p.x,
                p.y,
                p.z,
                settings.distance_function,
                settings.return_type,
                settings.jitter,
            ),
            _ => new_cellular_2d_seeded(
                settings.seed,
                p.x,
                p.y,
                settings.distance_function,
                settings.return_type,
                settings.jitter,
            ),
        },
    }
}

/// Fills one row of the grid: the points `(0..width, y, z, w)`.
fn fill_row(
    settings: &Settings,
    buffer: &mut Vec<Binary32>,
    width: usize,
    cy: Binary32,
    cz: Binary32,
    cw: Binary32,
    Ghost(y): Ghost<nat>,
    Ghost(z): Ghost<nat>,
    Ghost(w): Ghost<nat>,
)
    requires
        supported(settings.dimension, settings.kernel),
        width == extent(*settings, 0),
        y < extent(*settings, 1),
        z < extent(*settings, 2),
        cy == advanced(settings.offset.y, y),
        cz == advanced(settings.offset.z, z),
        cw == advanced(settings.offset.w, w),
        old(buffer)@.len() == flat_index(
            extent(*settings, 0),
            extent(*settings, 1),
            extent(*settings, 2),
            0,
            y,
            z,
            w,
        ),
        forall|n: int| 0 <= n < old(buffer)@.len() ==> #[trigger] old(buffer)@[n] == sample_at(*settings, n),
    ensures
        final(buffer)@.len() == flat_index(
            extent(*settings, 0),
            extent(*settings, 1),
            extent(*settings, 2),
            0,
            y + 1,
            z,
            w,
        ),
        forall|n: int| 0 <= n < final(buffer)@.len() ==> #[trigger] final(buffer)@[n] == sample_at(*settings, n),
{
    let mut cx = settings.offset.x;
    let mut x: usize = 0;
    let ghost start = buffer@.len();
    while x < width
        invariant
            supported(settings.dimension, settings.kernel),
            width == extent(*settings, 0),
            y < extent(*settings, 1),
            z < extent(*settings, 2),
            cy == advanced(settings.offset.y, y),
            cz == advanced(settings.offset.z, z),
            cw == advanced(settings.offset.w, w),
            0 <= x <= width,
            cx == advanced(settings.offset.x, x as nat),
            start == flat_index(
                extent(*settings, 0),
                extent(*settings, 1),
                extent(*settings, 2),
                0,
                y,
                z,
                w,
            ),
            buffer@.len() == start + x,
            forall|n: int| 0 <= n < buffer@.len() ==> #[trigger] buffer@[n] == sample_at(*settings, n),
        decreases width - x,
    {
        let p = Point {
            x: cx.times(settings.frequency),
            y: cy.times(settings.frequency),
            z: cz.times(settings.frequency),
            w: cw.times(settings.frequency),
        };
        proof {
            lemma_grid_index(
                extent(*settings, 0),
                extent(*settings, 1),
                extent(*settings, 2),
                x as nat,
                y,
                z,
                w,
            );
        }
        let v = sample(settings, p);
        buffer.push(v);
        cx = cx.plus(Binary32::lit(ONE));
        x = x + 1;
    }
    assert(start + width == flat_index(
        extent(*settings, 0),
        extent(*settings, 1),
        extent(*settings, 2),
        0,
        y + 1,
        z,
        w,
    )) by (nonlinear_arith)
        requires
            width == extent(*settings, 0),
            start == flat_index(
                extent(*settings, 0),
                extent(*settings, 1),
                extent(*settings, 2),
                0,
                y,
                z,
                w,
            ),
    ;
}

/// Fills one plane of the grid: the rows `(_, 0..height, z, w)`.
fn fill_plane(
    settings: &Settings,
    buffer: &mut Vec<Binary32>,
    width: usize,
    height: usize,
    cz: Binary32,
    cw: Binary32,
    Ghost(z): Ghost<nat>,
    Ghost(w): Ghost<nat>,
)
    requires
        supported(settings.dimension, settings.kernel),
        width == extent(*settings, 0),
        height == extent(*settings, 1),
        z < extent(*settings, 2),
        cz == advanced(settings.offset.z, z),
        cw == advanced(settings.offset.w, w),
        old(buffer)@.len() == flat_index(
            extent(*settings, 0),
            extent(*settings, 1),
            extent(*settings, 2),
            0,
            0,
            z,
            w,
        ),
        forall|n: int| 0 <= n < old(buffer)@.len() ==> #[trigger] old(buffer)@[n] == sample_at(*settings, n),
    ensures
        final(buffer)@.len() == flat_index(
            extent(*settings, 0),
            extent(*settings, 1),
            extent(*settings, 2),
            0,
            0,
            z + 1,
            w,
        ),
        forall|n: int| 0 <= n < final(buffer)@.len() ==> #[trigger] final(buffer)@[n] == sample_at(*settings, n),
{
    let mut cy = settings.offset.y;
    let mut y: usize = 0;
    while y < height
        invariant
            supported(settings.dimension, settings.kernel),
            width == extent(*settings, 0),
            height == extent(*settings, 1),
            z < extent(*settings, 2),
            cz == advanced(settings.offset.z, z),
            cw == advanced(settings.offset.w, w),
            0 <= y <= height,
            cy == advanced(settings.offset.y, y as nat),
            buffer@.len() == flat_index(
                extent(*settings, 0),
                extent(*settings, 1),
                extent(*settings, 2),
                0,
                y as nat,
                z,
                w,
            ),
            forall|n: int| 0 <= n < buffer@.len() ==> #[trigger] buffer@[n] == sample_at(*settings, n),
        decreases height - y,
    {
        fill_row(settings, buffer, width, cy, cz, cw, Ghost(y as nat), Ghost(z), Ghost(w));
        cy = cy.plus(Binary32::lit(ONE));
        y = y + 1;
    }
    assert(flat_index(
        extent(*settings, 0),
        extent(*settings, 1),
        extent(*settings, 2),
        0,
        height as nat,
        z,
        w,
    ) == flat_index(
        extent(*settings, 0),
        extent(*settings, 1),
        extent(*settings, 2),
        0,
        0,
        z + 1,
        w,
    )) by (nonlinear_arith)
        requires
            height == extent(*settings, 1),
    ;
}

/// Fills one volume of the grid: the planes `(_, _, 0..depth, w)`.
fn fill_volume(
    settings: &Settings,
    buffer: &mut Vec<Binary32>,
    width: usize,
    height: usize,
    depth: usize,
    cw: Binary32,
    Ghost(w): Ghost<nat>,
)
    requires
        supported(settings.dimension, settings.kernel),
        width == extent(*settings, 0),
        height == extent(*settings, 1),
        depth == extent(*settings, 2),
        cw == advanced(settings.offset.w, w),
        old(buffer)@.len() == flat_index(
            extent(*settings, 0),
            extent(*settings, 1),
            extent(*settings, 2),
            0,
            0,
            0,
            w,
        ),
        forall|n: int| 0 <= n < old(buffer)@.len() ==> #[trigger] old(buffer)@[n] == sample_at(*settings, n),
    ensures
        final(buffer)@.len() == flat_index(
            extent(*settings, 0),
            extent(*settings, 1),
            extent(*settings, 2),
            0,
            0,
            0,
            w + 1,
        ),
        forall|n: int| 0 <= n < final(buffer)@.len() ==> #[trigger] final(buffer)@[n] == sample_at(*settings, n),
{
    let mut cz = settings.offset.z;
    let mut z: usize = 0;
    while z < depth
        invariant
            supported(settings.dimension, settings.kernel),
            width == extent(*settings, 0),
            height == extent(*settings, 1),
            depth == extent(*settings, 2),
            cw == advanced(settings.offset.w, w),
            0 <= z <= depth,
            cz == advanced(settings.offset.z, z as nat),
            buffer@.len() == flat_index(
                extent(*settings, 0),
                extent(*settings, 1),
                extent(*settings, 2),
                0,
                0,
                z as nat,
                w,
            ),
            forall|n: int| 0 <= n < buffer@.len() ==> #[trigger] buffer@[n] == sample_at(*settings, n),
        decreases depth - z,
    {
        fill_plane(settings, buffer, width, height, cz, cw, Ghost(z as nat), Ghost(w));
        cz = cz.plus(Binary32::lit(ONE));
        z = z + 1;
    }
    assert(flat_index(
        extent(*settings, 0),
        extent(*settings, 1),
        extent(*settings, 2),
        0,
        0,
        depth as nat,
        w,
    ) == flat_index(
        extent(*settings, 0),
        extent(*settings, 1),
        extent(*settings, 2),
        0,
        0,
        0,
        w + 1,
    )) by (nonlinear_arith)
        requires
            depth == extent(*settings, 2),
    ;
}

/// Generates the raw samples of the grid, in row-major order. Settings that
/// ask for what is not on offer are turned down before any sample is taken; a
/// grid with an axis of extent zero gives an empty buffer.
pub fn generate(settings: &Settings) -> (r: Result<Vec<Binary32>, GenerateError>)
    ensures
        match r {
            Ok(buffer) => rejection(*settings) is None && buffer@ == raw_noise(*settings),
            Err(e) => rejection(*settings) == Some(e),
        },
{
    match validate(settings) {
        Err(e) => {
            return Err(e);
        },
        Ok(_) => {},
    }
    let used = axes_of(settings.dimension);
    let width = settings.width;
    let height = if used >= 2 { settings.height } else { 1 };
    let depth = if used >= 3 { settings.depth } else { 1 };
    let steps = if used >= 4 { settings.steps } else { 1 };
    let mut buffer: Vec<Binary32> = Vec::new();
    if width == 0 || height == 0 || depth == 0 || steps == 0 {
        proof {
            lemma_shape(*settings);
            assert(buffer@ =~= raw_noise(*settings));
        }
        return Ok(buffer);
    }
    let mut cw = settings.offset.w;
    let mut w: usize = 0;
    assert(flat_index(
        extent(*settings, 0),
        extent(*settings, 1),
        extent(*settings, 2),
        0,
        0,
        0,
        0,
    ) == 0) by (nonlinear_arith);
    while w < steps
        invariant
            supported(settings.dimension, settings.kernel),
            width == extent(*settings, 0),
            height == extent(*settings, 1),
            depth == extent(*settings, 2),
            steps == extent(*settings, 3),
            0 <= w <= steps,
            cw == advanced(settings.offset.w, w as nat),
            buffer@.len() == flat_index(
                extent(*settings, 0),
                extent(*settings, 1),
                extent(*settings, 2),
                0,
                0,
                0,
                w as nat,
            ),
            forall|n: int| 0 <= n < buffer@.len() ==> #[trigger] buffer@[n] == sample_at(*settings, n),
        decreases steps - w,
    {
        fill_volume(settings, &mut buffer, width, height, depth, cw, Ghost(w as nat));
        cw = cw.plus(Binary32::lit(ONE));
        w = w + 1;
    }
    proof {
        assert(buffer@.len() == sample_count(*settings)) by (nonlinear_arith)
            requires
                buffer@.len() == flat_index(
                    extent(*settings, 0),
                    extent(*settings, 1),
                    extent(*settings, 2),
                    0,
                    0,
                    0,
                    extent(*settings, 3),
                ),
                sample_count(*settings) == extent(*settings, 3) * extent(*settings, 2) * extent(
                    *settings,
                    1,
                ) * extent(*settings, 0),
        ;
        assert(buffer@ =~= raw_noise(*settings));
    }
    Ok(buffer)
}

/// Generates the samples of the grid and rescales them into
/// `[target_min, target_max]`.
pub fn generate_scaled(settings: &Settings, target_min: Binary32, target_max: Binary32) -> (r:
    Result<Vec<Binary32>, GenerateError>)
    ensures
        match r {
            Ok(buffer) => rejection(*settings) is None && buffer@ == scaled_buffer(
                raw_noise(*settings),
                target_min,
                target_max,
            ),
            Err(e) => rejection(*settings) == Some(e),
        },
{
    match generate(settings) {
        Err(e) => Err(e),
        Ok(raw) => {
            let mut buffer = raw;
            scale(&mut buffer, target_min, target_max);
            Ok(buffer)
        },
    }
}

} // verus!
