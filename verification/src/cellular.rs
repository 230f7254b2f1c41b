//! Cellular (Worley) noise in two and three dimensions.
//!
//! Every lattice cell holds one feature point, displaced from the cell's
//! lattice point by a hashed unit vector times the jitter. A sample is taken
//! from the feature point nearest to the sampled position among those of the
//! cells that surround it.
use crate::binary32::{
    above, advanced, below, difference, from_int, is_nan, lit, magnitude, mul_add, product, round,
    rsqrt, sum, to_int, Binary32, MAX, ZERO,
};
use crate::hash::{
    hash_2d, hash_2d_spec, hash_3d, hash_3d_spec, low_byte, low_byte_of, val_coord_2d,
    val_coord_2d_spec, val_coord_3d, val_coord_3d_spec, X_PRIME, Y_PRIME,
};
use crate::tables::{CELL_2D_X, CELL_2D_Y, CELL_3D_X, CELL_3D_Y, CELL_3D_Z};
use vstd::prelude::*;

verus! {

/// How far a feature point is from the sampled position.
#[derive(Clone, Copy, Debug, PartialEq, Eq, Structural)]
pub enum CellDistanceFunction {
    /// The sum of the squared components.
    Euclidean,
    /// The sum of the absolute components.
    Manhattan,
    /// The Manhattan term plus the Euclidean term.
    Natural,
    /// The Manhattan term plus itself. It differs from `Natural` in taking
    /// absolute values where `Natural` takes squares.
    ManhattanTwice,
}

/// What a sample reports of the nearest feature point.
#[derive(Clone, Copy, Debug, PartialEq, Eq, Structural)]
pub enum CellReturnType {
    /// Its distance.
    Distance,
    /// A value attached to its cell.
    CellValue,
}

/// The seed of the kernels that take none.
pub const CELL_SEED: i32 = 1337;

/// Mask of the low ten bits of a hash.
pub const BIT_10_MASK: i32 = 1023;

/// Encoding of 2^-31, which scales a hash into `[-1, 1)`.
pub const HASH_2_FLOAT: i32 = 0x3000_0000;

/// Encoding of 511.5, the middle of the range of ten bits.
pub const HALF_SPAN: i32 = 0x43FF_C000;

/// Encoding of 999999.0, a distance beyond every feature point in reach.
pub const FAR: i32 = 0x4974_23F0;

/// Distance of the offset `(vx, vy)` under the given metric.
pub open spec fn metric_2d(f: CellDistanceFunction, vx: Binary32, vy: Binary32) -> Binary32 {
    let squares = sum(product(vx, vx), product(vy, vy));
    let absolutes = sum(magnitude(vx), magnitude(vy));
    match f {
        CellDistanceFunction::Euclidean => squares,
        CellDistanceFunction::Manhattan => absolutes,
        CellDistanceFunction::Natural => sum(absolutes, squares),
        CellDistanceFunction::ManhattanTwice => sum(absolutes, absolutes),
    }
}

/// Distance of the offset `(vx, vy, vz)` under the given metric.
pub open spec fn metric_3d(
    f: CellDistanceFunction,
    vx: Binary32,
    vy: Binary32,
    vz: Binary32,
) -> Binary32 {
    let squares = sum(product(vz, vz), sum(product(vx, vx), product(vy, vy)));
    let absolutes = sum(magnitude(vz), sum(magnitude(vx), magnitude(vy)));
    match f {
        CellDistanceFunction::Euclidean => squares,
        CellDistanceFunction::Manhattan => absolutes,
        CellDistanceFunction::Natural => sum(absolutes, squares),
        CellDistanceFunction::ManhattanTwice => sum(absolutes, absolutes),
    }
}

fn metric_2d_of(f: CellDistanceFunction, vx: Binary32, vy: Binary32) -> (r: Binary32)
    ensures
        r == metric_2d(f, vx, vy),
{
    match f {
        CellDistanceFunction::Euclidean => vx.times(vx).plus(vy.times(vy)),
        CellDistanceFunction::Manhattan => vx.abs().plus(vy.abs()),
        CellDistanceFunction::Natural => vx.abs().plus(vy.abs()).plus(
            vx.times(vx).plus(vy.times(vy)),
        ),
        CellDistanceFunction::ManhattanTwice => {
            let absolutes = vx.abs().plus(vy.abs());
            absolutes.plus(absolutes)
        },
    }
}

fn metric_3d_of(f: CellDistanceFunction, vx: Binary32, vy: Binary32, vz: Binary32) -> (r: Binary32)
    ensures
        r == metric_3d(f, vx, vy, vz),
{
    match f {
        CellDistanceFunction::Euclidean => vz.times(vz).plus(vx.times(vx).plus(vy.times(vy))),
        CellDistanceFunction::Manhattan => vz.abs().plus(vx.abs().plus(vy.abs())),
        CellDistanceFunction::Natural => vz.abs().plus(vx.abs().plus(vy.abs())).plus(
            vz.times(vz).plus(vx.times(vx).plus(vy.times(vy))),
        ),
        CellDistanceFunction::ManhattanTwice => {
            let absolutes = vz.abs().plus(vx.abs().plus(vy.abs()));
            absolutes.plus(absolutes)
        },
    }
}

/// The nearest feature point found so far: its distance and its cell.
#[derive(Clone, Copy, Debug, PartialEq, Eq, Structural)]
pub struct Nearest {
    pub distance: Binary32,
    pub xi: i32,
    pub yi: i32,
    pub zi: i32,
}

/// The better of the nearest point so far and a new candidate: the
/// candidate where its distance compares below, the earlier point otherwise,
/// so that of two equally distant points the first one stays.
pub open spec fn nearer(best: Nearest, candidate: Nearest) -> Nearest {
    if below(candidate.distance, best.distance) {
        candidate
    } else {
        best
    }
}

/// Before any cell has been looked at: the largest finite distance.
pub open spec fn nowhere() -> Nearest {
    Nearest { distance: lit(MAX), xi: 0, yi: 0, zi: 0 }
}

/// The feature point of the `n`-th cell (0 to 8) of the three by three block
/// around the lattice point `(xr, yr)`: the first axis varies slowest.
pub open spec fn candidate_2d(
    seed: i32,
    x: Binary32,
    y: Binary32,
    xr: i32,
    yr: i32,
    f: CellDistanceFunction,
    jitter: Binary32,
    n: int,
) -> Nearest {
    let xi = xr.wrapping_add((n / 3 - 1) as i32);
    let yi = yr.wrapping_add((n % 3 - 1) as i32);
    let hi = low_byte(hash_2d_spec(seed, xi, yi)) as int;
    let vx = sum(difference(from_int(xi), x), product(lit(CELL_2D_X[hi]), jitter));
    let vy = sum(difference(from_int(yi), y), product(lit(CELL_2D_Y[hi]), jitter));
    Nearest { distance: metric_2d(f, vx, vy), xi, yi, zi: 0 }
}

/// The nearest of the first `n` feature points around `(xr, yr)`.
pub open spec fn nearest_2d(
    seed: i32,
    x: Binary32,
    y: Binary32,
    xr: i32,
    yr: i32,
    f: CellDistanceFunction,
    jitter: Binary32,
    n: nat,
) -> Nearest
    decreases n,
{
    if n == 0 {
        nowhere()
    } else {
        nearer(
            nearest_2d(seed, x, y, xr, yr, f, jitter, (n - 1) as nat),
            candidate_2d(seed, x, y, xr, yr, f, jitter, n - 1),
        )
    }
}

/// The distance of the nearest feature point is never a NaN and never above
/// the largest finite value, and no feature point that was looked at has a
/// distance below it.
pub proof fn lemma_nearest_2d_is_least(
    seed: i32,
    x: Binary32,
    y: Binary32,
    xr: i32,
    yr: i32,
    f: CellDistanceFunction,
    jitter: Binary32,
    n: nat,
)
    ensures
        !is_nan(nearest_2d(seed, x, y, xr, yr, f, jitter, n).distance.bits),
        !above(nearest_2d(seed, x, y, xr, yr, f, jitter, n).distance, lit(MAX)),
        forall|k: int|
            0 <= k < n ==> !below(
                (#[trigger] candidate_2d(seed, x, y, xr, yr, f, jitter, k)).distance,
                nearest_2d(seed, x, y, xr, yr, f, jitter, n).distance,
            ),
    decreases n,
{
    if n > 0 {
        lemma_nearest_2d_is_least(seed, x, y, xr, yr, f, jitter, (n - 1) as nat);
    }
}

/// The nearest feature point is one of those looked at, unless none was
/// nearer than the largest finite distance.
pub proof fn lemma_nearest_2d_is_a_candidate(
    seed: i32,
    x: Binary32,
    y: Binary32,
    xr: i32,
    yr: i32,
    f: CellDistanceFunction,
    jitter: Binary32,
    n: nat,
)
    ensures
        nearest_2d(seed, x, y, xr, yr, f, jitter, n) == nowhere() || exists|k: int|
            0 <= k < n && nearest_2d(seed, x, y, xr, yr, f, jitter, n) == #[trigger] candidate_2d(
                seed,
                x,
                y,
                xr,
                yr,
                f,
                jitter,
                k,
            ),
    decreases n,
{
    if n > 0 {
        lemma_nearest_2d_is_a_candidate(seed, x, y, xr, yr, f, jitter, (n - 1) as nat);
        let prev = nearest_2d(seed, x, y, xr, yr, f, jitter, (n - 1) as nat);
        let last = candidate_2d(seed, x, y, xr, yr, f, jitter, n - 1);
        if nearest_2d(seed, x, y, xr, yr, f, jitter, n) == last {
            assert(0 <= n - 1 < n && last == candidate_2d(seed, x, y, xr, yr, f, jitter, n - 1));
        } else if prev != nowhere() {
            let k = choose|k: int|
                0 <= k < n - 1 && prev == #[trigger] candidate_2d(seed, x, y, xr, yr, f, jitter, k);
            assert(0 <= k < n && prev == candidate_2d(seed, x, y, xr, yr, f, jitter, k));
        }
    }
}

/// Two-dimensional cellular noise at `(x, y)`: the position is rounded to a
/// lattice point, the nine cells around it are searched, and the nearest
/// feature point gives the sample.
pub open spec fn cellular_2d_seeded_spec(
    seed: i32,
    x: Binary32,
    y: Binary32,
    f: CellDistanceFunction,
    ret: CellReturnType,
    jitter: Binary32,
) -> Binary32 {
    let best = nearest_2d(seed, x, y, to_int(round(x)), to_int(round(y)), f, jitter, 9);
    match ret {
        CellReturnType::Distance => best.distance,
        CellReturnType::CellValue => val_coord_2d_spec(seed, best.xi, best.yi),
    }
}

fn candidate_2d_of(
    seed: i32,
    x: Binary32,
    y: Binary32,
    xr: i32,
    yr: i32,
    f: CellDistanceFunction,
    jitter: Binary32,
    n: i32,
) -> (r: Nearest)
    requires
        0 <= n < 9,
    ensures
        r == candidate_2d(seed, x, y, xr, yr, f, jitter, n as int),
{
    let xi = xr.wrapping_add(n / 3 - 1);
    let yi = yr.wrapping_add(n % 3 - 1);
    let hi = low_byte_of(hash_2d(seed, xi, yi)) as usize;
    let cellx = Binary32::lit(CELL_2D_X[hi]);
    let celly = Binary32::lit(CELL_2D_Y[hi]);
    let vx = Binary32::from_int(xi).minus(x).plus(cellx.times(jitter));
    let vy = Binary32::from_int(yi).minus(y).plus(celly.times(jitter));
    Nearest { distance: metric_2d_of(f, vx, vy), xi, yi, zi: 0 }
}

fn nearer_of(best: Nearest, candidate: Nearest) -> (r: Nearest)
    ensures
        r == nearer(best, candidate),
{
    if candidate.distance.lt_mask(best.distance) != 0 {
        candidate
    } else {
        best
    }
}

/// Two-dimensional cellular noise at `(x, y)` with the given seed.
pub fn new_cellular_2d_seeded(
    seed: i32,
    x: Binary32,
    y: Binary32,
    distance_function: CellDistanceFunction,
    return_type: CellReturnType,
    jitter: Binary32,
) -> (r: Binary32)
    ensures
        r == cellular_2d_seeded_spec(seed, x, y, distance_function, return_type, jitter),
{
    let xr = x.round().to_int();
    let yr = y.round().to_int();
    let mut best = Nearest { distance: Binary32::lit(MAX), xi: 0, yi: 0, zi: 0 };
    let mut n: i32 = 0;
    while n < 9
        invariant
            0 <= n <= 9,
            best == nearest_2d(seed, x, y, xr, yr, distance_function, jitter, n as nat),
        decreases 9 - n,
    {
        let candidate = candidate_2d_of(seed, x, y, xr, yr, distance_function, jitter, n);
        best = nearer_of(best, candidate);
        n = n + 1;
    }
    match return_type {
        CellReturnType::Distance => best.distance,
        CellReturnType::CellValue => val_coord_2d(seed, best.xi, best.yi),
    }
}

/// Two-dimensional cellular noise at `(x, y)` with the seed `CELL_SEED`.
pub fn new_cellular_2d(
    x: Binary32,
    y: Binary32,
    distance_function: CellDistanceFunction,
    return_type: CellReturnType,
    jitter: Binary32,
) -> (r: Binary32)
    ensures
        r == cellular_2d_seeded_spec(CELL_SEED, x, y, distance_function, return_type, jitter),
{
    new_cellular_2d_seeded(CELL_SEED, x, y, distance_function, return_type, jitter)
}

/// The feature point of the `n`-th cell (0 to 26) of the three by three by
/// three block around the lattice point `(xr, yr, zr)`: the first axis varies
/// slowest, the third fastest.
pub open spec fn candidate_3d(
    seed: i32,
    x: Binary32,
    y: Binary32,
    z: Binary32,
    xr: i32,
    yr: i32,
    zr: i32,
    f: CellDistanceFunction,
    jitter: Binary32,
    n: int,
) -> Nearest {
    let xi = xr.wrapping_add((n / 9 - 1) as i32);
    let yi = yr.wrapping_add((n / 3 % 3 - 1) as i32);
    let zi = zr.wrapping_add((n % 3 - 1) as i32);
    let hi = low_byte(hash_3d_spec(seed, xi, yi, zi)) as int;
    let vx = sum(difference(from_int(xi), x), product(lit(CELL_3D_X[hi]), jitter));
    let vy = sum(difference(from_int(yi), y), product(lit(CELL_3D_Y[hi]), jitter));
    let vz = sum(difference(from_int(zi), z), product(lit(CELL_3D_Z[hi]), jitter));
    Nearest { distance: metric_3d(f, vx, vy, vz), xi, yi, zi }
}

/// The nearest of the first `n` feature points around `(xr, yr, zr)`.
pub open spec fn nearest_3d(
    seed: i32,
    x: Binary32,
    y: Binary32,
    z: Binary32,
    xr: i32,
    yr: i32,
    zr: i32,
    f: CellDistanceFunction,
    jitter: Binary32,
    n: nat,
) -> Nearest
    decreases n,
{
    if n == 0 {
        nowhere()
    } else {
        nearer(
            nearest_3d(seed, x, y, z, xr, yr, zr, f, jitter, (n - 1) as nat),
            candidate_3d(seed, x, y, z, xr, yr, zr, f, jitter, n - 1),
        )
    }
}

/// The distance of the nearest feature point is never a NaN and never above
/// the largest finite value, and no feature point that was looked at has a
/// distance below it.
pub proof fn lemma_nearest_3d_is_least(
    seed: i32,
    x: Binary32,
    y: Binary32,
    z: Binary32,
    xr: i32,
    yr: i32,
    zr: i32,
    f: CellDistanceFunction,
    jitter: Binary32,
    n: nat,
)
    ensures
        !is_nan(nearest_3d(seed, x, y, z, xr, yr, zr, f, jitter, n).distance.bits),
        !above(nearest_3d(seed, x, y, z, xr, yr, zr, f, jitter, n).distance, lit(MAX)),
        forall|k: int|
            0 <= k < n ==> !below(
                (#[trigger] candidate_3d(seed, x, y, z, xr, yr, zr, f, jitter, k)).distance,
                nearest_3d(seed, x, y, z, xr, yr, zr, f, jitter, n).distance,
            ),
    decreases n,
{
    if n > 0 {
        lemma_nearest_3d_is_least(seed, x, y, z, xr, yr, zr, f, jitter, (n - 1) as nat);
    }
}

/// The nearest feature point is one of those looked at, unless none was
/// nearer than the largest finite distance.
pub proof fn lemma_nearest_3d_is_a_candidate(
    seed: i32,
    x: Binary32,
    y: Binary32,
    z: Binary32,
    xr: i32,
    yr: i32,
    zr: i32,
    f: CellDistanceFunction,
    jitter: Binary32,
    n: nat,
)
    ensures
        nearest_3d(seed, x, y, z, xr, yr, zr, f, jitter, n) == nowhere() || exists|k: int|
            0 <= k < n && nearest_3d(seed, x, y, z, xr, yr, zr, f, jitter, n)
                == #[trigger] candidate_3d(seed, x, y, z, xr, yr, zr, f, jitter, k),
    decreases n,
{
    if n > 0 {
        lemma_nearest_3d_is_a_candidate(seed, x, y, z, xr, yr, zr, f, jitter, (n - 1) as nat);
        let prev = nearest_3d(seed, x, y, z, xr, yr, zr, f, jitter, (n - 1) as nat);
        let last = candidate_3d(seed, x, y, z, xr, yr, zr, f, jitter, n - 1);
        if nearest_3d(seed, x, y, z, xr, yr, zr, f, jitter, n) == last {
            assert(0 <= n - 1 < n && last == candidate_3d(
                seed,
                x,
                y,
                z,
                xr,
                yr,
                zr,
                f,
                jitter,
                n - 1,
            ));
        } else if prev != nowhere() {
            let k = choose|k: int|
                0 <= k < n - 1 && prev == #[trigger] candidate_3d(
                    seed,
                    x,
                    y,
                    z,
                    xr,
                    yr,
                    zr,
                    f,
                    jitter,
                    k,
                );
            assert(0 <= k < n && prev == candidate_3d(seed, x, y, z, xr, yr, zr, f, jitter, k));
        }
    }
}

/// Three-dimensional cellular noise at `(x, y, z)`: the position is rounded
/// to a lattice point, the 27 cells around it are searched, and the nearest
/// feature point gives the sample.
pub open spec fn cellular_3d_seeded_spec(
    seed: i32,
    x: Binary32,
    y: Binary32,
    z: Binary32,
    f: CellDistanceFunction,
    ret: CellReturnType,
    jitter: Binary32,
) -> Binary32 {
    let best = nearest_3d(
        seed,
        x,
        y,
        z,
        to_int(round(x)),
        to_int(round(y)),
        to_int(round(z)),
        f,
        jitter,
        27,
    );
    match ret {
        CellReturnType::Distance => best.distance,
        CellReturnType::CellValue => val_coord_3d_spec(seed, best.xi, best.yi, best.zi),
    }
}

fn candidate_3d_of(
    seed: i32,
    x: Binary32,
    y: Binary32,
    z: Binary32,
    xr: i32,
    yr: i32,
    zr: i32,
    f: CellDistanceFunction,
    jitter: Binary32,
    n: i32,
) -> (r: Nearest)
    requires
        0 <= n < 27,
    ensures
        r == candidate_3d(seed, x, y, z, xr, yr, zr, f, jitter, n as int),
{
    let xi = xr.wrapping_add(n / 9 - 1);
    let yi = yr.wrapping_add(n / 3 % 3 - 1);
    let zi = zr.wrapping_add(n % 3 - 1);
    let hi = low_byte_of(hash_3d(seed, xi, yi, zi)) as usize;
    let cellx = Binary32::lit(CELL_3D_X[hi]);
    let celly = Binary32::lit(CELL_3D_Y[hi]);
    let cellz = Binary32::lit(CELL_3D_Z[hi]);
    let vx = Binary32::from_int(xi).minus(x).plus(cellx.times(jitter));
    let vy = Binary32::from_int(yi).minus(y).plus(celly.times(jitter));
    let vz = Binary32::from_int(zi).minus(z).plus(cellz.times(jitter));
    Nearest { distance: metric_3d_of(f, vx, vy, vz), xi, yi, zi }
}

/// Three-dimensional cellular noise at `(x, y, z)` with the given seed.
pub fn cellular_3d_seeded(
    seed: i32,
    x: Binary32,
    y: Binary32,
    z: Binary32,
    distance_function: CellDistanceFunction,
    return_type: CellReturnType,
    jitter: Binary32,
) -> (r: Binary32)
    ensures
        r == cellular_3d_seeded_spec(seed, x, y, z, distance_function, return_type, jitter),
{
    let xr = x.round().to_int();
    let yr = y.round().to_int();
    let zr = z.round().to_int();
    let mut best = Nearest { distance: Binary32::lit(MAX), xi: 0, yi: 0, zi: 0 };
    let mut n: i32 = 0;
    while n < 27
        invariant
            0 <= n <= 27,
            best == nearest_3d(seed, x, y, z, xr, yr, zr, distance_function, jitter, n as nat),
        decreases 27 - n,
    {
        let candidate = candidate_3d_of(seed, x, y, z, xr, yr, zr, distance_function, jitter, n);
        best = nearer_of(best, candidate);
        n = n + 1;
    }
    match return_type {
        CellReturnType::Distance => best.distance,
        CellReturnType::CellValue => val_coord_3d(seed, best.xi, best.yi, best.zi),
    }
}

/// Three-dimensional cellular noise at `(x, y, z)` with the seed `CELL_SEED`.
pub fn cellular_3d(
    x: Binary32,
    y: Binary32,
    z: Binary32,
    distance_function: CellDistanceFunction,
    return_type: CellReturnType,
    jitter: Binary32,
) -> (r: Binary32)
    ensures
        r == cellular_3d_seeded_spec(CELL_SEED, x, y, z, distance_function, return_type, jitter),
{
    cellular_3d_seeded(CELL_SEED, x, y, z, distance_function, return_type, jitter)
}

/// The nearest feature point found so far by the table-free kernel: its
/// distance and the value of its cell.
#[derive(Clone, Copy, Debug, PartialEq, Eq, Structural)]
pub struct Found {
    pub distance: Binary32,
    pub value: Binary32,
}

/// The better of the point found so far and a new candidate; of two equally
/// distant points the first one stays.
pub open spec fn closer(best: Found, candidate: Found) -> Found {
    if below(candidate.distance, best.distance) {
        candidate
    } else {
        best
    }
}

/// The feature point of the `n`-th cell (0 to 8) of the three by three block
/// whose lowest corner is the lattice point `(xc, yc)`. The displacement of
/// the feature point is read off the cell's hash: ten bits for each
/// component, centred and brought to the length of the jitter.
pub open spec fn hashed_candidate_2d(
    seed: i32,
    x: Binary32,
    y: Binary32,
    xc: i32,
    yc: i32,
    f: CellDistanceFunction,
    jitter: Binary32,
    n: int,
) -> Found {
    let cx = xc.wrapping_add((n / 3) as i32);
    let cy = yc.wrapping_add((n % 3) as i32);
    let xcf = advanced(difference(from_int(xc), x), (n / 3) as nat);
    let ycf = advanced(difference(from_int(yc), y), (n % 3) as nat);
    let hash = hash_2d_spec(seed, cx.wrapping_mul(X_PRIME), cy.wrapping_mul(Y_PRIME));
    let xd = difference(from_int(hash & BIT_10_MASK), lit(HALF_SPAN));
    let yd = difference(from_int((hash >> 10) & BIT_10_MASK), lit(HALF_SPAN));
    let inv = product(jitter, rsqrt(mul_add(xd, xd, product(yd, yd))));
    let vx = mul_add(xd, inv, xcf);
    let vy = mul_add(yd, inv, ycf);
    Found {
        distance: metric_2d(f, vx, vy),
        value: product(lit(HASH_2_FLOAT), from_int(hash)),
    }
}

/// The nearest of the first `n` feature points of the block at `(xc, yc)`.
pub open spec fn found_2d(
    seed: i32,
    x: Binary32,
    y: Binary32,
    xc: i32,
    yc: i32,
    f: CellDistanceFunction,
    jitter: Binary32,
    n: nat,
) -> Found
    decreases n,
{
    if n == 0 {
        Found { distance: lit(FAR), value: lit(ZERO) }
    } else {
        closer(
            found_2d(seed, x, y, xc, yc, f, jitter, (n - 1) as nat),
            hashed_candidate_2d(seed, x, y, xc, yc, f, jitter, n - 1),
        )
    }
}

/// The distance of the nearest feature point is never a NaN and never above
/// `FAR`, and no feature point that was looked at has a distance below it.
pub proof fn lemma_found_2d_is_least(
    seed: i32,
    x: Binary32,
    y: Binary32,
    xc: i32,
    yc: i32,
    f: CellDistanceFunction,
    jitter: Binary32,
    n: nat,
)
    ensures
        !is_nan(found_2d(seed, x, y, xc, yc, f, jitter, n).distance.bits),
        !above(found_2d(seed, x, y, xc, yc, f, jitter, n).distance, lit(FAR)),
        forall|k: int|
            0 <= k < n ==> !below(
                (#[trigger] hashed_candidate_2d(seed, x, y, xc, yc, f, jitter, k)).distance,
                found_2d(seed, x, y, xc, yc, f, jitter, n).distance,
            ),
    decreases n,
{
    if n > 0 {
        lemma_found_2d_is_least(seed, x, y, xc, yc, f, jitter, (n - 1) as nat);
    }
}

/// Two-dimensional cellular noise without offset tables: the block of nine
/// cells starts one below the lattice point nearest to the position.
pub open spec fn cellular_2d_spec(
    x: Binary32,
    y: Binary32,
    f: CellDistanceFunction,
    ret: CellReturnType,
    jitter: Binary32,
) -> Binary32 {
    let best = found_2d(
        CELL_SEED,
        x,
        y,
        to_int(x).wrapping_sub(1),
        to_int(y).wrapping_sub(1),
        f,
        jitter,
        9,
    );
    match ret {
        CellReturnType::Distance => best.distance,
        CellReturnType::CellValue => best.value,
    }
}

fn hashed_candidate_2d_of(
    seed: i32,
    x: Binary32,
    y: Binary32,
    xc: i32,
    yc: i32,
    f: CellDistanceFunction,
    jitter: Binary32,
    n: i32,
) -> (r: Found)
    requires
        0 <= n < 9,
    ensures
        r == hashed_candidate_2d(seed, x, y, xc, yc, f, jitter, n as int),
{
    let cx = xc.wrapping_add(n / 3);
    let cy = yc.wrapping_add(n % 3);
    let xcf = Binary32::from_int(xc).minus(x).advance_by(n / 3);
    let ycf = Binary32::from_int(yc).minus(y).advance_by(n % 3);
    let hash = hash_2d(seed, cx.wrapping_mul(X_PRIME), cy.wrapping_mul(Y_PRIME));
    let half_span = Binary32::lit(HALF_SPAN);
    let xd = Binary32::from_int(hash & BIT_10_MASK).minus(half_span);
    let yd = Binary32::from_int((hash >> 10) & BIT_10_MASK).minus(half_span);
    let inv = jitter.times(xd.mul_add(xd, yd.times(yd)).rsqrt());
    let vx = xd.mul_add(inv, xcf);
    let vy = yd.mul_add(inv, ycf);
    Found {
        distance: metric_2d_of(f, vx, vy),
        value: Binary32::lit(HASH_2_FLOAT).times(Binary32::from_int(hash)),
    }
}

/// Two-dimensional cellular noise at `(x, y)`, the feature points placed by
/// the bits of their cells' hashes.
pub fn cellular_2d(
    x: Binary32,
    y: Binary32,
    distance_function: CellDistanceFunction,
    return_type: CellReturnType,
    jitter: Binary32,
) -> (r: Binary32)
    ensures
        r == cellular_2d_spec(x, y, distance_function, return_type, jitter),
{
    let xc = x.to_int().wrapping_sub(1);
    let yc = y.to_int().wrapping_sub(1);
    let mut best = Found { distance: Binary32::lit(FAR), value: Binary32::lit(ZERO) };
    let mut n: i32 = 0;
    while n < 9
        invariant
            0 <= n <= 9,
            best == found_2d(CELL_SEED, x, y, xc, yc, distance_function, jitter, n as nat),
        decreases 9 - n,
    {
        let candidate = hashed_candidate_2d_of(
            CELL_SEED,
            x,
            y,
            xc,
            yc,
            distance_function,
            jitter,
            n,
        );
        let nearer_now = candidate.distance.lt_mask(best.distance);
        let distance = candidate.distance.min(best.distance);
        let value = Binary32::blend(best.value, candidate.value, nearer_now);
        best = Found { distance, value };
        n = n + 1;
    }
    match return_type {
        CellReturnType::Distance => best.distance,
        CellReturnType::CellValue => best.value,
    }
}

} // verus!
