//! Simplex gradient noise in one to four dimensions.
//!
//! A sample is the sum, over the corners of the simplex cell that holds the
//! point, of a radially decaying weight times the dot product of a hashed
//! gradient with the offset from that corner.
use crate::binary32::{
    above, at_least, below, difference, fast_floor, floor, from_int, is_nan, lit, mask_of,
    neg_mul_add, negated, product, sum, to_int, Binary32, HALF, MINUS_ONE, ONE, TWO, ZERO,
};
use crate::hash::{low_byte, low_byte_of};
use crate::tables::PERM;
use vstd::prelude::*;

verus! {

/// Encoding of the two-dimensional skew factor, (sqrt(3) - 1) / 2.
pub const F2: i32 = 0x3EBB_67AF;

/// Encoding of the two-dimensional unskew factor, (3 - sqrt(3)) / 6.
pub const G2: i32 = 0x3E58_658C;

/// Encoding of twice the two-dimensional unskew factor.
pub const G22: i32 = 0x3ED8_658C;

/// Entry of the permutation table, as a lattice hash.
pub open spec fn perm_at(i: int) -> i32 {
    PERM[i] as i32
}

/// The weight `t` raised to the fourth power.
pub open spec fn quartic(t: Binary32) -> Binary32 {
    let s = product(t, t);
    product(s, s)
}

/// A corner's contribution `n`, or zero where its weight `t` is negative.
pub open spec fn clamped(t: Binary32, n: Binary32) -> Binary32 {
    if below(t, lit(ZERO)) {
        lit(ZERO)
    } else {
        n
    }
}

/// `v` where `bit` is clear, `0 - v` where it is set.
pub open spec fn signed_by(v: Binary32, bit: i32) -> Binary32 {
    if bit == 0 {
        v
    } else {
        negated(v)
    }
}

fn perm(i: i32) -> (r: i32)
    requires
        0 <= i < 512,
    ensures
        r == perm_at(i as int),
        0 <= r <= 255,
{
    PERM[i as usize] as i32
}

fn quartic_of(t: Binary32) -> (r: Binary32)
    ensures
        r == quartic(t),
{
    let s = t.times(t);
    s.times(s)
}

fn clamp(t: Binary32, n: Binary32) -> (r: Binary32)
    ensures
        r == clamped(t, n),
{
    if t.lt_mask(Binary32::lit(ZERO)) != 0 {
        Binary32::lit(ZERO)
    } else {
        n
    }
}

fn sign_by(v: Binary32, bit: i32) -> (r: Binary32)
    ensures
        r == signed_by(v, bit),
{
    if bit == 0 {
        v
    } else {
        v.negated()
    }
}

/// One-dimensional gradient: a slope in `-7..=7` chosen by the low four bits
/// of the seeded hash, times the offset.
pub open spec fn grad1_spec(seed: i32, hash: i32, x: Binary32) -> Binary32 {
    let h = (seed ^ hash) & 15;
    product(signed_by(from_int(h & 7), h & 8), x)
}

/// Gradient contribution of a one-dimensional lattice point.
pub fn grad1(seed: i32, hash: i32, x: Binary32) -> (r: Binary32)
    ensures
        r == grad1_spec(seed, hash, x),
{
    let h = (seed ^ hash) & 15;
    let v = Binary32::from_int(h & 7);
    sign_by(v, h & 8).times(x)
}

/// Weighted gradient of one corner of a one-dimensional cell: the weight is
/// `1 - x*x`, clamped at zero and raised to the fourth power.
pub open spec fn term_1d(seed: i32, hash: i32, x: Binary32) -> Binary32 {
    let t = difference(lit(ONE), product(x, x));
    clamped(t, product(quartic(t), grad1_spec(seed, hash, x)))
}

/// One-dimensional simplex noise at `x`: the contributions of the lattice
/// point below `x` and of the one above it.
pub open spec fn simplex_1d_spec(x: Binary32, seed: i32) -> Binary32 {
    let ips = fast_floor(x);
    let i0 = to_int(ips);
    let x0 = difference(x, ips);
    let x1 = difference(x0, lit(ONE));
    let gi0 = perm_at(low_byte(i0) as int);
    let gi1 = perm_at(low_byte(i0.wrapping_add(1)) as int);
    sum(term_1d(seed, gi0, x0), term_1d(seed, gi1, x1))
}

fn term_1d_of(seed: i32, hash: i32, x: Binary32) -> (r: Binary32)
    ensures
        r == term_1d(seed, hash, x),
{
    let t = Binary32::lit(ONE).minus(x.times(x));
    let n = quartic_of(t).times(grad1(seed, hash, x));
    clamp(t, n)
}

/// One-dimensional simplex noise at `x`.
pub fn simplex_1d(x: Binary32, seed: i32) -> (r: Binary32)
    ensures
        r == simplex_1d_spec(x, seed),
{
    let ips = x.fast_floor();
    let i0 = ips.to_int();
    let i1 = low_byte_of(i0.wrapping_add(1));
    let x0 = x.minus(ips);
    let x1 = x0.minus(Binary32::lit(ONE));
    let gi0 = perm(low_byte_of(i0));
    let gi1 = perm(i1);
    let n0 = term_1d_of(seed, gi0, x0);
    let n1 = term_1d_of(seed, gi1, x1);
    n0.plus(n1)
}

/// Two-dimensional gradient: one of eight directions chosen by the low three
/// bits of the seeded hash, dotted with the offset. The first component
/// weighs once, the second twice.
pub open spec fn grad2_spec(seed: i32, hash: i32, x: Binary32, y: Binary32) -> Binary32 {
    let h = (hash ^ seed) & 7;
    let u = if h < 4 { x } else { y };
    let v = product(lit(TWO), if h < 4 { y } else { x });
    sum(signed_by(u, h & 1), signed_by(v, h & 2))
}

/// Gradient contribution of a two-dimensional lattice point.
pub fn grad2(seed: i32, hash: i32, x: Binary32, y: Binary32) -> (r: Binary32)
    ensures
        r == grad2_spec(seed, hash, x, y),
{
    let h = (hash ^ seed) & 7;
    let mask: i32 = if 4 > h { -1 } else { 0 };
    let u = Binary32::blend(y, x, mask);
    let v = Binary32::lit(TWO).times(Binary32::blend(x, y, mask));
    sign_by(u, h & 1).plus(sign_by(v, h & 2))
}

/// Weighted gradient of one corner of a two-dimensional cell: the weight is
/// `0.5 - x*x - y*y`, clamped at zero and raised to the fourth power.
pub open spec fn term_2d(seed: i32, hash: i32, x: Binary32, y: Binary32) -> Binary32 {
    let t = neg_mul_add(y, y, neg_mul_add(x, x, lit(HALF)));
    clamped(t, product(quartic(t), grad2_spec(seed, hash, x, y)))
}

/// Hash of the corner of a two-dimensional cell that lies `di`, `dj` lattice
/// steps from the cell's base corner.
pub open spec fn corner_hash_2d(ii: i32, jj: i32, di: int, dj: int) -> i32 {
    perm_at(ii + di + perm_at(jj + dj))
}

/// Of two offsets of which neither is a NaN, exactly one of the two tests
/// that place the second corner of a two-dimensional cell holds: the corner
/// lies one step along exactly one axis.
pub proof fn lemma_walk_2d(x0: Binary32, y0: Binary32)
    requires
        !is_nan(x0.bits),
        !is_nan(y0.bits),
    ensures
        at_least(x0, y0) != above(y0, x0),
        -mask_of(at_least(x0, y0)) + -mask_of(above(y0, x0)) == 1,
{
}

/// Two-dimensional simplex noise at `(x, y)`. The point is skewed onto the
/// lattice and floored to the base corner of its cell; the second corner lies
/// one step along the axis of the larger component of the offset, the third
/// one step along both axes.
pub open spec fn simplex_2d_spec(x: Binary32, y: Binary32, seed: i32) -> Binary32 {
    let s = product(lit(F2), sum(x, y));
    let ips = floor(sum(x, s));
    let jps = floor(sum(y, s));
    let i = to_int(ips);
    let j = to_int(jps);
    let t = product(from_int(i.wrapping_add(j)), lit(G2));
    let x0 = difference(x, difference(ips, t));
    let y0 = difference(y, difference(jps, t));
    let i1 = mask_of(at_least(x0, y0));
    let j1 = mask_of(above(y0, x0));
    let x1 = sum(sum(x0, from_int(i1)), lit(G2));
    let y1 = sum(sum(y0, from_int(j1)), lit(G2));
    let x2 = sum(sum(x0, lit(MINUS_ONE)), lit(G22));
    let y2 = sum(sum(y0, lit(MINUS_ONE)), lit(G22));
    let ii = low_byte(i);
    let jj = low_byte(j);
    sum(
        term_2d(seed, corner_hash_2d(ii, jj, 0, 0), x0, y0),
        sum(
            term_2d(seed, corner_hash_2d(ii, jj, -i1, -j1), x1, y1),
            term_2d(seed, corner_hash_2d(ii, jj, 1, 1), x2, y2),
        ),
    )
}

fn term_2d_of(seed: i32, hash: i32, x: Binary32, y: Binary32) -> (r: Binary32)
    ensures
        r == term_2d(seed, hash, x, y),
{
    let t = y.neg_mul_add(y, x.neg_mul_add(x, Binary32::lit(HALF)));
    let n = quartic_of(t).times(grad2(seed, hash, x, y));
    clamp(t, n)
}

fn corner_hash_2d_of(ii: i32, jj: i32, di: i32, dj: i32) -> (r: i32)
    requires
        0 <= ii <= 255,
        0 <= jj <= 255,
        0 <= di <= 1,
        0 <= dj <= 1,
    ensures
        r == corner_hash_2d(ii, jj, di as int, dj as int),
{
    perm(ii + di + perm(jj + dj))
}

/// Two-dimensional simplex noise at `(x, y)`.
pub fn simplex_2d(x: Binary32, y: Binary32, seed: i32) -> (r: Binary32)
    ensures
        r == simplex_2d_spec(x, y, seed),
{
    let s = Binary32::lit(F2).times(x.plus(y));
    let ips = x.plus(s).floor();
    let jps = y.plus(s).floor();
    let i = ips.to_int();
    let j = jps.to_int();
    let t = Binary32::from_int(i.wrapping_add(j)).times(Binary32::lit(G2));
    let x0 = x.minus(ips.minus(t));
    let y0 = y.minus(jps.minus(t));
    let i1 = x0.ge_mask(y0);
    let j1 = y0.gt_mask(x0);
    let x1 = x0.plus(Binary32::from_int(i1)).plus(Binary32::lit(G2));
    let y1 = y0.plus(Binary32::from_int(j1)).plus(Binary32::lit(G2));
    let x2 = x0.plus(Binary32::lit(MINUS_ONE)).plus(Binary32::lit(G22));
    let y2 = y0.plus(Binary32::lit(MINUS_ONE)).plus(Binary32::lit(G22));
    let ii = low_byte_of(i);
    let jj = low_byte_of(j);
    let gi0 = corner_hash_2d_of(ii, jj, 0, 0);
    let gi1 = corner_hash_2d_of(ii, jj, -i1, -j1);
    let gi2 = corner_hash_2d_of(ii, jj, 1, 1);
    let n0 = term_2d_of(seed, gi0, x0, y0);
    let n1 = term_2d_of(seed, gi1, x1, y1);
    let n2 = term_2d_of(seed, gi2, x2, y2);
    n0.plus(n1.plus(n2))
}

/// Encoding of the three-dimensional skew factor, 1/3.
pub const F3: i32 = 0x3EAA_AAAB;

/// Encoding of the three-dimensional unskew factor, 1/6.
pub const G3: i32 = 0x3E2A_AAAB;

/// Encoding of -0.5 (`0xBF00_0000`), three times the unskew factor less one.
pub const G33: i32 = -1090519040;

/// Encoding of 0.6, the squared falloff radius in three dimensions.
pub const RADIUS_3D: i32 = 0x3F19_999A;

/// Multiplier of the first lattice axis.
pub const X_PRIME: i32 = 1619;

/// Multiplier of the second lattice axis.
pub const Y_PRIME: i32 = 31337;

/// Multiplier of the third lattice axis.
pub const Z_PRIME: i32 = 6791;

/// The cubing step of the gradient hash: `h * h * 60493 * h`, wrapping.
pub open spec fn cube(h: i32) -> i32 {
    h.wrapping_mul(h).wrapping_mul(60493).wrapping_mul(h)
}

/// The value whose encoding is that of `v` with the bits of `m` flipped.
pub open spec fn flipped(v: Binary32, m: i32) -> Binary32 {
    lit(v.bits ^ m)
}

/// 1.0 where `b` holds, zero where it does not.
pub open spec fn unit(b: bool) -> Binary32 {
    if b {
        lit(ONE)
    } else {
        lit(ZERO)
    }
}

/// `step` where `b` holds, zero where it does not.
pub open spec fn stride(b: bool, step: i32) -> i32 {
    if b {
        step
    } else {
        0
    }
}

/// A corner's contribution `n`, or zero unless its weight `t` is at least zero.
pub open spec fn kept(t: Binary32, n: Binary32) -> Binary32 {
    if at_least(t, lit(ZERO)) {
        n
    } else {
        lit(ZERO)
    }
}

/// Hash of a three-dimensional lattice point whose coordinates have been
/// multiplied by the axis primes.
pub open spec fn grad3d_hash(seed: i32, i: i32, j: i32, k: i32) -> i32 {
    let h = cube(k ^ (j ^ (i ^ seed)));
    (h >> 13) ^ h
}

/// Three-dimensional gradient: two of the offset's components, chosen by the
/// hash, each with a sign bit taken from the hash, added.
pub open spec fn grad3d_spec(
    seed: i32,
    i: i32,
    j: i32,
    k: i32,
    x: Binary32,
    y: Binary32,
    z: Binary32,
) -> Binary32 {
    let hash = grad3d_hash(seed, i, j, k);
    let pick = hash & 13;
    let u = if pick < 8 { x } else { y };
    let v = if pick < 2 { y } else if pick == 12 { x } else { z };
    sum(flipped(u, hash << 31), flipped(v, (hash & 2) << 30))
}

/// Gradient contribution of a three-dimensional lattice point.
pub fn grad3d(seed: i32, i: i32, j: i32, k: i32, x: Binary32, y: Binary32, z: Binary32) -> (r:
    Binary32)
    ensures
        r == grad3d_spec(seed, i, j, k, x, y, z),
{
    let mut hash = i ^ seed;
    hash = j ^ hash;
    hash = k ^ hash;
    hash = hash.wrapping_mul(hash).wrapping_mul(60493).wrapping_mul(hash);
    hash = (hash >> 13) ^ hash;
    let pick = hash & 13;
    let u = if pick < 8 { x } else { y };
    let v = if pick < 2 { y } else if pick == 12 { x } else { z };
    let h1 = hash << 31;
    let h2 = (hash & 2) << 30;
    Binary32::lit(u.bits ^ h1).plus(Binary32::lit(v.bits ^ h2))
}

/// Weighted gradient of one corner of a three-dimensional cell: the weight
/// is `0.6 - x*x - y*y - z*z`, raised to the fourth power; the corner counts
/// only where the weight is at least zero.
pub open spec fn term_3d(
    seed: i32,
    i: i32,
    j: i32,
    k: i32,
    x: Binary32,
    y: Binary32,
    z: Binary32,
) -> Binary32 {
    let t = difference(
        difference(difference(lit(RADIUS_3D), product(x, x)), product(y, y)),
        product(z, z),
    );
    kept(t, product(quartic(t), grad3d_spec(seed, i, j, k, x, y, z)))
}

/// One where `b` holds, zero where it does not.
pub open spec fn count(b: bool) -> int {
    if b {
        1
    } else {
        0
    }
}

/// Which axes of a three-dimensional cell have been stepped along.
pub struct Steps3 {
    pub i: bool,
    pub j: bool,
    pub k: bool,
}

/// The axes stepped along at the second corner of the cell: the axis of the
/// largest component. `xy`, `yz` and `xz` say whether the first of the two
/// components named is at least the second.
pub open spec fn first_steps_3d(xy: bool, yz: bool, xz: bool) -> Steps3 {
    Steps3 { i: xy && xz, j: !xy && yz, k: !xz && !yz }
}

/// The axes stepped along at the third corner of the cell: all but the axis
/// of the smallest component.
pub open spec fn second_steps_3d(xy: bool, yz: bool, xz: bool) -> Steps3 {
    Steps3 { i: xy || xz, j: !xy || yz, k: !(xz && yz) }
}

/// Where the three comparisons agree with some order of the components, the
/// walk through the cell steps along one axis to reach the second corner and
/// along one more to reach the third.
pub proof fn lemma_walk_3d(xy: bool, yz: bool, xz: bool)
    requires
        xy && yz ==> xz,
        !xy && !yz ==> !xz,
    ensures
        ({
            let first = first_steps_3d(xy, yz, xz);
            let second = second_steps_3d(xy, yz, xz);
            &&& count(first.i) + count(first.j) + count(first.k) == 1
            &&& count(second.i) + count(second.j) + count(second.k) == 2
            &&& first.i ==> second.i
            &&& first.j ==> second.j
            &&& first.k ==> second.k
        }),
{
}

/// Of three offsets of which none is a NaN, the comparisons agree with the
/// numeric order, so that the walk through the cell steps along one axis to
/// reach the second corner and along one more to reach the third.
pub proof fn lemma_walk_3d_of_values(x0: Binary32, y0: Binary32, z0: Binary32)
    requires
        !is_nan(x0.bits),
        !is_nan(y0.bits),
        !is_nan(z0.bits),
    ensures
        ({
            let first = first_steps_3d(at_least(x0, y0), at_least(y0, z0), at_least(x0, z0));
            let second = second_steps_3d(at_least(x0, y0), at_least(y0, z0), at_least(x0, z0));
            &&& count(first.i) + count(first.j) + count(first.k) == 1
            &&& count(second.i) + count(second.j) + count(second.k) == 2
            &&& first.i ==> second.i
            &&& first.j ==> second.j
            &&& first.k ==> second.k
        }),
{
    lemma_walk_3d(at_least(x0, y0), at_least(y0, z0), at_least(x0, z0));
}

/// Three-dimensional simplex noise at `(x, y, z)`. The point is skewed onto
/// the lattice and floored to the base corner of its cell; the walk to the
/// opposite corner steps along the axes in falling order of the components of
/// the offset, and each of the four corners on the way contributes.
pub open spec fn simplex_3d_spec(x: Binary32, y: Binary32, z: Binary32, seed: i32) -> Binary32 {
    let f = product(lit(F3), sum(sum(x, y), z));
    let xf = fast_floor(sum(x, f));
    let yf = fast_floor(sum(y, f));
    let zf = fast_floor(sum(z, f));
    let i = to_int(xf).wrapping_mul(X_PRIME);
    let j = to_int(yf).wrapping_mul(Y_PRIME);
    let k = to_int(zf).wrapping_mul(Z_PRIME);
    let g = product(lit(G3), sum(sum(xf, yf), zf));
    let x0 = difference(x, difference(xf, g));
    let y0 = difference(y, difference(yf, g));
    let z0 = difference(z, difference(zf, g));
    let xy = at_least(x0, y0);
    let yz = at_least(y0, z0);
    let xz = at_least(x0, z0);
    let first = first_steps_3d(xy, yz, xz);
    let second = second_steps_3d(xy, yz, xz);
    let v0 = term_3d(seed, i, j, k, x0, y0, z0);
    let v1 = term_3d(
        seed,
        i.wrapping_add(stride(first.i, X_PRIME)),
        j.wrapping_add(stride(first.j, Y_PRIME)),
        k.wrapping_add(stride(first.k, Z_PRIME)),
        sum(difference(x0, unit(first.i)), lit(G3)),
        sum(difference(y0, unit(first.j)), lit(G3)),
        sum(difference(z0, unit(first.k)), lit(G3)),
    );
    let v2 = term_3d(
        seed,
        i.wrapping_add(stride(second.i, X_PRIME)),
        j.wrapping_add(stride(second.j, Y_PRIME)),
        k.wrapping_add(stride(second.k, Z_PRIME)),
        sum(difference(x0, unit(second.i)), lit(F3)),
        sum(difference(y0, unit(second.j)), lit(F3)),
        sum(difference(z0, unit(second.k)), lit(F3)),
    );
    let v3 = term_3d(
        seed,
        i.wrapping_add(X_PRIME),
        j.wrapping_add(Y_PRIME),
        k.wrapping_add(Z_PRIME),
        sum(x0, lit(G33)),
        sum(y0, lit(G33)),
        sum(z0, lit(G33)),
    );
    sum(sum(sum(v3, v2), v1), v0)
}

fn unit_of(b: bool) -> (r: Binary32)
    ensures
        r == unit(b),
{
    if b {
        Binary32::lit(ONE)
    } else {
        Binary32::lit(ZERO)
    }
}

fn stride_of(b: bool, step: i32) -> (r: i32)
    ensures
        r == stride(b, step),
{
    if b {
        step
    } else {
        0
    }
}

fn term_3d_of(seed: i32, i: i32, j: i32, k: i32, x: Binary32, y: Binary32, z: Binary32) -> (r:
    Binary32)
    ensures
        r == term_3d(seed, i, j, k, x, y, z),
{
    let t = Binary32::lit(RADIUS_3D).minus(x.times(x)).minus(y.times(y)).minus(z.times(z));
    let keep = t.ge_mask(Binary32::lit(ZERO));
    let n = quartic_of(t).times(grad3d(seed, i, j, k, x, y, z));
    if keep != 0 {
        n
    } else {
        Binary32::lit(ZERO)
    }
}

/// Three-dimensional simplex noise at `(x, y, z)`.
pub fn simplex_3d(x: Binary32, y: Binary32, z: Binary32, seed: i32) -> (r: Binary32)
    ensures
        r == simplex_3d_spec(x, y, z, seed),
{
    let f = Binary32::lit(F3).times(x.plus(y).plus(z));
    let xf = x.plus(f).fast_floor();
    let yf = y.plus(f).fast_floor();
    let zf = z.plus(f).fast_floor();
    let i = xf.to_int().wrapping_mul(X_PRIME);
    let j = yf.to_int().wrapping_mul(Y_PRIME);
    let k = zf.to_int().wrapping_mul(Z_PRIME);
    let g = Binary32::lit(G3).times(xf.plus(yf).plus(zf));
    let x0 = x.minus(xf.minus(g));
    let y0 = y.minus(yf.minus(g));
    let z0 = z.minus(zf.minus(g));
    let xy = x0.ge_mask(y0) != 0;
    let yz = y0.ge_mask(z0) != 0;
    let xz = x0.ge_mask(z0) != 0;
    let i1 = xy && xz;
    let j1 = !xy && yz;
    let k1 = !xz && !yz;
    let i2 = xy || xz;
    let j2 = !xy || yz;
    let k2 = !(xz && yz);
    let g3 = Binary32::lit(G3);
    let f3 = Binary32::lit(F3);
    let g33 = Binary32::lit(G33);
    let v0 = term_3d_of(seed, i, j, k, x0, y0, z0);
    let v1 = term_3d_of(
        seed,
        i.wrapping_add(stride_of(i1, X_PRIME)),
        j.wrapping_add(stride_of(j1, Y_PRIME)),
        k.wrapping_add(stride_of(k1, Z_PRIME)),
        x0.minus(unit_of(i1)).plus(g3),
        y0.minus(unit_of(j1)).plus(g3),
        z0.minus(unit_of(k1)).plus(g3),
    );
    let v2 = term_3d_of(
        seed,
        i.wrapping_add(stride_of(i2, X_PRIME)),
        j.wrapping_add(stride_of(j2, Y_PRIME)),
        k.wrapping_add(stride_of(k2, Z_PRIME)),
        x0.minus(unit_of(i2)).plus(f3),
        y0.minus(unit_of(j2)).plus(f3),
        z0.minus(unit_of(k2)).plus(f3),
    );
    let v3 = term_3d_of(
        seed,
        i.wrapping_add(X_PRIME),
        j.wrapping_add(Y_PRIME),
        k.wrapping_add(Z_PRIME),
        x0.plus(g33),
        y0.plus(g33),
        z0.plus(g33),
    );
    v3.plus(v2).plus(v1).plus(v0)
}

/// Encoding of the four-dimensional skew factor, (sqrt(5) - 1) / 4.
pub const F4: i32 = 0x3E9E_377A;

/// Encoding of the four-dimensional unskew factor, (5 - sqrt(5)) / 20.
pub const G4: i32 = 0x3E0D_8369;

/// Encoding of twice the four-dimensional unskew factor.
pub const G24: i32 = 0x3E8D_8369;

/// Encoding of three times the four-dimensional unskew factor.
pub const G34: i32 = 0x3ED4_451E;

/// Encoding of four times the four-dimensional unskew factor.
pub const G44: i32 = 0x3F0D_8369;

/// Encoding of 0.6, the squared falloff radius in four dimensions.
pub const RADIUS_4D: i32 = 0x3F19_999A;

/// Four-dimensional gradient: three of the offset's components, chosen by
/// the low five bits of the seeded hash, each with a sign from the hash.
pub open spec fn grad4_spec(
    seed: i32,
    hash: i32,
    x: Binary32,
    y: Binary32,
    z: Binary32,
    t: Binary32,
) -> Binary32 {
    let h = (seed ^ hash) & 31;
    let u = if h < 24 { x } else { y };
    let v = if h < 16 { y } else { z };
    let w = if h < 8 { z } else { t };
    sum(signed_by(u, h & 1), sum(signed_by(v, h & 2), signed_by(w, h & 4)))
}

/// Gradient contribution of a four-dimensional lattice point.
pub fn grad4(seed: i32, hash: i32, x: Binary32, y: Binary32, z: Binary32, t: Binary32) -> (r:
    Binary32)
    ensures
        r == grad4_spec(seed, hash, x, y, z, t),
{
    let h = (seed ^ hash) & 31;
    let u = if 24 > h { x } else { y };
    let v = if 16 > h { y } else { z };
    let w = if 8 > h { z } else { t };
    sign_by(u, h & 1).plus(sign_by(v, h & 2).plus(sign_by(w, h & 4)))
}

/// How many of the other three components a component of the point exceeds.
/// Each pair of components is compared once, first against second; where the
/// first is not above the second, the second counts as the larger.
#[derive(Clone, Copy, Debug, PartialEq, Eq, Structural)]
pub struct Ranks {
    pub x: i32,
    pub y: i32,
    pub z: i32,
    pub w: i32,
}

/// The ranks that follow from the six comparisons of the components: `xy`
/// says whether the first component is above the second, and so on.
pub open spec fn ranks_from(xy: bool, xz: bool, xw: bool, yz: bool, yw: bool, zw: bool) -> Ranks {
    Ranks {
        x: (count(xy) + count(xz) + count(xw)) as i32,
        y: (count(!xy) + count(yz) + count(yw)) as i32,
        z: (count(!xz) + count(!yz) + count(zw)) as i32,
        w: (count(!xw) + count(!yw) + count(!zw)) as i32,
    }
}

/// The ranks of the four components of an offset.
pub open spec fn ranks(x: Binary32, y: Binary32, z: Binary32, w: Binary32) -> Ranks {
    ranks_from(above(x, y), above(x, z), above(x, w), above(y, z), above(y, w), above(z, w))
}

/// Whether a component of the given rank has been stepped along by the time
/// the walk through the cell reaches corner `corner` (0 to 4): the components
/// are stepped in falling order of rank.
pub open spec fn stepped(rank: i32, corner: int) -> int {
    count(rank > 3 - corner)
}

/// Every rank lies between zero and three, and the four ranks add up to
/// six, whatever the comparisons say.
pub proof fn lemma_ranks_sum(xy: bool, xz: bool, xw: bool, yz: bool, yw: bool, zw: bool)
    ensures
        ({
            let r = ranks_from(xy, xz, xw, yz, yw, zw);
            &&& 0 <= r.x <= 3
            &&& 0 <= r.y <= 3
            &&& 0 <= r.z <= 3
            &&& 0 <= r.w <= 3
            &&& r.x + r.y + r.z + r.w == 6
        }),
{
}

/// Whether the comparisons of three components, `ab`, `bc` and `ac`, agree
/// with some order of the three: they do unless they run in a circle.
pub open spec fn consistent(ab: bool, bc: bool, ac: bool) -> bool {
    (ab && bc ==> ac) && (!ab && !bc ==> !ac)
}

/// Where the six comparisons agree with some order of the components, the
/// walk through a four-dimensional cell steps along one more axis at every
/// corner: corner `corner` lies that many steps from the base corner, and an
/// axis once stepped along stays so.
pub proof fn lemma_walk_4d(
    xy: bool,
    xz: bool,
    xw: bool,
    yz: bool,
    yw: bool,
    zw: bool,
    corner: int,
)
    requires
        consistent(xy, yz, xz),
        consistent(xy, yw, xw),
        consistent(xz, zw, xw),
        consistent(yz, zw, yw),
        0 <= corner <= 4,
    ensures
        ({
            let r = ranks_from(xy, xz, xw, yz, yw, zw);
            &&& stepped(r.x, corner) + stepped(r.y, corner) + stepped(r.z, corner) + stepped(
                r.w,
                corner,
            ) == corner
            &&& corner < 4 ==> stepped(r.x, corner) <= stepped(r.x, corner + 1)
            &&& corner < 4 ==> stepped(r.y, corner) <= stepped(r.y, corner + 1)
            &&& corner < 4 ==> stepped(r.z, corner) <= stepped(r.z, corner + 1)
            &&& corner < 4 ==> stepped(r.w, corner) <= stepped(r.w, corner + 1)
        }),
{
}

/// Of four offsets of which none is a NaN, the ranks are the numbers zero to
/// three in some order, so that corner `corner` of the walk through the cell
/// lies that many steps from the base corner.
pub proof fn lemma_walk_4d_of_values(
    x0: Binary32,
    y0: Binary32,
    z0: Binary32,
    w0: Binary32,
    corner: int,
)
    requires
        !is_nan(x0.bits),
        !is_nan(y0.bits),
        !is_nan(z0.bits),
        !is_nan(w0.bits),
        0 <= corner <= 4,
    ensures
        ({
            let r = ranks(x0, y0, z0, w0);
            stepped(r.x, corner) + stepped(r.y, corner) + stepped(r.z, corner) + stepped(
                r.w,
                corner,
            ) == corner
        }),
{
    lemma_walk_4d(
        above(x0, y0),
        above(x0, z0),
        above(x0, w0),
        above(y0, z0),
        above(y0, w0),
        above(z0, w0),
        corner,
    );
}

/// Hash of the corner of a four-dimensional cell that lies `di`, `dj`, `dk`,
/// `dl` lattice steps from the cell's base corner.
pub open spec fn corner_hash_4d(
    ii: i32,
    jj: i32,
    kk: i32,
    ll: i32,
    di: int,
    dj: int,
    dk: int,
    dl: int,
) -> i32 {
    perm_at(ii + di + perm_at(jj + dj + perm_at(kk + dk + perm_at(ll + dl))))
}

/// Weighted gradient of one corner of a four-dimensional cell: the weight is
/// `0.6 - x*x - y*y - z*z - w*w`, clamped at zero and raised to the fourth
/// power.
pub open spec fn term_4d(
    seed: i32,
    hash: i32,
    x: Binary32,
    y: Binary32,
    z: Binary32,
    w: Binary32,
) -> Binary32 {
    let t = difference(
        difference(
            difference(difference(lit(RADIUS_4D), product(x, x)), product(y, y)),
            product(z, z),
        ),
        product(w, w),
    );
    clamped(t, product(quartic(t), grad4_spec(seed, hash, x, y, z, w)))
}

/// Offset of the point from a corner that lies `step` lattice steps along an
/// axis from the base corner, `shift` being the unskewing of that corner.
pub open spec fn from_corner(c0: Binary32, step: Binary32, shift: i32) -> Binary32 {
    sum(difference(c0, step), lit(shift))
}

/// Contribution of the corner reached after `corner` steps (1 to 3) of the
/// walk through the cell.
pub open spec fn inner_term_4d(
    seed: i32,
    ii: i32,
    jj: i32,
    kk: i32,
    ll: i32,
    x0: Binary32,
    y0: Binary32,
    z0: Binary32,
    w0: Binary32,
    corner: int,
    shift: i32,
) -> Binary32 {
    let r = ranks(x0, y0, z0, w0);
    let di = stepped(r.x, corner);
    let dj = stepped(r.y, corner);
    let dk = stepped(r.z, corner);
    let dl = stepped(r.w, corner);
    term_4d(
        seed,
        corner_hash_4d(ii, jj, kk, ll, di, dj, dk, dl),
        from_corner(x0, from_int(di as i32), shift),
        from_corner(y0, from_int(dj as i32), shift),
        from_corner(z0, from_int(dk as i32), shift),
        from_corner(w0, from_int(dl as i32), shift),
    )
}

/// Four-dimensional simplex noise at `(x, y, z, w)`. The point is skewed
/// onto the lattice and floored to the base corner of its cell; the walk to
/// the opposite corner steps along the axes in falling order of rank, and
/// each of the five corners on the way contributes.
pub open spec fn simplex_4d_spec(
    x: Binary32,
    y: Binary32,
    z: Binary32,
    w: Binary32,
    seed: i32,
) -> Binary32 {
    let s = product(lit(F4), sum(x, sum(y, sum(z, w))));
    let ips = floor(sum(x, s));
    let jps = floor(sum(y, s));
    let kps = floor(sum(z, s));
    let lps = floor(sum(w, s));
    let i = to_int(ips);
    let j = to_int(jps);
    let k = to_int(kps);
    let l = to_int(lps);
    let t = product(from_int(i.wrapping_add(j.wrapping_add(k.wrapping_add(l)))), lit(G4));
    let x0 = difference(x, difference(ips, t));
    let y0 = difference(y, difference(jps, t));
    let z0 = difference(z, difference(kps, t));
    let w0 = difference(w, difference(lps, t));
    let ii = low_byte(i);
    let jj = low_byte(j);
    let kk = low_byte(k);
    let ll = low_byte(l);
    let n0 = term_4d(seed, corner_hash_4d(ii, jj, kk, ll, 0, 0, 0, 0), x0, y0, z0, w0);
    let n1 = inner_term_4d(seed, ii, jj, kk, ll, x0, y0, z0, w0, 1, G4);
    let n2 = inner_term_4d(seed, ii, jj, kk, ll, x0, y0, z0, w0, 2, G24);
    let n3 = inner_term_4d(seed, ii, jj, kk, ll, x0, y0, z0, w0, 3, G34);
    let n4 = term_4d(
        seed,
        corner_hash_4d(ii, jj, kk, ll, 1, 1, 1, 1),
        from_corner(x0, lit(ONE), G44),
        from_corner(y0, lit(ONE), G44),
        from_corner(z0, lit(ONE), G44),
        from_corner(w0, lit(ONE), G44),
    );
    sum(n0, sum(n1, sum(n2, sum(n3, n4))))
}

fn ranks_of(x: Binary32, y: Binary32, z: Binary32, w: Binary32) -> (r: Ranks)
    ensures
        r == ranks(x, y, z, w),
        0 <= r.x <= 3,
        0 <= r.y <= 3,
        0 <= r.z <= 3,
        0 <= r.w <= 3,
        r.x + r.y + r.z + r.w == 6,
{
    let mut rank_x: i32 = 0;
    let mut rank_y: i32 = 0;
    let mut rank_z: i32 = 0;
    let mut rank_w: i32 = 0;
    if x.gt_mask(y) != 0 {
        rank_x = rank_x + 1;
    } else {
        rank_y = rank_y + 1;
    }
    if x.gt_mask(z) != 0 {
        rank_x = rank_x + 1;
    } else {
        rank_z = rank_z + 1;
    }
    if x.gt_mask(w) != 0 {
        rank_x = rank_x + 1;
    } else {
        rank_w = rank_w + 1;
    }
    if y.gt_mask(z) != 0 {
        rank_y = rank_y + 1;
    } else {
        rank_z = rank_z + 1;
    }
    if y.gt_mask(w) != 0 {
        rank_y = rank_y + 1;
    } else {
        rank_w = rank_w + 1;
    }
    if z.gt_mask(w) != 0 {
        rank_z = rank_z + 1;
    } else {
        rank_w = rank_w + 1;
    }
    Ranks { x: rank_x, y: rank_y, z: rank_z, w: rank_w }
}

fn stepped_of(rank: i32, threshold: i32) -> (r: i32)
    requires
        0 <= threshold <= 2,
    ensures
        r == stepped(rank, 3 - threshold),
        0 <= r <= 1,
{
    if rank > threshold {
        1
    } else {
        0
    }
}

fn corner_hash_4d_of(ii: i32, jj: i32, kk: i32, ll: i32, di: i32, dj: i32, dk: i32, dl: i32) -> (r:
    i32)
    requires
        0 <= ii <= 255,
        0 <= jj <= 255,
        0 <= kk <= 255,
        0 <= ll <= 255,
        0 <= di <= 1,
        0 <= dj <= 1,
        0 <= dk <= 1,
        0 <= dl <= 1,
    ensures
        r == corner_hash_4d(ii, jj, kk, ll, di as int, dj as int, dk as int, dl as int),
{
    let lp = perm(ll + dl);
    let kp = perm(kk + dk + lp);
    let jp = perm(jj + dj + kp);
    perm(ii + di + jp)
}

fn term_4d_of(seed: i32, hash: i32, x: Binary32, y: Binary32, z: Binary32, w: Binary32) -> (r:
    Binary32)
    ensures
        r == term_4d(seed, hash, x, y, z, w),
{
    let t = Binary32::lit(RADIUS_4D).minus(x.times(x)).minus(y.times(y)).minus(z.times(z)).minus(
        w.times(w),
    );
    let n = quartic_of(t).times(grad4(seed, hash, x, y, z, w));
    clamp(t, n)
}

fn from_corner_of(c0: Binary32, step: Binary32, shift: i32) -> (r: Binary32)
    ensures
        r == from_corner(c0, step, shift),
{
    c0.minus(step).plus(Binary32::lit(shift))
}

fn inner_term_4d_of(
    seed: i32,
    ii: i32,
    jj: i32,
    kk: i32,
    ll: i32,
    x0: Binary32,
    y0: Binary32,
    z0: Binary32,
    w0: Binary32,
    r: Ranks,
    threshold: i32,
    shift: i32,
) -> (n: Binary32)
    requires
        0 <= ii <= 255,
        0 <= jj <= 255,
        0 <= kk <= 255,
        0 <= ll <= 255,
        0 <= threshold <= 2,
        r == ranks(x0, y0, z0, w0),
    ensures
        n == inner_term_4d(seed, ii, jj, kk, ll, x0, y0, z0, w0, 3 - threshold, shift),
{
    let di = stepped_of(r.x, threshold);
    let dj = stepped_of(r.y, threshold);
    let dk = stepped_of(r.z, threshold);
    let dl = stepped_of(r.w, threshold);
    let hash = corner_hash_4d_of(ii, jj, kk, ll, di, dj, dk, dl);
    term_4d_of(
        seed,
        hash,
        from_corner_of(x0, Binary32::from_int(di), shift),
        from_corner_of(y0, Binary32::from_int(dj), shift),
        from_corner_of(z0, Binary32::from_int(dk), shift),
        from_corner_of(w0, Binary32::from_int(dl), shift),
    )
}

/// Four-dimensional simplex noise at `(x, y, z, w)`.
pub fn simplex_4d(x: Binary32, y: Binary32, z: Binary32, w: Binary32, seed: i32) -> (r: Binary32)
    ensures
        r == simplex_4d_spec(x, y, z, w, seed),
{
    let s = Binary32::lit(F4).times(x.plus(y.plus(z.plus(w))));
    let ips = x.plus(s).floor();
    let jps = y.plus(s).floor();
    let kps = z.plus(s).floor();
    let lps = w.plus(s).floor();
    let i = ips.to_int();
    let j = jps.to_int();
    let k = kps.to_int();
    let l = lps.to_int();
    let t = Binary32::from_int(i.wrapping_add(j.wrapping_add(k.wrapping_add(l)))).times(
        Binary32::lit(G4),
    );
    let x0 = x.minus(ips.minus(t));
    let y0 = y.minus(jps.minus(t));
    let z0 = z.minus(kps.minus(t));
    let w0 = w.minus(lps.minus(t));
    let r = ranks_of(x0, y0, z0, w0);
    let ii = low_byte_of(i);
    let jj = low_byte_of(j);
    let kk = low_byte_of(k);
    let ll = low_byte_of(l);
    let one = Binary32::lit(ONE);
    let n0 = term_4d_of(seed, corner_hash_4d_of(ii, jj, kk, ll, 0, 0, 0, 0), x0, y0, z0, w0);
    let n1 = inner_term_4d_of(seed, ii, jj, kk, ll, x0, y0, z0, w0, r, 2, G4);
    let n2 = inner_term_4d_of(seed, ii, jj, kk, ll, x0, y0, z0, w0, r, 1, G24);
    let n3 = inner_term_4d_of(seed, ii, jj, kk, ll, x0, y0, z0, w0, r, 0, G34);
    let n4 = term_4d_of(
        seed,
        corner_hash_4d_of(ii, jj, kk, ll, 1, 1, 1, 1),
        from_corner_of(x0, one, G44),
        from_corner_of(y0, one, G44),
        from_corner_of(z0, one, G44),
        from_corner_of(w0, one, G44),
    );
    n0.plus(n1.plus(n2.plus(n3.plus(n4))))
}

} // verus!
