//! Lattice hashing for the cellular kernels: a seed and the coordinates of a
//! lattice cell are mixed into one 32-bit value.
use crate::binary32::{from_int, lit, quotient, Binary32};
use vstd::prelude::*;

verus! {

/// Multiplier of the first lattice axis.
pub const X_PRIME: i32 = 1619;

/// Multiplier of the second lattice axis.
pub const Y_PRIME: i32 = 31337;

/// Multiplier of the third lattice axis.
pub const Z_PRIME: i32 = 6971;

/// Multiplier of the cubing step.
pub const MIX_PRIME: i32 = 60493;

/// Encoding of 2147483648.0, which scales a hash into `[-1, 1)`.
pub const CELL_DIVISOR: i32 = 0x4F00_0000;

/// The low eight bits of a hash or of a lattice coordinate: an index into a
/// table of 256 entries.
pub open spec fn low_byte(i: i32) -> i32 {
    i & 0xff
}

/// The low eight bits of `i`.
pub fn low_byte_of(i: i32) -> (r: i32)
    ensures
        r == low_byte(i),
        0 <= r <= 255,
{
    assert(0 <= (i & 0xff) <= 255) by (bit_vector);
    i & 0xff
}

/// The cubing step: `h * h * h * 60493` in wrapping arithmetic.
pub open spec fn mix(h: i32) -> i32 {
    h.wrapping_mul(h.wrapping_mul(h.wrapping_mul(MIX_PRIME)))
}

/// The folding step: the high bits, shifted down with the sign, xored into
/// the value.
pub open spec fn fold(h: i32) -> i32 {
    (h >> 13) ^ h
}

/// Seed and cell coordinates combined, before mixing.
pub open spec fn combine_2d(seed: i32, x: i32, y: i32) -> i32 {
    (seed ^ X_PRIME.wrapping_mul(x)) ^ Y_PRIME.wrapping_mul(y)
}

/// Seed and cell coordinates combined, before mixing.
pub open spec fn combine_3d(seed: i32, x: i32, y: i32, z: i32) -> i32 {
    combine_2d(seed, x, y) ^ Z_PRIME.wrapping_mul(z)
}

/// Hash of the two-dimensional lattice cell `(x, y)`: seed and coordinates
/// combined, mixed and folded.
pub open spec fn hash_2d_spec(seed: i32, x: i32, y: i32) -> i32 {
    fold(mix(combine_2d(seed, x, y)))
}

/// Hash of the three-dimensional lattice cell `(x, y, z)`: seed and
/// coordinates combined, mixed and folded.
pub open spec fn hash_3d_spec(seed: i32, x: i32, y: i32, z: i32) -> i32 {
    fold(mix(combine_3d(seed, x, y, z)))
}

/// The value of a cell: its mixed hash, converted and scaled into `[-1, 1)`.
pub open spec fn val_coord_2d_spec(seed: i32, x: i32, y: i32) -> Binary32 {
    quotient(from_int(mix(combine_2d(seed, x, y))), lit(CELL_DIVISOR))
}

/// The value of a cell: its mixed hash, converted and scaled into `[-1, 1)`.
pub open spec fn val_coord_3d_spec(seed: i32, x: i32, y: i32, z: i32) -> Binary32 {
    quotient(from_int(mix(combine_3d(seed, x, y, z))), lit(CELL_DIVISOR))
}

fn mix_exec(h: i32) -> (r: i32)
    ensures
        r == mix(h),
{
    h.wrapping_mul(h.wrapping_mul(h.wrapping_mul(MIX_PRIME)))
}

/// Hash of a two-dimensional lattice cell.
pub fn hash_2d(seed: i32, x: i32, y: i32) -> (hash: i32)
    ensures
        hash == hash_2d_spec(seed, x, y),
{
    let mut hash = seed ^ X_PRIME.wrapping_mul(x);
    hash = hash ^ Y_PRIME.wrapping_mul(y);
    hash = mix_exec(hash);
    (hash >> 13) ^ hash
}

/// Value in `[-1, 1)` attached to a two-dimensional lattice cell.
pub fn val_coord_2d(seed: i32, x: i32, y: i32) -> (value: Binary32)
    ensures
        value == val_coord_2d_spec(seed, x, y),
{
    let mut hash = seed ^ X_PRIME.wrapping_mul(x);
    hash = hash ^ Y_PRIME.wrapping_mul(y);
    hash = mix_exec(hash);
    Binary32::from_int(hash).over(Binary32::lit(CELL_DIVISOR))
}

/// Hash of a three-dimensional lattice cell.
pub fn hash_3d(seed: i32, x: i32, y: i32, z: i32) -> (hash: i32)
    ensures
        hash == hash_3d_spec(seed, x, y, z),
{
    let mut hash = seed ^ X_PRIME.wrapping_mul(x);
    hash = hash ^ Y_PRIME.wrapping_mul(y);
    hash = hash ^ Z_PRIME.wrapping_mul(z);
    hash = mix_exec(hash);
    (hash >> 13) ^ hash
}

/// Value in `[-1, 1)` attached to a three-dimensional lattice cell.
pub fn val_coord_3d(seed: i32, x: i32, y: i32, z: i32) -> (value: Binary32)
    ensures
        value == val_coord_3d_spec(seed, x, y, z),
{
    let mut hash = seed ^ X_PRIME.wrapping_mul(x);
    hash = hash ^ Y_PRIME.wrapping_mul(y);
    hash = hash ^ Z_PRIME.wrapping_mul(z);
    hash = mix_exec(hash);
    Binary32::from_int(hash).over(Binary32::lit(CELL_DIVISOR))
}

} // verus!
