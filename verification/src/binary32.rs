//! Single-precision values and the arithmetic the noise kernels run on them.
//!
//! A value is carried as its IEEE 754 binary32 encoding, so that it can be
//! stored, compared for identity and reasoned about as a plain integer. Every
//! arithmetic step is performed by the portable single-lane engine of
//! `simdeez`. What such a step returns is a function of the operand
//! encodings, up to the payload of a NaN; every NaN that a step returns is
//! replaced by one quiet NaN, and the result, so settled, is referred to by
//! name in contracts.
use simdeez::scalar::I32x1;
use simdeez::SimdBaseIo;
use simdeez::SimdBaseOps;
use simdeez::SimdFloat;
use simdeez::SimdFloat32;
use simdeez::SimdInt32;
use vstd::prelude::*;

verus! {

/// A single-precision value, held as its binary32 encoding reinterpreted as a
/// signed 32-bit integer (sign bit, eight exponent bits, 23 fraction bits).
#[derive(Clone, Copy, Debug, PartialEq, Eq, Structural)]
pub struct Binary32 {
    pub bits: i32,
}

/// Encoding of the rounded sum of two encoded values, settled.
pub uninterp spec fn sum_bits(a: i32, b: i32) -> i32;

/// Encoding of the rounded difference `a - b`, settled.
pub uninterp spec fn difference_bits(a: i32, b: i32) -> i32;

/// Encoding of the rounded product of two encoded values, settled.
pub uninterp spec fn product_bits(a: i32, b: i32) -> i32;

/// Encoding of the rounded quotient `a / b`, settled.
pub uninterp spec fn quotient_bits(a: i32, b: i32) -> i32;

/// Encoding of `a * b + c` as the engine evaluates it, settled.
pub uninterp spec fn mul_add_bits(a: i32, b: i32, c: i32) -> i32;

/// Encoding of `c - a * b` as the engine evaluates it, settled.
pub uninterp spec fn neg_mul_add_bits(a: i32, b: i32, c: i32) -> i32;

/// Encoding of the largest integral value not above `a`, settled.
pub uninterp spec fn floor_bits(a: i32) -> i32;

/// Encoding of what the engine's quick floor returns for `a`, settled.
pub uninterp spec fn fast_floor_bits(a: i32) -> i32;

/// Encoding of `a` rounded to an integral value, settled.
pub uninterp spec fn round_bits(a: i32) -> i32;

/// Encoding of the engine's reciprocal square root of `a`, settled.
pub uninterp spec fn rsqrt_bits(a: i32) -> i32;

/// The integer that the encoded value converts to.
pub uninterp spec fn to_int_bits(a: i32) -> i32;

/// Encoding of the single-precision value nearest to the integer `n`.
pub uninterp spec fn from_int_bits(n: i32) -> i32;

/// The encoding with the sign bit cleared.
pub open spec fn sign_cleared(bits: i32) -> i32 {
    if bits >= 0 {
        bits
    } else {
        (bits - i32::MIN) as i32
    }
}

/// Whether `bits` encodes a NaN: an exponent of all ones over a fraction that
/// is not zero.
pub open spec fn is_nan(bits: i32) -> bool {
    sign_cleared(bits) > INFINITY
}

/// The place of a value in the numeric order: values of positive sign count
/// up from zero with their encoding, values of negative sign count down from
/// zero. Both zeros have the key zero; the keys of the infinities are
/// `INFINITY` and its negative, and every NaN lies beyond the infinity of its
/// sign.
pub open spec fn order_key(v: Binary32) -> int {
    if v.bits >= 0 {
        v.bits as int
    } else {
        i32::MIN - v.bits
    }
}

/// The keys of the two zeros coincide, the keys of all other encodings are
/// apart, and a value is a NaN exactly where its key lies beyond those of
/// the infinities.
pub proof fn lemma_order_key(a: Binary32, b: Binary32)
    ensures
        order_key(a) == 0 <==> (a.bits == 0 || a.bits == i32::MIN),
        order_key(a) == order_key(b) ==> a == b || order_key(a) == 0,
        is_nan(a.bits) <==> (order_key(a) > INFINITY || order_key(a) < -INFINITY),
        -0x8000_0000 < order_key(a) < 0x8000_0000,
{
}

/// The encoding with every NaN replaced by the one quiet NaN `NAN`.
pub open spec fn canonical(bits: i32) -> i32 {
    if is_nan(bits) {
        NAN
    } else {
        bits
    }
}

/// The lane mask that stands for a truth value: all bits set, or none.
pub open spec fn mask_of(b: bool) -> i32 {
    if b {
        -1i32
    } else {
        0i32
    }
}

/// `a + b`.
pub open spec fn sum(a: Binary32, b: Binary32) -> Binary32 {
    Binary32 { bits: sum_bits(a.bits, b.bits) }
}

/// `a - b`.
pub open spec fn difference(a: Binary32, b: Binary32) -> Binary32 {
    Binary32 { bits: difference_bits(a.bits, b.bits) }
}

/// `a * b`.
pub open spec fn product(a: Binary32, b: Binary32) -> Binary32 {
    Binary32 { bits: product_bits(a.bits, b.bits) }
}

/// `a / b`.
pub open spec fn quotient(a: Binary32, b: Binary32) -> Binary32 {
    Binary32 { bits: quotient_bits(a.bits, b.bits) }
}

/// `a * b + c`.
pub open spec fn mul_add(a: Binary32, b: Binary32, c: Binary32) -> Binary32 {
    Binary32 { bits: mul_add_bits(a.bits, b.bits, c.bits) }
}

/// `c - a * b`.
pub open spec fn neg_mul_add(a: Binary32, b: Binary32, c: Binary32) -> Binary32 {
    Binary32 { bits: neg_mul_add_bits(a.bits, b.bits, c.bits) }
}

/// The absolute value of `a`: `a` with its sign bit cleared, settled.
pub open spec fn magnitude(a: Binary32) -> Binary32 {
    Binary32 { bits: canonical(sign_cleared(a.bits)) }
}

/// The largest integral value not above `a`.
pub open spec fn floor(a: Binary32) -> Binary32 {
    Binary32 { bits: floor_bits(a.bits) }
}

/// The engine's quick floor of `a`.
pub open spec fn fast_floor(a: Binary32) -> Binary32 {
    Binary32 { bits: fast_floor_bits(a.bits) }
}

/// `a` rounded to an integral value.
pub open spec fn round(a: Binary32) -> Binary32 {
    Binary32 { bits: round_bits(a.bits) }
}

/// The reciprocal of the square root of `a`.
pub open spec fn rsqrt(a: Binary32) -> Binary32 {
    Binary32 { bits: rsqrt_bits(a.bits) }
}

/// Whether `a < b`: neither is a NaN, and the key of `a` is below that of
/// `b`.
pub open spec fn below(a: Binary32, b: Binary32) -> bool {
    !is_nan(a.bits) && !is_nan(b.bits) && order_key(a) < order_key(b)
}

/// Whether `a > b`: neither is a NaN, and the key of `a` is above that of
/// `b`.
pub open spec fn above(a: Binary32, b: Binary32) -> bool {
    !is_nan(a.bits) && !is_nan(b.bits) && order_key(a) > order_key(b)
}

/// Whether `a >= b`: neither is a NaN, and the key of `a` is not below that
/// of `b`.
pub open spec fn at_least(a: Binary32, b: Binary32) -> bool {
    !is_nan(a.bits) && !is_nan(b.bits) && order_key(a) >= order_key(b)
}

/// The integer nearest to `a`.
pub open spec fn to_int(a: Binary32) -> i32 {
    to_int_bits(a.bits)
}

/// The value nearest to the integer `n`.
pub open spec fn from_int(n: i32) -> Binary32 {
    Binary32 { bits: from_int_bits(n) }
}

/// `0 - a`, the way the kernels negate a value.
pub open spec fn negated(a: Binary32) -> Binary32 {
    difference(lit(ZERO), a)
}

/// `b` where the mask is set, `a` where it is clear.
pub open spec fn blend(a: Binary32, b: Binary32, mask: i32) -> Binary32 {
    if mask != 0 {
        b
    } else {
        a
    }
}

/// The smaller of two values: the first where it compares below the second,
/// the second otherwise.
pub open spec fn smaller(a: Binary32, b: Binary32) -> Binary32 {
    if below(a, b) {
        a
    } else {
        b
    }
}

/// `v` with 1.0 added `steps` times, one addition after the other.
pub open spec fn advanced(v: Binary32, steps: nat) -> Binary32
    decreases steps,
{
    if steps == 0 {
        v
    } else {
        sum(advanced(v, (steps - 1) as nat), lit(ONE))
    }
}

/// Encoding of positive zero.
pub const ZERO: i32 = 0;

/// Encoding of 1.0.
pub const ONE: i32 = 0x3F80_0000;

/// Encoding of 2.0.
pub const TWO: i32 = 0x4000_0000;

/// Encoding of 0.5.
pub const HALF: i32 = 0x3F00_0000;

/// Encoding of -1.0 (`0xBF80_0000`).
pub const MINUS_ONE: i32 = -1082130432;

/// Encoding of the largest finite value.
pub const MAX: i32 = 0x7F7F_FFFF;

/// Encoding of positive infinity.
pub const INFINITY: i32 = 0x7F80_0000;

/// Encoding of the quiet NaN that stands for every NaN.
pub const NAN: i32 = 0x7FC0_0000;

/// The value with the given encoding.
pub open spec fn lit(bits: i32) -> Binary32 {
    Binary32 { bits }
}

/// The encoding as an unsigned word: bit 31 is the sign.
pub open spec fn word(v: Binary32) -> int {
    if v.bits >= 0 {
        v.bits as int
    } else {
        v.bits + 0x1_0000_0000
    }
}

/// The place of a value in the numeric order.
pub fn order_key_of(v: Binary32) -> (k: i32)
    ensures
        k == order_key(v),
{
    if v.bits >= 0 {
        v.bits
    } else {
        i32::MIN - v.bits
    }
}

impl Binary32 {
    /// The value whose encoding, as an unsigned word, is `word`.
    pub fn from_bits(word: u32) -> (r: Binary32)
        ensures
            self::word(r) == word,
    {
        if word < 0x8000_0000 {
            Binary32 { bits: word as i32 }
        } else {
            Binary32 { bits: (word - 0x8000_0000) as i32 + i32::MIN }
        }
    }

    /// The encoding as an unsigned word.
    pub fn to_bits(self) -> (r: u32)
        ensures
            r == word(self),
    {
        if self.bits >= 0 {
            self.bits as u32
        } else {
            (self.bits - i32::MIN) as u32 + 0x8000_0000
        }
    }

    /// The value with the given encoding.
    pub fn lit(bits: i32) -> (r: Binary32)
        ensures
            r == lit(bits),
    {
        Binary32 { bits }
    }

    /// `SimdBaseOps::add` of the single-lane engine on the two values. Up to
    /// the payload of a NaN, the result is a function of the operands.
    #[verifier::external_body]
    fn lane_add(self, rhs: Binary32) -> (r: Binary32)
        ensures
            canonical(r.bits) == sum_bits(self.bits, rhs.bits),
    {
        let a = I32x1::set1(self.bits).bitcast_f32();
        let b = I32x1::set1(rhs.bits).bitcast_f32();
        Binary32 { bits: SimdBaseOps::add(a, b).bitcast_i32().0 }
    }

    /// `SimdBaseOps::sub` of the single-lane engine: `self - rhs`. Up to
    /// the payload of a NaN, the result is a function of the operands.
    #[verifier::external_body]
    fn lane_sub(self, rhs: Binary32) -> (r: Binary32)
        ensures
            canonical(r.bits) == difference_bits(self.bits, rhs.bits),
    {
        let a = I32x1::set1(self.bits).bitcast_f32();
        let b = I32x1::set1(rhs.bits).bitcast_f32();
        Binary32 { bits: SimdBaseOps::sub(a, b).bitcast_i32().0 }
    }

    /// `SimdBaseOps::mul` of the single-lane engine on the two values. Up to
    /// the payload of a NaN, the result is a function of the operands.
    #[verifier::external_body]
    fn lane_mul(self, rhs: Binary32) -> (r: Binary32)
        ensures
            canonical(r.bits) == product_bits(self.bits, rhs.bits),
    {
        let a = I32x1::set1(self.bits).bitcast_f32();
        let b = I32x1::set1(rhs.bits).bitcast_f32();
        Binary32 { bits: SimdBaseOps::mul(a, b).bitcast_i32().0 }
    }

    /// `SimdFloat::div` of the single-lane engine: `self / rhs`. Division by
    /// zero yields an infinity or a NaN; it does not trap. Up to
    /// the payload of a NaN, the result is a function of the operands.
    #[verifier::external_body]
    fn lane_div(self, rhs: Binary32) -> (r: Binary32)
        ensures
            canonical(r.bits) == quotient_bits(self.bits, rhs.bits),
    {
        let a = I32x1::set1(self.bits).bitcast_f32();
        let b = I32x1::set1(rhs.bits).bitcast_f32();
        Binary32 { bits: SimdFloat::div(a, b).bitcast_i32().0 }
    }

    /// `SimdFloat::mul_add` of the single-lane engine: `self * a + b`. Up to
    /// the payload of a NaN, the result is a function of the operands.
    #[verifier::external_body]
    fn lane_mul_add(self, a: Binary32, b: Binary32) -> (r: Binary32)
        ensures
            canonical(r.bits) == mul_add_bits(self.bits, a.bits, b.bits),
    {
        let x = I32x1::set1(self.bits).bitcast_f32();
        let y = I32x1::set1(a.bits).bitcast_f32();
        let z = I32x1::set1(b.bits).bitcast_f32();
        Binary32 { bits: SimdFloat::mul_add(x, y, z).bitcast_i32().0 }
    }

    /// `SimdFloat::neg_mul_add` of the single-lane engine: `b - self * a`. Up to
    /// the payload of a NaN, the result is a function of the operands.
    #[verifier::external_body]
    fn lane_neg_mul_add(self, a: Binary32, b: Binary32) -> (r: Binary32)
        ensures
            canonical(r.bits) == neg_mul_add_bits(self.bits, a.bits, b.bits),
    {
        let x = I32x1::set1(self.bits).bitcast_f32();
        let y = I32x1::set1(a.bits).bitcast_f32();
        let z = I32x1::set1(b.bits).bitcast_f32();
        Binary32 { bits: SimdFloat::neg_mul_add(x, y, z).bitcast_i32().0 }
    }

    /// `SimdBaseOps::abs` of the single-lane engine: up to the payload of a
    /// NaN, the operand with its sign bit cleared.
    #[verifier::external_body]
    fn lane_abs(self) -> (r: Binary32)
        ensures
            canonical(r.bits) == canonical(sign_cleared(self.bits)),
    {
        let a = I32x1::set1(self.bits).bitcast_f32();
        Binary32 { bits: SimdBaseOps::abs(a).bitcast_i32().0 }
    }

    /// `SimdFloat::floor` of the single-lane engine. Up to
    /// the payload of a NaN, the result is a function of the operands.
    #[verifier::external_body]
    fn lane_floor(self) -> (r: Binary32)
        ensures
            canonical(r.bits) == floor_bits(self.bits),
    {
        let a = I32x1::set1(self.bits).bitcast_f32();
        Binary32 { bits: SimdFloat::floor(a).bitcast_i32().0 }
    }

    /// `SimdFloat::fast_floor` of the single-lane engine. Up to
    /// the payload of a NaN, the result is a function of the operands.
    #[verifier::external_body]
    fn lane_fast_floor(self) -> (r: Binary32)
        ensures
            canonical(r.bits) == fast_floor_bits(self.bits),
    {
        let a = I32x1::set1(self.bits).bitcast_f32();
        Binary32 { bits: SimdFloat::fast_floor(a).bitcast_i32().0 }
    }

    /// `SimdFloat::round` of the single-lane engine. Up to
    /// the payload of a NaN, the result is a function of the operands.
    #[verifier::external_body]
    fn lane_round(self) -> (r: Binary32)
        ensures
            canonical(r.bits) == round_bits(self.bits),
    {
        let a = I32x1::set1(self.bits).bitcast_f32();
        Binary32 { bits: SimdFloat::round(a).bitcast_i32().0 }
    }

    /// `SimdFloat::rsqrt` of the single-lane engine, which divides one by the
    /// square root. Up to
    /// the payload of a NaN, the result is a function of the operands.
    #[verifier::external_body]
    fn lane_rsqrt(self) -> (r: Binary32)
        ensures
            canonical(r.bits) == rsqrt_bits(self.bits),
    {
        let a = I32x1::set1(self.bits).bitcast_f32();
        Binary32 { bits: SimdFloat::rsqrt(a).bitcast_i32().0 }
    }

    /// The value itself, or the one quiet NaN where it is a NaN.
    pub fn settled(self) -> (r: Binary32)
        ensures
            r.bits == canonical(self.bits),
    {
        let magnitude = if self.bits >= 0 {
            self.bits
        } else {
            self.bits - i32::MIN
        };
        if magnitude > INFINITY {
            Binary32 { bits: NAN }
        } else {
            self
        }
    }

    /// The sum `self + rhs`.
    pub(crate) fn plus(self, rhs: Binary32) -> (r: Binary32)
        ensures
            r.bits == sum_bits(self.bits, rhs.bits),
    {
        self.lane_add(rhs).settled()
    }

    /// The difference `self - rhs`.
    pub(crate) fn minus(self, rhs: Binary32) -> (r: Binary32)
        ensures
            r.bits == difference_bits(self.bits, rhs.bits),
    {
        self.lane_sub(rhs).settled()
    }

    /// The product `self * rhs`.
    pub(crate) fn times(self, rhs: Binary32) -> (r: Binary32)
        ensures
            r.bits == product_bits(self.bits, rhs.bits),
    {
        self.lane_mul(rhs).settled()
    }

    /// The quotient `self / rhs`.
    pub(crate) fn over(self, rhs: Binary32) -> (r: Binary32)
        ensures
            r.bits == quotient_bits(self.bits, rhs.bits),
    {
        self.lane_div(rhs).settled()
    }

    /// `self * a + b`.
    pub(crate) fn mul_add(self, a: Binary32, b: Binary32) -> (r: Binary32)
        ensures
            r.bits == mul_add_bits(self.bits, a.bits, b.bits),
    {
        self.lane_mul_add(a, b).settled()
    }

    /// `b - self * a`.
    pub(crate) fn neg_mul_add(self, a: Binary32, b: Binary32) -> (r: Binary32)
        ensures
            r.bits == neg_mul_add_bits(self.bits, a.bits, b.bits),
    {
        self.lane_neg_mul_add(a, b).settled()
    }

    /// The absolute value.
    pub(crate) fn abs(self) -> (r: Binary32)
        ensures
            r == magnitude(self),
    {
        self.lane_abs().settled()
    }

    /// The largest integral value not above `self`.
    pub(crate) fn floor(self) -> (r: Binary32)
        ensures
            r.bits == floor_bits(self.bits),
    {
        self.lane_floor().settled()
    }

    /// The engine's quick floor of `self`.
    pub(crate) fn fast_floor(self) -> (r: Binary32)
        ensures
            r.bits == fast_floor_bits(self.bits),
    {
        self.lane_fast_floor().settled()
    }

    /// `self` rounded to an integral value.
    pub(crate) fn round(self) -> (r: Binary32)
        ensures
            r.bits == round_bits(self.bits),
    {
        self.lane_round().settled()
    }

    /// The reciprocal of the square root.
    pub(crate) fn rsqrt(self) -> (r: Binary32)
        ensures
            r.bits == rsqrt_bits(self.bits),
    {
        self.lane_rsqrt().settled()
    }

    /// `SimdBaseOps::cmp_lt` of the single-lane engine, reinterpreted as an
    /// integer lane: all bits set where `self < rhs`, zero otherwise.
    #[verifier::external_body]
    pub(crate) fn lt_mask(self, rhs: Binary32) -> (r: i32)
        ensures
            r == mask_of(below(self, rhs)),
    {
        let a = I32x1::set1(self.bits).bitcast_f32();
        let b = I32x1::set1(rhs.bits).bitcast_f32();
        a.cmp_lt(b).bitcast_i32().0
    }

    /// `SimdBaseOps::cmp_gt` of the single-lane engine, reinterpreted as an
    /// integer lane: all bits set where `self > rhs`, zero otherwise.
    #[verifier::external_body]
    pub(crate) fn gt_mask(self, rhs: Binary32) -> (r: i32)
        ensures
            r == mask_of(above(self, rhs)),
    {
        let a = I32x1::set1(self.bits).bitcast_f32();
        let b = I32x1::set1(rhs.bits).bitcast_f32();
        a.cmp_gt(b).bitcast_i32().0
    }

    /// `SimdBaseOps::cmp_gte` of the single-lane engine, reinterpreted as an
    /// integer lane: all bits set where `self >= rhs`, zero otherwise.
    #[verifier::external_body]
    pub(crate) fn ge_mask(self, rhs: Binary32) -> (r: i32)
        ensures
            r == mask_of(at_least(self, rhs)),
    {
        let a = I32x1::set1(self.bits).bitcast_f32();
        let b = I32x1::set1(rhs.bits).bitcast_f32();
        a.cmp_gte(b).bitcast_i32().0
    }

    /// `SimdFloat32::cast_i32` of the single-lane engine: the value rounded
    /// to the nearest integer, ties to even, saturating at the ends of the
    /// integer range.
    #[verifier::external_body]
    pub(crate) fn to_int(self) -> (r: i32)
        ensures
            r == to_int_bits(self.bits),
    {
        let a = I32x1::set1(self.bits).bitcast_f32();
        a.cast_i32().0
    }

    /// `SimdInt32::cast_f32` of the single-lane engine: the single-precision
    /// value nearest to `n`.
    #[verifier::external_body]
    pub(crate) fn from_int(n: i32) -> (r: Binary32)
        ensures
            r.bits == from_int_bits(n),
    {
        Binary32 { bits: I32x1::set1(n).cast_f32().bitcast_i32().0 }
    }

    /// `0 - self`.
    pub(crate) fn negated(self) -> (r: Binary32)
        ensures
            r == negated(self),
    {
        Binary32::lit(ZERO).minus(self)
    }

    /// `b` where the mask is set, `a` where it is clear.
    pub(crate) fn blend(a: Binary32, b: Binary32, mask: i32) -> (r: Binary32)
        ensures
            r == blend(a, b, mask),
    {
        if mask != 0 {
            b
        } else {
            a
        }
    }

    /// The smaller of `self` and `rhs`; `rhs` where the two do not compare.
    pub(crate) fn min(self, rhs: Binary32) -> (r: Binary32)
        ensures
            r == smaller(self, rhs),
    {
        if self.lt_mask(rhs) != 0 {
            self
        } else {
            rhs
        }
    }

    /// `self` with 1.0 added `steps` times.
    pub(crate) fn advance_by(self, steps: i32) -> (r: Binary32)
        requires
            0 <= steps,
        ensures
            r == advanced(self, steps as nat),
    {
        let mut r = self;
        let mut done: i32 = 0;
        while done < steps
            invariant
                0 <= done <= steps,
                r == advanced(self, done as nat),
            decreases steps - done,
        {
            r = r.plus(Binary32::lit(ONE));
            done = done + 1;
        }
        r
    }
}

} // verus!
