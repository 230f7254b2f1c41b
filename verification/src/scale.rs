//! Rescaling of a buffer of raw samples into a target range.
//!
//! A first pass finds the least and the greatest sample; a second pass maps
//! every sample affinely, so that the least goes towards the lower end of the
//! target range and the greatest towards the upper end. Samples are ordered by
//! an integer key that follows the numeric order of their encodings.
use crate::binary32::{
    difference, order_key, order_key_of, product, quotient, sum, Binary32,
};
use vstd::prelude::*;

verus! {

/// The least sample: the first one, in buffer order, that no other sample's
/// key is below. Of an empty buffer it is arbitrary.
pub open spec fn lowest(s: Seq<Binary32>) -> Binary32
    decreases s.len(),
{
    if s.len() <= 1 {
        s[0]
    } else {
        let rest = lowest(s.drop_last());
        if order_key(s.last()) < order_key(rest) {
            s.last()
        } else {
            rest
        }
    }
}

/// The greatest sample: the first one, in buffer order, that no other
/// sample's key is above. Of an empty buffer it is arbitrary.
pub open spec fn highest(s: Seq<Binary32>) -> Binary32
    decreases s.len(),
{
    if s.len() <= 1 {
        s[0]
    } else {
        let rest = highest(s.drop_last());
        if order_key(s.last()) > order_key(rest) {
            s.last()
        } else {
            rest
        }
    }
}

/// The image of `raw` when `[lo, hi]` is mapped onto
/// `[target_min, target_max]`:
/// `target_min + (raw - lo) * (target_max - target_min) / (hi - lo)`,
/// and `target_min` where `lo` and `hi` coincide. Every step of the formula
/// rounds, so that the image of `hi` can lie one rounding step off
/// `target_max`.
pub open spec fn rescaled(
    raw: Binary32,
    lo: Binary32,
    hi: Binary32,
    target_min: Binary32,
    target_max: Binary32,
) -> Binary32 {
    if order_key(lo) == order_key(hi) {
        target_min
    } else {
        sum(
            target_min,
            quotient(
                product(difference(raw, lo), difference(target_max, target_min)),
                difference(hi, lo),
            ),
        )
    }
}

/// The buffer `raw` rescaled into `[target_min, target_max]`.
pub open spec fn scaled_buffer(
    raw: Seq<Binary32>,
    target_min: Binary32,
    target_max: Binary32,
) -> Seq<Binary32> {
    Seq::new(
        raw.len(),
        |i: int| rescaled(raw[i], lowest(raw), highest(raw), target_min, target_max),
    )
}

/// The least sample of a buffer that is not empty is one of its samples, and
/// no sample has a key below its key.
pub proof fn lemma_lowest_is_least(s: Seq<Binary32>)
    requires
        s.len() > 0,
    ensures
        s.contains(lowest(s)),
        forall|i: int| 0 <= i < s.len() ==> order_key(lowest(s)) <= order_key(#[trigger] s[i]),
    decreases s.len(),
{
    if s.len() == 1 {
        assert(s[0] == lowest(s));
    } else {
        let front = s.drop_last();
        lemma_lowest_is_least(front);
        let rest = lowest(front);
        let at = choose|i: int| 0 <= i < front.len() && front[i] == rest;
        assert(s[at] == rest);
        assert(s[s.len() - 1] == s.last());
        assert forall|i: int| 0 <= i < s.len() implies order_key(lowest(s)) <= order_key(
            #[trigger] s[i],
        ) by {
            if i < s.len() - 1 {
                assert(front[i] == s[i]);
            }
        }
    }
}

/// The greatest sample of a buffer that is not empty is one of its samples,
/// and no sample has a key above its key.
pub proof fn lemma_highest_is_greatest(s: Seq<Binary32>)
    requires
        s.len() > 0,
    ensures
        s.contains(highest(s)),
        forall|i: int| 0 <= i < s.len() ==> order_key(highest(s)) >= order_key(#[trigger] s[i]),
    decreases s.len(),
{
    if s.len() == 1 {
        assert(s[0] == highest(s));
    } else {
        let front = s.drop_last();
        lemma_highest_is_greatest(front);
        let rest = highest(front);
        let at = choose|i: int| 0 <= i < front.len() && front[i] == rest;
        assert(s[at] == rest);
        assert(s[s.len() - 1] == s.last());
        assert forall|i: int| 0 <= i < s.len() implies order_key(highest(s)) >= order_key(
            #[trigger] s[i],
        ) by {
            if i < s.len() - 1 {
                assert(front[i] == s[i]);
            }
        }
    }
}

/// Where every raw sample has the same key, and so in particular where all
/// raw samples are equal, every rescaled sample is the lower end of the
/// target range.
pub proof fn lemma_constant_buffer(raw: Seq<Binary32>, target_min: Binary32, target_max: Binary32)
    requires
        forall|i: int, j: int|
            0 <= i < raw.len() && 0 <= j < raw.len() ==> order_key(#[trigger] raw[i]) == order_key(
                #[trigger] raw[j],
            ),
    ensures
        forall|i: int|
            0 <= i < raw.len() ==> #[trigger] scaled_buffer(raw, target_min, target_max)[i]
                == target_min,
{
    if raw.len() > 0 {
        lemma_lowest_is_least(raw);
        lemma_highest_is_greatest(raw);
        let lo = choose|i: int| 0 <= i < raw.len() && raw[i] == lowest(raw);
        let hi = choose|i: int| 0 <= i < raw.len() && raw[i] == highest(raw);
        assert(order_key(raw[lo]) == order_key(raw[hi]));
    }
}

/// Rescaling keeps the shape of a buffer: one output for every raw sample.
pub proof fn lemma_scaled_length(raw: Seq<Binary32>, target_min: Binary32, target_max: Binary32)
    ensures
        scaled_buffer(raw, target_min, target_max).len() == raw.len(),
{
}

/// The least and the greatest sample of a buffer that is not empty.
pub fn extremes(buffer: &Vec<Binary32>) -> (r: (Binary32, Binary32))
    requires
        buffer@.len() > 0,
    ensures
        r.0 == lowest(buffer@),
        r.1 == highest(buffer@),
{
    let mut lo = buffer[0];
    let mut hi = buffer[0];
    let mut i: usize = 1;
    assert(buffer@.subrange(0, 1).len() == 1);
    assert(buffer@.subrange(0, 1)[0] == buffer@[0]);
    while i < buffer.len()
        invariant
            1 <= i <= buffer@.len(),
            lo == lowest(buffer@.subrange(0, i as int)),
            hi == highest(buffer@.subrange(0, i as int)),
        decreases buffer@.len() - i,
    {
        let v = buffer[i];
        proof {
            let next = buffer@.subrange(0, i + 1);
            assert(next.drop_last() =~= buffer@.subrange(0, i as int));
            assert(next.last() == v);
        }
        if order_key_of(v) < order_key_of(lo) {
            lo = v;
        }
        if order_key_of(v) > order_key_of(hi) {
            hi = v;
        }
        i = i + 1;
    }
    assert(buffer@.subrange(0, i as int) =~= buffer@);
    (lo, hi)
}

/// The image of `raw` when `[lo, hi]` is mapped onto
/// `[target_min, target_max]`.
pub fn rescale(
    raw: Binary32,
    lo: Binary32,
    hi: Binary32,
    target_min: Binary32,
    target_max: Binary32,
) -> (r: Binary32)
    ensures
        r == rescaled(raw, lo, hi, target_min, target_max),
{
    if order_key_of(lo) == order_key_of(hi) {
        target_min
    } else {
        target_min.plus(raw.minus(lo).times(target_max.minus(target_min)).over(hi.minus(lo)))
    }
}

/// Rescales the buffer in place into `[target_min, target_max]`. An empty
/// buffer stays empty.
pub fn scale(buffer: &mut Vec<Binary32>, target_min: Binary32, target_max: Binary32)
    ensures
        final(buffer)@ == scaled_buffer(old(buffer)@, target_min, target_max),
{
    if buffer.len() == 0 {
        assert(buffer@ =~= scaled_buffer(buffer@, target_min, target_max));
        return ;
    }
    let ghost raw = buffer@;
    let (lo, hi) = extremes(buffer);
    let mut i: usize = 0;
    while i < buffer.len()
        invariant
            0 <= i <= buffer@.len(),
            buffer@.len() == raw.len(),
            lo == lowest(raw),
            hi == highest(raw),
            forall|j: int|
                0 <= j < i ==> #[trigger] buffer@[j] == rescaled(
                    raw[j],
                    lo,
                    hi,
                    target_min,
                    target_max,
                ),
            forall|j: int| i <= j < raw.len() ==> #[trigger] buffer@[j] == raw[j],
        decreases buffer@.len() - i,
    {
        let v = rescale(buffer[i], lo, hi, target_min, target_max);
        buffer.set(i, v);
        i = i + 1;
    }
    assert(buffer@ =~= scaled_buffer(raw, target_min, target_max));
}

} // verus!
