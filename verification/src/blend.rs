//! The alpha-blend arithmetic: one sample blended toward opaque white, the
//! opacity given as a whole percentage.
//!
//! With opacity `alpha` (in hundredths, 0..=100), a sample `v` out of a range
//! `0..=rmax` becomes the round-half-up value of
//! `((100 - alpha) * rmax + alpha * v) / 100`: the white background weighted
//! by the lost opacity plus the original sample weighted by the kept opacity.
//! Rounding is half-up, applied uniformly to every sample of every layout.

use crate::buffer::MAX_SAMPLE_16;
use vstd::arithmetic::div_mod::{lemma_div_is_ordered, lemma_div_multiples_vanish_fancy};
use vstd::prelude::*;

verus! {

/// The blended value of one sample: opacity `alpha` (in hundredths) of the
/// original `v` over a white background of brightness `rmax`, rounded
/// half-up.
pub open spec fn blend(alpha: int, v: int, rmax: int) -> int {
    ((100 - alpha) * rmax + alpha * v + 50) / 100
}

/// The whole buffer model after blending: every sample blended
/// independently, in place.
pub open spec fn blended_samples(s: Seq<int>, alpha: int, rmax: int) -> Seq<int> {
    s.map_values(|v: int| blend(alpha, v, rmax))
}

/// A blended sample stays within the sample range: no overflow, no
/// wraparound, for any opacity in 0..=100 and any sample in 0..=rmax.
pub proof fn lemma_blend_in_range(alpha: int, v: int, rmax: int)
    requires
        0 <= alpha <= 100,
        0 <= v <= rmax,
    ensures
        0 <= blend(alpha, v, rmax) <= rmax,
{
    assert(0 <= (100 - alpha) * rmax + alpha * v <= 100 * rmax) by (nonlinear_arith)
        requires
            0 <= alpha <= 100,
            0 <= v <= rmax,
    ;
    lemma_div_is_ordered(0, (100 - alpha) * rmax + alpha * v + 50, 100);
    lemma_div_is_ordered((100 - alpha) * rmax + alpha * v + 50, 100 * rmax + 50, 100);
    lemma_div_multiples_vanish_fancy(rmax, 50, 100);
}

/// Blending at full opacity is the identity: every sample keeps its value.
pub proof fn lemma_blend_full_opacity(v: int, rmax: int)
    requires
        0 <= v,
    ensures
        blend(100, v, rmax) == v,
{
    lemma_div_multiples_vanish_fancy(v, 50, 100);
}

/// Blending at zero opacity is pure white: every sample becomes `rmax`.
pub proof fn lemma_blend_zero_opacity(v: int, rmax: int)
    requires
        0 <= rmax,
    ensures
        blend(0, v, rmax) == rmax,
{
    lemma_div_multiples_vanish_fancy(rmax, 50, 100);
}

/// Monotonic whitening: for a sample below the range maximum, lowering the
/// opacity never darkens the rounded result, and strictly raises the exact
/// (pre-rounding) weighted sum.
pub proof fn lemma_blend_monotonic(alpha_lo: int, alpha_hi: int, v: int, rmax: int)
    requires
        0 <= alpha_lo < alpha_hi <= 100,
        0 <= v < rmax,
    ensures
        blend(alpha_lo, v, rmax) >= blend(alpha_hi, v, rmax),
        (100 - alpha_lo) * rmax + alpha_lo * v > (100 - alpha_hi) * rmax + alpha_hi * v,
{
    assert((100 - alpha_lo) * rmax + alpha_lo * v > (100 - alpha_hi) * rmax + alpha_hi * v)
        by (nonlinear_arith)
        requires
            0 <= alpha_lo < alpha_hi <= 100,
            0 <= v < rmax,
    ;
    lemma_div_is_ordered(
        (100 - alpha_hi) * rmax + alpha_hi * v + 50,
        (100 - alpha_lo) * rmax + alpha_lo * v + 50,
        100,
    );
}

/// One sample blended toward white. The arithmetic is written once, over a
/// sample width given by `rmax`; the per-layout loops specialize it.
pub fn blend_sample(alpha: u8, v: u32, rmax: u32) -> (r: u32)
    requires
        alpha <= 100,
        v <= rmax,
        rmax <= MAX_SAMPLE_16,
    ensures
        r == blend(alpha as int, v as int, rmax as int),
        r <= rmax,
{
    proof {
        assert(0 <= (100 - alpha) * rmax + alpha * v <= 100 * rmax) by (nonlinear_arith)
            requires
                alpha <= 100,
                v <= rmax,
        ;
        lemma_blend_in_range(alpha as int, v as int, rmax as int);
    }
    let numerator: u32 = (100 - alpha as u32) * rmax + alpha as u32 * v + 50;
    numerator / 100
}

} // verus!
