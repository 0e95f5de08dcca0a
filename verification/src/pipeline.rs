//! The compositor dispatch and the two-step orchestration: optional
//! grayscale reduction first, then optional alpha-compositing against white,
//! in that fixed order.

use crate::blend::{
    blend, blend_sample, blended_samples, lemma_blend_full_opacity, lemma_blend_zero_opacity,
};
use crate::buffer::{PixelBuffer, MAX_SAMPLE_16, MAX_SAMPLE_8};
use crate::gray::{gray_samples, grayscale_reduce};
use vstd::prelude::*;

verus! {

/// The fixed density at which an output page is sized to its image, in dots
/// per inch. Set once for the whole process; never changed at run time.
pub const DPI: u32 = 300;

/// How the pipeline fails.
#[derive(Debug, Clone, Copy, PartialEq, Eq, Structural)]
pub enum PipelineError {
    /// Compositing was asked of a pixel layout outside the supported set.
    UnsupportedLayout,
}

/// Every 8-bit sample of a flat vector blended toward white.
fn blend_all_u8(data: &Vec<u8>, alpha: u8) -> (out: Vec<u8>)
    requires
        alpha <= 100,
    ensures
        out@.len() == data@.len(),
        forall|i: int|
            0 <= i < data@.len() ==> out@[i] as int == blend(
                alpha as int,
                data@[i] as int,
                MAX_SAMPLE_8 as int,
            ),
{
    let n = data.len();
    let mut out: Vec<u8> = Vec::new();
    let mut i: usize = 0;
    while i < n
        invariant
            alpha <= 100,
            n == data@.len(),
            i <= n,
            out@.len() == i,
            forall|j: int|
                0 <= j < i ==> out@[j] as int == blend(
                    alpha as int,
                    data@[j] as int,
                    MAX_SAMPLE_8 as int,
                ),
        decreases n - i,
    {
        let b = blend_sample(alpha, data[i] as u32, MAX_SAMPLE_8);
        out.push(b as u8);
        i = i + 1;
    }
    out
}

/// Every 16-bit sample of a flat vector blended toward white.
fn blend_all_u16(data: &Vec<u16>, alpha: u8) -> (out: Vec<u16>)
    requires
        alpha <= 100,
    ensures
        out@.len() == data@.len(),
        forall|i: int|
            0 <= i < data@.len() ==> out@[i] as int == blend(
                alpha as int,
                data@[i] as int,
                MAX_SAMPLE_16 as int,
            ),
{
    let n = data.len();
    let mut out: Vec<u16> = Vec::new();
    let mut i: usize = 0;
    while i < n
        invariant
            alpha <= 100,
            n == data@.len(),
            i <= n,
            out@.len() == i,
            forall|j: int|
                0 <= j < i ==> out@[j] as int == blend(
                    alpha as int,
                    data@[j] as int,
                    MAX_SAMPLE_16 as int,
                ),
        decreases n - i,
    {
        let b = blend_sample(alpha, data[i] as u32, MAX_SAMPLE_16);
        out.push(b as u16);
        i = i + 1;
    }
    out
}

/// Blend every sample of a buffer toward opaque white, keeping `alpha`
/// hundredths of the original intensity. One arithmetic, dispatched over the
/// closed set of supported layouts; any other layout is rejected, never
/// silently mis-processed.
pub fn composite(buffer: &PixelBuffer, alpha: u8) -> (r: Result<PixelBuffer, PipelineError>)
    requires
        alpha <= 100,
    ensures
        r is Ok <==> buffer.supported_for_blend(),
        !buffer.supported_for_blend() ==> r == Err::<PixelBuffer, PipelineError>(
            PipelineError::UnsupportedLayout,
        ),
        r matches Ok(out) ==> {
            &&& out.same_layout(buffer)
            &&& out.samples() == blended_samples(
                buffer.samples(),
                alpha as int,
                buffer.sample_max(),
            )
            &&& forall|i: int|
                0 <= i < out.samples().len() ==> 0 <= #[trigger] out.samples()[i]
                    <= buffer.sample_max()
            &&& buffer.well_formed() ==> out.well_formed()
        },
{
    match buffer {
        PixelBuffer::Luma8 { width, height, data } => {
            let out = blend_all_u8(data, alpha);
            let r = PixelBuffer::Luma8 { width: *width, height: *height, data: out };
            proof {
                assert(r.samples() =~= blended_samples(
                    buffer.samples(),
                    alpha as int,
                    buffer.sample_max(),
                ));
            }
            Ok(r)
        },
        PixelBuffer::Rgb8 { width, height, data } => {
            let out = blend_all_u8(data, alpha);
            let r = PixelBuffer::Rgb8 { width: *width, height: *height, data: out };
            proof {
                assert(r.samples() =~= blended_samples(
                    buffer.samples(),
                    alpha as int,
                    buffer.sample_max(),
                ));
            }
            Ok(r)
        },
        PixelBuffer::Rgb16 { width, height, data } => {
            let out = blend_all_u16(data, alpha);
            let r = PixelBuffer::Rgb16 { width: *width, height: *height, data: out };
            proof {
                assert(r.samples() =~= blended_samples(
                    buffer.samples(),
                    alpha as int,
                    buffer.sample_max(),
                ));
            }
            Ok(r)
        },
        PixelBuffer::Rgba8 { .. } => Err(PipelineError::UnsupportedLayout),
    }
}

/// The whole pipeline over one decoded buffer: grayscale reduction if asked
/// for, then compositing toward white if the kept opacity is below one
/// hundred percent, in that fixed order. An opacity of one hundred or more
/// leaves the buffer untouched; compositing a layout outside the supported
/// set is rejected, which can only happen when grayscale was not asked for.
pub fn process(buffer: PixelBuffer, to_gray: bool, alpha: u8) -> (r: Result<
    PixelBuffer,
    PipelineError,
>)
    requires
        buffer.well_formed(),
    ensures
        r is Ok <==> (to_gray || alpha >= 100 || buffer.supported_for_blend()),
        r matches Ok(out) ==> {
            &&& out.well_formed()
            &&& out.spec_width() == buffer.spec_width()
            &&& out.spec_height() == buffer.spec_height()
        },
        to_gray && alpha < 100 ==> (r matches Ok(out) && out is Luma8 && out.samples()
            == blended_samples(gray_samples(&buffer), alpha as int, MAX_SAMPLE_8 as int)),
        to_gray && alpha >= 100 ==> (r matches Ok(out) && out is Luma8 && out.samples()
            == gray_samples(&buffer)),
        !to_gray && alpha < 100 && buffer.supported_for_blend() ==> (r matches Ok(out)
            && out.same_layout(&buffer) && out.samples() == blended_samples(
            buffer.samples(),
            alpha as int,
            buffer.sample_max(),
        )),
        !to_gray && alpha < 100 && !buffer.supported_for_blend() ==> r == Err::<
            PixelBuffer,
            PipelineError,
        >(PipelineError::UnsupportedLayout),
        !to_gray && alpha >= 100 ==> r == Ok::<PixelBuffer, PipelineError>(buffer),
{
    if to_gray {
        let g = grayscale_reduce(&buffer);
        if alpha < 100 {
            composite(&g, alpha)
        } else {
            Ok(g)
        }
    } else {
        if alpha < 100 {
            composite(&buffer, alpha)
        } else {
            Ok(buffer)
        }
    }
}

/// Compositing at full opacity is the identity: with every hundredth of the
/// original intensity kept, every sample of every supported layout keeps its
/// value, so the blended buffer model equals the original buffer model.
pub proof fn lemma_composite_full_opacity_identity(buffer: &PixelBuffer)
    ensures
        blended_samples(buffer.samples(), 100, buffer.sample_max()) == buffer.samples(),
{
    let s = buffer.samples();
    assert forall|i: int| 0 <= i < s.len() implies #[trigger] blended_samples(
        s,
        100,
        buffer.sample_max(),
    )[i] == s[i] by {
        lemma_blend_full_opacity(s[i], buffer.sample_max());
    }
    assert(blended_samples(s, 100, buffer.sample_max()) =~= s);
}

/// Compositing at zero opacity is pure white: every sample of the blended
/// buffer model equals the layout's sample range, whatever the original
/// content.
pub proof fn lemma_composite_zero_opacity_white(buffer: &PixelBuffer)
    ensures
        blended_samples(buffer.samples(), 0, buffer.sample_max()).len()
            == buffer.samples().len(),
        forall|i: int|
            0 <= i < buffer.samples().len() ==> #[trigger] blended_samples(
                buffer.samples(),
                0,
                buffer.sample_max(),
            )[i] == buffer.sample_max(),
{
    let s = buffer.samples();
    assert forall|i: int| 0 <= i < s.len() implies #[trigger] blended_samples(
        s,
        0,
        buffer.sample_max(),
    )[i] == buffer.sample_max() by {
        lemma_blend_zero_opacity(s[i], buffer.sample_max());
    }
}

} // verus!
