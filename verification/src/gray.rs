//! Grayscale reduction: collapse any supported pixel layout to one 8-bit
//! luminance sample per pixel, with the same dimensions.
//!
//! The per-pixel weighting is the image crate's standard sRGB luminance
//! reduction: `(2126*r + 7152*g + 722*b) / 10000` over 8-bit channels, each
//! 16-bit channel first narrowed to 8 bits as `(c + 128) / 257`. The loops
//! over the pixel grid are verified here; only the one-pixel weighting call
//! into the image crate is trusted.

use crate::buffer::PixelBuffer;
use vstd::prelude::*;

verus! {

/// The sRGB luminance weighting of one pixel's 8-bit channels, as the image
/// crate computes it: integer arithmetic, truncating division.
pub open spec fn luma_weight(r: int, g: int, b: int) -> int {
    (2126 * r + 7152 * g + 722 * b) / 10000
}

/// A 16-bit channel narrowed to 8 bits, as the image crate narrows it:
/// `round(c * 255 / 65535)`, computed as `(c + 128) / 257`.
pub open spec fn narrow16(c: int) -> int {
    (c + 128) / 257
}

/// The buffer model after grayscale reduction: one luminance sample per
/// pixel, in pixel order.
pub open spec fn gray_samples(b: &PixelBuffer) -> Seq<int> {
    match b {
        PixelBuffer::Luma8 { data, .. } => data@.map_values(
            |v: u8| luma_weight(v as int, v as int, v as int),
        ),
        PixelBuffer::Rgb8 { data, .. } => Seq::new(
            data@.len() / 3,
            |p: int|
                luma_weight(
                    data@[3 * p] as int,
                    data@[3 * p + 1] as int,
                    data@[3 * p + 2] as int,
                ),
        ),
        PixelBuffer::Rgb16 { data, .. } => Seq::new(
            data@.len() / 3,
            |p: int|
                luma_weight(
                    narrow16(data@[3 * p] as int),
                    narrow16(data@[3 * p + 1] as int),
                    narrow16(data@[3 * p + 2] as int),
                ),
        ),
        PixelBuffer::Rgba8 { data, .. } => Seq::new(
            data@.len() / 4,
            |p: int|
                luma_weight(
                    data@[4 * p] as int,
                    data@[4 * p + 1] as int,
                    data@[4 * p + 2] as int,
                ),
        ),
    }
}

/// The luminance weighting of a pixel whose channels are all equal is that
/// channel unchanged: the weights sum to the divisor.
pub proof fn lemma_luma_of_equal_channels(v: int)
    requires
        0 <= v,
    ensures
        luma_weight(v, v, v) == v,
{
    assert(2126 * v + 7152 * v + 722 * v == 10000 * v);
    assert((10000 * v) / 10000 == v) by {
        vstd::arithmetic::div_mod::lemma_div_multiples_vanish(v, 10000);
    }
}

/// Relies on `image::imageops::grayscale` over a one-pixel
/// `DynamicImage::ImageRgba8`: the luminance of an 8-bit pixel is
/// `(2126*r + 7152*g + 722*b) / 10000`; the alpha channel is discarded.
#[verifier::external_body]
fn luma_of_rgba8_px(r: u8, g: u8, b: u8, a: u8) -> (l: u8)
    ensures
        l as int == luma_weight(r as int, g as int, b as int),
{
    let buf = image::ImageBuffer::from_raw(1, 1, vec![r, g, b, a]).unwrap();
    let gray = image::imageops::grayscale(&image::DynamicImage::ImageRgba8(buf));
    gray.as_raw()[0]
}

/// Relies on `image::imageops::grayscale` over a one-pixel
/// `DynamicImage::ImageRgb16`: each 16-bit channel is narrowed to 8 bits as
/// `(c + 128) / 257`, then weighted as for an 8-bit pixel.
#[verifier::external_body]
fn luma_of_rgb16_px(r: u16, g: u16, b: u16) -> (l: u8)
    ensures
        l as int == luma_weight(
            narrow16(r as int),
            narrow16(g as int),
            narrow16(b as int),
        ),
{
    let buf = image::ImageBuffer::from_raw(1, 1, vec![r, g, b]).unwrap();
    let gray = image::imageops::grayscale(&image::DynamicImage::ImageRgb16(buf));
    gray.as_raw()[0]
}

/// Luminance of a buffer that is already single-channel: each sample is
/// weighted with itself on every channel.
fn gray_of_luma8(data: &Vec<u8>) -> (out: Vec<u8>)
    ensures
        out@.len() == data@.len(),
        forall|p: int|
            0 <= p < data@.len() ==> out@[p] as int == luma_weight(
                data@[p] as int,
                data@[p] as int,
                data@[p] as int,
            ),
{
    let n = data.len();
    let mut out: Vec<u8> = Vec::new();
    let mut p: usize = 0;
    while p < n
        invariant
            n == data@.len(),
            p <= n,
            out@.len() == p,
            forall|q: int|
                0 <= q < p ==> out@[q] as int == luma_weight(
                    data@[q] as int,
                    data@[q] as int,
                    data@[q] as int,
                ),
        decreases n - p,
    {
        let v = data[p];
        let l = luma_of_rgba8_px(v, v, v, 255);
        out.push(l);
        p = p + 1;
    }
    out
}

/// Luminance of a buffer of 8-bit pixels packed `stride` samples apart, the
/// first three samples of each pixel being red, green and blue.
fn gray_of_packed8(data: &Vec<u8>, stride: usize) -> (out: Vec<u8>)
    requires
        stride == 3 || stride == 4,
    ensures
        out@.len() == data@.len() as int / stride as int,
        forall|p: int|
            0 <= p < out@.len() ==> out@[p] as int == luma_weight(
                data@[stride as int * p] as int,
                data@[stride as int * p + 1] as int,
                data@[stride as int * p + 2] as int,
            ),
{
    let n = data.len() / stride;
    let mut out: Vec<u8> = Vec::new();
    let mut p: usize = 0;
    while p < n
        invariant
            stride == 3 || stride == 4,
            n == data@.len() as int / stride as int,
            stride * n <= data@.len(),
            data@.len() <= usize::MAX,
            p <= n,
            out@.len() == p,
            forall|q: int|
                0 <= q < p ==> out@[q] as int == luma_weight(
                    data@[stride as int * q] as int,
                    data@[stride as int * q + 1] as int,
                    data@[stride as int * q + 2] as int,
                ),
        decreases n - p,
    {
        let base = stride * p;
        let l = luma_of_rgba8_px(data[base], data[base + 1], data[base + 2], 255);
        out.push(l);
        p = p + 1;
    }
    out
}

/// Luminance of a buffer of 16-bit red-green-blue pixels: channels narrowed
/// to 8 bits, then weighted.
fn gray_of_rgb16(data: &Vec<u16>) -> (out: Vec<u8>)
    ensures
        out@.len() == data@.len() / 3,
        forall|p: int|
            0 <= p < out@.len() ==> out@[p] as int == luma_weight(
                narrow16(data@[3 * p] as int),
                narrow16(data@[3 * p + 1] as int),
                narrow16(data@[3 * p + 2] as int),
            ),
{
    let n = data.len() / 3;
    let mut out: Vec<u8> = Vec::new();
    let mut p: usize = 0;
    while p < n
        invariant
            n == data@.len() / 3,
            3 * n <= data@.len(),
            data@.len() <= usize::MAX,
            p <= n,
            out@.len() == p,
            forall|q: int|
                0 <= q < p ==> out@[q] as int == luma_weight(
                    narrow16(data@[3 * q] as int),
                    narrow16(data@[3 * q + 1] as int),
                    narrow16(data@[3 * q + 2] as int),
                ),
        decreases n - p,
    {
        let base = 3 * p;
        let l = luma_of_rgb16_px(data[base], data[base + 1], data[base + 2]);
        out.push(l);
        p = p + 1;
    }
    out
}

/// Collapse a buffer of any supported layout to one 8-bit luminance sample
/// per pixel. Dimensions are preserved exactly; the result always has one
/// channel; the reduction is total and leaves the input untouched.
pub fn grayscale_reduce(buffer: &PixelBuffer) -> (r: PixelBuffer)
    requires
        buffer.well_formed(),
    ensures
        r is Luma8,
        r.spec_width() == buffer.spec_width(),
        r.spec_height() == buffer.spec_height(),
        r.channels() == 1,
        r.well_formed(),
        r.samples() == gray_samples(buffer),
        buffer is Luma8 ==> r.samples() == buffer.samples(),
{
    match buffer {
        PixelBuffer::Luma8 { width, height, data } => {
            let out = gray_of_luma8(data);
            let r = PixelBuffer::Luma8 { width: *width, height: *height, data: out };
            proof {
                assert(r.samples() =~= gray_samples(buffer));
                assert forall|q: int| 0 <= q < data@.len() implies #[trigger] r.samples()[q]
                    == buffer.samples()[q] by {
                    lemma_luma_of_equal_channels(data@[q] as int);
                }
                assert(r.samples() =~= buffer.samples());
            }
            r
        },
        PixelBuffer::Rgb8 { width, height, data } => {
            let out = gray_of_packed8(data, 3);
            let r = PixelBuffer::Luma8 { width: *width, height: *height, data: out };
            proof {
                assert(r.samples() =~= gray_samples(buffer));
            }
            r
        },
        PixelBuffer::Rgb16 { width, height, data } => {
            let out = gray_of_rgb16(data);
            let r = PixelBuffer::Luma8 { width: *width, height: *height, data: out };
            proof {
                assert(r.samples() =~= gray_samples(buffer));
            }
            r
        },
        PixelBuffer::Rgba8 { width, height, data } => {
            let out = gray_of_packed8(data, 4);
            let r = PixelBuffer::Luma8 { width: *width, height: *height, data: out };
            proof {
                assert(r.samples() =~= gray_samples(buffer));
            }
            r
        },
    }
}

} // verus!
