//! End-to-end behavior of the pixel pipeline: compositing extremes,
//! dimension and channel preservation, layout rejection, and the concrete
//! blend and luminance values.

use pixelblend::buffer::PixelBuffer;
use pixelblend::gray::grayscale_reduce;
use pixelblend::pipeline::{composite, process, PipelineError};

fn rgb8(width: u32, height: u32, data: Vec<u8>) -> PixelBuffer {
    PixelBuffer::new_rgb8(width, height, data).unwrap()
}

fn luma8(width: u32, height: u32, data: Vec<u8>) -> PixelBuffer {
    PixelBuffer::new_luma8(width, height, data).unwrap()
}

fn rgb16(width: u32, height: u32, data: Vec<u16>) -> PixelBuffer {
    PixelBuffer::new_rgb16(width, height, data).unwrap()
}

fn rgba8(width: u32, height: u32, data: Vec<u8>) -> PixelBuffer {
    PixelBuffer::new_rgba8(width, height, data).unwrap()
}

#[test]
fn full_opacity_is_identity_rgb8() {
    let b = rgb8(2, 1, vec![0, 17, 255, 100, 150, 200]);
    assert_eq!(composite(&b, 100).unwrap(), b);
}

#[test]
fn full_opacity_is_identity_luma8() {
    let b = luma8(3, 1, vec![0, 128, 255]);
    assert_eq!(composite(&b, 100).unwrap(), b);
}

#[test]
fn full_opacity_is_identity_rgb16() {
    let b = rgb16(1, 1, vec![0, 30000, 65535]);
    assert_eq!(composite(&b, 100).unwrap(), b);
}

#[test]
fn zero_opacity_is_white_rgb8() {
    let b = rgb8(2, 1, vec![0, 17, 255, 100, 150, 200]);
    let out = composite(&b, 0).unwrap();
    assert_eq!(out, rgb8(2, 1, vec![255; 6]));
}

#[test]
fn zero_opacity_is_white_rgb16() {
    let b = rgb16(1, 1, vec![0, 30000, 65535]);
    let out = composite(&b, 0).unwrap();
    assert_eq!(out, rgb16(1, 1, vec![65535; 3]));
}

#[test]
fn composite_preserves_dimensions() {
    let b = rgb8(3, 2, vec![7; 18]);
    let out = composite(&b, 42).unwrap();
    assert_eq!(out.width(), 3);
    assert_eq!(out.height(), 2);
}

#[test]
fn grayscale_preserves_dimensions() {
    let b = rgb8(3, 2, vec![7; 18]);
    let out = grayscale_reduce(&b);
    assert_eq!(out.width(), 3);
    assert_eq!(out.height(), 2);
}

#[test]
fn grayscale_yields_one_channel() {
    for b in [
        rgb8(2, 2, vec![9; 12]),
        rgb16(2, 2, vec![9; 12]),
        rgba8(2, 2, vec![9; 16]),
        luma8(2, 2, vec![9; 4]),
    ] {
        let out = grayscale_reduce(&b);
        assert!(matches!(out, PixelBuffer::Luma8 { .. }));
    }
}

#[test]
fn outputs_stay_in_sample_range() {
    // Every 8-bit output sample is a u8 by construction; check the blend
    // never wraps at the extremes of the input range.
    let b = rgb8(1, 2, vec![0, 0, 0, 255, 255, 255]);
    let lo = composite(&b, 0).unwrap();
    let hi = composite(&b, 100).unwrap();
    match (lo, hi) {
        (
            PixelBuffer::Rgb8 { data: lo_data, .. },
            PixelBuffer::Rgb8 { data: hi_data, .. },
        ) => {
            assert_eq!(lo_data, vec![255; 6]);
            assert_eq!(hi_data, vec![0, 0, 0, 255, 255, 255]);
        },
        _ => panic!("layout changed"),
    }
}

#[test]
fn whitening_is_monotone_in_opacity() {
    // For a fixed sample below the maximum, lowering the kept opacity never
    // darkens the output.
    let mut last = 0u8;
    for alpha in (0..=100u8).rev() {
        let b = luma8(1, 1, vec![90]);
        match composite(&b, alpha).unwrap() {
            PixelBuffer::Luma8 { data, .. } => {
                assert!(data[0] >= last);
                last = data[0];
            },
            _ => panic!("layout changed"),
        }
    }
    assert_eq!(last, 255);
}

#[test]
fn unsupported_layout_is_rejected() {
    let b = rgba8(1, 1, vec![10, 20, 30, 40]);
    assert_eq!(composite(&b, 50), Err(PipelineError::UnsupportedLayout));
}

#[test]
fn half_opacity_rgb8_pixel() {
    // (100, 150, 200) at half opacity against white, rounded half-up.
    let b = rgb8(1, 1, vec![100, 150, 200]);
    let out = composite(&b, 50).unwrap();
    assert_eq!(out, rgb8(1, 1, vec![178, 203, 228]));
}

#[test]
fn half_opacity_rgb16_pixel() {
    let b = rgb16(1, 1, vec![0, 30000, 65535]);
    let out = composite(&b, 25).unwrap();
    // (75 * 65535 + 25 * v + 50) / 100 for v in {0, 30000, 65535}.
    assert_eq!(out, rgb16(1, 1, vec![49151, 56651, 65535]));
}

#[test]
fn grayscale_then_half_opacity_on_pure_red() {
    // Luminance of (255, 0, 0) is 2126 * 255 / 10000 = 54; blended at half
    // opacity: (50 * 255 + 50 * 54 + 50) / 100 = 155.
    let b = rgb8(1, 1, vec![255, 0, 0]);
    let gray = grayscale_reduce(&b);
    assert_eq!(gray, luma8(1, 1, vec![54]));
    let out = process(b, true, 50).unwrap();
    assert_eq!(out, luma8(1, 1, vec![155]));
}

#[test]
fn default_opacity_without_gray_is_untouched() {
    let b = rgb8(2, 1, vec![1, 2, 3, 4, 5, 6]);
    let out = process(b.clone(), false, 100).unwrap();
    assert_eq!(out, b);
}

#[test]
fn opacity_above_hundred_is_untouched() {
    let b = rgba8(1, 1, vec![9, 8, 7, 6]);
    let out = process(b.clone(), false, 255).unwrap();
    assert_eq!(out, b);
}

#[test]
fn grayscale_of_luma8_is_identity() {
    let b = luma8(2, 2, vec![0, 77, 128, 255]);
    assert_eq!(grayscale_reduce(&b), b);
}

#[test]
fn grayscale_of_rgb8_weights_channels() {
    // 2126 * r / 10000 for pure red, 7152 * g / 10000 for pure green,
    // 722 * b / 10000 for pure blue, truncated.
    let b = rgb8(3, 1, vec![255, 0, 0, 0, 255, 0, 0, 0, 255]);
    assert_eq!(grayscale_reduce(&b), luma8(3, 1, vec![54, 182, 18]));
}

#[test]
fn grayscale_of_rgba8_ignores_alpha() {
    let b = rgba8(2, 1, vec![255, 0, 0, 200, 255, 0, 0, 10]);
    assert_eq!(grayscale_reduce(&b), luma8(2, 1, vec![54, 54]));
}

#[test]
fn grayscale_of_rgb16_narrows_then_weights() {
    // 65535 narrows to 255, 32768 narrows to (32768 + 128) / 257 = 128.
    let b = rgb16(2, 1, vec![65535, 0, 0, 32768, 32768, 32768]);
    assert_eq!(grayscale_reduce(&b), luma8(2, 1, vec![54, 128]));
}

#[test]
fn process_grayscale_without_compositing() {
    let b = rgb8(1, 1, vec![255, 0, 0]);
    let out = process(b, true, 100).unwrap();
    assert_eq!(out, luma8(1, 1, vec![54]));
}

#[test]
fn process_rejects_unsupported_layout_when_compositing() {
    let b = rgba8(1, 1, vec![1, 2, 3, 4]);
    assert_eq!(process(b, false, 99), Err(PipelineError::UnsupportedLayout));
}

#[test]
fn process_grayscales_unsupported_layout_first() {
    // Grayscale turns the four-channel layout into a supported one before
    // compositing, so the pipeline succeeds.
    let b = rgba8(1, 1, vec![255, 0, 0, 9]);
    let out = process(b, true, 50).unwrap();
    assert_eq!(out, luma8(1, 1, vec![155]));
}

#[test]
fn constructor_rejects_wrong_length() {
    assert!(PixelBuffer::new_rgb8(2, 2, vec![0; 11]).is_none());
    assert!(PixelBuffer::new_rgb8(2, 2, vec![0; 12]).is_some());
    assert!(PixelBuffer::new_luma8(2, 2, vec![0; 5]).is_none());
    assert!(PixelBuffer::new_rgb16(1, 2, vec![0; 6]).is_some());
    assert!(PixelBuffer::new_rgba8(1, 2, vec![0; 6]).is_none());
}
