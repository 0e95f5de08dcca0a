//! Turns raster pixel buffers into print-ready page content: an optional
//! grayscale reduction followed by an optional alpha-composite against an
//! opaque white background, applied uniformly over a small closed set of
//! pixel layouts.

pub mod blend;
pub mod buffer;
pub mod gray;
pub mod pipeline;
