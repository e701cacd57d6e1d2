//! What a caller can ask for, and the policies that follow from the options alone.

use vstd::prelude::*;
use crate::dimensions::{calculate_new_dimensions, new_dimensions};

verus! {

/// Target size of a resize request.
#[derive(Debug, Clone)]
pub struct ResizeOptions {
    pub width: Option<u32>,
    pub height: Option<u32>,
    pub maintain_aspect_ratio: bool,
}

/// Settings of a palette compression request.
#[derive(Debug, Clone)]
pub struct QuantOptions {
    pub quality: u8,
}

/// Container format of the output.
#[derive(Debug, Clone, Copy, PartialEq, Eq, Structural)]
pub enum OutputFormat {
    Png,
    Webp,
}

/// Options of the multi-stage pipeline, shared by every item of a batch.
#[derive(Debug, Clone)]
pub struct ProcessOptions {
    pub resize_enabled: bool,
    pub width: Option<u32>,
    pub height: Option<u32>,
    pub maintain_aspect_ratio: bool,
    /// Palette quantization, for PNG output only.
    pub quantize_enabled: bool,
    /// Percentage: the quantization ceiling for PNG, the encoder quality for WebP.
    pub quality: u8,
    /// Lossless recompression, for PNG output only.
    pub optimize_enabled: bool,
    /// Where outputs go; `None` puts each output beside its input.
    pub output_dir: Option<String>,
    pub output_format: OutputFormat,
}

/// How a WebP image is encoded.
#[derive(Debug, Clone, Copy, PartialEq, Eq, Structural)]
pub enum WebpMode {
    Lossless,
    Lossy { quality: u8 },
}

/// The quality band handed to the quantizer: ten points below the requested
/// quality, but not below zero, up to the requested quality.
pub open spec fn quality_band_of(quality: u8) -> (u8, u8) {
    (
        if quality >= 10 {
            (quality - 10) as u8
        } else {
            0u8
        },
        quality,
    )
}

/// Computes the quantization quality band `(minimum, target)`.
pub fn quality_band(quality: u8) -> (band: (u8, u8))
    ensures
        band == quality_band_of(quality),
        band.0 <= band.1,
        band.1 - band.0 <= 10,
{
    if quality >= 10 {
        (quality - 10, quality)
    } else {
        (0, quality)
    }
}

/// A quality of 100 or more selects lossless encoding; anything below is the
/// quality of a lossy encoding.
pub open spec fn webp_mode_of(quality: u8) -> WebpMode {
    if quality >= 100 {
        WebpMode::Lossless
    } else {
        WebpMode::Lossy { quality }
    }
}

/// Chooses the WebP encoding for a requested quality. No other option matters.
pub fn webp_mode(quality: u8) -> (mode: WebpMode)
    ensures
        mode == webp_mode_of(quality),
        quality >= 100 <==> mode == WebpMode::Lossless,
        quality < 100 <==> mode == (WebpMode::Lossy { quality }),
{
    if quality >= 100 {
        WebpMode::Lossless
    } else {
        WebpMode::Lossy { quality }
    }
}

/// The file extension of an output format.
pub open spec fn extension_of(format: OutputFormat) -> Seq<char> {
    match format {
        OutputFormat::Png => "png"@,
        OutputFormat::Webp => "webp"@,
    }
}

/// Returns the file extension of an output format, without a dot.
pub fn extension(format: OutputFormat) -> (ext: &'static str)
    ensures
        ext@ == extension_of(format),
{
    match format {
        OutputFormat::Png => "png",
        OutputFormat::Webp => "webp",
    }
}

impl ProcessOptions {
    /// The resize stage runs when it is enabled and at least one target is given.
    pub open spec fn resizes(&self) -> bool {
        self.resize_enabled && (self.width is Some || self.height is Some)
    }

    /// The dimensions after the resize stage, for a source of `w` by `h` pixels.
    pub open spec fn output_dimensions(&self, w: u32, h: u32) -> (u32, u32) {
        if self.resizes() {
            new_dimensions(w, h, self.width, self.height, self.maintain_aspect_ratio)
        } else {
            (w, h)
        }
    }

    /// Decides whether the resize stage runs, and to which dimensions.
    pub fn resize_target(&self, w: u32, h: u32) -> (target: Option<(u32, u32)>)
        ensures
            target is Some <==> self.resizes(),
            target is Some ==> target->0 == self.output_dimensions(w, h),
    {
        if self.resize_enabled && (self.width.is_some() || self.height.is_some()) {
            Some(calculate_new_dimensions(w, h, self.width, self.height, self.maintain_aspect_ratio))
        } else {
            None
        }
    }
}

impl ResizeOptions {
    /// The dimensions a source of `w` by `h` pixels is resized to.
    pub open spec fn output_dimensions(&self, w: u32, h: u32) -> (u32, u32) {
        new_dimensions(w, h, self.width, self.height, self.maintain_aspect_ratio)
    }

    /// Computes the dimensions a source of `w` by `h` pixels is resized to.
    pub fn target(&self, w: u32, h: u32) -> (target: (u32, u32))
        ensures
            target == self.output_dimensions(w, h),
    {
        calculate_new_dimensions(w, h, self.width, self.height, self.maintain_aspect_ratio)
    }
}

} // verus!
