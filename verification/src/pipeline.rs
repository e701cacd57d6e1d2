//! The stages of the per-item pipeline, from the bytes of a source file to the
//! bytes of its output. Nothing here reads or writes a file.

use vstd::prelude::*;
use vstd::string::*;
use crate::codec::{
    buffer_len_of, decoded_image, dimensions, encode_indexed, encode_png, encode_webp,
    encoder_palette, format_from_path, format_of, has_png_signature, image_size, indexed_png,
    is_tight, load_image, new_attributes, new_palette_encoder, new_quantizer_image, palette_add,
    palette_encoder_error_text, pixel_bytes_of, png_encoding, quantize, quantizer_error_text,
    recompress, recompressed, remapped, resampled, resize_exact, rgba_pixels,
    set_dithering_level, set_quality, to_rgba8, webp_encoding, webp_error_text, Recompression,
    Rgba, Strip,
};
use crate::failure::{Failure, Fault};
use crate::options::{
    quality_band, webp_mode, webp_mode_of, OutputFormat, ProcessOptions, WebpMode,
};
use crate::report::{push_size_summary, size_summary};
use crate::text::{decimal, join, joined, push_decimal, views};

verus! {

/// The bytes of an output file and the message of its successful result.
#[derive(Debug, Clone, PartialEq, Eq)]
pub struct Encoded {
    pub data: Vec<u8>,
    pub message: String,
}

/// Whether a source `src_w` pixels wide can be resampled to `target`: the
/// resampler's buffers, at up to 16 bytes per pixel, must be addressable.
pub open spec fn resizable(src_w: u32, target: (u32, u32)) -> bool {
    &&& 16 * src_w * target.1 <= isize::MAX
    &&& 16 * target.0 * target.1 <= isize::MAX
}

/// `<width>x<height>`.
pub open spec fn size_text(width: u32, height: u32) -> Seq<char> {
    decimal(width as nat) + "x"@ + decimal(height as nat)
}

/// The settings of the lossless recompression: the aggressive preset with the
/// highest deflate level, safe metadata stripping and alpha optimization.
pub open spec fn recompression_settings() -> Recompression {
    Recompression {
        preset: 4,
        compression: 12,
        strip: Strip::Safe,
        optimize_alpha: true,
        fast_evaluation: true,
    }
}

/// The quality factor handed to the WebP encoder for a lossless encoding,
/// where it sets the effort and not the fidelity.
pub const LOSSLESS_EFFORT: u8 = 75;

/// The dithering level of the palette remap: full strength.
pub const DITHERING_LEVEL: u8 = 1;

/// The longest side, in pixels, that a WebP image can have.
pub const WEBP_MAX_SIDE: u32 = 16383;

/// Returns the settings of the lossless recompression.
pub fn recompression() -> (settings: Recompression)
    ensures
        settings == recompression_settings(),
{
    Recompression {
        preset: 4,
        compression: 12,
        strip: Strip::Safe,
        optimize_alpha: true,
        fast_evaluation: true,
    }
}

/// Appends `<width>x<height>` to `out`.
pub fn push_size(out: &mut String, width: u32, height: u32)
    ensures
        final(out)@ == old(out)@ + size_text(width, height),
{
    let ghost start = out@;
    push_decimal(out, width as u128);
    out.append("x");
    push_decimal(out, height as u128);
    assert(out@ =~= start + size_text(width, height));
}

/// The image that the bytes `data` of the source at `path` decode to, in the
/// format that the path's extension names; `None` where they do not decode.
pub open spec fn source_image(path: Seq<char>, data: Seq<u8>) -> Option<image::DynamicImage> {
    match format_of(path) {
        Some(format) => decoded_image(data, format),
        None => None,
    }
}

/// The width and height of the image that a source decodes to.
pub open spec fn source_size(path: Seq<char>, data: Seq<u8>) -> Option<(u32, u32)> {
    match source_image(path, data) {
        Some(img) => Some(image_size(img)),
        None => None,
    }
}

/// Decodes a source. The format is taken from the path's extension, as for a
/// file opened by its path. A source that could not be read fails with the
/// reader's own words; a source that was read succeeds exactly where its
/// bytes decode, and then with the image they decode to, whose buffer is
/// exactly as long as its pixels need.
pub fn decode(path: &str, content: &Result<Vec<u8>, String>) -> (r: Result<
    image::DynamicImage,
    Failure,
>)
    ensures
        r matches Err(f) ==> f.fault == Fault::Decode,
        content matches Err(e) ==> (r matches Err(f) && f.detail@ == e@),
        content matches Ok(data) ==> (match source_image(path@, data@) {
            Some(img) => r matches Ok(got) && got == img && is_tight(img),
            None => r is Err,
        }),
{
    match content {
        Err(e) => Err(Failure::new(Fault::Decode, e.clone())),
        Ok(data) => match format_from_path(path) {
            Err(e) => Err(Failure::new(Fault::Decode, e.to_string())),
            Ok(format) => match load_image(data.as_slice(), format) {
                Err(e) => Err(Failure::new(Fault::Decode, e.to_string())),
                Ok(img) => Ok(img),
            },
        },
    }
}

/// Resamples an image to exactly `target`, or fails where the resampler
/// could not hold its buffers.
pub fn resize_to(img: image::DynamicImage, target: (u32, u32)) -> (r: Result<
    image::DynamicImage,
    Failure,
>)
    ensures
        match r {
            Ok(out) => resizable(image_size(img).0, target) && out == resampled(
                img,
                target.0,
                target.1,
            ) && image_size(out) == target && is_tight(out),
            Err(f) => !resizable(image_size(img).0, target) && f.fault == Fault::Oversize
                && f.detail@ == size_text(target.0, target.1),
        },
{
    let (src_w, _) = dimensions(&img);
    proof {
        crate::dimensions::lemma_product_bound(src_w, target.1);
        crate::dimensions::lemma_product_bound(target.0, target.1);
        assert(16 * src_w * target.1 == 16 * (src_w * target.1)) by (nonlinear_arith);
        assert(16 * target.0 * target.1 == 16 * (target.0 * target.1)) by (nonlinear_arith);
    }
    let limit: u128 = isize::MAX as u128;
    let tall: u128 = 16 * ((src_w as u128) * (target.1 as u128));
    let wide: u128 = 16 * ((target.0 as u128) * (target.1 as u128));
    if tall <= limit && wide <= limit {
        Ok(resize_exact(&img, target.0, target.1))
    } else {
        let mut detail = String::new();
        push_size(&mut detail, target.0, target.1);
        Err(Failure::new(Fault::Oversize, detail))
    }
}

/// The faults of palette compression, for a quality within the percentage
/// range.
pub open spec fn is_palette_fault(fault: Fault) -> bool {
    fault == Fault::QuantizerInput || fault == Fault::Quantization || fault == Fault::Remap
        || fault == Fault::Palette || fault == Fault::Encode
}

/// Whether `stream` is a PNG stream that the palette encoder makes of some
/// palette and some indices for an image of `width` by `height` pixels.
pub open spec fn is_indexed_png(stream: Seq<u8>, width: u32, height: u32) -> bool {
    exists|palette: Seq<Rgba>, indices: Seq<u8>|
        #[trigger] indexed_png(palette, indices, width, height) == Some(stream)
}

/// Reduces an image to an adaptive palette within the quality band of
/// `quality`, remaps its pixels to palette indices with dithering at full
/// strength, and encodes the indices as a PNG of the image's width and
/// height.
///
/// A quality above 100 is refused before any pixel is looked at. Which
/// palette the search finds is the quantizer's own; a success is what the
/// palette encoder makes of it for the sides of the image.
pub fn quantize_to_png(img: &image::DynamicImage, quality: u8) -> (r: Result<Vec<u8>, Failure>)
    ensures
        quality > 100 ==> (r matches Err(f) && f.fault == Fault::Configuration),
        quality <= 100 ==> (r matches Err(f) ==> is_palette_fault(f.fault)),
        r matches Ok(out) ==> has_png_signature(out@) && is_indexed_png(
            out@,
            image_size(*img).0,
            image_size(*img).1,
        ),
{
    let rgba = to_rgba8(img);
    let (width, height) = dimensions(img);
    let mut attributes = new_attributes();
    let (minimum, target) = quality_band(quality);
    match set_quality(&mut attributes, minimum, target) {
        Err(e) => {
            return Err(Failure::new(Fault::Configuration, quantizer_error_text(&e)));
        },
        Ok(_) => {},
    }
    let mut pixels = match new_quantizer_image(
        &attributes,
        rgba.as_slice(),
        width as usize,
        height as usize,
    ) {
        Err(e) => {
            return Err(Failure::new(Fault::QuantizerInput, quantizer_error_text(&e)));
        },
        Ok(pixels) => pixels,
    };
    let mut quantized = match quantize(&attributes, &mut pixels) {
        Err(e) => {
            return Err(Failure::new(Fault::Quantization, quantizer_error_text(&e)));
        },
        Ok(quantized) => quantized,
    };
    let _ = set_dithering_level(&mut quantized, DITHERING_LEVEL);
    let (palette, indices) = match remapped(&mut quantized, &mut pixels) {
        Err(e) => {
            return Err(Failure::new(Fault::Remap, quantizer_error_text(&e)));
        },
        Ok(mapped) => mapped,
    };
    let r = encode_palette_png(&palette, &indices, width, height);
    proof {
        if r is Ok {
            assert(indexed_png(palette@, indices@, width, height) == Some(r->Ok_0@));
        }
    }
    r
}

/// Encodes one palette index per pixel as a PNG. The encoder is given the
/// pixels as palette colour of 8 bits and stores them in the cheapest colour
/// mode that holds them: palette colour, unless the image is grey or has
/// fewer than two pixels per colour.
///
/// A palette of more than 256 entries is a palette failure. Indices that do
/// not cover `width * height` pixels are an encode failure. Otherwise the
/// outcome is the encoder's: its stream, or an encode failure where it
/// refuses the image.
pub fn encode_palette_png(palette: &Vec<Rgba>, indices: &Vec<u8>, width: u32, height: u32) -> (r:
    Result<Vec<u8>, Failure>)
    ensures
        r matches Err(f) ==> f.fault == Fault::Palette || f.fault == Fault::Encode,
        r matches Ok(out) ==> has_png_signature(out@),
        palette@.len() > 256 ==> (r matches Err(f) && f.fault == Fault::Palette),
        palette@.len() <= 256 && indices@.len() != width * height ==> (r matches Err(f)
            && f.fault == Fault::Encode),
        palette@.len() <= 256 && indices@.len() == width * height ==> (match indexed_png(
            palette@,
            indices@,
            width,
            height,
        ) {
            Some(stream) => r matches Ok(out) && out@ == stream,
            None => r matches Err(f) && f.fault == Fault::Encode,
        }),
{
    let mut encoder = new_palette_encoder();
    let mut i: usize = 0;
    while i < palette.len()
        invariant
            i <= palette.len(),
            i <= 256,
            encoder_palette(encoder) == palette@.take(i as int),
        decreases palette.len() - i,
    {
        match palette_add(&mut encoder, palette[i]) {
            Err(e) => {
                return Err(Failure::new(Fault::Palette, palette_encoder_error_text(&e)));
            },
            Ok(_) => {},
        }
        assert(palette@.take(i as int).push(palette@[i as int]) =~= palette@.take(i + 1));
        i = i + 1;
    }
    assert(palette@.take(palette@.len() as int) =~= palette@);
    proof {
        crate::dimensions::lemma_product_bound(width, height);
    }
    let pixels: u64 = (width as u64) * (height as u64);
    if indices.len() as u64 != pixels {
        return Err(
            Failure::new(Fault::Encode, String::from_str("index buffer does not cover the image")),
        );
    }
    match encode_indexed(&mut encoder, indices.as_slice(), width, height) {
        Err(e) => Err(Failure::new(Fault::Encode, palette_encoder_error_text(&e))),
        Ok(data) => Ok(data),
    }
}

/// Whether `r` is what encoding `img` as a PNG, as it stands, gives: a
/// conversion failure where the buffer of the image is longer than its pixels
/// need or the PNG encoder refuses the image, and else the encoder's stream.
pub open spec fn is_plain_png_outcome(r: Result<Vec<u8>, Failure>, img: image::DynamicImage) -> bool {
    if !is_tight(img) {
        r matches Err(f) && f.fault == Fault::Convert
    } else {
        match png_encoding(img) {
            None => r matches Err(f) && f.fault == Fault::Convert,
            Some(stream) => r matches Ok(out) && out@ == stream && has_png_signature(stream),
        }
    }
}

/// Encodes an image as a PNG, as it stands. An image whose buffer is longer
/// than its pixels need is refused before the encoder is called.
pub fn plain_png(img: &image::DynamicImage) -> (r: Result<Vec<u8>, Failure>)
    ensures
        is_plain_png_outcome(r, *img),
{
    let (width, height) = dimensions(img);
    let each = pixel_bytes_of(img);
    proof {
        crate::dimensions::lemma_product_bound(width, height);
        assert(width * height * each == (width * height) * each) by (nonlinear_arith);
        assert(0 <= (width * height) * each <= 0xFFFF_FFFE_0000_0001 * 16) by (nonlinear_arith)
            requires
                0 <= width * height <= 0xFFFF_FFFE_0000_0001,
                0 <= each <= 16,
        ;
    }
    let needed: u128 = ((width as u128) * (height as u128)) * (each as u128);
    if buffer_len_of(img) as u128 != needed {
        return Err(
            Failure::new(
                Fault::Convert,
                String::from_str("pixel buffer is longer than the image"),
            ),
        );
    }
    match encode_png(img) {
        Err(e) => Err(Failure::new(Fault::Convert, e.to_string())),
        Ok(data) => Ok(data),
    }
}

/// Whether WebP can hold an image of the given dimensions.
pub open spec fn webp_holds(width: u32, height: u32) -> bool {
    1 <= width <= WEBP_MAX_SIDE && 1 <= height <= WEBP_MAX_SIDE
}

/// The detail of a failure for dimensions that WebP cannot hold, in the
/// encoder's words.
pub open spec fn bad_dimension_text() -> Seq<char> {
    "VP8_ENC_ERROR_BAD_DIMENSION"@
}

/// What the WebP encoder makes of 8-bit RGBA pixels at a requested quality:
/// a lossless stream from 100 on, a lossy stream at that quality below.
pub open spec fn webp_outcome(rgba: Seq<u8>, width: u32, height: u32, quality: u8) -> Option<
    Seq<u8>,
> {
    match webp_mode_of(quality) {
        WebpMode::Lossless => webp_encoding(rgba, width, height, true, LOSSLESS_EFFORT),
        WebpMode::Lossy { quality } => webp_encoding(rgba, width, height, false, quality),
    }
}

/// Encodes 8-bit RGBA pixels as WebP: lossless for a quality of 100 or more,
/// lossy at the given quality otherwise. Dimensions that WebP cannot hold, and
/// a buffer that does not cover the image, are refused before the encoder is
/// called; otherwise the encoder's outcome is the result.
pub fn encode_rgba_as_webp(rgba: &Vec<u8>, width: u32, height: u32, quality: u8) -> (r: Result<
    Vec<u8>,
    Failure,
>)
    ensures
        r matches Err(f) ==> f.fault == Fault::WebpEncode,
        !webp_holds(width, height) ==> (r matches Err(f) && f.detail@ == bad_dimension_text()),
        rgba@.len() < 4 * width * height ==> r is Err,
        webp_holds(width, height) && rgba@.len() >= 4 * width * height ==> (match webp_outcome(
            rgba@,
            width,
            height,
            quality,
        ) {
            Some(stream) => r matches Ok(out) && out@ == stream,
            None => r is Err,
        }),
{
    if width < 1 || width > WEBP_MAX_SIDE || height < 1 || height > WEBP_MAX_SIDE {
        return Err(
            Failure::new(Fault::WebpEncode, String::from_str("VP8_ENC_ERROR_BAD_DIMENSION")),
        );
    }
    assert(4 * width * height == 4 * (width * height) && width * height <= 16383 * 16383)
        by (nonlinear_arith)
        requires
            1 <= width <= 16383,
            1 <= height <= 16383,
    ;
    let needed: u64 = 4 * ((width as u64) * (height as u64));
    if (rgba.len() as u64) < needed {
        return Err(
            Failure::new(
                Fault::WebpEncode,
                String::from_str("pixel buffer does not cover the image"),
            ),
        );
    }
    let encoded = match webp_mode(quality) {
        WebpMode::Lossless => encode_webp(rgba.as_slice(), width, height, true, LOSSLESS_EFFORT),
        WebpMode::Lossy { quality } => encode_webp(rgba.as_slice(), width, height, false, quality),
    };
    match encoded {
        Err(e) => Err(Failure::new(Fault::WebpEncode, webp_error_text(&e))),
        Ok(data) => Ok(data),
    }
}

/// Whether `r` is what encoding `img` as WebP at `quality` gives: a failure
/// where WebP cannot hold the image or the encoder refuses it, and else the
/// encoder's stream.
pub open spec fn is_webp_outcome(r: Result<Vec<u8>, Failure>, img: image::DynamicImage, quality: u8) -> bool {
    let size = image_size(img);
    &&& r matches Err(f) ==> f.fault == Fault::WebpEncode
    &&& if !webp_holds(size.0, size.1) {
        r is Err
    } else {
        match webp_outcome(rgba_pixels(img), size.0, size.1, quality) {
            Some(stream) => r matches Ok(out) && out@ == stream,
            None => r is Err,
        }
    }
}

/// Encodes an image as WebP: lossless for a quality of 100 or more, lossy at
/// the given quality otherwise.
pub fn webp_stage(img: &image::DynamicImage, quality: u8) -> (r: Result<Vec<u8>, Failure>)
    ensures
        is_webp_outcome(r, *img, quality),
{
    let rgba = to_rgba8(img);
    let (width, height) = dimensions(img);
    encode_rgba_as_webp(&rgba, width, height, quality)
}

/// Whether `r` is what recompressing the PNG stream `data` gives: a failure
/// where the recompressor refuses it, as it does what does not start as a PNG
/// stream does; and else the recompressor's stream, which is a PNG stream and
/// is `data` itself unless it is shorter.
pub open spec fn is_recompression(r: Result<Vec<u8>, Failure>, data: Seq<u8>) -> bool {
    match recompressed(data, recompression_settings()) {
        Some(stream) => {
            &&& r matches Ok(out)
            &&& out@ == stream
            &&& has_png_signature(data)
            &&& has_png_signature(stream)
            &&& stream == data || stream.len() < data.len()
        },
        None => r matches Err(f) && f.fault == Fault::Recompress,
    }
}

/// Recompresses a PNG stream without changing a pixel. Input that is no PNG
/// stream is refused; the input comes back unless the new stream is shorter.
pub fn recompress_png(data: &Vec<u8>) -> (r: Result<Vec<u8>, Failure>)
    ensures
        is_recompression(r, data@),
        !has_png_signature(data@) ==> r is Err,
        match r {
            Ok(out) => has_png_signature(out@) && (out@ == data@ || out@.len() < data@.len()),
            Err(f) => f.fault == Fault::Recompress,
        },
{
    match recompress(data.as_slice(), &recompression()) {
        Err(e) => Err(Failure::new(Fault::Recompress, e.to_string())),
        Ok(out) => Ok(out),
    }
}

/// The stages at which PNG encoding can fail.
pub open spec fn png_may_fail_at(quantize: bool, quality: u8, optimize: bool, fault: Fault) -> bool {
    match fault {
        Fault::Configuration => quantize && quality > 100,
        Fault::QuantizerInput | Fault::Quantization | Fault::Remap | Fault::Palette
        | Fault::Encode => quantize && quality <= 100,
        Fault::Convert => !quantize,
        Fault::Recompress => optimize,
        _ => false,
    }
}

/// Whether `r` is what comes of the PNG stream `stream` at the end of the PNG
/// stage: the stream itself, or, with recompression, what recompressing it
/// gives.
pub open spec fn is_finished_png(r: Result<Vec<u8>, Failure>, stream: Seq<u8>, optimize: bool) -> bool {
    if optimize {
        is_recompression(r, stream)
    } else {
        r matches Ok(out) && out@ == stream
    }
}

/// Whether `r` is what encoding `img` as PNG gives.
///
/// Every success is a PNG stream. With quantization, a quality above 100 is a
/// configuration failure; a success comes of a stream that the palette
/// encoder made for the sides of the image. Without quantization, the stream
/// is that of the image as it stands, and a failure to make it is a
/// conversion failure. With recompression, the stream is recompressed.
pub open spec fn is_png_outcome(
    r: Result<Vec<u8>, Failure>,
    img: image::DynamicImage,
    quantize: bool,
    quality: u8,
    optimize: bool,
) -> bool {
    &&& r matches Err(f) ==> png_may_fail_at(quantize, quality, optimize, f.fault)
    &&& r matches Ok(out) ==> has_png_signature(out@)
    &&& if quantize {
        &&& quality > 100 ==> (r matches Err(f) && f.fault == Fault::Configuration)
        &&& r is Ok ==> exists|stream: Seq<u8>|
            #[trigger] is_indexed_png(stream, image_size(img).0, image_size(img).1)
                && is_finished_png(r, stream, optimize)
    } else if !is_tight(img) {
        r matches Err(f) && f.fault == Fault::Convert
    } else {
        match png_encoding(img) {
            None => r matches Err(f) && f.fault == Fault::Convert,
            Some(stream) => is_finished_png(r, stream, optimize),
        }
    }
}

/// Encodes an image as PNG: palette-compressed at `quality` where `quantize`
/// is set, as it stands otherwise; then recompressed where `optimize` is set.
pub fn png_stage(img: &image::DynamicImage, quantize: bool, quality: u8, optimize: bool) -> (r:
    Result<Vec<u8>, Failure>)
    ensures
        is_png_outcome(r, *img, quantize, quality, optimize),
{
    let data = if quantize {
        match quantize_to_png(img, quality) {
            Err(f) => {
                return Err(f);
            },
            Ok(data) => data,
        }
    } else {
        match plain_png(img) {
            Err(f) => {
                return Err(f);
            },
            Ok(data) => data,
        }
    };
    let r = if optimize {
        recompress_png(&data)
    } else {
        Ok(data)
    };
    proof {
        if quantize && r is Ok {
            assert(is_indexed_png(data@, image_size(*img).0, image_size(*img).1));
            assert(is_finished_png(r, data@, optimize));
        }
    }
    r
}

/// The stages at which the pipeline can fail under the given options.
pub open spec fn may_fail_at(options: ProcessOptions, fault: Fault) -> bool {
    match fault {
        Fault::Decode => true,
        Fault::Oversize => options.resizes(),
        Fault::WebpEncode => options.output_format == OutputFormat::Webp,
        Fault::NotFound | Fault::DirectoryCreate | Fault::Write => false,
        _ => options.output_format == OutputFormat::Png && png_may_fail_at(
            options.quantize_enabled,
            options.quality,
            options.optimize_enabled,
            fault,
        ),
    }
}

/// The trace label of the resize stage.
pub open spec fn resize_label(from: (u32, u32), to: (u32, u32)) -> Seq<char> {
    "リサイズ: "@ + size_text(from.0, from.1) + " → "@ + size_text(to.0, to.1)
}

/// The trace label of the quantization stage.
pub open spec fn quantize_label(quality: u8) -> Seq<char> {
    "pngquant: クオリティ "@ + decimal(quality as nat)
}

/// The trace label of the recompression stage.
pub open spec fn optimize_label() -> Seq<char> {
    "oxipng: 最適化"@
}

/// The trace label of the WebP stage.
pub open spec fn webp_label(quality: u8) -> Seq<char> {
    if quality >= 100 {
        "WebP: ロスレス"@
    } else {
        "WebP: クオリティ "@ + decimal(quality as nat)
    }
}

/// The labels of the encoding stages that run under the given options.
pub open spec fn format_trace(options: ProcessOptions) -> Seq<Seq<char>> {
    match options.output_format {
        OutputFormat::Png => {
            let quantized = if options.quantize_enabled {
                seq![quantize_label(options.quality)]
            } else {
                Seq::<Seq<char>>::empty()
            };
            if options.optimize_enabled {
                quantized.push(optimize_label())
            } else {
                quantized
            }
        },
        OutputFormat::Webp => seq![webp_label(options.quality)],
    }
}

/// The labels of all stages that run on a source of `w` by `h` pixels, in the
/// order in which they run.
pub open spec fn trace_of(options: ProcessOptions, w: u32, h: u32) -> Seq<Seq<char>> {
    if options.resizes() {
        seq![resize_label((w, h), options.output_dimensions(w, h))] + format_trace(options)
    } else {
        format_trace(options)
    }
}

/// The message of a successful pipeline run: the trace joined by arrows, a
/// bar, and the size summary.
pub open spec fn pipeline_text(
    options: ProcessOptions,
    w: u32,
    h: u32,
    original_size: u64,
    result_size: u64,
) -> Seq<char> {
    joined(trace_of(options, w, h), " → "@) + " | "@ + size_summary(original_size, result_size)
}

/// Lists the labels of the stages that run on a source of `w` by `h` pixels.
pub fn trace(options: &ProcessOptions, w: u32, h: u32) -> (labels: Vec<String>)
    ensures
        views(labels@) == trace_of(*options, w, h),
{
    let mut labels: Vec<String> = Vec::new();
    assert(views(labels@) =~= Seq::<Seq<char>>::empty());
    match options.resize_target(w, h) {
        Some(target) => {
            let mut label = String::from_str("リサイズ: ");
            push_size(&mut label, w, h);
            label.append(" → ");
            push_size(&mut label, target.0, target.1);
            assert(label@ =~= resize_label((w, h), target));
            labels.push(label);
            assert(views(labels@) =~= seq![resize_label((w, h), target)]);
        },
        None => {},
    }
    let ghost resized = views(labels@);
    match options.output_format {
        OutputFormat::Png => {
            if options.quantize_enabled {
                let mut label = String::from_str("pngquant: クオリティ ");
                push_decimal(&mut label, options.quality as u128);
                labels.push(label);
            }
            if options.optimize_enabled {
                labels.push(String::from_str("oxipng: 最適化"));
            }
        },
        OutputFormat::Webp => {
            match webp_mode(options.quality) {
                WebpMode::Lossless => {
                    labels.push(String::from_str("WebP: ロスレス"));
                },
                WebpMode::Lossy { quality } => {
                    let mut label = String::from_str("WebP: クオリティ ");
                    push_decimal(&mut label, quality as u128);
                    labels.push(label);
                },
            }
        },
    }
    assert(views(labels@) =~= resized + format_trace(*options));
    assert(resized + format_trace(*options) =~= trace_of(*options, w, h));
    labels
}

/// Builds the message of a successful pipeline run.
pub fn pipeline_message(
    options: &ProcessOptions,
    w: u32,
    h: u32,
    original_size: u64,
    result_size: u64,
) -> (message: String)
    ensures
        message@ == pipeline_text(*options, w, h, original_size, result_size),
{
    let labels = trace(options, w, h);
    let mut message = join(&labels, " → ");
    message.append(" | ");
    push_size_summary(&mut message, original_size, result_size);
    message
}

} // verus!
