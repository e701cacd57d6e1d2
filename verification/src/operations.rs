//! The four operations on one source, from its bytes to the bytes of its
//! output, and the inspection of a source.
//!
//! Each operation comes twice: as a function of the source's path and content,
//! and as a function of the outcome of decoding it. What the codecs return is
//! named in [`crate::codec`]; the contracts here say what is made of it.

use vstd::prelude::*;
use vstd::string::*;
use crate::codec::{
    dimensions, has_png_signature, image_size, is_tight, png_encoding, recompressed, resampled,
};
use crate::failure::{Failure, Fault};
use crate::options::{OutputFormat, ProcessOptions, QuantOptions, ResizeOptions};
use crate::paths::{file_name, file_name_of};
use crate::pipeline::{
    decode, is_indexed_png, is_palette_fault, is_plain_png_outcome, is_png_outcome,
    is_webp_outcome, may_fail_at, pipeline_message, pipeline_text, plain_png, png_stage, push_size,
    quantize_to_png, recompress_png, recompression_settings, resizable, resize_to, size_text,
    source_image, webp_holds, webp_stage, Encoded,
};
use crate::report::{push_size_summary, size_summary, ImageInfo};
use crate::text::{decimal, push_decimal};

verus! {

/// Whether `r` is the failure `g`, handed on as it is.
pub open spec fn hands_on<T>(r: Result<T, Failure>, g: Failure) -> bool {
    r matches Err(f) && f.fault == g.fault && f.detail@ == g.detail@
}

/// Whether `r` is the decode failure of a source that could not be read, with
/// the reader's words `error`.
pub open spec fn is_unread<T>(r: Result<T, Failure>, error: Seq<char>) -> bool {
    r matches Err(f) && f.fault == Fault::Decode && f.detail@ == error
}

/// Whether `r` is the decode failure of a source that was read but does not
/// decode.
pub open spec fn is_undecoded<T>(r: Result<T, Failure>) -> bool {
    r matches Err(f) && f.fault == Fault::Decode
}

/// The bytes of an output, or the failure in their place.
pub open spec fn encoded_data(r: Result<Encoded, Failure>) -> Result<Vec<u8>, Failure> {
    match r {
        Ok(out) => Ok(out.data),
        Err(f) => Err(f),
    }
}

/// The image that the encoding stage of the pipeline works on: the source,
/// resampled where the options ask for it.
pub open spec fn staged(img: image::DynamicImage, options: ProcessOptions) -> image::DynamicImage {
    if options.resizes() {
        let target = options.output_dimensions(image_size(img).0, image_size(img).1);
        resampled(img, target.0, target.1)
    } else {
        img
    }
}

/// Whether `out` is what the pipeline yields for a source of `w` by `h` pixels.
pub open spec fn is_pipeline_output(
    out: Encoded,
    options: ProcessOptions,
    w: u32,
    h: u32,
    original_size: u64,
) -> bool {
    &&& out.message@ == pipeline_text(options, w, h, original_size, out.data@.len() as u64)
    &&& options.resizes() ==> resizable(w, options.output_dimensions(w, h))
    &&& options.output_format == OutputFormat::Webp ==> webp_holds(
        options.output_dimensions(w, h).0,
        options.output_dimensions(w, h).1,
    )
    &&& options.output_format == OutputFormat::Png ==> has_png_signature(out.data@)
}

/// Whether `r` is what the pipeline makes of the decoded source `img`.
///
/// Where a resize is asked for that the resampler cannot hold, the item fails
/// at the resize stage. Otherwise the staged image has the dimensions that
/// the policy gives, and the outcome is that of encoding it in the requested
/// format; a success carries the message for the source's dimensions.
pub open spec fn is_process_outcome(
    r: Result<Encoded, Failure>,
    img: image::DynamicImage,
    original_size: u64,
    options: ProcessOptions,
) -> bool {
    let d = image_size(img);
    let target = options.output_dimensions(d.0, d.1);
    &&& r matches Err(f) ==> may_fail_at(options, f.fault) && f.fault != Fault::Decode
    &&& r matches Ok(out) ==> is_pipeline_output(out, options, d.0, d.1, original_size)
    &&& if options.resizes() && !resizable(d.0, target) {
        r matches Err(f) && f.fault == Fault::Oversize && f.detail@ == size_text(
            target.0,
            target.1,
        )
    } else {
        &&& r matches Err(f) ==> f.fault != Fault::Oversize
        &&& image_size(staged(img, options)) == target
        &&& match options.output_format {
            OutputFormat::Png => is_png_outcome(
                encoded_data(r),
                staged(img, options),
                options.quantize_enabled,
                options.quality,
                options.optimize_enabled,
            ),
            OutputFormat::Webp => is_webp_outcome(
                encoded_data(r),
                staged(img, options),
                options.quality,
            ),
        }
    }
}

/// Whether `r` is what the pipeline makes of the source at `path`: a decode
/// failure with the reader's words where it could not be read, a decode
/// failure where its bytes do not decode, and else what the pipeline makes of
/// the image they decode to, whose buffer is exactly as long as its pixels
/// need.
pub open spec fn process_settles(
    r: Result<Encoded, Failure>,
    path: Seq<char>,
    content: Result<Vec<u8>, String>,
    original_size: u64,
    options: ProcessOptions,
) -> bool {
    match content {
        Err(e) => is_unread(r, e@),
        Ok(data) => match source_image(path, data@) {
            None => is_undecoded(r),
            Some(img) => is_tight(img) && is_process_outcome(r, img, original_size, options),
        },
    }
}

/// Runs the pipeline on a source whose decoding has been tried: resize where
/// requested, then encode as the requested format. A failed decoding is the
/// failure of the item.
pub fn process_decoded(
    decoded: Result<image::DynamicImage, Failure>,
    original_size: u64,
    options: &ProcessOptions,
) -> (r: Result<Encoded, Failure>)
    ensures
        match decoded {
            Err(g) => hands_on(r, g),
            Ok(img) => is_process_outcome(r, img, original_size, *options),
        },
{
    let source = match decoded {
        Err(f) => {
            return Err(f);
        },
        Ok(img) => img,
    };
    let ghost original = source;
    let (w, h) = dimensions(&source);
    let img = match options.resize_target(w, h) {
        Some(target) => match resize_to(source, target) {
            Err(f) => {
                return Err(f);
            },
            Ok(resized) => resized,
        },
        None => source,
    };
    assert(img == staged(original, *options));
    let encoded = match options.output_format {
        OutputFormat::Png => png_stage(
            &img,
            options.quantize_enabled,
            options.quality,
            options.optimize_enabled,
        ),
        OutputFormat::Webp => webp_stage(&img, options.quality),
    };
    match encoded {
        Err(f) => {
            let r: Result<Encoded, Failure> = Err(f);
            assert(encoded_data(r) == encoded);
            r
        },
        Ok(data) => {
            let message = pipeline_message(options, w, h, original_size, data.len() as u64);
            let ghost bytes = data;
            let r: Result<Encoded, Failure> = Ok(Encoded { data, message });
            assert(encoded_data(r) == Ok::<Vec<u8>, Failure>(bytes));
            assert(is_pipeline_output(r->Ok_0, *options, w, h, original_size));
            r
        },
    }
}

/// Runs the pipeline on one source: decode, resize where requested, then
/// encode as the requested format.
///
/// The item fails at the decode stage exactly where the source could not be
/// read or does not decode. It fails at the resize stage exactly where a
/// resize is asked for that the resampler cannot hold. Otherwise the outcome
/// is that of the encoder; a success carries the message for the dimensions
/// of the decoded source.
pub fn process_single_image(
    path: &str,
    content: &Result<Vec<u8>, String>,
    original_size: u64,
    options: &ProcessOptions,
) -> (r: Result<Encoded, Failure>)
    ensures
        process_settles(r, path@, *content, original_size, *options),
        r matches Err(f) ==> may_fail_at(*options, f.fault),
{
    process_decoded(decode(path, content), original_size, options)
}

/// The detail of a source that could not be read, in the recompressor's words.
pub open spec fn unread_text(path: Seq<char>, error: Seq<char>) -> Seq<char> {
    "Failed to read from "@ + path + ": "@ + error
}

/// Whether `r` is what recompressing the PNG stream `png` gives, for a source
/// of `original_size` bytes: a failure where the recompressor refuses it, as
/// it does what does not start as a PNG stream does; and else the
/// recompressor's stream, which is a PNG stream and is `png` itself unless it
/// is shorter, with the size summary as its message.
pub open spec fn is_recompress_outcome(r: Result<Encoded, Failure>, png: Seq<u8>, original_size: u64) -> bool {
    match recompressed(png, recompression_settings()) {
        Some(stream) => {
            &&& r matches Ok(out)
            &&& out.data@ == stream
            &&& has_png_signature(png)
            &&& has_png_signature(stream)
            &&& stream == png || stream.len() < png.len()
            &&& out.message@ == size_summary(original_size, out.data@.len() as u64)
        },
        None => r matches Err(f) && f.fault == Fault::Recompress,
    }
}

/// Whether `r` is what converting `img` to PNG gives: a conversion failure
/// where the PNG encoder refuses the image, and else the encoder's stream.
pub open spec fn is_convert_outcome(r: Result<Vec<u8>, Failure>, img: image::DynamicImage) -> bool {
    match png_encoding(img) {
        None => r matches Err(f) && f.fault == Fault::Convert,
        Some(stream) => r matches Ok(out) && out@ == stream && has_png_signature(stream),
    }
}

/// Whether `r` is what converting `img` to PNG and recompressing the stream
/// gives: a conversion failure where the image cannot be converted, and else
/// what recompressing its stream gives.
pub open spec fn is_recompressed_image(
    r: Result<Encoded, Failure>,
    img: image::DynamicImage,
    original_size: u64,
) -> bool {
    if !is_tight(img) {
        r matches Err(f) && f.fault == Fault::Convert
    } else {
        match png_encoding(img) {
            None => r matches Err(f) && f.fault == Fault::Convert,
            Some(stream) => is_recompress_outcome(r, stream, original_size),
        }
    }
}

/// Whether `r` is the outcome of recompressing a source, taken as the PNG
/// stream it is where `as_png` holds, and decoded and converted to one
/// otherwise.
pub open spec fn is_optimize_outcome(
    r: Result<Encoded, Failure>,
    as_png: bool,
    path: Seq<char>,
    content: Result<Vec<u8>, String>,
    original_size: u64,
) -> bool {
    match content {
        Err(e) => if as_png {
            r matches Err(f) && f.fault == Fault::Recompress && f.detail@ == unread_text(path, e@)
        } else {
            is_unread(r, e@)
        },
        Ok(data) => if as_png {
            is_recompress_outcome(r, data@, original_size)
        } else {
            match source_image(path, data@) {
                None => is_undecoded(r),
                Some(img) => is_tight(img) && is_recompressed_image(r, img, original_size),
            }
        },
    }
}

/// Recompresses a PNG stream and words the success.
pub fn recompress_stream(png: &Vec<u8>, original_size: u64) -> (r: Result<Encoded, Failure>)
    ensures
        is_recompress_outcome(r, png@, original_size),
{
    match recompress_png(png) {
        Err(f) => Err(f),
        Ok(data) => {
            let mut message = String::new();
            push_size_summary(&mut message, original_size, data.len() as u64);
            assert(message@ =~= size_summary(original_size, data@.len() as u64));
            Ok(Encoded { data, message })
        },
    }
}

/// Converts a source whose decoding has been tried to PNG. A failed decoding
/// is the failure of the item; an image whose buffer is longer than its
/// pixels need is a conversion failure.
pub fn convert_decoded(decoded: Result<image::DynamicImage, Failure>) -> (r: Result<Vec<u8>, Failure>)
    ensures
        match decoded {
            Err(g) => hands_on(r, g),
            Ok(img) => is_plain_png_outcome(r, img),
        },
{
    match decoded {
        Err(f) => Err(f),
        Ok(img) => plain_png(&img),
    }
}

/// Decodes a source and encodes it as PNG: a decode failure where the source
/// could not be read or does not decode, a conversion failure where the PNG
/// encoder refuses the image, and else the encoder's stream.
pub fn convert_to_png(path: &str, content: &Result<Vec<u8>, String>) -> (r: Result<Vec<u8>, Failure>)
    ensures
        match content {
            Err(e) => is_unread(r, e@),
            Ok(data) => match source_image(path@, data@) {
                None => is_undecoded(r),
                Some(img) => is_convert_outcome(r, img),
            },
        },
        r matches Ok(out) ==> has_png_signature(out@),
{
    convert_decoded(decode(path, content))
}

/// Converts a source whose decoding has been tried to PNG and recompresses
/// the stream. A failed decoding is the failure of the item.
pub fn recompress_decoded(decoded: Result<image::DynamicImage, Failure>, original_size: u64) -> (r:
    Result<Encoded, Failure>)
    ensures
        match decoded {
            Err(g) => hands_on(r, g),
            Ok(img) => is_recompressed_image(r, img, original_size),
        },
{
    match convert_decoded(decoded) {
        Err(f) => Err(f),
        Ok(png) => recompress_stream(&png, original_size),
    }
}

/// Recompresses one source. A PNG source is recompressed as it stands; any
/// other source is decoded and converted to PNG first.
pub fn optimize_source(
    as_png: bool,
    path: &str,
    content: &Result<Vec<u8>, String>,
    original_size: u64,
) -> (r: Result<Encoded, Failure>)
    ensures
        is_optimize_outcome(r, as_png, path@, *content, original_size),
{
    if as_png {
        match content {
            Err(e) => {
                let mut detail = String::from_str("Failed to read from ");
                detail.append(path);
                detail.append(": ");
                detail.append(e.as_str());
                assert(detail@ =~= unread_text(path@, e@));
                Err(Failure::new(Fault::Recompress, detail))
            },
            Ok(data) => recompress_stream(data, original_size),
        }
    } else {
        recompress_decoded(decode(path, content), original_size)
    }
}

/// The message of a successful resize.
pub open spec fn resize_text(from: (u32, u32), to: (u32, u32)) -> Seq<char> {
    size_text(from.0, from.1) + " → "@ + size_text(to.0, to.1) + " にリサイズしました"@
}

/// Builds the message of a successful resize.
pub fn resize_message(from: (u32, u32), to: (u32, u32)) -> (message: String)
    ensures
        message@ == resize_text(from, to),
{
    let mut message = String::new();
    push_size(&mut message, from.0, from.1);
    message.append(" → ");
    push_size(&mut message, to.0, to.1);
    message.append(" にリサイズしました");
    assert(message@ =~= resize_text(from, to));
    message
}

/// Whether `r` is what resizing the decoded source `img` gives: a failure at
/// the resize stage where the resampler cannot hold the target; else the
/// resampled image has the target's dimensions, and the outcome is a
/// conversion failure where the PNG encoder refuses it, and else the
/// encoder's stream with the message for the two sizes.
pub open spec fn is_resize_outcome(
    r: Result<Encoded, Failure>,
    img: image::DynamicImage,
    options: ResizeOptions,
) -> bool {
    let d = image_size(img);
    let target = options.output_dimensions(d.0, d.1);
    if !resizable(d.0, target) {
        r matches Err(f) && f.fault == Fault::Oversize && f.detail@ == size_text(
            target.0,
            target.1,
        )
    } else {
        &&& image_size(resampled(img, target.0, target.1)) == target
        &&& match png_encoding(resampled(img, target.0, target.1)) {
            None => r matches Err(f) && f.fault == Fault::Convert,
            Some(stream) => {
                &&& r matches Ok(out)
                &&& out.data@ == stream
                &&& has_png_signature(stream)
                &&& out.message@ == resize_text(d, target)
            },
        }
    }
}

/// Whether `r` is what resizing the source at `path` gives.
pub open spec fn resize_settles(
    r: Result<Encoded, Failure>,
    path: Seq<char>,
    content: Result<Vec<u8>, String>,
    options: ResizeOptions,
) -> bool {
    match content {
        Err(e) => is_unread(r, e@),
        Ok(data) => match source_image(path, data@) {
            None => is_undecoded(r),
            Some(img) => is_resize_outcome(r, img, options),
        },
    }
}

/// Resizes a source whose decoding has been tried to the dimensions that the
/// policy gives, and encodes it as PNG. A failed decoding is the failure of
/// the item.
pub fn resize_decoded(decoded: Result<image::DynamicImage, Failure>, options: &ResizeOptions) -> (r:
    Result<Encoded, Failure>)
    ensures
        match decoded {
            Err(g) => hands_on(r, g),
            Ok(img) => is_resize_outcome(r, img, *options),
        },
{
    let source = match decoded {
        Err(f) => {
            return Err(f);
        },
        Ok(img) => img,
    };
    let (w, h) = dimensions(&source);
    let target = options.target(w, h);
    let resized = match resize_to(source, target) {
        Err(f) => {
            return Err(f);
        },
        Ok(resized) => resized,
    };
    match plain_png(&resized) {
        Err(f) => Err(f),
        Ok(data) => Ok(Encoded { data, message: resize_message((w, h), target) }),
    }
}

/// Resizes one source to the dimensions that the policy gives and encodes it
/// as PNG.
pub fn resize_image(path: &str, content: &Result<Vec<u8>, String>, options: &ResizeOptions) -> (r:
    Result<Encoded, Failure>)
    ensures
        resize_settles(r, path@, *content, *options),
{
    resize_decoded(decode(path, content), options)
}

/// The message of a successful palette compression.
pub open spec fn quantize_text(quality: u8, original_size: u64, result_size: u64) -> Seq<char> {
    "クオリティ "@ + decimal(quality as nat) + " で圧縮: "@ + size_summary(
        original_size,
        result_size,
    )
}

/// Builds the message of a successful palette compression.
pub fn quantize_message(quality: u8, original_size: u64, result_size: u64) -> (message: String)
    ensures
        message@ == quantize_text(quality, original_size, result_size),
{
    let mut message = String::from_str("クオリティ ");
    push_decimal(&mut message, quality as u128);
    message.append(" で圧縮: ");
    push_size_summary(&mut message, original_size, result_size);
    assert(message@ =~= quantize_text(quality, original_size, result_size));
    message
}

/// Whether `r` is an outcome of compressing the decoded source `img` to a
/// palette at `quality`: a configuration failure for a quality above 100;
/// else a failure of the palette compression, or a PNG stream that the
/// palette encoder made for the sides of the image, with the message for
/// its size.
pub open spec fn is_quantize_outcome(
    r: Result<Encoded, Failure>,
    img: image::DynamicImage,
    original_size: u64,
    quality: u8,
) -> bool {
    &&& quality > 100 ==> (r matches Err(f) && f.fault == Fault::Configuration)
    &&& quality <= 100 ==> (r matches Err(f) ==> is_palette_fault(f.fault))
    &&& r matches Ok(out) ==> {
        &&& has_png_signature(out.data@)
        &&& is_indexed_png(out.data@, image_size(img).0, image_size(img).1)
        &&& out.message@ == quantize_text(quality, original_size, out.data@.len() as u64)
    }
}

/// Whether `r` is an outcome of compressing the source at `path` to a palette.
pub open spec fn quantize_settles(
    r: Result<Encoded, Failure>,
    path: Seq<char>,
    content: Result<Vec<u8>, String>,
    original_size: u64,
    options: QuantOptions,
) -> bool {
    match content {
        Err(e) => is_unread(r, e@),
        Ok(data) => match source_image(path, data@) {
            None => is_undecoded(r),
            Some(img) => is_quantize_outcome(r, img, original_size, options.quality),
        },
    }
}

/// Compresses a source whose decoding has been tried to a palette and encodes
/// it as PNG. A failed decoding is the failure of the item.
pub fn quantize_decoded(
    decoded: Result<image::DynamicImage, Failure>,
    original_size: u64,
    options: &QuantOptions,
) -> (r: Result<Encoded, Failure>)
    ensures
        match decoded {
            Err(g) => hands_on(r, g),
            Ok(img) => is_quantize_outcome(r, img, original_size, options.quality),
        },
{
    let source = match decoded {
        Err(f) => {
            return Err(f);
        },
        Ok(img) => img,
    };
    match quantize_to_png(&source, options.quality) {
        Err(f) => Err(f),
        Ok(data) => {
            let message = quantize_message(options.quality, original_size, data.len() as u64);
            Ok(Encoded { data, message })
        },
    }
}

/// Compresses one source to a palette and encodes it as PNG.
pub fn quantize_image(
    path: &str,
    content: &Result<Vec<u8>, String>,
    original_size: u64,
    options: &QuantOptions,
) -> (r: Result<Encoded, Failure>)
    ensures
        quantize_settles(r, path@, *content, original_size, *options),
{
    quantize_decoded(decode(path, content), original_size, options)
}

/// The name shown for a source whose path has no last component.
pub open spec fn unnamed() -> Seq<char> {
    "unknown"@
}

/// Describes an image of `width` by `height` pixels read from `size` bytes at
/// `path`, whose last component is `name`.
pub fn describe(path: &str, name: Option<&str>, width: u32, height: u32, size: u64) -> (info:
    ImageInfo)
    ensures
        info.name@ == (match name {
            Some(n) => n@,
            None => unnamed(),
        }),
        info.width == width,
        info.height == height,
        info.size == size,
        info.original_path@ == path@,
{
    let name = match name {
        Some(n) => String::from_str(n),
        None => String::from_str("unknown"),
    };
    ImageInfo { name, width, height, size, original_path: String::from_str(path) }
}

/// Whether `info` is what is said of the source at `path`, of `size` bytes,
/// that decodes to `img`: its name, the image's width and height, the size
/// and the path.
pub open spec fn describes_image(
    info: Option<ImageInfo>,
    path: Seq<char>,
    size: u64,
    img: image::DynamicImage,
) -> bool {
    &&& info matches Some(i)
    &&& i.name@ == (match file_name_of(path) {
        Some(n) => n,
        None => unnamed(),
    })
    &&& i.width == image_size(img).0
    &&& i.height == image_size(img).1
    &&& i.size == size
    &&& i.original_path@ == path
}

/// Whether `info` is what is said of a source given how its decoding went:
/// nothing where it failed.
pub open spec fn describes(
    info: Option<ImageInfo>,
    path: Seq<char>,
    size: u64,
    decoded: Result<image::DynamicImage, Failure>,
) -> bool {
    match decoded {
        Err(_) => info is None,
        Ok(img) => describes_image(info, path, size, img),
    }
}

/// Describes a source whose decoding has been tried.
pub fn describe_decoded(path: &str, size: u64, decoded: &Result<image::DynamicImage, Failure>) -> (info:
    Option<ImageInfo>)
    ensures
        describes(info, path@, size, *decoded),
{
    match decoded {
        Err(_) => None,
        Ok(img) => {
            let (width, height) = dimensions(img);
            match file_name(path) {
                Some(name) => Some(describe(path, Some(name.as_str()), width, height, size)),
                None => Some(describe(path, None, width, height, size)),
            }
        },
    }
}

/// Describes a source: nothing where it could not be read or does not decode,
/// and else its name, the width and height of the image it decodes to, its
/// size and its path.
pub fn image_info(path: &str, size: u64, content: &Result<Vec<u8>, String>) -> (info: Option<
    ImageInfo,
>)
    ensures
        match content {
            Err(_) => info is None,
            Ok(data) => match source_image(path@, data@) {
                None => info is None,
                Some(img) => describes_image(info, path@, size, img),
            },
        },
{
    let decoded = decode(path, content);
    describe_decoded(path, size, &decoded)
}

} // verus!
