//! The codecs this library drives. Every function here hands work to an outside
//! crate; its contract is taken from that crate's source and is not proved.

use vstd::prelude::*;

verus! {

#[verifier::external_type_specification]
#[verifier::external_body]
pub struct ExDynamicImage(image::DynamicImage);

#[verifier::external_type_specification]
#[verifier::external_body]
pub struct ExImageFormat(image::ImageFormat);

#[verifier::external_type_specification]
#[verifier::external_body]
pub struct ExImageError(image::ImageError);

#[verifier::external_type_specification]
#[verifier::external_body]
pub struct ExQuantizerAttributes(imagequant::Attributes);

#[verifier::external_type_specification]
#[verifier::external_body]
pub struct ExQuantizerImage<'a>(imagequant::Image<'a>);

#[verifier::external_type_specification]
#[verifier::external_body]
pub struct ExQuantizationResult(imagequant::QuantizationResult);

#[verifier::external_type_specification]
#[verifier::external_body]
pub struct ExQuantizerError(imagequant::Error);

#[verifier::external_type_specification]
#[verifier::external_body]
pub struct ExPaletteEncoder(lodepng::Encoder);

#[verifier::external_type_specification]
#[verifier::external_body]
pub struct ExPaletteEncoderError(lodepng::Error);

#[verifier::external_type_specification]
#[verifier::external_body]
pub struct ExPngError(oxipng::PngError);

#[verifier::external_type_specification]
#[verifier::external_body]
pub struct ExWebpError(webp::WebPEncodingError);

/// One palette entry: red, green, blue and alpha.
#[derive(Debug, Clone, Copy, PartialEq, Eq, Structural)]
pub struct Rgba {
    pub r: u8,
    pub g: u8,
    pub b: u8,
    pub a: u8,
}

/// Which ancillary chunks a recompression removes.
#[derive(Debug, Clone, Copy, PartialEq, Eq, Structural)]
pub enum Strip {
    /// Keep every chunk.
    Nothing,
    /// Remove the chunks that do not affect how the image is displayed.
    Safe,
}

/// Settings of a lossless PNG recompression.
#[derive(Debug, Clone, Copy, PartialEq, Eq, Structural)]
pub struct Recompression {
    /// Optimization preset, 0 (fastest) to 6 (smallest).
    pub preset: u8,
    /// Deflate level, 0 to 12.
    pub compression: u8,
    pub strip: Strip,
    /// Whether fully transparent pixels may change colour.
    pub optimize_alpha: bool,
    /// Whether filters are compared on a fast trial compression.
    pub fast_evaluation: bool,
}

/// The eight bytes that every PNG stream starts with.
pub open spec fn png_signature() -> Seq<u8> {
    seq![0x89u8, 0x50u8, 0x4Eu8, 0x47u8, 0x0Du8, 0x0Au8, 0x1Au8, 0x0Au8]
}

/// Whether `data` starts as a PNG stream does.
pub open spec fn has_png_signature(data: Seq<u8>) -> bool {
    png_signature().is_prefix_of(data)
}

/// Width and height, in pixels, of a decoded image.
pub uninterp spec fn image_size(img: image::DynamicImage) -> (u32, u32);

/// The length in bytes of the buffer behind an image.
pub uninterp spec fn buffer_len(img: image::DynamicImage) -> usize;

/// The number of bytes that one pixel of an image takes in its buffer.
pub uninterp spec fn pixel_bytes(img: image::DynamicImage) -> u8;

/// Whether the buffer behind an image is exactly as long as its pixels need.
pub open spec fn is_tight(img: image::DynamicImage) -> bool {
    buffer_len(img) == image_size(img).0 * image_size(img).1 * pixel_bytes(img)
}

/// The pixels of an image as 8-bit RGBA, four bytes per pixel, rows from top
/// to bottom.
pub uninterp spec fn rgba_pixels(img: image::DynamicImage) -> Seq<u8>;

/// The image format that the extension of a path names; `None` for a missing
/// or unknown extension.
pub uninterp spec fn format_of(path: Seq<char>) -> Option<image::ImageFormat>;

/// The image that `data` decodes to as the given format; `None` where it does
/// not decode.
pub uninterp spec fn decoded_image(data: Seq<u8>, format: image::ImageFormat) -> Option<
    image::DynamicImage,
>;

/// An image resampled to `width` by `height` pixels with the Lanczos filter of
/// window 3, as the build's target computes it.
pub uninterp spec fn resampled(img: image::DynamicImage, width: u32, height: u32) -> image::DynamicImage;

/// An image encoded as a PNG stream; `None` where the encoder refuses it.
pub uninterp spec fn png_encoding(img: image::DynamicImage) -> Option<Seq<u8>>;

/// The palette that a PNG palette encoder holds, in the order in which the
/// colours were added.
pub uninterp spec fn encoder_palette(encoder: lodepng::Encoder) -> Seq<Rgba>;

/// One palette index per pixel of a `width` by `height` image, encoded with
/// the given palette as a PNG stream; `None` where the encoder refuses them.
pub uninterp spec fn indexed_png(palette: Seq<Rgba>, indices: Seq<u8>, width: u32, height: u32) -> Option<
    Seq<u8>,
>;

/// A PNG stream recompressed without loss under the given settings; `None`
/// where the recompressor refuses it.
pub uninterp spec fn recompressed(data: Seq<u8>, settings: Recompression) -> Option<Seq<u8>>;

/// 8-bit RGBA pixels encoded as a WebP stream, lossless or lossy with the
/// given quality factor; `None` where the encoder refuses them.
pub uninterp spec fn webp_encoding(
    rgba: Seq<u8>,
    width: u32,
    height: u32,
    lossless: bool,
    quality: u8,
) -> Option<Seq<u8>>;

/// The size of the image that `data` decodes to as the given format.
pub open spec fn decoded_size(data: Seq<u8>, format: image::ImageFormat) -> Option<(u32, u32)> {
    match decoded_image(data, format) {
        Some(img) => Some(image_size(img)),
        None => None,
    }
}

/// `image::ImageFormat::from_path`: the format that the path's extension names,
/// or an error for a missing or unknown extension. The contract only names
/// the outcome.
#[verifier::external_body]
pub(crate) fn format_from_path(path: &str) -> (r: Result<image::ImageFormat, image::ImageError>)
    ensures
        match r {
            Ok(format) => format_of(path@) == Some(format),
            Err(_) => format_of(path@) is None,
        },
{
    image::ImageFormat::from_path(path)
}

/// `image::load_from_memory_with_format`: decodes `data` as an image of the
/// given format. The outcome depends on the bytes and the format alone; the
/// contract only names it. The decoder makes the buffer of the image exactly
/// as long as its pixels need.
#[verifier::external_body]
pub(crate) fn load_image(data: &[u8], format: image::ImageFormat) -> (r: Result<
    image::DynamicImage,
    image::ImageError,
>)
    ensures
        match r {
            Ok(img) => decoded_image(data@, format) == Some(img) && is_tight(img),
            Err(_) => decoded_image(data@, format) is None,
        },
{
    image::load_from_memory_with_format(data, format)
}

/// `image::DynamicImage::width` and `height`.
#[verifier::external_body]
pub(crate) fn dimensions(img: &image::DynamicImage) -> (d: (u32, u32))
    ensures
        d == image_size(*img),
{
    (img.width(), img.height())
}

/// `image::DynamicImage::as_bytes`: the length of the buffer behind the image.
#[verifier::external_body]
pub(crate) fn buffer_len_of(img: &image::DynamicImage) -> (len: usize)
    ensures
        len == buffer_len(*img),
{
    img.as_bytes().len()
}

/// `image::DynamicImage::color` and `image::ColorType::bytes_per_pixel`: the
/// bytes that one pixel takes, at most 16.
#[verifier::external_body]
pub(crate) fn pixel_bytes_of(img: &image::DynamicImage) -> (bytes: u8)
    ensures
        bytes == pixel_bytes(*img),
        bytes <= 16,
{
    img.color().bytes_per_pixel()
}

/// `image::DynamicImage::resize_exact` with the Lanczos filter of window 3: the
/// image resampled to exactly `width` by `height` pixels, in a buffer of
/// exactly that many pixels; the pixels are only named. The intermediate and
/// final buffers hold at most 16 bytes per pixel; the call panics when one of
/// them cannot be addressed, which `requires` leaves out.
#[verifier::external_body]
pub(crate) fn resize_exact(img: &image::DynamicImage, width: u32, height: u32) -> (out:
    image::DynamicImage)
    requires
        16 * image_size(*img).0 * height <= isize::MAX,
        16 * width * height <= isize::MAX,
    ensures
        out == resampled(*img, width, height),
        image_size(out) == (width, height),
        is_tight(out),
{
    img.resize_exact(width, height, image::imageops::FilterType::Lanczos3)
}

/// `image::DynamicImage::to_rgba8`: the pixels as 8-bit RGBA, four bytes per
/// pixel, rows from top to bottom. The buffer behind an image covers all of
/// its pixels; the bytes themselves are only named.
#[verifier::external_body]
pub(crate) fn to_rgba8(img: &image::DynamicImage) -> (rgba: Vec<u8>)
    ensures
        rgba@ == rgba_pixels(*img),
        rgba@.len() >= 4 * image_size(*img).0 * image_size(*img).1,
{
    img.to_rgba8().into_raw()
}

/// `image::DynamicImage::write_to` with the PNG format: the image encoded as a
/// PNG. The encoder asserts that the buffer of the image is exactly as long as
/// its pixels need, and panics on a longer one, which `requires` leaves out.
/// It writes the PNG signature first; the rest of the outcome is only named.
#[verifier::external_body]
pub(crate) fn encode_png(img: &image::DynamicImage) -> (r: Result<Vec<u8>, image::ImageError>)
    requires
        is_tight(*img),
    ensures
        match r {
            Ok(out) => png_encoding(*img) == Some(out@) && has_png_signature(out@),
            Err(_) => png_encoding(*img) is None,
        },
{
    let mut out = std::io::Cursor::new(Vec::new());
    img.write_to(&mut out, image::ImageFormat::Png)?;
    Ok(out.into_inner())
}

/// `imagequant::new`: quantizer settings with their defaults.
#[verifier::external_body]
pub(crate) fn new_attributes() -> (attributes: imagequant::Attributes) {
    imagequant::new()
}

/// `imagequant::Attributes::set_quality`: fails exactly when the target is
/// above 100 or below the minimum.
#[verifier::external_body]
pub(crate) fn set_quality(attributes: &mut imagequant::Attributes, minimum: u8, target: u8) -> (r:
    Result<(), imagequant::Error>)
    ensures
        r.is_ok() == (target <= 100 && minimum <= target),
{
    attributes.set_quality(minimum, target)
}

/// `imagequant::Attributes::new_image` on 8-bit RGBA bytes, with the gamma of
/// sRGB (given as zero). Nothing is claimed of the outcome.
#[verifier::external_body]
pub(crate) fn new_quantizer_image(
    attributes: &imagequant::Attributes,
    rgba: &[u8],
    width: usize,
    height: usize,
) -> (r: Result<imagequant::Image<'static>, imagequant::Error>) {
    let pixels: Vec<imagequant::RGBA> = rgba.chunks_exact(4).map(
        |p| imagequant::RGBA::new(p[0], p[1], p[2], p[3]),
    ).collect();
    attributes.new_image(pixels, width, height, 0u8.into())
}

/// `imagequant::Attributes::quantize`: searches a palette for the image.
/// Nothing is claimed of the outcome.
#[verifier::external_body]
pub(crate) fn quantize(attributes: &imagequant::Attributes, img: &mut imagequant::Image<'static>) -> (r:
    Result<imagequant::QuantizationResult, imagequant::Error>) {
    attributes.quantize(img)
}

/// `imagequant::QuantizationResult::set_dithering_level`, with the level given
/// as a whole number (0 for none, 1 for full). Nothing is claimed of the
/// outcome.
#[verifier::external_body]
pub(crate) fn set_dithering_level(result: &mut imagequant::QuantizationResult, level: u8) -> (r:
    Result<(), imagequant::Error>) {
    result.set_dithering_level(level.into())
}

/// `imagequant::QuantizationResult::remapped`: the palette and one palette
/// index per pixel. Nothing is claimed of the outcome.
#[verifier::external_body]
pub(crate) fn remapped(
    result: &mut imagequant::QuantizationResult,
    img: &mut imagequant::Image<'static>,
) -> (r: Result<(Vec<Rgba>, Vec<u8>), imagequant::Error>) {
    let (palette, indices) = result.remapped(img)?;
    Ok((palette.iter().map(|c| Rgba { r: c.r, g: c.g, b: c.b, a: c.a }).collect(), indices))
}

/// The `Debug` text of an `imagequant::Error`.
#[verifier::external_body]
pub(crate) fn quantizer_error_text(e: &imagequant::Error) -> (text: String) {
    format!("{:?}", e)
}

/// `lodepng::Encoder::new`: an encoder with an empty palette.
#[verifier::external_body]
pub(crate) fn new_palette_encoder() -> (encoder: lodepng::Encoder)
    ensures
        encoder_palette(encoder) == Seq::<Rgba>::empty(),
{
    lodepng::Encoder::new()
}

/// `lodepng::ColorMode::palette_add` on the encoder's input and output colour
/// modes, which this crate keeps alike: appends one colour to both palettes.
/// It fails, and changes nothing, exactly where the palette holds 256 entries
/// already.
#[verifier::external_body]
pub(crate) fn palette_add(encoder: &mut lodepng::Encoder, color: Rgba) -> (r: Result<
    (),
    lodepng::Error,
>)
    ensures
        r.is_ok() == (encoder_palette(*old(encoder)).len() < 256),
        encoder_palette(*final(encoder)) == if encoder_palette(*old(encoder)).len() < 256 {
            encoder_palette(*old(encoder)).push(color)
        } else {
            encoder_palette(*old(encoder))
        },
{
    let c = lodepng::RGBA { r: color.r, g: color.g, b: color.b, a: color.a };
    encoder.info_raw_mut().palette_add(c)?;
    encoder.info_png_mut().color.palette_add(c)
}

/// `lodepng::Encoder::encode`, after `lodepng::ColorMode::set_bitdepth` and the
/// `colortype` field have set the encoder's input and output colour modes to
/// palette colour of 8 bits: one palette index per pixel encoded as a PNG, in
/// the colour mode that the encoder picks. The outcome depends on the palette,
/// the indices and the sides alone; the contract names it, and adds that the
/// encoder writes the PNG signature first. A buffer of another length than
/// `width * height` trips an assertion in unoptimized builds, which `requires`
/// leaves out.
#[verifier::external_body]
pub(crate) fn encode_indexed(
    encoder: &mut lodepng::Encoder,
    indices: &[u8],
    width: u32,
    height: u32,
) -> (r: Result<Vec<u8>, lodepng::Error>)
    requires
        indices@.len() == width * height,
    ensures
        encoder_palette(*final(encoder)) == encoder_palette(*old(encoder)),
        match r {
            Ok(out) => indexed_png(encoder_palette(*old(encoder)), indices@, width, height)
                == Some(out@) && has_png_signature(out@),
            Err(_) => indexed_png(encoder_palette(*old(encoder)), indices@, width, height)
                is None,
        },
{
    encoder.info_raw_mut().colortype = lodepng::ColorType::PALETTE;
    encoder.info_raw_mut().set_bitdepth(8);
    encoder.info_png_mut().color.colortype = lodepng::ColorType::PALETTE;
    encoder.info_png_mut().color.set_bitdepth(8);
    encoder.encode(indices, width as usize, height as usize)
}

/// The `Debug` text of a `lodepng::Error`.
#[verifier::external_body]
pub(crate) fn palette_encoder_error_text(e: &lodepng::Error) -> (text: String) {
    format!("{:?}", e)
}

/// `oxipng::optimize_from_memory` with options made by `Options::from_preset`
/// and the given deflate level, strip policy and flags. The call refuses input
/// that does not start with the PNG signature. It writes the recompressed
/// stream signature first, and returns it only where it is shorter than the
/// input; else it returns the input unchanged. It picks among its candidates
/// by a total order and sets no time limit, so that the outcome depends on
/// the bytes and the settings alone; the contract names it. The deflate level
/// must be one that libdeflate has, else the call panics.
#[verifier::external_body]
pub(crate) fn recompress(data: &[u8], settings: &Recompression) -> (r: Result<Vec<u8>, oxipng::PngError>)
    requires
        settings.compression <= 12,
    ensures
        match r {
            Ok(out) => recompressed(data@, *settings) == Some(out@) && has_png_signature(data@)
                && has_png_signature(out@) && (out@ == data@ || out@.len() < data@.len()),
            Err(_) => recompressed(data@, *settings) is None,
        },
{
    let mut options = oxipng::Options::from_preset(settings.preset);
    options.deflater = oxipng::Deflater::Libdeflater { compression: settings.compression };
    options.strip = match settings.strip {
        Strip::Nothing => oxipng::StripChunks::None,
        Strip::Safe => oxipng::StripChunks::Safe,
    };
    options.optimize_alpha = settings.optimize_alpha;
    options.fast_evaluation = settings.fast_evaluation;
    oxipng::optimize_from_memory(data, &options)
}

/// `webp::Encoder::from_rgba` and `encode_simple`: 8-bit RGBA pixels encoded as
/// WebP, lossless or lossy with the given quality factor. `from_rgba` panics on
/// a buffer shorter than four bytes per pixel, and the binding turns the sides
/// into signed numbers unchecked; `requires` keeps to the sides that WebP has.
/// The encoder runs on one thread with its default settings, so that the
/// outcome depends on the arguments alone; the contract only names it.
#[verifier::external_body]
pub(crate) fn encode_webp(rgba: &[u8], width: u32, height: u32, lossless: bool, quality: u8) -> (r:
    Result<Vec<u8>, webp::WebPEncodingError>)
    requires
        1 <= width <= 16383,
        1 <= height <= 16383,
        rgba@.len() >= 4 * width * height,
    ensures
        match r {
            Ok(out) => webp_encoding(rgba@, width, height, lossless, quality) == Some(out@),
            Err(_) => webp_encoding(rgba@, width, height, lossless, quality) is None,
        },
{
    let encoder = webp::Encoder::from_rgba(rgba, width, height);
    encoder.encode_simple(lossless, quality.into()).map(|memory| memory.to_vec())
}

/// The `Debug` text of a `webp::WebPEncodingError`.
#[verifier::external_body]
pub(crate) fn webp_error_text(e: &webp::WebPEncodingError) -> (text: String) {
    format!("{:?}", e)
}

} // verus!
