use image_batch::codec::Rgba;
use image_batch::failure::{Fault, Operation};
use image_batch::operations::process_single_image;
use image_batch::options::{OutputFormat, ProcessOptions};
use image_batch::pipeline::{
    decode, encode_palette_png, encode_rgba_as_webp, pipeline_message, plain_png, png_stage,
    push_size, quantize_to_png, recompress_png, recompression, resize_to, trace, webp_stage,
};

fn gradient(width: u32, height: u32) -> image::RgbaImage {
    image::RgbaImage::from_fn(width, height, |x, y| {
        image::Rgba([(x * 7 % 256) as u8, (y * 5 % 256) as u8, ((x + y) % 256) as u8, 255])
    })
}

fn png_bytes(img: image::DynamicImage) -> Vec<u8> {
    let mut out = std::io::Cursor::new(Vec::new());
    img.write_to(&mut out, image::ImageFormat::Png).unwrap();
    out.into_inner()
}

fn gradient_png(width: u32, height: u32) -> Vec<u8> {
    png_bytes(image::DynamicImage::ImageRgba8(gradient(width, height)))
}

fn source(width: u32, height: u32) -> image::DynamicImage {
    decode("source.png", &Ok(gradient_png(width, height))).unwrap()
}

fn options(format: OutputFormat) -> ProcessOptions {
    ProcessOptions {
        resize_enabled: false,
        width: None,
        height: None,
        maintain_aspect_ratio: true,
        quantize_enabled: false,
        quality: 80,
        optimize_enabled: false,
        output_dir: None,
        output_format: format,
    }
}

fn png_size(data: &[u8]) -> (u32, u32) {
    let img = image::load_from_memory_with_format(data, image::ImageFormat::Png).unwrap();
    (img.width(), img.height())
}

#[test]
fn end_to_end_resize_quantize_optimize() {
    let img = image::RgbImage::from_fn(800, 600, |x, y| {
        image::Rgb([(x % 256) as u8, (y % 256) as u8, ((x + y) % 256) as u8])
    });
    let source = png_bytes(image::DynamicImage::ImageRgb8(img));
    let original_size = source.len() as u64;
    let mut opts = options(OutputFormat::Png);
    opts.resize_enabled = true;
    opts.width = Some(400);
    opts.quantize_enabled = true;
    opts.quality = 70;
    opts.optimize_enabled = true;
    let out = process_single_image("photo.png", &Ok(source), original_size, &opts).unwrap();
    assert_eq!(png_size(&out.data), (400, 300));
    // Colour type 3 in the header is palette colour.
    assert_eq!(out.data[25], 3);
    let expected =
        pipeline_message(&opts, 800, 600, original_size, out.data.len() as u64);
    assert_eq!(out.message, expected);
    let prefix = format!(
        "リサイズ: 800x600 → 400x300 → pngquant: クオリティ 70 → oxipng: 最適化 | {} → {} bytes (",
        original_size,
        out.data.len()
    );
    assert!(out.message.starts_with(&prefix), "{}", out.message);
    assert!(out.message.ends_with("% reduction)"));
}

#[test]
fn unreadable_source_is_a_decode_failure() {
    let opts = options(OutputFormat::Png);
    let failure =
        process_single_image("a.png", &Err("permission denied".to_string()), 7, &opts).unwrap_err();
    assert_eq!(failure.fault, Fault::Decode);
    assert_eq!(failure.detail, "permission denied");
    let result = failure.into_result(Operation::Process, "a.png", 7);
    assert!(!result.success);
    assert_eq!(result.original_size, 7);
    assert_eq!(result.result_size, 0);
    assert_eq!(result.output_path, "");
    assert_eq!(result.message, "a.png: 画像を開けません - permission denied");
}

#[test]
fn garbage_is_a_decode_failure() {
    let failure = decode("a.png", &Ok(vec![1, 2, 3, 4])).unwrap_err();
    assert_eq!(failure.fault, Fault::Decode);
    assert!(!failure.detail.is_empty());
}

#[test]
fn format_is_taken_from_the_extension() {
    let png = gradient_png(4, 3);
    assert!(decode("a.png", &Ok(png.clone())).is_ok());
    assert!(decode("a.PNG", &Ok(png.clone())).is_ok());
    assert_eq!(decode("a.jpg", &Ok(png.clone())).unwrap_err().fault, Fault::Decode);
    assert_eq!(decode("a", &Ok(png.clone())).unwrap_err().fault, Fault::Decode);
    assert_eq!(decode("a.xyz", &Ok(png)).unwrap_err().fault, Fault::Decode);
}

#[test]
fn resize_gives_exactly_the_target() {
    let resized = resize_to(source(40, 30), (17, 5)).unwrap();
    assert_eq!((resized.width(), resized.height()), (17, 5));
    let same = resize_to(source(40, 30), (40, 30)).unwrap();
    assert_eq!((same.width(), same.height()), (40, 30));
}

#[test]
fn resize_to_nothing_is_tolerated() {
    let flat = resize_to(source(40, 30), (0, 5)).unwrap();
    assert_eq!((flat.width(), flat.height()), (0, 5));
    let none = resize_to(source(40, 30), (7, 0)).unwrap();
    assert_eq!((none.width(), none.height()), (7, 0));
}

#[test]
fn resize_beyond_memory_is_refused() {
    let failure = resize_to(source(4, 3), (u32::MAX, u32::MAX)).unwrap_err();
    assert_eq!(failure.fault, Fault::Oversize);
    assert_eq!(failure.detail, "4294967295x4294967295");
    let result = failure.into_result(Operation::Process, "a.png", 50);
    assert_eq!(result.message, "リサイズエラー: 4294967295x4294967295");
    assert_eq!(result.original_size, 50);
}

#[test]
fn zero_sized_output_fails_without_a_crash() {
    let mut opts = options(OutputFormat::Png);
    opts.resize_enabled = true;
    opts.width = Some(0);
    let png = gradient_png(8, 8);
    let failure = process_single_image("a.png", &Ok(png.clone()), 1, &opts).unwrap_err();
    assert_eq!(failure.fault, Fault::Convert);
    opts.quantize_enabled = true;
    let failure = process_single_image("a.png", &Ok(png.clone()), 1, &opts).unwrap_err();
    assert_eq!(failure.fault, Fault::QuantizerInput);
    opts.output_format = OutputFormat::Webp;
    let failure = process_single_image("a.png", &Ok(png), 1, &opts).unwrap_err();
    assert_eq!(failure.fault, Fault::WebpEncode);
    assert_eq!(failure.detail, "VP8_ENC_ERROR_BAD_DIMENSION");
}

#[test]
fn quality_above_100_is_a_configuration_failure() {
    let failure = quantize_to_png(&source(8, 8), 101).unwrap_err();
    assert_eq!(failure.fault, Fault::Configuration);
    assert_eq!(failure.detail, "ValueOutOfRange");
    let result = failure.into_result(Operation::Process, "a.png", 9);
    assert_eq!(result.message, "クオリティ設定エラー: ValueOutOfRange");
    assert_eq!(quantize_to_png(&source(8, 8), 255).unwrap_err().fault, Fault::Configuration);
}

#[test]
fn quality_100_is_accepted() {
    let data = quantize_to_png(&source(8, 8), 100).unwrap();
    assert_eq!(png_size(&data), (8, 8));
}

#[test]
fn unreachable_quality_is_a_quantization_failure() {
    // More colours than a palette holds, and a band that allows no loss.
    let noisy = image::RgbaImage::from_fn(64, 64, |x, y| {
        image::Rgba([(x * 4) as u8, (y * 4) as u8, ((x * 37 + y * 91) % 256) as u8, 255])
    });
    let img = decode("noisy.png", &Ok(png_bytes(image::DynamicImage::ImageRgba8(noisy)))).unwrap();
    let failure = quantize_to_png(&img, 100).unwrap_err();
    assert_eq!(failure.fault, Fault::Quantization);
    assert_eq!(failure.detail, "QualityTooLow");
    let result = failure.into_result(Operation::Process, "noisy.png", 1);
    assert_eq!(result.message, "量子化エラー: QualityTooLow");
}

#[test]
fn quantized_png_is_palette_mode() {
    let data = quantize_to_png(&source(32, 24), 60).unwrap();
    assert_eq!(&data[..8], &[0x89, b'P', b'N', b'G', 0x0d, 0x0a, 0x1a, 0x0a]);
    assert_eq!(png_size(&data), (32, 24));
    assert_eq!(data[25], 3);
}

#[test]
fn palette_png_holds_the_given_colours() {
    let palette = vec![Rgba { r: 255, g: 0, b: 0, a: 255 }, Rgba { r: 0, g: 0, b: 255, a: 255 }];
    let indices = vec![0, 1, 1, 0, 0, 0];
    let data = encode_palette_png(&palette, &indices, 3, 2).unwrap();
    assert_eq!(data[25], 3);
    let img = image::load_from_memory_with_format(&data, image::ImageFormat::Png).unwrap().to_rgba8();
    assert_eq!((img.width(), img.height()), (3, 2));
    let red = image::Rgba([255, 0, 0, 255]);
    let blue = image::Rgba([0, 0, 255, 255]);
    let pixels: Vec<image::Rgba<u8>> = img.pixels().copied().collect();
    assert_eq!(pixels, vec![red, blue, blue, red, red, red]);
}

#[test]
fn palette_png_needs_one_index_per_pixel() {
    let palette = vec![Rgba { r: 1, g: 2, b: 3, a: 255 }];
    let failure = encode_palette_png(&palette, &vec![0, 0, 0], 2, 2).unwrap_err();
    assert_eq!(failure.fault, Fault::Encode);
    let failure = encode_palette_png(&palette, &vec![0; 5], 2, 2).unwrap_err();
    assert_eq!(failure.fault, Fault::Encode);
}

#[test]
fn palette_png_holds_256_colours_at_most() {
    let palette: Vec<Rgba> = (0..257u32).map(|i| Rgba { r: i as u8, g: 0, b: 0, a: 255 }).collect();
    let failure = encode_palette_png(&palette, &vec![0, 0, 0, 0], 2, 2).unwrap_err();
    assert_eq!(failure.fault, Fault::Palette);
    let full: Vec<Rgba> = palette[..256].to_vec();
    assert!(encode_palette_png(&full, &vec![0, 255, 7, 0], 2, 2).is_ok());
}

#[test]
fn empty_palette_is_an_encode_failure() {
    let failure = encode_palette_png(&vec![], &vec![0, 0, 0, 0], 2, 2).unwrap_err();
    assert_eq!(failure.fault, Fault::Encode);
}

#[test]
fn plain_png_keeps_the_pixels() {
    let img = source(16, 9);
    let data = png_stage(&img, false, 80, false).unwrap();
    let back = image::load_from_memory_with_format(&data, image::ImageFormat::Png).unwrap();
    assert_eq!(back.to_rgba8().into_raw(), gradient(16, 9).into_raw());
}

#[test]
fn recompression_never_grows_and_keeps_the_pixels() {
    let png = gradient_png(64, 48);
    let out = recompress_png(&png).unwrap();
    assert!(out.len() <= png.len());
    let back = image::load_from_memory_with_format(&out, image::ImageFormat::Png).unwrap();
    assert_eq!(back.to_rgba8().into_raw(), gradient(64, 48).into_raw());
}

#[test]
fn recompression_shrinks_a_loosely_packed_png() {
    let flat = image::RgbaImage::from_pixel(200, 200, image::Rgba([10, 200, 30, 255]));
    let mut loose = Vec::new();
    let encoder = image::codecs::png::PngEncoder::new_with_quality(
        &mut loose,
        image::codecs::png::CompressionType::Fast,
        image::codecs::png::FilterType::NoFilter,
    );
    image::DynamicImage::ImageRgba8(flat).write_with_encoder(encoder).unwrap();
    let out = recompress_png(&loose).unwrap();
    assert!(out.len() < loose.len());
    assert_eq!(png_size(&out), (200, 200));
}

#[test]
fn recompression_gives_a_png_stream() {
    let png = gradient_png(40, 40);
    let out = recompress_png(&png).unwrap();
    let signature = [0x89, 0x50, 0x4e, 0x47, 0x0d, 0x0a, 0x1a, 0x0a];
    assert_eq!(&png[..8], &signature);
    assert_eq!(&out[..8], &signature);
    assert!(out == png || out.len() < png.len());
}

#[test]
fn recompression_returns_the_input_when_nothing_is_gained() {
    let once = recompress_png(&gradient_png(40, 40)).unwrap();
    let twice = recompress_png(&once).unwrap();
    assert!(twice == once || twice.len() < once.len());
    let thrice = recompress_png(&twice).unwrap();
    assert!(thrice == twice || thrice.len() < twice.len());
}

#[test]
fn recompression_refuses_what_is_no_png() {
    let mut bmp = std::io::Cursor::new(Vec::new());
    image::DynamicImage::ImageRgba8(gradient(8, 8))
        .write_to(&mut bmp, image::ImageFormat::Bmp)
        .unwrap();
    assert_eq!(recompress_png(&bmp.into_inner()).unwrap_err().fault, Fault::Recompress);
    assert_eq!(recompress_png(&vec![]).unwrap_err().fault, Fault::Recompress);
    assert_eq!(recompress_png(&vec![0x89, 0x50, 0x4e]).unwrap_err().fault, Fault::Recompress);
    let mut broken = gradient_png(8, 8);
    broken[0] = 0x88;
    assert_eq!(recompress_png(&broken).unwrap_err().fault, Fault::Recompress);
}

#[test]
fn recompression_of_garbage_fails() {
    let failure = recompress_png(&vec![0, 1, 2, 3, 4, 5, 6, 7, 8, 9]).unwrap_err();
    assert_eq!(failure.fault, Fault::Recompress);
    assert!(!failure.detail.is_empty());
}

#[test]
fn recompression_settings_are_fixed() {
    let settings = recompression();
    assert_eq!(settings.preset, 4);
    assert_eq!(settings.compression, 12);
    assert_eq!(settings.strip, image_batch::codec::Strip::Safe);
    assert!(settings.optimize_alpha);
    assert!(settings.fast_evaluation);
}

#[test]
fn optimized_png_is_not_larger_than_the_plain_one() {
    let img = source(48, 48);
    let plain = png_stage(&img, false, 80, false).unwrap();
    let optimized = png_stage(&img, false, 80, true).unwrap();
    assert!(optimized.len() <= plain.len());
    assert_eq!(png_size(&optimized), (48, 48));
}

#[test]
fn lossless_webp_round_trip() {
    let pixels = gradient(37, 21);
    let data = encode_rgba_as_webp(&pixels.clone().into_raw(), 37, 21, 100).unwrap();
    assert_eq!(&data[..4], b"RIFF");
    assert_eq!(&data[8..12], b"WEBP");
    let back = image::load_from_memory_with_format(&data, image::ImageFormat::WebP).unwrap();
    assert_eq!((back.width(), back.height()), (37, 21));
    assert_eq!(back.to_rgba8().into_raw(), pixels.into_raw());
}

#[test]
fn lossless_webp_through_the_pipeline() {
    let mut opts = options(OutputFormat::Webp);
    opts.quality = 100;
    opts.quantize_enabled = true;
    opts.optimize_enabled = true;
    let png = gradient_png(20, 10);
    let size = png.len() as u64;
    let out = process_single_image("a.png", &Ok(png), size, &opts).unwrap();
    let back = image::load_from_memory_with_format(&out.data, image::ImageFormat::WebP).unwrap();
    assert_eq!(back.to_rgba8().into_raw(), gradient(20, 10).into_raw());
    assert!(out.message.starts_with("WebP: ロスレス | "), "{}", out.message);
}

#[test]
fn lossy_webp_keeps_the_dimensions() {
    let img = source(33, 17);
    let data = webp_stage(&img, 50).unwrap();
    let back = image::load_from_memory_with_format(&data, image::ImageFormat::WebP).unwrap();
    assert_eq!((back.width(), back.height()), (33, 17));
    let lossless = webp_stage(&img, 100).unwrap();
    assert_ne!(data, lossless);
}

#[test]
fn lossy_webp_differs_by_quality() {
    let img = source(64, 64);
    let low = webp_stage(&img, 5).unwrap();
    let high = webp_stage(&img, 95).unwrap();
    assert!(low.len() < high.len());
}

#[test]
fn webp_refuses_what_it_cannot_hold() {
    let failure = encode_rgba_as_webp(&vec![0; 16], 0, 4, 80).unwrap_err();
    assert_eq!(failure.fault, Fault::WebpEncode);
    assert_eq!(failure.detail, "VP8_ENC_ERROR_BAD_DIMENSION");
    let failure = encode_rgba_as_webp(&vec![0; 16], 16384, 1, 80).unwrap_err();
    assert_eq!(failure.detail, "VP8_ENC_ERROR_BAD_DIMENSION");
    let failure = encode_rgba_as_webp(&vec![0; 15], 2, 2, 80).unwrap_err();
    assert_eq!(failure.fault, Fault::WebpEncode);
    assert!(encode_rgba_as_webp(&vec![0; 16], 2, 2, 80).is_ok());
}

#[test]
fn size_text() {
    let mut s = String::from("[");
    push_size(&mut s, 800, 600);
    assert_eq!(s, "[800x600");
}

#[test]
fn trace_lists_the_stages_that_run() {
    let mut opts = options(OutputFormat::Png);
    assert_eq!(trace(&opts, 800, 600), Vec::<String>::new());
    opts.optimize_enabled = true;
    assert_eq!(trace(&opts, 800, 600), vec!["oxipng: 最適化"]);
    opts.quantize_enabled = true;
    opts.quality = 65;
    assert_eq!(trace(&opts, 800, 600), vec!["pngquant: クオリティ 65", "oxipng: 最適化"]);
    opts.resize_enabled = true;
    opts.height = Some(300);
    assert_eq!(
        trace(&opts, 800, 600),
        vec!["リサイズ: 800x600 → 400x300", "pngquant: クオリティ 65", "oxipng: 最適化"]
    );
    opts.output_format = OutputFormat::Webp;
    assert_eq!(trace(&opts, 800, 600), vec!["リサイズ: 800x600 → 400x300", "WebP: クオリティ 65"]);
    opts.quality = 100;
    opts.resize_enabled = false;
    assert_eq!(trace(&opts, 800, 600), vec!["WebP: ロスレス"]);
}

#[test]
fn pipeline_message_text() {
    let mut opts = options(OutputFormat::Png);
    assert_eq!(pipeline_message(&opts, 10, 10, 1000, 900), " | 1000 → 900 bytes (10.0% reduction)");
    opts.resize_enabled = true;
    opts.width = Some(5);
    opts.optimize_enabled = true;
    assert_eq!(
        pipeline_message(&opts, 10, 20, 0, 900),
        "リサイズ: 10x20 → 5x10 → oxipng: 最適化 | 0 → 900 bytes (0.0% reduction)"
    );
    opts.output_format = OutputFormat::Webp;
    opts.quality = 42;
    assert_eq!(
        pipeline_message(&opts, 10, 20, 400, 500),
        "リサイズ: 10x20 → 5x10 → WebP: クオリティ 42 | 400 → 500 bytes (-25.0% reduction)"
    );
}

#[test]
fn pipeline_reports_the_stage_that_failed() {
    let mut opts = options(OutputFormat::Png);
    opts.quantize_enabled = true;
    opts.quality = 120;
    let png = gradient_png(8, 8);
    let failure = process_single_image("a.png", &Ok(png.clone()), 3, &opts).unwrap_err();
    assert_eq!(failure.fault, Fault::Configuration);
    opts.resize_enabled = true;
    opts.width = Some(u32::MAX);
    opts.height = Some(u32::MAX);
    opts.maintain_aspect_ratio = false;
    let failure = process_single_image("a.png", &Ok(png), 3, &opts).unwrap_err();
    assert_eq!(failure.fault, Fault::Oversize);
}

#[test]
fn webp_encoder_is_called_as_the_mode_says() {
    let pixels = gradient(24, 16).into_raw();
    let lossless = webp::Encoder::from_rgba(&pixels, 24, 16).encode_lossless().to_vec();
    let lossy_40 = webp::Encoder::from_rgba(&pixels, 24, 16).encode(40.0).to_vec();
    let lossy_0 = webp::Encoder::from_rgba(&pixels, 24, 16).encode(0.0).to_vec();
    let lossy_99 = webp::Encoder::from_rgba(&pixels, 24, 16).encode(99.0).to_vec();
    assert_eq!(encode_rgba_as_webp(&pixels, 24, 16, 100).unwrap(), lossless);
    assert_eq!(encode_rgba_as_webp(&pixels, 24, 16, 255).unwrap(), lossless);
    assert_eq!(encode_rgba_as_webp(&pixels, 24, 16, 40).unwrap(), lossy_40);
    assert_eq!(encode_rgba_as_webp(&pixels, 24, 16, 0).unwrap(), lossy_0);
    assert_eq!(encode_rgba_as_webp(&pixels, 24, 16, 99).unwrap(), lossy_99);
    assert_ne!(lossless, lossy_0);
}

#[test]
fn webp_stage_encodes_the_rgba_pixels_of_the_image() {
    let img = source(19, 11);
    let pixels = img.to_rgba8().into_raw();
    assert_eq!(webp_stage(&img, 100).unwrap(), encode_rgba_as_webp(&pixels, 19, 11, 100).unwrap());
    assert_eq!(webp_stage(&img, 30).unwrap(), encode_rgba_as_webp(&pixels, 19, 11, 30).unwrap());
}

#[test]
fn plain_png_is_the_encoders_stream() {
    let img = source(16, 9);
    assert_eq!(png_stage(&img, false, 80, false).unwrap(), png_bytes(img.clone()));
    let plain = png_bytes(img.clone());
    let optimized = png_stage(&img, false, 80, true).unwrap();
    assert!(optimized == plain || optimized.len() < plain.len());
}

#[test]
fn decode_gives_the_image_of_the_bytes() {
    let png = gradient_png(7, 5);
    let direct = image::load_from_memory_with_format(&png, image::ImageFormat::Png).unwrap();
    let img = decode("a.png", &Ok(png)).unwrap();
    assert_eq!((img.width(), img.height()), (7, 5));
    assert_eq!(img.to_rgba8().into_raw(), direct.to_rgba8().into_raw());
}

#[test]
fn resize_gives_the_resampled_image() {
    let img = source(40, 30);
    let direct = img.resize_exact(13, 7, image::imageops::FilterType::Lanczos3);
    let resized = resize_to(img, (13, 7)).unwrap();
    assert_eq!(resized.to_rgba8().into_raw(), direct.to_rgba8().into_raw());
}

fn loose_image() -> image::DynamicImage {
    // A 2 by 2 image over a buffer of 5 pixels.
    image::DynamicImage::ImageRgba8(image::RgbaImage::from_raw(2, 2, vec![9; 20]).unwrap())
}

#[test]
fn plain_png_refuses_a_loose_buffer() {
    let failure = plain_png(&loose_image()).unwrap_err();
    assert_eq!(failure.fault, Fault::Convert);
    assert_eq!(failure.detail, "pixel buffer is longer than the image");
    assert_eq!(png_stage(&loose_image(), false, 80, false).unwrap_err().fault, Fault::Convert);
    assert_eq!(png_stage(&loose_image(), false, 80, true).unwrap_err().fault, Fault::Convert);
}

#[test]
fn plain_png_takes_a_tight_buffer() {
    let tight = image::DynamicImage::ImageRgba8(
        image::RgbaImage::from_raw(2, 2, vec![9; 16]).unwrap(),
    );
    assert_eq!(plain_png(&tight).unwrap(), png_bytes(tight.clone()));
    let grey = image::DynamicImage::ImageLuma16(
        image::ImageBuffer::from_raw(3, 2, vec![500u16; 6]).unwrap(),
    );
    assert_eq!(plain_png(&grey).unwrap(), png_bytes(grey.clone()));
}

#[test]
fn loose_buffer_can_still_be_quantized_and_resized() {
    let data = quantize_to_png(&loose_image(), 80).unwrap();
    assert_eq!(png_size(&data), (2, 2));
    let resized = resize_to(loose_image(), (4, 3)).unwrap();
    assert_eq!(png_size(&plain_png(&resized).unwrap()), (4, 3));
    assert!(webp_stage(&loose_image(), 100).is_ok());
}

fn direct_indexed(palette: &[Rgba], indices: &[u8], width: usize, height: usize) -> Vec<u8> {
    let mut encoder = lodepng::Encoder::new();
    for c in palette {
        let c = lodepng::RGBA { r: c.r, g: c.g, b: c.b, a: c.a };
        encoder.info_raw_mut().palette_add(c).unwrap();
        encoder.info_png_mut().color.palette_add(c).unwrap();
    }
    encoder.info_raw_mut().colortype = lodepng::ColorType::PALETTE;
    encoder.info_raw_mut().set_bitdepth(8);
    encoder.info_png_mut().color.colortype = lodepng::ColorType::PALETTE;
    encoder.info_png_mut().color.set_bitdepth(8);
    encoder.encode(indices, width, height).unwrap()
}

#[test]
fn palette_png_is_the_encoders_stream() {
    let palette = vec![
        Rgba { r: 255, g: 0, b: 0, a: 255 },
        Rgba { r: 0, g: 255, b: 0, a: 255 },
        Rgba { r: 0, g: 0, b: 255, a: 128 },
    ];
    let indices = vec![0, 1, 2, 2, 1, 0, 0, 0, 1, 1, 2, 2];
    assert_eq!(
        encode_palette_png(&palette, &indices, 4, 3).unwrap(),
        direct_indexed(&palette, &indices, 4, 3)
    );
    assert_eq!(
        encode_palette_png(&palette, &indices, 3, 4).unwrap(),
        direct_indexed(&palette, &indices, 3, 4)
    );
    assert_ne!(
        encode_palette_png(&palette, &indices, 4, 3).unwrap(),
        encode_palette_png(&palette, &indices, 3, 4).unwrap()
    );
}

#[test]
fn palette_png_has_the_given_sides() {
    let palette = vec![Rgba { r: 1, g: 2, b: 3, a: 255 }, Rgba { r: 200, g: 100, b: 0, a: 255 }];
    let indices: Vec<u8> = (0..60u8).map(|i| i % 2).collect();
    assert_eq!(png_size(&encode_palette_png(&palette, &indices, 12, 5).unwrap()), (12, 5));
    assert_eq!(png_size(&encode_palette_png(&palette, &indices, 5, 12).unwrap()), (5, 12));
}

#[test]
fn palette_failures_by_their_cause() {
    let big: Vec<Rgba> = (0..300u32).map(|i| Rgba { r: i as u8, g: 0, b: 0, a: 255 }).collect();
    // Too many colours come first, whatever the indices.
    assert_eq!(encode_palette_png(&big, &vec![0; 3], 2, 2).unwrap_err().fault, Fault::Palette);
    assert_eq!(encode_palette_png(&big, &vec![0; 4], 2, 2).unwrap_err().fault, Fault::Palette);
    let full: Vec<Rgba> = big[..256].to_vec();
    assert_eq!(encode_palette_png(&full, &vec![0; 3], 2, 2).unwrap_err().fault, Fault::Encode);
    assert_eq!(
        encode_palette_png(&full, &vec![0; 4], 2, 2).unwrap(),
        direct_indexed(&full, &[0; 4], 2, 2)
    );
    // Nothing to encode: the encoder refuses an empty image.
    assert_eq!(encode_palette_png(&full, &vec![], 0, 7).unwrap_err().fault, Fault::Encode);
}

#[test]
fn quantized_png_has_the_sides_of_the_image() {
    let data = quantize_to_png(&source(40, 12), 60).unwrap();
    assert_eq!(png_size(&data), (40, 12));
    let data = quantize_to_png(&source(12, 40), 60).unwrap();
    assert_eq!(png_size(&data), (12, 40));
}

fn direct_recompression(data: &[u8]) -> Result<Vec<u8>, oxipng::PngError> {
    let mut options = oxipng::Options::from_preset(4);
    options.deflater = oxipng::Deflater::Libdeflater { compression: 12 };
    options.strip = oxipng::StripChunks::Safe;
    options.optimize_alpha = true;
    options.fast_evaluation = true;
    oxipng::optimize_from_memory(data, &options)
}

#[test]
fn recompression_is_the_recompressors_stream() {
    let png = gradient_png(48, 32);
    let out = recompress_png(&png).unwrap();
    assert_eq!(out, direct_recompression(&png).unwrap());
    assert_eq!(recompress_png(&png).unwrap(), out);
    let quantized = quantize_to_png(&source(48, 32), 70).unwrap();
    assert_eq!(recompress_png(&quantized).unwrap(), direct_recompression(&quantized).unwrap());
    assert!(direct_recompression(&[1, 2, 3]).is_err());
}

#[test]
fn png_stage_recompresses_the_stream_it_made() {
    let img = source(32, 20);
    let plain = png_stage(&img, false, 80, false).unwrap();
    assert_eq!(png_stage(&img, false, 80, true).unwrap(), recompress_png(&plain).unwrap());
    let optimized = png_stage(&img, true, 60, true).unwrap();
    assert_eq!(png_size(&optimized), (32, 20));
}
