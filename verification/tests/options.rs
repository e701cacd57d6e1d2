use image_batch::options::{
    extension, quality_band, webp_mode, OutputFormat, ProcessOptions, ResizeOptions, WebpMode,
};

fn options() -> ProcessOptions {
    ProcessOptions {
        resize_enabled: true,
        width: Some(400),
        height: None,
        maintain_aspect_ratio: true,
        quantize_enabled: false,
        quality: 80,
        optimize_enabled: false,
        output_dir: None,
        output_format: OutputFormat::Png,
    }
}

#[test]
fn quality_band_is_ten_points_wide_at_most() {
    assert_eq!(quality_band(5), (0, 5));
    assert_eq!(quality_band(50), (40, 50));
    assert_eq!(quality_band(0), (0, 0));
    assert_eq!(quality_band(9), (0, 9));
    assert_eq!(quality_band(10), (0, 10));
    assert_eq!(quality_band(11), (1, 11));
    assert_eq!(quality_band(100), (90, 100));
    assert_eq!(quality_band(255), (245, 255));
}

#[test]
fn quality_band_holds_for_every_quality() {
    for q in 0..=255u8 {
        let (lo, hi) = quality_band(q);
        assert_eq!(hi, q);
        assert_eq!(lo as i32, std::cmp::max(q as i32 - 10, 0));
    }
}

#[test]
fn webp_is_lossless_from_quality_100() {
    assert_eq!(webp_mode(100), WebpMode::Lossless);
    assert_eq!(webp_mode(101), WebpMode::Lossless);
    assert_eq!(webp_mode(255), WebpMode::Lossless);
}

#[test]
fn webp_is_lossy_below_quality_100() {
    for q in 0..100u8 {
        assert_eq!(webp_mode(q), WebpMode::Lossy { quality: q });
    }
}

#[test]
fn extensions_of_formats() {
    assert_eq!(extension(OutputFormat::Png), "png");
    assert_eq!(extension(OutputFormat::Webp), "webp");
}

#[test]
fn resize_runs_only_when_enabled_with_a_target() {
    let mut opts = options();
    assert_eq!(opts.resize_target(800, 600), Some((400, 300)));
    opts.resize_enabled = false;
    assert_eq!(opts.resize_target(800, 600), None);
    opts.resize_enabled = true;
    opts.width = None;
    assert_eq!(opts.resize_target(800, 600), None);
    opts.height = Some(60);
    assert_eq!(opts.resize_target(800, 600), Some((80, 60)));
    opts.width = Some(10);
    opts.maintain_aspect_ratio = false;
    assert_eq!(opts.resize_target(800, 600), Some((10, 60)));
}

#[test]
fn resize_options_always_apply() {
    let opts = ResizeOptions { width: None, height: None, maintain_aspect_ratio: true };
    assert_eq!(opts.target(640, 480), (640, 480));
    let opts = ResizeOptions { width: Some(320), height: Some(320), maintain_aspect_ratio: true };
    assert_eq!(opts.target(640, 480), (320, 240));
}
