use image_batch::paths::{destination, is_png, is_png_extension, output_dir, output_name};
use std::path::Path;

#[test]
fn png_extension_in_any_case() {
    assert!(is_png_extension(Some("png")));
    assert!(is_png_extension(Some("PNG")));
    assert!(is_png_extension(Some("pNg")));
}

#[test]
fn other_extensions_are_not_png() {
    assert!(!is_png_extension(None));
    assert!(!is_png_extension(Some("")));
    assert!(!is_png_extension(Some("jpg")));
    assert!(!is_png_extension(Some("pn")));
    assert!(!is_png_extension(Some("pngx")));
    assert!(!is_png_extension(Some("apng")));
    assert!(!is_png_extension(Some("pñg")));
}

#[test]
fn output_name_from_stem() {
    assert_eq!(output_name(Some("photo"), "_processed.png"), "photo_processed.png");
    assert_eq!(output_name(Some("写真"), "_resized.png"), "写真_resized.png");
    assert_eq!(output_name(Some(""), "_optimized.png"), "_optimized.png");
}

#[test]
fn output_name_without_stem() {
    assert_eq!(output_name(None, "_processed.webp"), "output_processed.webp");
}

#[test]
fn output_dir_prefers_the_requested_one() {
    assert_eq!(output_dir(Some("out"), Some("in")), "out");
    assert_eq!(output_dir(Some("out"), None), "out");
    assert_eq!(output_dir(None, Some("in")), "in");
    assert_eq!(output_dir(None, Some("")), "");
    assert_eq!(output_dir(None, None), ".");
}

#[test]
fn png_paths_by_extension() {
    assert!(is_png("a.png"));
    assert!(is_png("some/dir/Photo.PNG"));
    assert!(is_png("archive.tar.Png"));
    assert!(!is_png("a.jpg"));
    assert!(!is_png("png"));
    assert!(!is_png(".png"));
    assert!(!is_png("dir.png/a"));
    assert!(!is_png("a.png.bak"));
    assert!(!is_png(""));
}

#[test]
fn destination_beside_the_source() {
    assert_eq!(
        Path::new(&destination("in/pic.jpg", None, "_processed.png")),
        Path::new("in").join("pic_processed.png")
    );
    assert_eq!(destination("pic.jpg", None, "_resized.png"), "pic_resized.png");
    assert_eq!(
        Path::new(&destination("a/b.c/archive.tar.gz", None, "_optimized.png")),
        Path::new("a").join("b.c").join("archive.tar_optimized.png")
    );
}

#[test]
fn destination_in_the_requested_directory() {
    assert_eq!(
        Path::new(&destination("in/pic.jpg", Some("out/dir"), "_processed.webp")),
        Path::new("out/dir").join("pic_processed.webp")
    );
}

#[test]
fn destination_of_a_path_without_a_name() {
    assert_eq!(
        Path::new(&destination("", None, "_processed.png")),
        Path::new(".").join("output_processed.png")
    );
    assert_eq!(
        Path::new(&destination("..", Some("out"), "_processed.png")),
        Path::new("out").join("output_processed.png")
    );
}
