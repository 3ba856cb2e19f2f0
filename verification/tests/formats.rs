//! Tests for extension classification, format dispatch and parameter
//! clamping.

use imgcompress::formats::{clamp_u8, ext_is_valid, extension, format_of, ImgFormat};

#[test]
fn extension_takes_suffix_from_last_dot() {
    assert_eq!(extension("a.b.PNG"), ".PNG");
    assert_eq!(extension("photo.jpg"), ".jpg");
    assert_eq!(extension("archive.tar.gz"), ".gz");
}

#[test]
fn extension_empty_without_dot() {
    assert_eq!(extension("noext"), "");
    assert_eq!(extension(""), "");
}

#[test]
fn extension_empty_when_not_alphanumeric() {
    assert_eq!(extension("bad.ex-t"), "");
    assert_eq!(extension("odd.p g"), "");
    assert_eq!(extension("dots.."), ".");
}

#[test]
fn extension_of_bare_dot_names() {
    assert_eq!(extension(".jpg"), ".jpg");
    assert_eq!(extension("trailing."), ".");
}

#[test]
fn extension_with_unicode_stem() {
    assert_eq!(extension("写真.png"), ".png");
}

#[test]
fn ext_is_valid_accepts_allow_list_case_insensitively() {
    assert!(ext_is_valid("photo.JPG"));
    assert!(ext_is_valid("photo.jpeg"));
    assert!(ext_is_valid("photo.JpEg"));
    assert!(ext_is_valid("x.png"));
    assert!(ext_is_valid("x.PNG"));
    assert!(ext_is_valid("x.gif"));
    assert!(ext_is_valid("x.bmp"));
}

#[test]
fn ext_is_valid_rejects_everything_else() {
    assert!(!ext_is_valid("photo.tiff"));
    assert!(!ext_is_valid("photo.jxl"));
    assert!(!ext_is_valid("photo.avif"));
    assert!(!ext_is_valid("noext"));
    assert!(!ext_is_valid(""));
    assert!(!ext_is_valid("trailing."));
    assert!(!ext_is_valid("bad.jp-g"));
}

#[test]
fn format_of_matches_allow_list() {
    assert_eq!(format_of("x.png"), Some(ImgFormat::Png));
    assert_eq!(format_of("x.JPG"), Some(ImgFormat::Jpeg));
    assert_eq!(format_of("x.jpeg"), Some(ImgFormat::Jpeg));
    assert_eq!(format_of("x.bmp"), Some(ImgFormat::Bmp));
    assert_eq!(format_of("x.GIF"), Some(ImgFormat::Gif));
    assert_eq!(format_of("x.tiff"), None);
    assert_eq!(format_of("noext"), None);
}

#[test]
fn quality_clamp_is_total_and_idempotent() {
    assert_eq!(clamp_u8(0, 1, 100), 1);
    assert_eq!(clamp_u8(1, 1, 100), 1);
    assert_eq!(clamp_u8(80, 1, 100), 80);
    assert_eq!(clamp_u8(100, 1, 100), 100);
    assert_eq!(clamp_u8(200, 1, 100), 100);
    assert_eq!(clamp_u8(255, 1, 100), 100);
    assert_eq!(clamp_u8(clamp_u8(255, 1, 100), 1, 100), 100);
    assert_eq!(clamp_u8(clamp_u8(0, 1, 100), 1, 100), 1);
}

#[test]
fn speed_clamp_is_total_and_idempotent() {
    assert_eq!(clamp_u8(0, 1, 30), 1);
    assert_eq!(clamp_u8(1, 1, 30), 1);
    assert_eq!(clamp_u8(30, 1, 30), 30);
    assert_eq!(clamp_u8(31, 1, 30), 30);
    assert_eq!(clamp_u8(255, 1, 30), 30);
    assert_eq!(clamp_u8(clamp_u8(255, 1, 30), 1, 30), 30);
}
