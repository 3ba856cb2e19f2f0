//! Tests for decoding, re-encoding, round-trips and the whole pipeline.

use imgcompress::codec::{decode_image, reencode_bmp, reencode_gif, reencode_jpg, reencode_png};
use imgcompress::error::ImgError;
use imgcompress::formats::ImgFormat;
use imgcompress::image_data::{ColorKind, DecodedImage};
use imgcompress::pipeline::process;

fn rgb_2x2() -> DecodedImage {
    DecodedImage {
        width: 2,
        height: 2,
        color: ColorKind::Rgb8,
        pixels: vec![255, 0, 0, 0, 255, 0, 0, 0, 255, 10, 20, 30],
    }
}

fn rgba_2x2() -> DecodedImage {
    DecodedImage {
        width: 2,
        height: 2,
        color: ColorKind::Rgba8,
        pixels: vec![255, 0, 0, 255, 0, 255, 0, 255, 0, 0, 255, 255, 10, 20, 30, 255],
    }
}

#[test]
fn png_round_trip_is_lossless() {
    let img = rgb_2x2();
    let png = reencode_png(&img).unwrap();
    let back = decode_image(ImgFormat::Png, &png).unwrap();
    assert_eq!(back.width, img.width);
    assert_eq!(back.height, img.height);
    assert_eq!(back.color, ColorKind::Rgb8);
    assert_eq!(back.pixels, img.pixels);
}

#[test]
fn bmp_round_trip_is_lossless() {
    let img = rgb_2x2();
    let bmp = reencode_bmp(&img).unwrap();
    let back = decode_image(ImgFormat::Bmp, &bmp).unwrap();
    assert_eq!(back.width, img.width);
    assert_eq!(back.height, img.height);
    assert_eq!(back.color, ColorKind::Rgb8);
    assert_eq!(back.pixels, img.pixels);
}

#[test]
fn jpeg_round_trip_keeps_dimensions_and_pixel_count() {
    let img = rgb_2x2();
    let jpg = reencode_jpg(&img, 90).unwrap();
    let back = decode_image(ImgFormat::Jpeg, &jpg).unwrap();
    assert_eq!(back.width, img.width);
    assert_eq!(back.height, img.height);
    assert_eq!(back.pixels.len(), img.pixels.len());
}

#[test]
fn gif_round_trip_keeps_dimensions_and_pixel_count() {
    let img = rgba_2x2();
    let gif = reencode_gif(&img, 1).unwrap();
    let back = decode_image(ImgFormat::Gif, &gif).unwrap();
    assert_eq!(back.width, img.width);
    assert_eq!(back.height, img.height);
    assert_eq!(back.color, ColorKind::Rgba8);
    assert_eq!(back.pixels.len(), img.pixels.len());
}

#[test]
fn encode_rejects_pixel_layout_the_format_cannot_hold() {
    let img = DecodedImage {
        width: 2,
        height: 2,
        color: ColorKind::L16,
        pixels: vec![0; 8],
    };
    let r = reencode_gif(&img, 1);
    assert!(matches!(r, Err(ImgError::Encode { format: ImgFormat::Gif, .. })));
    let r = reencode_jpg(&img, 80);
    assert!(matches!(r, Err(ImgError::Encode { format: ImgFormat::Jpeg, .. })));
}

#[test]
fn process_png_to_jpeg_succeeds() {
    let png = reencode_png(&rgb_2x2()).unwrap();
    let out = process("cat.png", "cat.jpg", &png, 90, 1).unwrap();
    assert!(!out.is_empty());
    let back = decode_image(ImgFormat::Jpeg, &out).unwrap();
    assert_eq!(back.width, 2);
    assert_eq!(back.height, 2);
}

#[test]
fn process_rejects_invalid_input_extension() {
    let png = reencode_png(&rgb_2x2()).unwrap();
    let r = process("cat.tiff", "cat.jpg", &png, 80, 1);
    match r {
        Err(ImgError::InvalidInput { ext }) => assert_eq!(ext, ".tiff"),
        other => panic!("expected an invalid-input error, got {:?}", other),
    }
}

#[test]
fn process_rejects_invalid_output_extension() {
    let png = reencode_png(&rgb_2x2()).unwrap();
    let r = process("cat.png", "cat.webp", &png, 80, 1);
    match r {
        Err(ImgError::InvalidOutput { ext }) => assert_eq!(ext, ".webp"),
        other => panic!("expected an invalid-output error, got {:?}", other),
    }
}

#[test]
fn process_reports_undecodable_input() {
    let garbage = vec![1, 2, 3, 4, 5, 6, 7, 8];
    let r = process("cat.png", "cat.bmp", &garbage, 80, 1);
    assert!(matches!(r, Err(ImgError::Decode { .. })));
}

#[test]
fn process_reports_encode_failure_with_target_format() {
    let img = DecodedImage {
        width: 2,
        height: 2,
        color: ColorKind::L16,
        pixels: vec![0, 1, 2, 3, 4, 5, 6, 7],
    };
    let png16 = reencode_png(&img).unwrap();
    let r = process("deep.png", "deep.gif", &png16, 80, 1);
    assert!(matches!(r, Err(ImgError::Encode { format: ImgFormat::Gif, .. })));
}

#[test]
fn process_clamps_out_of_range_parameters() {
    let png = reencode_png(&rgb_2x2()).unwrap();
    let with_zero = process("a.png", "b.jpg", &png, 0, 0).unwrap();
    let with_min = process("a.png", "b.jpg", &png, 1, 1).unwrap();
    assert_eq!(with_zero, with_min);
    let with_high = process("a.png", "b.jpg", &png, 255, 255).unwrap();
    let with_max = process("a.png", "b.jpg", &png, 100, 30).unwrap();
    assert_eq!(with_high, with_max);
}

#[test]
fn process_output_extension_case_does_not_matter() {
    let png = reencode_png(&rgb_2x2()).unwrap();
    let lower = process("cat.png", "cat.bmp", &png, 80, 1).unwrap();
    let upper = process("cat.PNG", "cat.BMP", &png, 80, 1).unwrap();
    assert_eq!(lower, upper);
}

#[test]
fn process_same_name_for_input_and_output_recompresses() {
    let png = reencode_png(&rgb_2x2()).unwrap();
    let out = process("cat.png", "cat.png", &png, 80, 1).unwrap();
    let back = decode_image(ImgFormat::Png, &out).unwrap();
    assert_eq!(back.width, 2);
    assert_eq!(back.height, 2);
    assert_eq!(back.pixels, rgb_2x2().pixels);
}
