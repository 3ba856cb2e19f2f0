//! The trusted boundary to the `image` crate, and the verified re-encoding
//! functions built on it.
//!
//! Decoding and encoding are deterministic functions of their byte and
//! parameter arguments, so each outside call's result is given a name
//! (`decoded`, `png_encoded`, ...) that the contracts of the verified
//! callers speak of exactly.

use vstd::prelude::*;
use crate::error::ImgError;
use crate::formats::ImgFormat;
use crate::image_data::{bytes_per_pixel, ColorKind, DecodedImage};

verus! {

#[verifier::external_type_specification]
#[verifier::external_body]
pub struct ExImageFormat(image::ImageFormat);

#[verifier::external_type_specification]
#[verifier::external_body]
pub struct ExColorType(image::ColorType);

/// What decoding yields from the given bytes when they are read as the given
/// format: dimensions, pixel layout and pixel bytes, or nothing when the
/// bytes cannot be decoded (or use a pixel layout outside `ColorKind`).
pub uninterp spec fn decoded(format: ImgFormat, data: Seq<u8>) -> Option<
    (u32, u32, ColorKind, Seq<u8>),
>;

/// The PNG serialization (best compression, adaptive filtering) of the given
/// pixel buffer, or nothing when the encoder rejects the pixel layout.
pub uninterp spec fn png_encoded(width: u32, height: u32, color: ColorKind, pixels: Seq<u8>) -> Option<
    Seq<u8>,
>;

/// The JPEG serialization of the given pixel buffer at the given quality, or
/// nothing when the encoder rejects the pixel layout or the dimensions.
pub uninterp spec fn jpeg_encoded(
    width: u32,
    height: u32,
    color: ColorKind,
    pixels: Seq<u8>,
    quality: u8,
) -> Option<Seq<u8>>;

/// The BMP serialization of the given pixel buffer, or nothing when the
/// encoder rejects the pixel layout or the dimensions.
pub uninterp spec fn bmp_encoded(width: u32, height: u32, color: ColorKind, pixels: Seq<u8>) -> Option<
    Seq<u8>,
>;

/// The GIF serialization of the given pixel buffer at the given speed, or
/// nothing when the encoder rejects the pixel layout or the dimensions.
pub uninterp spec fn gif_encoded(
    width: u32,
    height: u32,
    color: ColorKind,
    pixels: Seq<u8>,
    speed: u8,
) -> Option<Seq<u8>>;

/// Relies on `image::ImageFormat`: names the decoder that each supported
/// format selects.
#[verifier::external_body]
fn image_format_of(f: ImgFormat) -> image::ImageFormat {
    match f {
        ImgFormat::Png => image::ImageFormat::Png,
        ImgFormat::Jpeg => image::ImageFormat::Jpeg,
        ImgFormat::Bmp => image::ImageFormat::Bmp,
        ImgFormat::Gif => image::ImageFormat::Gif,
    }
}

/// Relies on `image::ColorType`: maps each pixel layout a decoder can
/// produce to its `ColorKind`, variant for variant.
#[verifier::external_body]
fn color_kind_of(c: image::ColorType) -> Option<ColorKind> {
    match c {
        image::ColorType::L8 => Some(ColorKind::L8),
        image::ColorType::La8 => Some(ColorKind::La8),
        image::ColorType::Rgb8 => Some(ColorKind::Rgb8),
        image::ColorType::Rgba8 => Some(ColorKind::Rgba8),
        image::ColorType::L16 => Some(ColorKind::L16),
        image::ColorType::La16 => Some(ColorKind::La16),
        image::ColorType::Rgb16 => Some(ColorKind::Rgb16),
        image::ColorType::Rgba16 => Some(ColorKind::Rgba16),
        image::ColorType::Rgb32F => Some(ColorKind::Rgb32F),
        image::ColorType::Rgba32F => Some(ColorKind::Rgba32F),
        _ => None,
    }
}

/// Relies on `image::ColorType`: the inverse of `color_kind_of`, variant for
/// variant; `image::ColorType::bytes_per_pixel` agrees with
/// `bytes_per_pixel` on corresponding variants.
#[verifier::external_body]
fn color_type_of(c: ColorKind) -> image::ColorType {
    match c {
        ColorKind::L8 => image::ColorType::L8,
        ColorKind::La8 => image::ColorType::La8,
        ColorKind::Rgb8 => image::ColorType::Rgb8,
        ColorKind::Rgba8 => image::ColorType::Rgba8,
        ColorKind::L16 => image::ColorType::L16,
        ColorKind::La16 => image::ColorType::La16,
        ColorKind::Rgb16 => image::ColorType::Rgb16,
        ColorKind::Rgba16 => image::ColorType::Rgba16,
        ColorKind::Rgb32F => image::ColorType::Rgb32F,
        ColorKind::Rgba32F => image::ColorType::Rgba32F,
    }
}

/// Relies on `image::load_from_memory_with_format` and the `DynamicImage`
/// accessors `width`, `height`, `color` and `as_bytes`: the result is a
/// function of the format and the bytes alone, and a decoded image's buffer
/// holds exactly `width * height * bytes_per_pixel` bytes (the decoder
/// allocates the buffer at exactly `total_bytes`).
#[verifier::external_body]
fn decode_bytes(format: ImgFormat, data: &[u8]) -> (r: Result<DecodedImage, String>)
    ensures
        match r {
            Ok(img) => decoded(format, data@) == Some(img@) && img.wf(),
            Err(_) => decoded(format, data@) is None,
        },
{
    let img = match image::load_from_memory_with_format(data, image_format_of(format)) {
        Ok(i) => i,
        Err(e) => return Err(e.to_string()),
    };
    let color = match color_kind_of(img.color()) {
        Some(k) => k,
        None => return Err(String::from("unrecognized color type")),
    };
    Ok(DecodedImage { width: img.width(), height: img.height(), color, pixels: img.as_bytes().to_vec() })
}

/// Relies on `image::codecs::png::PngEncoder::write_image` with
/// `CompressionType::Best` and `FilterType::Adaptive`: the result is a
/// function of the arguments alone, and a successful encode always begins
/// with the 8-byte PNG signature; it panics only when the buffer length is
/// not `width * height * bytes_per_pixel`, which the precondition rules out.
#[verifier::external_body]
fn png_encode_bytes(width: u32, height: u32, color: ColorKind, pixels: &Vec<u8>) -> (r: Result<
    Vec<u8>,
    String,
>)
    requires
        pixels@.len() == width as int * height as int * bytes_per_pixel(color),
    ensures
        match r {
            Ok(b) => png_encoded(width, height, color, pixels@) == Some(b@) && b@.len() > 0,
            Err(_) => png_encoded(width, height, color, pixels@) is None,
        },
{
    let mut out: Vec<u8> = Vec::new();
    let enc = image::codecs::png::PngEncoder::new_with_quality(
        &mut out,
        image::codecs::png::CompressionType::Best,
        image::codecs::png::FilterType::Adaptive,
    );
    match image::ImageEncoder::write_image(enc, pixels.as_slice(), width, height, color_type_of(color)) {
        Ok(()) => Ok(out),
        Err(e) => Err(e.to_string()),
    }
}

/// Relies on `image::codecs::jpeg::JpegEncoder::write_image`: the result is
/// a function of the arguments alone (the encoder clamps the quality to
/// [1, 100] itself), and a successful encode always begins with the SOI and
/// JFIF markers; it panics only when the buffer length is not
/// `width * height * bytes_per_pixel`, which the precondition rules out.
#[verifier::external_body]
fn jpeg_encode_bytes(
    width: u32,
    height: u32,
    color: ColorKind,
    pixels: &Vec<u8>,
    quality: u8,
) -> (r: Result<Vec<u8>, String>)
    requires
        pixels@.len() == width as int * height as int * bytes_per_pixel(color),
    ensures
        match r {
            Ok(b) => jpeg_encoded(width, height, color, pixels@, quality) == Some(b@) && b@.len()
                > 0,
            Err(_) => jpeg_encoded(width, height, color, pixels@, quality) is None,
        },
{
    let mut out: Vec<u8> = Vec::new();
    let enc = image::codecs::jpeg::JpegEncoder::new_with_quality(&mut out, quality);
    match image::ImageEncoder::write_image(enc, pixels.as_slice(), width, height, color_type_of(color)) {
        Ok(()) => Ok(out),
        Err(e) => Err(e.to_string()),
    }
}

/// The BMP encoder's own 32-bit size arithmetic stays in range: it computes
/// `width * bytes_per_pixel` and `height * 3` in `u32` before its checked
/// size additions, and indexes rows with `u32` products of the pixel count
/// and the input pixel size.
pub open spec fn bmp_dims_ok(width: u32, height: u32, color: ColorKind) -> bool {
    &&& width as int * bytes_per_pixel(color) <= u32::MAX
    &&& height as int * 3 <= u32::MAX
    &&& width as int * height as int * bytes_per_pixel(color) <= u32::MAX
}

/// Relies on `image::codecs::bmp::BmpEncoder::write_image`: the result is a
/// function of the arguments alone, and a successful encode always begins
/// with the 14-byte BMP file header; it panics only when the buffer length
/// is not `width * height * bytes_per_pixel` or when its `u32` row and
/// index arithmetic overflows, both ruled out by the preconditions
/// (`bmp_dims_ok` bounds the row stride, the padding total and the whole
/// pixel-index range by `u32::MAX`).
#[verifier::external_body]
fn bmp_encode_bytes(width: u32, height: u32, color: ColorKind, pixels: &Vec<u8>) -> (r: Result<
    Vec<u8>,
    String,
>)
    requires
        pixels@.len() == width as int * height as int * bytes_per_pixel(color),
        bmp_dims_ok(width, height, color),
    ensures
        match r {
            Ok(b) => bmp_encoded(width, height, color, pixels@) == Some(b@) && b@.len() > 0,
            Err(_) => bmp_encoded(width, height, color, pixels@) is None,
        },
{
    let mut out: Vec<u8> = Vec::new();
    let enc = image::codecs::bmp::BmpEncoder::new(&mut out);
    match image::ImageEncoder::write_image(enc, pixels.as_slice(), width, height, color_type_of(color)) {
        Ok(()) => Ok(out),
        Err(e) => Err(e.to_string()),
    }
}

/// Relies on `image::codecs::gif::GifEncoder::new_with_speed` and
/// `GifEncoder::encode`: the result is a function of the arguments alone,
/// and a successful encode always begins with the GIF header and screen
/// descriptor; `new_with_speed` panics outside speed [1, 30], and the frame constructors
/// panic only when the buffer length does not match the dimensions, both
/// ruled out by the preconditions (oversized dimensions are rejected as an
/// error before any frame is built).
#[verifier::external_body]
fn gif_encode_bytes(
    width: u32,
    height: u32,
    color: ColorKind,
    pixels: &Vec<u8>,
    speed: u8,
) -> (r: Result<Vec<u8>, String>)
    requires
        pixels@.len() == width as int * height as int * bytes_per_pixel(color),
        1 <= speed <= 30,
    ensures
        match r {
            Ok(b) => gif_encoded(width, height, color, pixels@, speed) == Some(b@) && b@.len()
                > 0,
            Err(_) => gif_encoded(width, height, color, pixels@, speed) is None,
        },
{
    let mut out: Vec<u8> = Vec::new();
    let mut enc = image::codecs::gif::GifEncoder::new_with_speed(&mut out, i32::from(speed));
    match enc.encode(pixels.as_slice(), width, height, color_type_of(color)) {
        Ok(()) => {
            drop(enc);
            Ok(out)
        },
        Err(e) => Err(e.to_string()),
    }
}

/// Decodes the given bytes as an image of the given format.
///
/// Returns the decoded image exactly when the bytes decode, and a
/// `Decode` error otherwise.
pub fn decode_image(format: ImgFormat, data: &[u8]) -> (r: Result<DecodedImage, ImgError>)
    ensures
        match r {
            Ok(img) => decoded(format, data@) == Some(img@) && img.wf(),
            Err(e) => decoded(format, data@) is None && e matches ImgError::Decode { .. },
        },
{
    match decode_bytes(format, data) {
        Ok(img) => Ok(img),
        Err(detail) => Err(ImgError::Decode { detail }),
    }
}

/// Re-encodes a decoded image as PNG, at the best compression level with
/// adaptive per-row filtering.
///
/// Returns exactly the PNG serialization of the image (never empty), and an
/// `Encode` error exactly when the encoder rejects the image's pixel layout.
pub fn reencode_png(img: &DecodedImage) -> (r: Result<Vec<u8>, ImgError>)
    requires
        img.wf(),
    ensures
        match r {
            Ok(b) => png_encoded(img.width, img.height, img.color, img.pixels@) == Some(b@)
                && b@.len() > 0,
            Err(e) => png_encoded(img.width, img.height, img.color, img.pixels@) is None
                && e matches ImgError::Encode { format: ImgFormat::Png, .. },
        },
{
    match png_encode_bytes(img.width, img.height, img.color, &img.pixels) {
        Ok(b) => Ok(b),
        Err(detail) => Err(ImgError::Encode { format: ImgFormat::Png, detail }),
    }
}

/// Re-encodes a decoded image as JPEG at the given quality.
///
/// Returns exactly the JPEG serialization of the image (never empty), and
/// an `Encode` error exactly when the encoder rejects the image's pixel
/// layout or dimensions.
pub fn reencode_jpg(img: &DecodedImage, quality: u8) -> (r: Result<Vec<u8>, ImgError>)
    requires
        img.wf(),
    ensures
        match r {
            Ok(b) => jpeg_encoded(img.width, img.height, img.color, img.pixels@, quality) == Some(
                b@,
            ) && b@.len() > 0,
            Err(e) => jpeg_encoded(img.width, img.height, img.color, img.pixels@, quality) is None
                && e matches ImgError::Encode { format: ImgFormat::Jpeg, .. },
        },
{
    match jpeg_encode_bytes(img.width, img.height, img.color, &img.pixels, quality) {
        Ok(b) => Ok(b),
        Err(detail) => Err(ImgError::Encode { format: ImgFormat::Jpeg, detail }),
    }
}

/// Re-encodes a decoded image as BMP.
///
/// Returns exactly the BMP serialization of the image (never empty). An
/// `Encode` error comes when the encoder rejects the image's pixel layout,
/// and always for images so large that the BMP format's 32-bit size and
/// index arithmetic could not represent them.
pub fn reencode_bmp(img: &DecodedImage) -> (r: Result<Vec<u8>, ImgError>)
    requires
        img.wf(),
    ensures
        match r {
            Ok(b) => bmp_encoded(img.width, img.height, img.color, img.pixels@) == Some(b@)
                && b@.len() > 0,
            Err(e) => e matches ImgError::Encode { format: ImgFormat::Bmp, .. } && (bmp_dims_ok(
                img.width,
                img.height,
                img.color,
            ) ==> bmp_encoded(img.width, img.height, img.color, img.pixels@) is None),
        },
        !bmp_dims_ok(img.width, img.height, img.color) ==> r is Err,
{
    let bpp = bytes_per_pixel_exec(img.color);
    let w64: u64 = img.width as u64;
    let h64: u64 = img.height as u64;
    let b64: u64 = bpp as u64;
    proof {
        assert(w64 * b64 <= 0xFFFF_FFFFu64 * 255u64) by (nonlinear_arith)
            requires
                w64 <= 0xFFFF_FFFFu64,
                b64 <= 255u64,
        ;
        assert(w64 * h64 <= 0xFFFF_FFFFu64 * 0xFFFF_FFFFu64) by (nonlinear_arith)
            requires
                w64 <= 0xFFFF_FFFFu64,
                h64 <= 0xFFFF_FFFFu64,
        ;
    }
    let dims_ok: bool = if w64 * b64 > u32::MAX as u64 || h64 * 3 > u32::MAX as u64 {
        false
    } else if w64 * h64 > u32::MAX as u64 {
        proof {
            assert(w64 * h64 <= w64 * h64 * b64) by (nonlinear_arith)
                requires
                    1 <= b64,
            ;
        }
        false
    } else {
        proof {
            assert(w64 * h64 * b64 <= 0xFFFF_FFFFu64 * 255u64) by (nonlinear_arith)
                requires
                    w64 * h64 <= 0xFFFF_FFFFu64,
                    b64 <= 255u64,
            ;
        }
        (w64 * h64) * b64 <= u32::MAX as u64
    };
    if !dims_ok {
        return Err(
            ImgError::Encode {
                format: ImgFormat::Bmp,
                detail: "image dimensions exceed what a BMP header can hold".to_owned(),
            },
        );
    }
    match bmp_encode_bytes(img.width, img.height, img.color, &img.pixels) {
        Ok(b) => Ok(b),
        Err(detail) => Err(ImgError::Encode { format: ImgFormat::Bmp, detail }),
    }
}

/// Re-encodes a decoded image as GIF at the given palette-quantization
/// speed.
///
/// Returns exactly the GIF serialization of the image (never empty), and an
/// `Encode` error exactly when the encoder rejects the image's pixel layout
/// or dimensions.
pub fn reencode_gif(img: &DecodedImage, speed: u8) -> (r: Result<Vec<u8>, ImgError>)
    requires
        img.wf(),
        1 <= speed <= 30,
    ensures
        match r {
            Ok(b) => gif_encoded(img.width, img.height, img.color, img.pixels@, speed) == Some(b@)
                && b@.len() > 0,
            Err(e) => gif_encoded(img.width, img.height, img.color, img.pixels@, speed) is None
                && e matches ImgError::Encode { format: ImgFormat::Gif, .. },
        },
{
    match gif_encode_bytes(img.width, img.height, img.color, &img.pixels, speed) {
        Ok(b) => Ok(b),
        Err(detail) => Err(ImgError::Encode { format: ImgFormat::Gif, detail }),
    }
}

/// The byte width of one pixel of the given layout.
fn bytes_per_pixel_exec(c: ColorKind) -> (r: u8)
    ensures
        r as int == bytes_per_pixel(c),
{
    match c {
        ColorKind::L8 => 1,
        ColorKind::La8 => 2,
        ColorKind::Rgb8 => 3,
        ColorKind::Rgba8 => 4,
        ColorKind::L16 => 2,
        ColorKind::La16 => 4,
        ColorKind::Rgb16 => 6,
        ColorKind::Rgba16 => 8,
        ColorKind::Rgb32F => 12,
        ColorKind::Rgba32F => 16,
    }
}

} // verus!
