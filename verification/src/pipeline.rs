//! The top-level pipeline: validate both filenames' extensions, decode the
//! input bytes, dispatch on the output format, and return the encoded bytes.
//!
//! The caller performs all file I/O; on any error no output bytes exist, so
//! a caller that writes only on success never leaves a partial or stale
//! output artifact.

use vstd::pervasive::unreached;
use vstd::prelude::*;
use crate::codec::{
    bmp_dims_ok, bmp_encoded, decode_image, decoded, gif_encoded, jpeg_encoded, png_encoded,
    reencode_bmp, reencode_gif, reencode_jpg, reencode_png,
};
use crate::error::ImgError;
use crate::formats::{
    clamp_spec, clamp_u8, ext_is_valid, ext_spec, extension, format_of, format_of_spec,
    lemma_allow_list_matches_dispatch, valid_ext_spec, ImgFormat,
};
use crate::image_data::ColorKind;

verus! {

/// The serialization that the dispatcher selects for an output format: the
/// named result of the format's encoder on the decoded image's dimensions,
/// pixel layout and pixel bytes.
pub open spec fn encoded_spec(
    f: ImgFormat,
    v: (u32, u32, ColorKind, Seq<u8>),
    quality: u8,
    speed: u8,
) -> Option<Seq<u8>> {
    match f {
        ImgFormat::Png => png_encoded(v.0, v.1, v.2, v.3),
        ImgFormat::Jpeg => jpeg_encoded(v.0, v.1, v.2, v.3, quality),
        ImgFormat::Bmp => bmp_encoded(v.0, v.1, v.2, v.3),
        ImgFormat::Gif => gif_encoded(v.0, v.1, v.2, v.3, speed),
    }
}

/// The decoded image's dimensions stay inside the selected encoder's own
/// arithmetic limits (only the BMP encoder has one below `u32`).
pub open spec fn encode_dims_ok(f: ImgFormat, v: (u32, u32, ColorKind, Seq<u8>)) -> bool {
    f is Bmp ==> bmp_dims_ok(v.0, v.1, v.2)
}

/// Runs the whole pipeline on in-memory bytes: validates the input and
/// output filenames' extensions, decodes `data` as the format the input
/// extension names, and re-encodes it as the format the output extension
/// names, with `quality` clamped to [1, 100] and `speed` clamped to [1, 30].
///
/// The contract pins every outcome: which error comes for which input, and
/// that the bytes of a success are exactly the selected encoder's
/// serialization of the decoded image — in particular never empty.
pub fn process(input: &str, output: &str, data: &[u8], quality: u8, speed: u8) -> (r: Result<
    Vec<u8>,
    ImgError,
>)
    ensures
        !valid_ext_spec(input@) ==> (r matches Err(e) && e matches ImgError::InvalidInput { ext }
            && ext@ == ext_spec(input@)),
        valid_ext_spec(input@) && !valid_ext_spec(output@) ==> (r matches Err(e)
            && e matches ImgError::InvalidOutput { ext } && ext@ == ext_spec(output@)),
        valid_ext_spec(input@) && valid_ext_spec(output@) ==> {
            let inf = format_of_spec(input@).unwrap();
            let outf = format_of_spec(output@).unwrap();
            let q = clamp_spec(quality, 1, 100);
            let s = clamp_spec(speed, 1, 30);
            match decoded(inf, data@) {
                None => r matches Err(e) && e matches ImgError::Decode { .. },
                Some(v) => {
                    &&& (r matches Ok(b) ==> encoded_spec(outf, v, q, s) == Some(b@) && b@.len()
                        > 0)
                    &&& (r matches Err(e) ==> e matches ImgError::Encode { format, .. } && format
                        == outf)
                    &&& (encode_dims_ok(outf, v) ==> (r is Ok <==> encoded_spec(outf, v, q, s)
                        is Some))
                    &&& (!encode_dims_ok(outf, v) ==> r is Err)
                },
            }
        },
{
    if !ext_is_valid(input) {
        return Err(ImgError::InvalidInput { ext: extension(input).to_owned() });
    }
    if !ext_is_valid(output) {
        return Err(ImgError::InvalidOutput { ext: extension(output).to_owned() });
    }
    let inf = match format_of(input) {
        Some(f) => f,
        None => {
            proof {
                lemma_allow_list_matches_dispatch(input@);
            }
            unreached()
        },
    };
    let outf = match format_of(output) {
        Some(f) => f,
        None => {
            proof {
                lemma_allow_list_matches_dispatch(output@);
            }
            unreached()
        },
    };
    let img = match decode_image(inf, data) {
        Ok(i) => i,
        Err(e) => return Err(e),
    };
    let q = clamp_u8(quality, 1, 100);
    let s = clamp_u8(speed, 1, 30);
    match outf {
        ImgFormat::Png => reencode_png(&img),
        ImgFormat::Jpeg => reencode_jpg(&img, q),
        ImgFormat::Bmp => reencode_bmp(&img),
        ImgFormat::Gif => reencode_gif(&img, s),
    }
}

} // verus!
