//! The failure taxonomy of the pipeline. Each variant carries what a caller
//! needs to report the failure: the offending extension, or the detail text
//! of the codec's own error.

use vstd::prelude::*;
use crate::formats::ImgFormat;

verus! {

/// Why a run failed. No variant is recovered from: each aborts the run.
#[derive(Debug)]
pub enum ImgError {
    /// The input filename's extension is missing, non-alphanumeric, or not
    /// in the supported set.
    InvalidInput { ext: String },
    /// The output filename's extension is missing, non-alphanumeric, or not
    /// in the supported set.
    InvalidOutput { ext: String },
    /// The input bytes could not be decoded as an image of the format that
    /// the input extension names.
    Decode { detail: String },
    /// The decoded pixel buffer could not be serialized into the target
    /// format.
    Encode { format: ImgFormat, detail: String },
}

} // verus!
