//! A verified library for re-encoding raster image files between a small
//! set of formats (PNG, JPEG, GIF, BMP).
//!
//! The extension classification, parameter clamping and encoder dispatch are
//! verified; the pixel-level codecs are supplied by the `image` crate behind
//! trusted wrappers.

pub mod codec;
pub mod error;
pub mod formats;
pub mod image_data;
pub mod pipeline;
