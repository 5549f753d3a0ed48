//! Verified core of an AVIF encoding front end.
//!
//! A raw pixel buffer is classified by its length ([`pixels::adapt`]), the encoding
//! parameters are fixed by a small policy ([`params::EncodingParameters`]), the codec
//! is run on both ([`encode::encode`], [`encode::to_avif`]), and the compressed bytes
//! are offered through a read cursor ([`reader::Avif`]).
//!
//! The codec itself is not part of this crate. It is handed in as a function from a
//! codec-ready image and the parameters to the compressed bytes, so that everything
//! around it is stated and proved for whatever the codec returns.

pub mod encode;
pub mod params;
pub mod pixels;
pub mod reader;

pub use crate::encode::{conclude, encode, to_avif, ConvertError, EncodeError};
pub use crate::params::{EncodingParameters, SpeedPreset};
pub use crate::pixels::{adapt, CodecImage, ShapeError, SourceImage};
pub use crate::reader::{Avif, ReaderState};
