//! Running the codec under the fixed policy.

use vstd::prelude::*;
use crate::params::EncodingParameters;
use crate::pixels::{adapt, adapted, CodecImage, ShapeError, SourceImage};
use crate::reader::{fresh, Avif};

verus! {

/// Why an encode yielded nothing.
#[derive(Clone, Copy, Debug, PartialEq, Eq, Structural)]
pub enum EncodeError {
    /// The image is not one that the codec takes: its samples do not cover its
    /// dimensions, or the codec refused its layout.
    UnsupportedImage,
    /// The codec failed and reported this result code.
    Codec(u32),
}

/// Why a conversion yielded nothing.
#[derive(Clone, Copy, Debug, PartialEq, Eq, Structural)]
pub enum ConvertError {
    /// The pixel buffer fits no supported layout.
    Shape(ShapeError),
    /// The encode failed.
    Encode(EncodeError),
}

/// `r` is what an encode returns when the codec came back with `outcome`.
pub open spec fn concluded(
    outcome: Result<Vec<u8>, EncodeError>,
    r: Result<Avif, EncodeError>,
) -> bool {
    match outcome {
        Ok(bytes) => r is Ok && r->Ok_0@ == fresh(bytes@),
        Err(e) => r is Err && r->Err_0 == e,
    }
}

/// `r` is what a conversion returns when the codec came back with `outcome`.
pub open spec fn converted(
    outcome: Result<Vec<u8>, EncodeError>,
    r: Result<Avif, ConvertError>,
) -> bool {
    match outcome {
        Ok(bytes) => r is Ok && r->Ok_0@ == fresh(bytes@),
        Err(e) => r is Err && r->Err_0 == ConvertError::Encode(e),
    }
}

/// Turns what the codec came back with into the result of the encode: on success the
/// bytes with a cursor at their start, on failure the codec's error and nothing else.
pub fn conclude(outcome: Result<Vec<u8>, EncodeError>) -> (r: Result<Avif, EncodeError>)
    ensures
        concluded(outcome, r),
{
    match outcome {
        Ok(bytes) => Ok(Avif::from(bytes)),
        Err(e) => Err(e),
    }
}

/// Encodes a codec-ready image under the fixed policy.
///
/// An image whose samples do not cover its dimensions is refused before the codec
/// runs. Otherwise the codec is called once, with the image and with the parameters
/// that the policy fixes for `quality` and `prefer_quality`, and its outcome decides.
pub fn encode<F>(
    image: &CodecImage,
    quality: u8,
    prefer_quality: bool,
    codec: F,
) -> (r: Result<Avif, EncodeError>) where
    F: FnOnce(&CodecImage, &EncodingParameters) -> Result<Vec<u8>, EncodeError>,
    requires
        image@.wf() ==> call_requires(
            codec,
            (image, &EncodingParameters::policy(quality, prefer_quality)),
        ),
    ensures
        !image@.wf() ==> r is Err && r->Err_0 == EncodeError::UnsupportedImage,
        image@.wf() ==> exists|outcome: Result<Vec<u8>, EncodeError>|
            call_ensures(
                codec,
                (image, &EncodingParameters::policy(quality, prefer_quality)),
                outcome,
            ) && concluded(outcome, r),
{
    if !image.is_well_formed() {
        return Err(EncodeError::UnsupportedImage);
    }
    let params = EncodingParameters::new(quality, prefer_quality);
    let outcome = codec(image, &params);
    conclude(outcome)
}

/// Converts a decoded image into an AVIF byte stream with a read cursor.
///
/// The pixel buffer is classified first; a buffer that fits no layout is refused and
/// the codec does not run. Otherwise the adapted image is encoded under the fixed
/// policy.
pub fn to_avif<F>(
    image: &SourceImage,
    quality: u8,
    prefer_quality: bool,
    codec: F,
) -> (r: Result<Avif, ConvertError>) where
    F: FnOnce(&CodecImage, &EncodingParameters) -> Result<Vec<u8>, EncodeError>,
    requires
        forall|input: CodecImage|
            Some(input@) == adapted(image.width, image.height, image.bytes@) ==> call_requires(
                codec,
                (&input, &EncodingParameters::policy(quality, prefer_quality)),
            ),
    ensures
        adapted(image.width, image.height, image.bytes@) is None ==> r is Err && r->Err_0 == (
        ConvertError::Shape(
            ShapeError { width: image.width, height: image.height, len: image.bytes.len() },
        )),
        adapted(image.width, image.height, image.bytes@) is Some ==> exists|
            input: CodecImage,
            outcome: Result<Vec<u8>, EncodeError>,
        |
            Some(input@) == adapted(image.width, image.height, image.bytes@) && call_ensures(
                codec,
                (&input, &EncodingParameters::policy(quality, prefer_quality)),
                outcome,
            ) && converted(outcome, r),
{
    match adapt(image.width, image.height, image.bytes.as_slice()) {
        Err(e) => Err(ConvertError::Shape(e)),
        Ok(input) => match encode(&input, quality, prefer_quality, codec) {
            Ok(output) => Ok(output),
            Err(e) => Err(ConvertError::Encode(e)),
        },
    }
}

} // verus!
