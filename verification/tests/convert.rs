use std::cell::Cell;

use avif_encode::{
    conclude, encode, to_avif, CodecImage, ConvertError, EncodeError, EncodingParameters,
    ReaderState, ShapeError, SourceImage, SpeedPreset,
};

/// Stands for a codec: answers with a header of what it was given, then the samples.
fn echo(image: &CodecImage, params: &EncodingParameters) -> Result<Vec<u8>, EncodeError> {
    let mut out = vec![
        image.chroma_planes() as u8,
        image.width() as u8,
        image.height() as u8,
        params.quality,
        params.alpha_quality,
        params.speed.level(),
        params.max_threads as u8,
    ];
    out.extend_from_slice(image.samples());
    Ok(out)
}

#[test]
fn two_by_two_monochrome_is_encoded_and_read_past_its_end() {
    let image = SourceImage { width: 2, height: 2, bytes: vec![10, 20, 30, 40] };
    let mut output = to_avif(&image, 50, false, echo).unwrap();
    let total = output.data().len();
    assert_eq!(total, 11);
    assert_eq!(output.remaining(), total);
    let all = output.take(total + 5).to_vec();
    assert_eq!(all.len(), total);
    assert_eq!(all, vec![0, 2, 2, 50, 50, 6, 1, 10, 20, 30, 40]);
    assert_eq!(output.remaining(), 0);
    assert_eq!(output.state(), ReaderState::Exhausted);
}

#[test]
fn codec_gets_the_adapted_image_and_the_policy() {
    let image = SourceImage { width: 1, height: 2, bytes: vec![1, 2, 3, 4, 5, 6] };
    let seen = Cell::new(None);
    let output = to_avif(&image, 77, true, |codec_image, params| {
        seen.set(Some((codec_image.clone(), *params)));
        Ok(vec![0xAB])
    })
    .unwrap();
    assert_eq!(output.data(), &[0xAB]);
    assert_eq!(
        seen.take(),
        Some((
            CodecImage::Chroma444 { width: 1, height: 2, packed: vec![1, 2, 3, 4, 5, 6] },
            EncodingParameters {
                quality: 77,
                alpha_quality: 50,
                speed: SpeedPreset::BestCompression,
                max_threads: 1,
            },
        ))
    );
}

#[test]
fn shape_error_comes_before_the_codec_runs() {
    let image = SourceImage { width: 2, height: 2, bytes: vec![0; 5] };
    let calls = Cell::new(0u32);
    let result = to_avif(&image, 50, false, |_, _| {
        calls.set(calls.get() + 1);
        Ok(vec![1])
    });
    assert_eq!(result, Err(ConvertError::Shape(ShapeError { width: 2, height: 2, len: 5 })));
    assert_eq!(calls.get(), 0);
}

#[test]
fn four_channel_input_is_a_shape_error() {
    let image = SourceImage { width: 2, height: 1, bytes: vec![0; 8] };
    assert_eq!(
        to_avif(&image, 50, false, echo),
        Err(ConvertError::Shape(ShapeError { width: 2, height: 1, len: 8 }))
    );
}

#[test]
fn codec_failure_is_returned_to_the_caller() {
    let image = SourceImage { width: 2, height: 2, bytes: vec![0; 4] };
    assert_eq!(
        to_avif(&image, 50, false, |_, _| Err(EncodeError::Codec(7))),
        Err(ConvertError::Encode(EncodeError::Codec(7)))
    );
    assert_eq!(
        to_avif(&image, 50, true, |_, _| Err(EncodeError::UnsupportedImage)),
        Err(ConvertError::Encode(EncodeError::UnsupportedImage))
    );
}

#[test]
fn codec_runs_exactly_once() {
    let image = SourceImage { width: 3, height: 1, bytes: vec![0; 3] };
    let calls = Cell::new(0u32);
    let output = to_avif(&image, 10, false, |_, _| {
        calls.set(calls.get() + 1);
        Ok(vec![1, 2])
    })
    .unwrap();
    assert_eq!(calls.get(), 1);
    assert_eq!(output.remaining(), 2);
}

#[test]
fn encode_hands_the_image_and_the_policy_to_the_codec() {
    let image = CodecImage::Monochrome { width: 1, height: 1, luma: vec![128] };
    for quality in 0u8..=100 {
        for prefer_quality in [false, true] {
            let mut output = encode(&image, quality, prefer_quality, echo).unwrap();
            let speed = if prefer_quality { 0 } else { 6 };
            assert_eq!(output.data(), &[0, 1, 1, quality, 50, speed, 1, 128]);
            assert_eq!(output.remaining(), 8);
            assert_eq!(output.take(100).len(), 8);
        }
    }
}

#[test]
fn encode_clamps_the_quality_before_the_codec_sees_it() {
    let image = CodecImage::Monochrome { width: 1, height: 1, luma: vec![1] };
    let output = encode(&image, 250, false, echo).unwrap();
    assert_eq!(output.data()[3], 100);
}

#[test]
fn encode_refuses_a_malformed_image_without_running_the_codec() {
    let calls = Cell::new(0u32);
    let image = CodecImage::Monochrome { width: 2, height: 2, luma: vec![0; 3] };
    let result = encode(&image, 50, false, |_, _| {
        calls.set(calls.get() + 1);
        Ok(vec![1])
    });
    assert_eq!(result, Err(EncodeError::UnsupportedImage));
    let image = CodecImage::Chroma444 { width: 2, height: 2, packed: vec![0; 16] };
    let result = encode(&image, 50, false, |_, _| {
        calls.set(calls.get() + 1);
        Ok(vec![1])
    });
    assert_eq!(result, Err(EncodeError::UnsupportedImage));
    assert_eq!(calls.get(), 0);
}

#[test]
fn encode_returns_the_codec_error() {
    let image = CodecImage::Chroma444 { width: 1, height: 1, packed: vec![1, 2, 3] };
    assert_eq!(
        encode(&image, 50, false, |_, _| Err(EncodeError::Codec(24))),
        Err(EncodeError::Codec(24))
    );
}

#[test]
fn conclude_wraps_bytes_and_passes_errors() {
    let output = conclude(Ok(vec![1, 2, 3])).unwrap();
    assert_eq!(output.data(), &[1, 2, 3]);
    assert_eq!(output.remaining(), 3);
    assert_eq!(output.state(), ReaderState::Fresh);
    assert_eq!(conclude(Err(EncodeError::Codec(1))), Err(EncodeError::Codec(1)));
    assert_eq!(conclude(Err(EncodeError::UnsupportedImage)), Err(EncodeError::UnsupportedImage));
    let empty = conclude(Ok(Vec::new())).unwrap();
    assert_eq!(empty.remaining(), 0);
}
