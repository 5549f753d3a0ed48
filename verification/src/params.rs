//! The fixed encoding policy.

use vstd::prelude::*;

verus! {

/// The highest quality on the codec's scale, which stands for lossless coding.
pub const MAX_QUALITY: u8 = 100;

/// The quality of the alpha channel. It is not tunable by the caller.
pub const ALPHA_QUALITY: u8 = 50;

/// The number of threads that one encode may use. Callers parallelise across encodes.
pub const THREAD_BUDGET: usize = 1;

/// The codec's speed level of the slowest preset, which compresses best.
pub const SPEED_BEST_COMPRESSION: u8 = 0;

/// The codec's speed level of the fast preset.
pub const SPEED_FAST: u8 = 6;

/// The two speed presets that are offered.
#[derive(Clone, Copy, Debug, PartialEq, Eq, Structural)]
pub enum SpeedPreset {
    /// The highest compression effort.
    BestCompression,
    /// A fast encode at some cost in size.
    Fast,
}

impl SpeedPreset {
    /// The preset that a preference for quality over speed selects.
    pub open spec fn spec_select(prefer_quality: bool) -> SpeedPreset {
        if prefer_quality {
            SpeedPreset::BestCompression
        } else {
            SpeedPreset::Fast
        }
    }

    /// The codec's speed level of a preset.
    pub open spec fn spec_level(self) -> u8 {
        match self {
            SpeedPreset::BestCompression => SPEED_BEST_COMPRESSION,
            SpeedPreset::Fast => SPEED_FAST,
        }
    }

    /// Selects the preset for a preference of quality over speed.
    pub fn select(prefer_quality: bool) -> (r: SpeedPreset)
        ensures
            r == Self::spec_select(prefer_quality),
    {
        if prefer_quality {
            SpeedPreset::BestCompression
        } else {
            SpeedPreset::Fast
        }
    }

    /// The speed level to hand to the codec.
    #[verifier::when_used_as_spec(spec_level)]
    pub fn level(self) -> (r: u8)
        ensures
            r == self.spec_level(),
    {
        match self {
            SpeedPreset::BestCompression => SPEED_BEST_COMPRESSION,
            SpeedPreset::Fast => SPEED_FAST,
        }
    }
}

/// Everything that the codec is told besides the image.
#[derive(Clone, Copy, Debug, PartialEq, Eq, Structural)]
pub struct EncodingParameters {
    /// Quality of the colour planes, from 0 (lowest) to 100 (lossless).
    pub quality: u8,
    /// Quality of the alpha plane, on the same scale.
    pub alpha_quality: u8,
    /// The speed preset.
    pub speed: SpeedPreset,
    /// The number of threads that the codec may use.
    pub max_threads: usize,
}

/// A quality brought onto the codec's scale: values above the maximum become the maximum.
pub open spec fn clamp_quality(quality: u8) -> u8 {
    if quality <= MAX_QUALITY {
        quality
    } else {
        MAX_QUALITY
    }
}

impl EncodingParameters {
    /// The parameters that the policy fixes for a caller's quality and preference.
    pub open spec fn policy(quality: u8, prefer_quality: bool) -> EncodingParameters {
        EncodingParameters {
            quality: clamp_quality(quality),
            alpha_quality: ALPHA_QUALITY,
            speed: SpeedPreset::spec_select(prefer_quality),
            max_threads: THREAD_BUDGET,
        }
    }

    /// The parameters lie on the codec's scales.
    pub open spec fn wf(self) -> bool {
        &&& self.quality <= MAX_QUALITY
        &&& self.alpha_quality <= MAX_QUALITY
        &&& self.max_threads >= 1
    }

    /// Fixes the parameters for a caller's quality and preference: the quality is passed
    /// through, clamped to the codec's scale; the rest does not depend on the caller.
    pub fn new(quality: u8, prefer_quality: bool) -> (r: EncodingParameters)
        ensures
            r == Self::policy(quality, prefer_quality),
            r.wf(),
            quality <= MAX_QUALITY ==> r.quality == quality,
            r.alpha_quality == ALPHA_QUALITY,
            r.max_threads == THREAD_BUDGET,
            prefer_quality ==> r.speed.spec_level() == SPEED_BEST_COMPRESSION,
            !prefer_quality ==> r.speed.spec_level() == SPEED_FAST,
    {
        EncodingParameters {
            quality: if quality <= MAX_QUALITY {
                quality
            } else {
                MAX_QUALITY
            },
            alpha_quality: ALPHA_QUALITY,
            speed: SpeedPreset::select(prefer_quality),
            max_threads: THREAD_BUDGET,
        }
    }
}

} // verus!
