//! Classifying a raw pixel buffer into a codec-ready image.

use vstd::prelude::*;
use vstd::slice::slice_to_vec;

verus! {

/// A decoded image as it arrives: its dimensions and its raw samples.
#[derive(Clone, Debug, PartialEq, Eq)]
pub struct SourceImage {
    pub width: u32,
    pub height: u32,
    pub bytes: Vec<u8>,
}

/// A pixel buffer whose length fits neither supported layout of its dimensions.
#[derive(Clone, Copy, Debug, PartialEq, Eq, Structural)]
pub struct ShapeError {
    pub width: u32,
    pub height: u32,
    /// The length of the rejected buffer.
    pub len: usize,
}

/// An image in the form that the codec takes.
#[derive(Clone, Debug, PartialEq, Eq)]
pub enum CodecImage {
    /// One plane of luma samples, row by row, and no chroma.
    Monochrome { width: u32, height: u32, luma: Vec<u8> },
    /// Three samples per pixel, packed, to be coded with luma and both chroma planes
    /// at full resolution.
    Chroma444 { width: u32, height: u32, packed: Vec<u8> },
}

/// The abstract value of a [`CodecImage`].
pub enum CodecImageView {
    Monochrome { width: u32, height: u32, luma: Seq<u8> },
    Chroma444 { width: u32, height: u32, packed: Seq<u8> },
}

impl CodecImageView {
    /// The width in pixels.
    pub open spec fn width(self) -> u32 {
        match self {
            CodecImageView::Monochrome { width, .. } => width,
            CodecImageView::Chroma444 { width, .. } => width,
        }
    }

    /// The height in pixels.
    pub open spec fn height(self) -> u32 {
        match self {
            CodecImageView::Monochrome { height, .. } => height,
            CodecImageView::Chroma444 { height, .. } => height,
        }
    }

    /// The samples as they are stored, row by row.
    pub open spec fn samples(self) -> Seq<u8> {
        match self {
            CodecImageView::Monochrome { luma, .. } => luma,
            CodecImageView::Chroma444 { packed, .. } => packed,
        }
    }

    /// The number of samples stored for each pixel.
    pub open spec fn samples_per_pixel(self) -> nat {
        match self {
            CodecImageView::Monochrome { .. } => 1,
            CodecImageView::Chroma444 { .. } => 3,
        }
    }

    /// The number of chroma planes that the coded image carries.
    pub open spec fn chroma_planes(self) -> nat {
        match self {
            CodecImageView::Monochrome { .. } => 0,
            CodecImageView::Chroma444 { .. } => 2,
        }
    }

    /// Width and height of the luma plane.
    pub open spec fn luma_resolution(self) -> (u32, u32) {
        (self.width(), self.height())
    }

    /// Width and height of each chroma plane, where there is one.
    pub open spec fn chroma_resolution(self) -> Option<(u32, u32)> {
        match self {
            CodecImageView::Monochrome { .. } => None,
            CodecImageView::Chroma444 { width, height, .. } => Some((width, height)),
        }
    }

    /// The stored samples cover the image exactly.
    pub open spec fn wf(self) -> bool {
        self.samples().len() == self.samples_per_pixel() * pixel_count(self.width(), self.height())
    }
}

impl View for CodecImage {
    type V = CodecImageView;

    open spec fn view(&self) -> CodecImageView {
        match *self {
            CodecImage::Monochrome { width, height, luma } => CodecImageView::Monochrome {
                width,
                height,
                luma: luma@,
            },
            CodecImage::Chroma444 { width, height, packed } => CodecImageView::Chroma444 {
                width,
                height,
                packed: packed@,
            },
        }
    }
}

impl CodecImage {
    /// The width in pixels.
    pub fn width(&self) -> (r: u32)
        ensures
            r == self@.width(),
    {
        match self {
            CodecImage::Monochrome { width, .. } => *width,
            CodecImage::Chroma444 { width, .. } => *width,
        }
    }

    /// The height in pixels.
    pub fn height(&self) -> (r: u32)
        ensures
            r == self@.height(),
    {
        match self {
            CodecImage::Monochrome { height, .. } => *height,
            CodecImage::Chroma444 { height, .. } => *height,
        }
    }

    /// The stored samples, row by row.
    pub fn samples(&self) -> (r: &[u8])
        ensures
            r@ == self@.samples(),
    {
        match self {
            CodecImage::Monochrome { luma, .. } => luma.as_slice(),
            CodecImage::Chroma444 { packed, .. } => packed.as_slice(),
        }
    }

    /// The number of chroma planes that the coded image carries: none for a monochrome
    /// image, two for a 4:4:4 image.
    pub fn chroma_planes(&self) -> (r: usize)
        ensures
            r == self@.chroma_planes(),
    {
        match self {
            CodecImage::Monochrome { .. } => 0,
            CodecImage::Chroma444 { .. } => 2,
        }
    }

    /// Tells whether the stored samples cover the image exactly.
    pub fn is_well_formed(&self) -> (r: bool)
        ensures
            r == self@.wf(),
    {
        proof {
            lemma_pixel_count_bound(self@.width(), self@.height());
        }
        let pixels: u128 = (self.width() as u128) * (self.height() as u128);
        let len: u128 = self.samples().len() as u128;
        match self {
            CodecImage::Monochrome { .. } => len == pixels,
            CodecImage::Chroma444 { .. } => len == 3 * pixels,
        }
    }
}

/// The number of pixels of an image of the given dimensions.
pub open spec fn pixel_count(width: u32, height: u32) -> nat {
    (width as nat) * (height as nat)
}

/// A buffer of `len` bytes holds one sample for each pixel.
pub open spec fn is_luma_shape(width: u32, height: u32, len: nat) -> bool {
    len == pixel_count(width, height)
}

/// A buffer of `len` bytes holds three samples for each pixel.
pub open spec fn is_packed_shape(width: u32, height: u32, len: nat) -> bool {
    len == 3 * pixel_count(width, height)
}

/// What a buffer of the given dimensions is adapted to, if its length fits a layout.
/// The single-channel reading is tried first.
pub open spec fn adapted(width: u32, height: u32, bytes: Seq<u8>) -> Option<CodecImageView> {
    if is_luma_shape(width, height, bytes.len()) {
        Some(CodecImageView::Monochrome { width, height, luma: bytes })
    } else if is_packed_shape(width, height, bytes.len()) {
        Some(CodecImageView::Chroma444 { width, height, packed: bytes })
    } else {
        None
    }
}

/// An image with at least one pixel fits at most one of the two layouts.
pub proof fn lemma_layouts_exclusive(width: u32, height: u32, len: nat)
    requires
        pixel_count(width, height) > 0,
    ensures
        !(is_luma_shape(width, height, len) && is_packed_shape(width, height, len)),
{
}

/// A buffer with four samples for each pixel, as an image with an alpha channel has,
/// fits no layout and is refused.
pub proof fn lemma_alpha_layout_refused(width: u32, height: u32, bytes: Seq<u8>)
    requires
        pixel_count(width, height) > 0,
        bytes.len() == 4 * pixel_count(width, height),
    ensures
        adapted(width, height, bytes) is None,
{
}

/// The product of two 32-bit dimensions fits in 64 bits.
proof fn lemma_pixel_count_bound(width: u32, height: u32)
    ensures
        pixel_count(width, height) <= 0xFFFF_FFFE_0000_0001,
{
    assert((width as nat) * (height as nat) <= 0xFFFF_FFFFnat * 0xFFFF_FFFFnat) by (nonlinear_arith)
        requires
            width <= 0xFFFF_FFFF,
            height <= 0xFFFF_FFFF,
    ;
}

/// Classifies a pixel buffer by its length and copies it into a codec-ready image.
///
/// A buffer with one byte per pixel becomes a monochrome image; otherwise a buffer with
/// three bytes per pixel becomes a 4:4:4 image; any other length is refused.
pub fn adapt(width: u32, height: u32, bytes: &[u8]) -> (r: Result<CodecImage, ShapeError>)
    ensures
        r is Ok <==> adapted(width, height, bytes@) is Some,
        r is Ok ==> Some(r->Ok_0@) == adapted(width, height, bytes@) && r->Ok_0@.wf(),
        r is Err ==> r->Err_0 == (ShapeError { width, height, len: bytes.len() }),
        is_luma_shape(width, height, bytes@.len()) ==> r is Ok && r->Ok_0@ is Monochrome
            && r->Ok_0@.chroma_planes() == 0 && r->Ok_0@.chroma_resolution() is None,
        is_packed_shape(width, height, bytes@.len()) && !is_luma_shape(width, height, bytes@.len())
            ==> r is Ok && r->Ok_0@ is Chroma444 && r->Ok_0@.luma_resolution() == (width, height)
            && r->Ok_0@.chroma_resolution() == Some((width, height)),
        !is_luma_shape(width, height, bytes@.len()) && !is_packed_shape(
            width,
            height,
            bytes@.len(),
        ) ==> r is Err,
{
    proof {
        lemma_pixel_count_bound(width, height);
    }
    let pixels: u128 = (width as u128) * (height as u128);
    let len: u128 = bytes.len() as u128;
    if len == pixels {
        Ok(CodecImage::Monochrome { width, height, luma: slice_to_vec(bytes) })
    } else if len == 3 * pixels {
        Ok(CodecImage::Chroma444 { width, height, packed: slice_to_vec(bytes) })
    } else {
        Err(ShapeError { width, height, len: bytes.len() })
    }
}

} // verus!
