//! The check a frame passes before the native MediaPipe engine reads it:
//! RGB bytes, a non-empty size and stride, and enough bytes for every row.
use vstd::prelude::*;

use crate::text::owned;

verus! {

/// How a frame's pixel bytes are laid out.
#[derive(Clone, Copy, Debug, PartialEq, Eq, Structural)]
pub enum PixelFormat {
    Rgb8,
    Rgba8,
}

/// A frame as the native engine reads it: its bytes, size and row stride.
pub struct RgbImageRef<'a> {
    pub bytes: &'a [u8],
    pub width: u32,
    pub height: u32,
    pub stride: u32,
}

/// Why the native engine cannot read a frame.
#[derive(Clone, Copy, Debug, PartialEq, Eq, Structural)]
pub enum RgbFrameError {
    /// The bytes are not RGB.
    NotRgb8,
    /// The width, height or stride is zero.
    EmptyFrame,
    /// There are fewer bytes than `stride * height`.
    ShortBuffer,
}

/// The refusal a frame gets, if any, in the order the checks run.
pub open spec fn rgb_frame_error(
    format: PixelFormat,
    width: u32,
    height: u32,
    stride_bytes: u32,
    len: nat,
) -> Option<RgbFrameError> {
    if format != PixelFormat::Rgb8 {
        Some(RgbFrameError::NotRgb8)
    } else if width == 0 || height == 0 || stride_bytes == 0 {
        Some(RgbFrameError::EmptyFrame)
    } else if len < stride_bytes * height {
        Some(RgbFrameError::ShortBuffer)
    } else {
        None
    }
}

/// The frame as the native engine reads it, or why it cannot.
pub fn rgb_image_ref<'a>(
    format: PixelFormat,
    width: u32,
    height: u32,
    stride_bytes: u32,
    data: &'a [u8],
) -> (r: Result<RgbImageRef<'a>, RgbFrameError>)
    ensures
        match r {
            Ok(image) => {
                &&& rgb_frame_error(format, width, height, stride_bytes, data@.len()) is None
                &&& image.bytes@ == data@
                &&& image.width == width
                &&& image.height == height
                &&& image.stride == stride_bytes
            },
            Err(e) => rgb_frame_error(format, width, height, stride_bytes, data@.len()) == Some(e),
        },
{
    if format != PixelFormat::Rgb8 {
        return Err(RgbFrameError::NotRgb8);
    }
    if width == 0 || height == 0 || stride_bytes == 0 {
        return Err(RgbFrameError::EmptyFrame);
    }
    assert((stride_bytes as u64) * (height as u64) <= u64::MAX) by (nonlinear_arith)
        requires
            stride_bytes <= u32::MAX,
            height <= u32::MAX,
    ;
    let minimum: u64 = (stride_bytes as u64) * (height as u64);
    if (data.len() as u64) < minimum {
        return Err(RgbFrameError::ShortBuffer);
    }
    Ok(RgbImageRef { bytes: data, width, height, stride: stride_bytes })
}

impl RgbFrameError {
    pub open spec fn spec_message(self) -> Seq<char> {
        match self {
            RgbFrameError::NotRgb8 => "MediaPipe Native currently requires Rgb8 ImageFrame input"@,
            RgbFrameError::EmptyFrame => "ImageFrame dimensions and stride must be non-zero"@,
            RgbFrameError::ShortBuffer => "ImageFrame data is shorter than stride * height"@,
        }
    }

    /// The message the refusal shows.
    pub fn message(&self) -> (r: String)
        ensures
            r@ == self.spec_message(),
    {
        match self {
            RgbFrameError::NotRgb8 => owned("MediaPipe Native currently requires Rgb8 ImageFrame input"),
            RgbFrameError::EmptyFrame => owned("ImageFrame dimensions and stride must be non-zero"),
            RgbFrameError::ShortBuffer => owned("ImageFrame data is shorter than stride * height"),
        }
    }
}

} // verus!
