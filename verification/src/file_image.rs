//! The arithmetic of the still-image input: how an image is fitted into the
//! requested canvas, and how its RGBA pixels become the RGB frame the
//! engine reads.
use vstd::prelude::*;

verus! {

/// How often a still image is sent.
#[derive(Clone, Copy, Debug, PartialEq, Eq, Structural)]
pub enum FileImageEmissionMode {
    /// Once.
    Once,
    /// Again and again, at this rate.
    RepeatFps(u32),
}

/// The side a resize keeps at the requested length.
#[derive(Clone, Copy, Debug, PartialEq, Eq, Structural)]
pub enum ResizeAxis {
    Width,
    Height,
}

/// A colour with alpha.
#[derive(Clone, Copy, Debug, PartialEq, Eq, Structural)]
pub struct RgbaColor {
    pub r: u8,
    pub g: u8,
    pub b: u8,
    pub a: u8,
}

/// How an image is fitted into a canvas.
#[derive(Clone, Copy, Debug, PartialEq, Eq, Structural)]
pub struct ImageResizeOptions {
    pub preserve_aspect_ratio: bool,
    pub reference_axis: ResizeAxis,
    pub reference_length: u32,
    pub output_width: u32,
    pub output_height: u32,
    pub pad_color: RgbaColor,
}

/// The length of the other side when one side of a `src_reference` x
/// `src_other` image becomes `reference`: rounded half up, at least 1, at
/// most `u32::MAX`; `reference` itself for an empty source side.
pub open spec fn scaled_other_axis(reference: u32, src_reference: u32, src_other: u32) -> u32 {
    if src_reference == 0 {
        reference
    } else {
        let q = (src_other * reference + src_reference / 2) / (src_reference as int);
        (if q < 1 {
            1
        } else if q > u32::MAX {
            u32::MAX as int
        } else {
            q
        }) as u32
    }
}

/// The length of the other side of a scaled image.
pub fn scale_other_axis(reference: u32, src_reference: u32, src_other: u32) -> (r: u32)
    ensures
        r == scaled_other_axis(reference, src_reference, src_other),
{
    if src_reference == 0 {
        return reference;
    }
    let a: u64 = src_other as u64;
    let b: u64 = reference as u64;
    assert(a * b <= 0xffff_fffe_0000_0001u64) by (nonlinear_arith)
        requires
            a <= 0xffff_ffffu64,
            b <= 0xffff_ffffu64,
    ;
    let product: u64 = a * b;
    let numerator: u64 = product + (src_reference as u64) / 2;
    let q: u64 = numerator / (src_reference as u64);
    if q < 1 {
        1
    } else if q > 0xffff_ffffu64 {
        0xffff_ffff
    } else {
        q as u32
    }
}

/// Where a resized image lands on its canvas: its size and its top-left
/// corner.
#[derive(Clone, Copy, Debug, PartialEq, Eq, Structural)]
pub struct LetterboxPlan {
    pub target_width: u32,
    pub target_height: u32,
    pub x: u32,
    pub y: u32,
}

pub open spec fn clamp_len(value: u32, hi: u32) -> u32 {
    if value > hi {
        if hi < 1 {
            1
        } else {
            hi
        }
    } else if value < 1 {
        1
    } else {
        value
    }
}

/// The size a `src_width` x `src_height` image is resized to: with the
/// aspect ratio kept, the reference side at the reference length within the
/// canvas and the other side scaled within the canvas; else the canvas size.
pub open spec fn target_size_of(src_width: u32, src_height: u32, o: ImageResizeOptions) -> (u32, u32) {
    if o.preserve_aspect_ratio {
        match o.reference_axis {
            ResizeAxis::Width => {
                let w = clamp_len(o.reference_length, o.output_width);
                (w, clamp_len(scaled_other_axis(w, src_width, src_height), o.output_height))
            },
            ResizeAxis::Height => {
                let h = clamp_len(o.reference_length, o.output_height);
                (clamp_len(scaled_other_axis(h, src_height, src_width), o.output_width), h)
            },
        }
    } else {
        (o.output_width, o.output_height)
    }
}

/// Where a `src_width` x `src_height` image lands on the canvas: centred,
/// rounded toward the top left; none where the canvas or the reference
/// length is zero, for then the image is left as it is.
pub open spec fn letterbox_of(src_width: u32, src_height: u32, o: ImageResizeOptions) -> Option<LetterboxPlan> {
    if o.output_width == 0 || o.output_height == 0 || o.reference_length == 0 {
        None
    } else {
        let (w, h) = target_size_of(src_width, src_height, o);
        Some(LetterboxPlan {
            target_width: w,
            target_height: h,
            x: ((o.output_width - w) / 2) as u32,
            y: ((o.output_height - h) / 2) as u32,
        })
    }
}

/// `min(value, hi)`, then at least 1, as `u32::min` and `u32::max` give it.
fn fit_len(value: u32, hi: u32) -> (r: u32)
    ensures
        r == clamp_len(value, hi),
{
    let m = if value > hi {
        hi
    } else {
        value
    };
    if m < 1 {
        1
    } else {
        m
    }
}

/// Where an image lands on the canvas a resize asks for.
pub fn letterbox_plan(src_width: u32, src_height: u32, options: ImageResizeOptions) -> (r: Option<LetterboxPlan>)
    ensures
        r == letterbox_of(src_width, src_height, options),
{
    if options.output_width == 0 || options.output_height == 0 || options.reference_length == 0 {
        return None;
    }
    let (w, h) = if options.preserve_aspect_ratio {
        match options.reference_axis {
            ResizeAxis::Width => {
                let w = fit_len(options.reference_length, options.output_width);
                (w, fit_len(scale_other_axis(w, src_width, src_height), options.output_height))
            },
            ResizeAxis::Height => {
                let h = fit_len(options.reference_length, options.output_height);
                (fit_len(scale_other_axis(h, src_height, src_width), options.output_width), h)
            },
        }
    } else {
        (options.output_width, options.output_height)
    };
    Some(
        LetterboxPlan {
            target_width: w,
            target_height: h,
            x: (options.output_width - w) / 2,
            y: (options.output_height - h) / 2,
        },
    )
}

/// Whether `rgb` holds the colour bytes of the RGBA pixels `rgba`, alpha
/// dropped.
pub open spec fn rgb_of_rgba(rgb: Seq<u8>, rgba: Seq<u8>) -> bool {
    &&& rgb.len() == rgba.len() / 4 * 3
    &&& forall|p: int, k: int| 0 <= p < rgba.len() / 4 && 0 <= k < 3 ==> #[trigger] rgb[3 * p + k] == rgba[4 * p + k]
}

/// The RGB bytes of RGBA pixels.
pub fn rgba_to_rgb(rgba: &Vec<u8>) -> (r: Vec<u8>)
    requires
        rgba.len() % 4 == 0,
    ensures
        rgb_of_rgba(r@, rgba@),
{
    let pixels: usize = rgba.len() / 4;
    let mut rgb: Vec<u8> = Vec::new();
    let mut p: usize = 0;
    while p < pixels
        invariant
            pixels == rgba.len() / 4,
            rgba.len() % 4 == 0,
            p <= pixels,
            rgb.len() == 3 * p,
            forall|q: int, k: int| 0 <= q < p && 0 <= k < 3 ==> #[trigger] rgb@[3 * q + k] == rgba@[4 * q + k],
        decreases pixels - p,
    {
        let base: usize = 4 * p;
        rgb.push(rgba[base]);
        rgb.push(rgba[base + 1]);
        rgb.push(rgba[base + 2]);
        assert forall|q: int, k: int| 0 <= q < p + 1 && 0 <= k < 3 implies #[trigger] rgb@[3 * q + k] == rgba@[4 * q + k] by {
            if q == p {
                assert(3 * q + k == 3 * p + k);
            }
        }
        p = p + 1;
    }
    rgb
}

} // verus!
