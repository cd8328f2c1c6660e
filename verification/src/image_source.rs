//! The still-image input: an encoded image decoded once, fitted into the
//! requested canvas, and sent as RGB frames once or at a fixed rate.
//!
//! Decoding, resampling and alpha compositing are the `image` crate's; this
//! module decides what is asked of it and assembles the frames.
use vstd::prelude::*;

use crate::file_image::{letterbox_of, letterbox_plan, rgb_of_rgba, rgba_to_rgb, FileImageEmissionMode, ImageResizeOptions, RgbaColor};
use crate::profile_schema::copy_opt_string;
use crate::text::concat;

verus! {

#[verifier::external_type_specification]
#[verifier::external_body]
pub struct ExImageError(image::ImageError);

/// The pixels `image::imageops::resize` gives with the triangle filter for a
/// `width` x `height` RGBA image resampled to `target_width` x `target_height`.
pub uninterp spec fn triangle_resized(
    width: u32,
    height: u32,
    pixels: Seq<u8>,
    target_width: u32,
    target_height: u32,
) -> Seq<u8>;

/// The pixels of the RGBA image `bottom` after `image::imageops::overlay`
/// blended the RGBA image `top` onto it with its corner at (`x`, `y`).
pub uninterp spec fn overlaid(
    bottom_width: u32,
    bottom_height: u32,
    bottom: Seq<u8>,
    top_width: u32,
    top_height: u32,
    top: Seq<u8>,
    x: u32,
    y: u32,
) -> Seq<u8>;

/// The RGBA8 image `image::load_from_memory_with_format` decodes from
/// `bytes` in the format `image::ImageFormat::from_path` names for `path`
/// (by its extension): width, height and pixel bytes; none where the
/// extension names no format or the bytes are no image of it. With the
/// format given, the `image` crate consults none of its process-wide hooks,
/// so for one build of it the result depends on these two values alone.
pub uninterp spec fn decoded_rgba(bytes: Seq<u8>, path: Seq<char>) -> Option<(u32, u32, Seq<u8>)>;

/// `image::ImageFormat::from_path` on `path`, then
/// `image::load_from_memory_with_format` on `bytes` and `to_rgba8`: the
/// format is the one the file name's extension names, as `image::open`
/// takes it. Claimed: the result is the name `decoded_rgba` of the two
/// arguments, an error exactly where it gives none, and a decoded image
/// holds four bytes for each of its `width * height` pixels. Which bytes
/// decode, and to what, is the `image` crate's and is not stated.
#[verifier::external_body]
fn decode_rgba(bytes: &[u8], path: &str) -> (r: Result<(u32, u32, Vec<u8>), image::ImageError>)
    ensures
        match r {
            Ok((w, h, pixels)) => decoded_rgba(bytes@, path@) == Some((w, h, pixels@)) && pixels@.len() == w * h * 4,
            Err(_) => decoded_rgba(bytes@, path@) is None,
        },
{
    let format = image::ImageFormat::from_path(path)?;
    let rgba = image::load_from_memory_with_format(bytes, format)?.to_rgba8();
    Ok((rgba.width(), rgba.height(), rgba.into_raw()))
}

/// `image::imageops::resize` with `FilterType::Triangle` on an RGBA image
/// held as raw bytes. Claimed: the result is a function of the arguments
/// and holds `target_width * target_height` RGBA pixels. The resize first
/// resamples the columns into a `width` x `target_height` buffer, whose
/// length must fit in `usize` as the final one's does.
#[verifier::external_body]
fn resize_triangle(width: u32, height: u32, pixels: Vec<u8>, target_width: u32, target_height: u32) -> (r: Vec<u8>)
    requires
        pixels@.len() == width * height * 4,
        target_width * target_height * 4 <= usize::MAX,
        width * target_height * 4 <= usize::MAX,
    ensures
        r@ == triangle_resized(width, height, pixels@, target_width, target_height),
        r@.len() == target_width * target_height * 4,
{
    let source = image::RgbaImage::from_raw(width, height, pixels).unwrap();
    image::imageops::resize(&source, target_width, target_height, image::imageops::FilterType::Triangle).into_raw()
}

/// `image::imageops::overlay` of one RGBA image onto another, both held as
/// raw bytes. Claimed: the result is a function of the arguments and keeps
/// the size of `bottom`.
#[verifier::external_body]
fn overlay_rgba(
    bottom_width: u32,
    bottom_height: u32,
    bottom: Vec<u8>,
    top_width: u32,
    top_height: u32,
    top: Vec<u8>,
    x: u32,
    y: u32,
) -> (r: Vec<u8>)
    requires
        bottom@.len() == bottom_width * bottom_height * 4,
        top@.len() == top_width * top_height * 4,
    ensures
        r@ == overlaid(bottom_width, bottom_height, bottom@, top_width, top_height, top@, x, y),
        r@.len() == bottom@.len(),
{
    let mut canvas = image::RgbaImage::from_raw(bottom_width, bottom_height, bottom).unwrap();
    let image = image::RgbaImage::from_raw(top_width, top_height, top).unwrap();
    image::imageops::overlay(&mut canvas, &image, x.into(), y.into());
    canvas.into_raw()
}

/// The byte of channel `k` of a colour.
pub open spec fn channel(color: RgbaColor, k: int) -> u8 {
    if k == 0 {
        color.r
    } else if k == 1 {
        color.g
    } else if k == 2 {
        color.b
    } else {
        color.a
    }
}

/// A `width` x `height` RGBA canvas of one colour.
pub open spec fn canvas_of(width: u32, height: u32, color: RgbaColor) -> Seq<u8> {
    Seq::new((width * height * 4) as nat, |i: int| channel(color, i % 4))
}

/// A canvas of one colour, as `ImageBuffer::from_pixel` makes it.
fn filled_canvas(width: u32, height: u32, color: RgbaColor) -> (r: Vec<u8>)
    requires
        width * height * 4 <= usize::MAX,
    ensures
        r@ == canvas_of(width, height, color),
{
    let pixels: u64 = (width as u64) * (height as u64);
    let total: usize = (pixels as usize) * 4;
    let mut out: Vec<u8> = Vec::new();
    let mut i: usize = 0;
    while i < total
        invariant
            i <= total,
            total == width * height * 4,
            out@.len() == i,
            forall|j: int| 0 <= j < i ==> #[trigger] out@[j] == channel(color, j % 4),
        decreases total - i,
    {
        let k = i % 4;
        let byte = if k == 0 {
            color.r
        } else if k == 1 {
            color.g
        } else if k == 2 {
            color.b
        } else {
            color.a
        };
        out.push(byte);
        i = i + 1;
    }
    assert(out@ =~= canvas_of(width, height, color));
    out
}

/// The size and pixels of a `width` x `height` RGBA image fitted into the
/// canvas a resize asks for: resampled to the planned size and laid onto a
/// canvas of the pad colour, or left as it is where no canvas is asked for.
pub open spec fn fitted_image(width: u32, height: u32, pixels: Seq<u8>, options: ImageResizeOptions) -> (u32, u32, Seq<u8>) {
    match letterbox_of(width, height, options) {
        None => (width, height, pixels),
        Some(plan) => (
            options.output_width,
            options.output_height,
            overlaid(
                options.output_width,
                options.output_height,
                canvas_of(options.output_width, options.output_height, options.pad_color),
                plan.target_width,
                plan.target_height,
                triangle_resized(width, height, pixels, plan.target_width, plan.target_height),
                plan.x,
                plan.y,
            ),
        ),
    }
}

/// An RGBA image fitted into the canvas `options` asks for.
pub fn resize_rgba(width: u32, height: u32, pixels: Vec<u8>, options: ImageResizeOptions) -> (r: (u32, u32, Vec<u8>))
    requires
        pixels@.len() == width * height * 4,
        options.output_width * options.output_height * 4 <= usize::MAX,
        width * options.output_height * 4 <= usize::MAX,
    ensures
        (r.0, r.1, r.2@) == fitted_image(width, height, pixels@, options),
        r.2@.len() == r.0 * r.1 * 4,
{
    let plan = match letterbox_plan(width, height, options) {
        Some(plan) => plan,
        None => {
            return (width, height, pixels);
        },
    };
    assert(plan.target_width <= options.output_width && plan.target_height <= options.output_height);
    assert(plan.target_width * plan.target_height <= options.output_width * options.output_height) by (nonlinear_arith)
        requires
            plan.target_width <= options.output_width,
            plan.target_height <= options.output_height,
    ;
    assert(width * plan.target_height <= width * options.output_height) by (nonlinear_arith)
        requires
            plan.target_height <= options.output_height,
    ;
    let resized = resize_triangle(width, height, pixels, plan.target_width, plan.target_height);
    let canvas = filled_canvas(options.output_width, options.output_height, options.pad_color);
    let fitted = overlay_rgba(
        options.output_width,
        options.output_height,
        canvas,
        plan.target_width,
        plan.target_height,
        resized,
        plan.x,
        plan.y,
    );
    (options.output_width, options.output_height, fitted)
}

/// Where a still image comes from and how it is sent.
#[derive(Clone, Debug, PartialEq, Eq)]
pub struct FileImageInputConfig {
    /// The path of the image as it is shown.
    pub path: String,
    pub source_id: String,
    /// The file name, where the path has one.
    pub source_label: Option<String>,
    pub emission_mode: FileImageEmissionMode,
    pub resize: Option<ImageResizeOptions>,
}

impl FileImageInputConfig {
    /// The image at `path`, sent once and not resized; `file_name` is the
    /// last component of the path, where it has one.
    pub fn once(path: String, file_name: Option<String>) -> (r: Self)
        ensures
            r.path == path,
            r.source_id@ == "file-image:"@ + path@,
            r.source_label == file_name,
            r.emission_mode == FileImageEmissionMode::Once,
            r.resize is None,
    {
        let source_id = concat("file-image:", path.as_str());
        FileImageInputConfig {
            path,
            source_id,
            source_label: file_name,
            emission_mode: FileImageEmissionMode::Once,
            resize: None,
        }
    }
}

/// One RGB frame of a still image.
#[derive(Clone, Debug, PartialEq, Eq)]
pub struct ImageFrame {
    pub sequence: u64,
    /// Nanoseconds since the Unix epoch at which the frame was built.
    pub capture_timestamp_ns: u64,
    pub source_id: String,
    pub source_label: Option<String>,
    pub width: u32,
    pub height: u32,
    pub stride_bytes: u32,
    /// RGB bytes, row by row.
    pub data: Vec<u8>,
}

/// Why an image could not be opened.
#[derive(Debug)]
pub enum FileImageError {
    /// The bytes are no image the decoder reads.
    Decode(image::ImageError),
    /// The image is too wide to be resampled to the canvas height: its
    /// intermediate buffer would not fit in memory's address range.
    TooLarge { width: u32, canvas_height: u32 },
}

/// A decoded still image and how many of its frames were sent.
pub struct FileImageInputSource {
    config: FileImageInputConfig,
    frame_data: Vec<u8>,
    width: u32,
    height: u32,
    sequence: u64,
    /// When the last frame was sent, on the caller's monotonic clock.
    last_emit_ns: Option<u64>,
    emitted_once: bool,
}

/// Whether an image `width` pixels wide is too wide to be resampled to the
/// height of the canvas a resize asks for.
pub open spec fn too_wide(width: u32, resize: Option<ImageResizeOptions>) -> bool {
    match resize {
        Some(o) => width * o.output_height * 4 > usize::MAX,
        None => false,
    }
}

/// `a * b`, or `u32::MAX` where that does not fit.
pub open spec fn saturating_mul_u32(a: u32, b: u32) -> u32 {
    if a * b > u32::MAX {
        u32::MAX
    } else {
        (a * b) as u32
    }
}

/// Whether a source that sent its last frame at `last_emit_ns` (none yet
/// where `None`) sends one at `now_ns`: once only in `Once` mode; in repeat
/// mode the first time, then once `repeat_interval_ns` have passed.
pub open spec fn emits_at(
    mode: FileImageEmissionMode,
    emitted_once: bool,
    last_emit_ns: Option<u64>,
    now_ns: u64,
    repeat_interval_ns: u64,
) -> bool {
    match mode {
        FileImageEmissionMode::Once => !emitted_once,
        FileImageEmissionMode::RepeatFps(_) => match last_emit_ns {
            None => true,
            Some(last) => now_ns >= last && now_ns - last >= repeat_interval_ns,
        },
    }
}

impl FileImageInputSource {
    pub closed spec fn spec_config(&self) -> FileImageInputConfig {
        self.config
    }

    pub closed spec fn spec_width(&self) -> u32 {
        self.width
    }

    pub closed spec fn spec_height(&self) -> u32 {
        self.height
    }

    pub closed spec fn spec_frame_data(&self) -> Seq<u8> {
        self.frame_data@
    }

    pub closed spec fn spec_sequence(&self) -> u64 {
        self.sequence
    }

    pub closed spec fn spec_emitted_once(&self) -> bool {
        self.emitted_once
    }

    pub closed spec fn spec_last_emit_ns(&self) -> Option<u64> {
        self.last_emit_ns
    }

    /// Whether the source holds the `width` x `height` RGBA image `rgba`
    /// under a configuration: fitted into its canvas where one is asked for,
    /// as RGB, with no frame sent yet.
    pub open spec fn opened_as(&self, config: FileImageInputConfig, width: u32, height: u32, rgba: Seq<u8>) -> bool {
        let (fw, fh, fitted) = match config.resize {
            Some(o) => fitted_image(width, height, rgba, o),
            None => (width, height, rgba),
        };
        &&& self.spec_config() == config
        &&& self.spec_width() == fw
        &&& self.spec_height() == fh
        &&& rgb_of_rgba(self.spec_frame_data(), fitted)
        &&& self.spec_sequence() == 0
        &&& !self.spec_emitted_once()
        &&& self.spec_last_emit_ns() is None
    }

    /// What opening the decoded `width` x `height` RGBA image `rgba` under a
    /// configuration gives: refused as too large exactly where it is too
    /// wide for the canvas height, else the source holding it.
    pub open spec fn decoded_outcome(
        r: Result<Self, FileImageError>,
        config: FileImageInputConfig,
        width: u32,
        height: u32,
        rgba: Seq<u8>,
    ) -> bool {
        match r {
            Ok(source) => !too_wide(width, config.resize) && source.opened_as(config, width, height, rgba),
            Err(FileImageError::TooLarge { width: w, canvas_height }) => {
                &&& too_wide(width, config.resize)
                &&& w == width
                &&& (config.resize matches Some(o) && o.output_height == canvas_height)
            },
            Err(FileImageError::Decode(_)) => false,
        }
    }

    /// Prepares the frame of a decoded `width` x `height` RGBA image.
    pub fn from_decoded(config: FileImageInputConfig, width: u32, height: u32, rgba: Vec<u8>) -> (r: Result<
        Self,
        FileImageError,
    >)
        requires
            rgba@.len() == width * height * 4,
            match config.resize {
                Some(o) => o.output_width * o.output_height * 4 <= usize::MAX,
                None => true,
            },
        ensures
            Self::decoded_outcome(r, config, width, height, rgba@),
    {
        let w = width;
        let h = height;
        if let Some(o) = config.resize {
            let fits = match (w as usize).checked_mul(o.output_height as usize) {
                Some(p) => p.checked_mul(4).is_some(),
                None => false,
            };
            if !fits {
                return Err(FileImageError::TooLarge { width: w, canvas_height: o.output_height });
            }
        }
        let (fw, fh, fitted) = match config.resize {
            Some(options) => resize_rgba(w, h, rgba, options),
            None => (w, h, rgba),
        };
        assert(fitted@.len() % 4 == 0) by (nonlinear_arith)
            requires
                fitted@.len() == fw * fh * 4,
        ;
        let frame_data = rgba_to_rgb(&fitted);
        Ok(
            FileImageInputSource {
                config,
                frame_data,
                width: fw,
                height: fh,
                sequence: 0,
                last_emit_ns: None,
                emitted_once: false,
            },
        )
    }

    /// Decodes the image file's `bytes`, in the format the extension of the
    /// configuration's path names, and prepares its frame: refused with the
    /// decoder's error where it reads no image, else what `from_decoded`
    /// gives for the image it read.
    pub fn open(config: FileImageInputConfig, bytes: &[u8]) -> (r: Result<Self, FileImageError>)
        requires
            match config.resize {
                Some(o) => o.output_width * o.output_height * 4 <= usize::MAX,
                None => true,
            },
        ensures
            match decoded_rgba(bytes@, config.path@) {
                Some((w, h, rgba)) => rgba.len() == w * h * 4 && Self::decoded_outcome(r, config, w, h, rgba),
                None => r is Err && r->Err_0 is Decode,
            },
    {
        match decode_rgba(bytes, config.path.as_str()) {
            Ok((w, h, rgba)) => {
                let ghost pixels = rgba@;
                let r = Self::from_decoded(config, w, h, rgba);
                assert(Self::decoded_outcome(r, config, w, h, pixels));
                r
            },
            Err(e) => Err(FileImageError::Decode(e)),
        }
    }

    /// The image at `path`, decoded from `bytes` and sent once, not resized.
    pub fn open_once(path: String, file_name: Option<String>, bytes: &[u8]) -> (r: Result<Self, FileImageError>)
        ensures
            match decoded_rgba(bytes@, path@) {
                Some((w, h, rgba)) => {
                    &&& rgba.len() == w * h * 4
                    &&& r is Ok
                    &&& r->Ok_0.opened_as(
                        FileImageInputConfig {
                            path,
                            source_id: r->Ok_0.spec_config().source_id,
                            source_label: file_name,
                            emission_mode: FileImageEmissionMode::Once,
                            resize: None,
                        },
                        w,
                        h,
                        rgba,
                    )
                    &&& r->Ok_0.spec_config().source_id@ == "file-image:"@ + path@
                },
                None => r is Err && r->Err_0 is Decode,
            },
    {
        Self::open(FileImageInputConfig::once(path, file_name), bytes)
    }

    /// The path of the image as it is shown.
    pub fn path(&self) -> (r: &str)
        ensures
            r@ == self.spec_config().path@,
    {
        self.config.path.as_str()
    }

    /// Whether a frame is due at `now_ns`.
    pub fn should_emit(&self, now_ns: u64, repeat_interval_ns: u64) -> (r: bool)
        ensures
            r == emits_at(self.spec_config().emission_mode, self.spec_emitted_once(), self.spec_last_emit_ns(), now_ns, repeat_interval_ns),
    {
        match self.config.emission_mode {
            FileImageEmissionMode::Once => !self.emitted_once,
            FileImageEmissionMode::RepeatFps(_) => match self.last_emit_ns {
                None => true,
                Some(last) => now_ns >= last && now_ns - last >= repeat_interval_ns,
            },
        }
    }

    /// The next frame where one is due at `now_ns` on the monotonic clock;
    /// `unix_ns` stamps it. `repeat_interval_ns` is the time between two
    /// frames in repeat mode.
    pub fn next_image_frame(&mut self, now_ns: u64, unix_ns: u64, repeat_interval_ns: u64) -> (r: Option<ImageFrame>)
        ensures
            final(self).spec_config() == old(self).spec_config(),
            final(self).spec_width() == old(self).spec_width(),
            final(self).spec_height() == old(self).spec_height(),
            final(self).spec_frame_data() == old(self).spec_frame_data(),
            emits_at(
                old(self).spec_config().emission_mode,
                old(self).spec_emitted_once(),
                old(self).spec_last_emit_ns(),
                now_ns,
                repeat_interval_ns,
            ) ==> {
                &&& r matches Some(frame)
                &&& frame.sequence == old(self).spec_sequence()
                &&& frame.capture_timestamp_ns == unix_ns
                &&& frame.source_id == old(self).spec_config().source_id
                &&& frame.source_label == old(self).spec_config().source_label
                &&& frame.width == old(self).spec_width()
                &&& frame.height == old(self).spec_height()
                &&& frame.stride_bytes == saturating_mul_u32(old(self).spec_width(), 3)
                &&& frame.data@ == old(self).spec_frame_data()
                &&& final(self).spec_sequence() == (if old(self).spec_sequence() == u64::MAX {
                    u64::MAX
                } else {
                    (old(self).spec_sequence() + 1) as u64
                })
                &&& final(self).spec_emitted_once()
                &&& final(self).spec_last_emit_ns() == Some(now_ns)
            },
            !emits_at(
                old(self).spec_config().emission_mode,
                old(self).spec_emitted_once(),
                old(self).spec_last_emit_ns(),
                now_ns,
                repeat_interval_ns,
            ) ==> r is None && final(self).spec_sequence() == old(self).spec_sequence()
                && final(self).spec_emitted_once() == old(self).spec_emitted_once()
                && final(self).spec_last_emit_ns() == old(self).spec_last_emit_ns(),
    {
        if !self.should_emit(now_ns, repeat_interval_ns) {
            return None;
        }
        let frame = ImageFrame {
            sequence: self.sequence,
            capture_timestamp_ns: unix_ns,
            source_id: self.config.source_id.clone(),
            source_label: copy_opt_string(&self.config.source_label),
            width: self.width,
            height: self.height,
            stride_bytes: if self.width > u32::MAX / 3 {
                u32::MAX
            } else {
                self.width * 3
            },
            data: self.frame_data.clone(),
        };
        assert(frame.data@ =~= self.frame_data@);
        self.sequence = self.sequence.saturating_add(1);
        self.last_emit_ns = Some(now_ns);
        self.emitted_once = true;
        Some(frame)
    }
}

} // verus!
