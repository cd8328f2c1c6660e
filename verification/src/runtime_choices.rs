//! How the runtime reads the free-text choices of a profile: topic modes,
//! calibration poses, smoothing presets, engine and running-mode names,
//! denoise modes and resolutions. Names are matched without regard to ASCII
//! case, and most of them with `_` read as `-`.
use vstd::prelude::*;

use crate::decimal::{parse_u32_chars, parse_u32_spec};
use crate::server_rules::{lemma_stop_index, stop_index};
use crate::text::{
    ascii_lower, ascii_upper, chars_eq_str, chars_of, lower_chars, owned, replace_char, replace_chars, slice_chars,
    trim, trim_chars, upper_chars,
};

verus! {

/// `s` lowered, with `_` read as `-`: the form names are compared in.
pub open spec fn name_key(s: Seq<char>) -> Seq<char> {
    replace_char(ascii_lower(s), '_', '-')
}

/// The key of `value`.
pub fn name_key_of(value: &str) -> (r: Vec<char>)
    ensures
        r@ == name_key(value@),
{
    let v = chars_of(value);
    let lowered = lower_chars(&v);
    replace_chars(&lowered, '_', '-')
}

/// How motion frames are laid out on Zenoh key expressions.
#[derive(Clone, Copy, Debug, PartialEq, Eq, Structural)]
pub enum CoreZenohTopicMode {
    Frame,
    ByPrimarySource,
    ByStreamId,
}

/// The topic mode a name selects; any other name selects `Frame`.
pub open spec fn topic_mode_of(value: Seq<char>) -> CoreZenohTopicMode {
    let k = name_key(value);
    if k == "by-primary-source"@ || k == "primary-source"@ || k == "primarysource"@ {
        CoreZenohTopicMode::ByPrimarySource
    } else if k == "by-stream-id"@ || k == "stream-id"@ || k == "streamid"@ {
        CoreZenohTopicMode::ByStreamId
    } else {
        CoreZenohTopicMode::Frame
    }
}

impl CoreZenohTopicMode {
    pub open spec fn spec_name(self) -> Seq<char> {
        match self {
            CoreZenohTopicMode::Frame => "frame"@,
            CoreZenohTopicMode::ByPrimarySource => "by-primary-source"@,
            CoreZenohTopicMode::ByStreamId => "by-stream-id"@,
        }
    }

    /// The topic mode `value` names.
    pub fn from_str(value: &str) -> (r: Self)
        ensures
            r == topic_mode_of(value@),
    {
        let k = name_key_of(value);
        if chars_eq_str(&k, "by-primary-source") || chars_eq_str(&k, "primary-source") || chars_eq_str(
            &k,
            "primarysource",
        ) {
            CoreZenohTopicMode::ByPrimarySource
        } else if chars_eq_str(&k, "by-stream-id") || chars_eq_str(&k, "stream-id") || chars_eq_str(
            &k,
            "streamid",
        ) {
            CoreZenohTopicMode::ByStreamId
        } else {
            CoreZenohTopicMode::Frame
        }
    }

    /// The canonical name of the mode.
    pub fn as_str(self) -> (r: &'static str)
        ensures
            r@ == self.spec_name(),
    {
        match self {
            CoreZenohTopicMode::Frame => "frame",
            CoreZenohTopicMode::ByPrimarySource => "by-primary-source",
            CoreZenohTopicMode::ByStreamId => "by-stream-id",
        }
    }
}

/// The pose a performer holds while the neutral rotations are sampled.
#[derive(Clone, Copy, Debug, PartialEq, Eq, Structural)]
pub enum NeutralCalibrationPose {
    U,
    T,
    I,
}

/// A calibration pose name that names none of the three poses.
#[derive(Clone, Debug, PartialEq, Eq)]
pub struct UnsupportedCalibrationPose {
    /// The name, trimmed and raised to upper case.
    pub value: String,
}

/// The name a pose request carries, trimmed and raised: `U` where none is given.
pub open spec fn pose_key(value: Option<Seq<char>>) -> Seq<char> {
    ascii_upper(trim(
        match value {
            Some(v) => v,
            None => "U"@,
        },
    ))
}

/// The pose a key names, if any.
pub open spec fn pose_of_key(k: Seq<char>) -> Option<NeutralCalibrationPose> {
    if k == ""@ || k == "U"@ || k == "U-POSE"@ || k == "U_POSE"@ {
        Some(NeutralCalibrationPose::U)
    } else if k == "T"@ || k == "T-POSE"@ || k == "T_POSE"@ {
        Some(NeutralCalibrationPose::T)
    } else if k == "I"@ || k == "I-POSE"@ || k == "I_POSE"@ {
        Some(NeutralCalibrationPose::I)
    } else {
        None
    }
}

/// The view of an optional text.
pub open spec fn opt_view(value: Option<&str>) -> Option<Seq<char>> {
    match value {
        Some(v) => Some(v@),
        None => None,
    }
}

impl NeutralCalibrationPose {
    pub open spec fn spec_profile_value(self) -> Seq<char> {
        match self {
            NeutralCalibrationPose::U => "U"@,
            NeutralCalibrationPose::T => "T"@,
            NeutralCalibrationPose::I => "I"@,
        }
    }

    /// The pose a request names; `U` where it names none. Anything but
    /// `U`, `T`, `I`, each alone or followed by `-POSE` or `_POSE`, is refused.
    pub fn parse(value: Option<&str>) -> (r: Result<Self, UnsupportedCalibrationPose>)
        ensures
            match pose_of_key(pose_key(opt_view(value))) {
                Some(p) => r == Ok::<Self, UnsupportedCalibrationPose>(p),
                None => r matches Err(e) && e.value@ == pose_key(opt_view(value)),
            },
    {
        let raw = match value {
            Some(v) => chars_of(v),
            None => chars_of("U"),
        };
        let trimmed = trim_chars(&raw);
        let k = upper_chars(&trimmed);
        proof {
            reveal_strlit("");
            reveal_strlit("U");
            reveal_strlit("U-POSE");
            reveal_strlit("U_POSE");
            reveal_strlit("T");
            reveal_strlit("T-POSE");
            reveal_strlit("T_POSE");
            reveal_strlit("I");
            reveal_strlit("I-POSE");
            reveal_strlit("I_POSE");
        }
        if k.len() == 0 {
            assert(k@ =~= ""@);
            return Ok(NeutralCalibrationPose::U);
        }
        if chars_eq_str(&k, "U") || chars_eq_str(&k, "U-POSE") || chars_eq_str(&k, "U_POSE") {
            Ok(NeutralCalibrationPose::U)
        } else if chars_eq_str(&k, "T") || chars_eq_str(&k, "T-POSE") || chars_eq_str(&k, "T_POSE") {
            Ok(NeutralCalibrationPose::T)
        } else if chars_eq_str(&k, "I") || chars_eq_str(&k, "I-POSE") || chars_eq_str(&k, "I_POSE") {
            Ok(NeutralCalibrationPose::I)
        } else {
            Err(UnsupportedCalibrationPose { value: crate::text::string_of(&k) })
        }
    }

    /// The name the profile stores for the pose.
    pub fn as_profile_value(self) -> (r: &'static str)
        ensures
            r@ == self.spec_profile_value(),
    {
        match self {
            NeutralCalibrationPose::U => "U",
            NeutralCalibrationPose::T => "T",
            NeutralCalibrationPose::I => "I",
        }
    }
}

/// How strongly output rotations are smoothed.
#[derive(Clone, Copy, Debug, PartialEq, Eq, Structural)]
pub enum SmoothingPreset {
    Off,
    Low,
    Medium,
    High,
    Adaptive,
}

/// The preset a name selects, without regard to ASCII case; any other name
/// selects `Off`.
pub open spec fn smoothing_preset_of(value: Seq<char>) -> SmoothingPreset {
    let k = ascii_lower(value);
    if k == "low"@ {
        SmoothingPreset::Low
    } else if k == "medium"@ {
        SmoothingPreset::Medium
    } else if k == "high"@ {
        SmoothingPreset::High
    } else if k == "adaptive"@ {
        SmoothingPreset::Adaptive
    } else {
        SmoothingPreset::Off
    }
}

/// The smoothing preset `value` names.
pub fn parse_smoothing_preset(value: &str) -> (r: SmoothingPreset)
    ensures
        r == smoothing_preset_of(value@),
{
    let v = chars_of(value);
    let k = lower_chars(&v);
    if chars_eq_str(&k, "low") {
        SmoothingPreset::Low
    } else if chars_eq_str(&k, "medium") {
        SmoothingPreset::Medium
    } else if chars_eq_str(&k, "high") {
        SmoothingPreset::High
    } else if chars_eq_str(&k, "adaptive") {
        SmoothingPreset::Adaptive
    } else {
        SmoothingPreset::Off
    }
}

/// How the output modifier mirrors the body.
#[derive(Clone, Copy, Debug, PartialEq, Eq, Structural)]
pub enum MirrorMode {
    Normal,
    MirrorOutput,
    SwapSides,
}

/// The mirror mode a name selects; any other name selects `Normal`.
pub open spec fn mirror_mode_of(value: Seq<char>) -> MirrorMode {
    if value == "mirror-output"@ {
        MirrorMode::MirrorOutput
    } else if value == "swap-sides"@ {
        MirrorMode::SwapSides
    } else {
        MirrorMode::Normal
    }
}

/// The mirror mode `value` names, compared exactly.
pub fn parse_mirror_mode(value: &str) -> (r: MirrorMode)
    ensures
        r == mirror_mode_of(value@),
{
    let v = chars_of(value);
    if chars_eq_str(&v, "mirror-output") {
        MirrorMode::MirrorOutput
    } else if chars_eq_str(&v, "swap-sides") {
        MirrorMode::SwapSides
    } else {
        MirrorMode::Normal
    }
}

/// The denoise mode names that select the temporal IIR filter.
pub open spec fn is_temporal_iir_name(k: Seq<char>) -> bool {
    ||| k == "on"@
    ||| k == "true"@
    ||| k == "temporal-iir"@
    ||| k == "temporal_iir"@
    ||| k == "temporal-iir-10hz"@
    ||| k == "temporal_iir_10hz"@
    ||| k == "temporal-iir-8hz"@
    ||| k == "temporal_iir_8hz"@
    ||| k == "temporal-iir-6hz"@
    ||| k == "temporal_iir_6hz"@
    ||| k == "temporal-iir-4hz"@
    ||| k == "temporal_iir_4hz"@
    ||| k == "temporal-iir-2hz"@
    ||| k == "temporal_iir_2hz"@
}

/// The key a denoise mode is compared by: trimmed and lowered, `off` where
/// none is given.
pub open spec fn denoise_key(value: Option<Seq<char>>) -> Seq<char> {
    ascii_lower(trim(
        match value {
            Some(v) => v,
            None => "off"@,
        },
    ))
}

/// The denoise mode a name selects: `temporal-iir` or `off`.
pub open spec fn denoise_mode_of(value: Option<Seq<char>>) -> Seq<char> {
    if is_temporal_iir_name(denoise_key(value)) {
        "temporal-iir"@
    } else {
        "off"@
    }
}

/// The lowered, trimmed form of a text.
fn lowered_trimmed(v: &Vec<char>) -> (r: Vec<char>)
    ensures
        r@ == ascii_lower(trim(v@)),
{
    let t = trim_chars(v);
    lower_chars(&t)
}

fn temporal_iir_name(k: &Vec<char>) -> (r: bool)
    ensures
        r == is_temporal_iir_name(k@),
{
    chars_eq_str(k, "on") || chars_eq_str(k, "true") || chars_eq_str(k, "temporal-iir") || chars_eq_str(
        k,
        "temporal_iir",
    ) || chars_eq_str(k, "temporal-iir-10hz") || chars_eq_str(k, "temporal_iir_10hz") || chars_eq_str(
        k,
        "temporal-iir-8hz",
    ) || chars_eq_str(k, "temporal_iir_8hz") || chars_eq_str(k, "temporal-iir-6hz") || chars_eq_str(
        k,
        "temporal_iir_6hz",
    ) || chars_eq_str(k, "temporal-iir-4hz") || chars_eq_str(k, "temporal_iir_4hz") || chars_eq_str(
        k,
        "temporal-iir-2hz",
    ) || chars_eq_str(k, "temporal_iir_2hz")
}

/// The input denoise mode a profile names.
pub fn normalize_input_denoise_mode(value: Option<&str>) -> (r: &'static str)
    ensures
        r@ == denoise_mode_of(opt_view(value)),
{
    let raw = match value {
        Some(v) => chars_of(v),
        None => chars_of("off"),
    };
    let k = lowered_trimmed(&raw);
    if temporal_iir_name(&k) {
        "temporal-iir"
    } else {
        "off"
    }
}

/// The engine id a name selects: the MediaPipe native engine under either
/// spelling, any other name unchanged.
pub open spec fn engine_id_of(value: Seq<char>) -> Seq<char> {
    let k = name_key(value);
    if k == "media-pipe-native"@ || k == "mediapipe-native"@ {
        "mediapipe-native"@
    } else {
        value
    }
}

/// The engine id `value` names.
pub fn normalize_mediapipe_engine_id(value: &str) -> (r: String)
    ensures
        r@ == engine_id_of(value@),
{
    let k = name_key_of(value);
    if chars_eq_str(&k, "media-pipe-native") || chars_eq_str(&k, "mediapipe-native") {
        owned("mediapipe-native")
    } else {
        owned(value)
    }
}

/// The MediaPipe running mode a name selects; `live-stream` for any name
/// that is not `image` or `video`.
pub open spec fn running_mode_of(value: Seq<char>) -> Seq<char> {
    let k = name_key(value);
    if k == "image"@ {
        "image"@
    } else if k == "video"@ {
        "video"@
    } else {
        "live-stream"@
    }
}

/// The MediaPipe running mode `value` names.
pub fn normalize_media_pipe_running_mode(value: &str) -> (r: String)
    ensures
        r@ == running_mode_of(value@),
{
    let k = name_key_of(value);
    proof {
        reveal_strlit("live");
        reveal_strlit("livestream");
        reveal_strlit("live-stream");
        reveal_strlit("image");
        reveal_strlit("video");
    }
    if chars_eq_str(&k, "live") || chars_eq_str(&k, "livestream") || chars_eq_str(&k, "live-stream") {
        owned("live-stream")
    } else if chars_eq_str(&k, "image") {
        owned("image")
    } else if chars_eq_str(&k, "video") {
        owned("video")
    } else {
        owned("live-stream")
    }
}

pub open spec fn is_x(c: char) -> bool {
    c == 'x'
}

/// A resolution `WIDTHxHEIGHT`, split at the first `x`, each side read as a
/// `u32`.
pub open spec fn resolution_of(s: Seq<char>) -> Option<(u32, u32)> {
    let i = stop_index(s, |c: char| is_x(c));
    if i >= s.len() {
        None
    } else {
        match (parse_u32_spec(s.take(i as int)), parse_u32_spec(s.skip(i + 1int))) {
            (Some(w), Some(h)) => Some((w, h)),
            _ => None,
        }
    }
}

/// The resolution `value` names, if it names one.
pub fn parse_resolution(value: &str) -> (r: Option<(u32, u32)>)
    ensures
        r == resolution_of(value@),
{
    let v = chars_of(value);
    let ghost stop = |c: char| is_x(c);
    let mut i: usize = 0;
    while i < v.len() && v[i] != 'x'
        invariant
            i <= v.len(),
            stop == (|c: char| is_x(c)),
            forall|j: int| 0 <= j < i ==> !stop(v@[j]),
        decreases v.len() - i,
    {
        i = i + 1;
    }
    proof {
        lemma_stop_index(v@, stop, i as int);
    }
    if i >= v.len() {
        return None;
    }
    let width_chars = slice_chars(&v, 0, i);
    let height_chars = slice_chars(&v, i + 1, v.len());
    assert(width_chars@ =~= v@.take(i as int));
    assert(height_chars@ =~= v@.skip(i + 1));
    let width = parse_u32_chars(&width_chars);
    let height = parse_u32_chars(&height_chars);
    match (width, height) {
        (Some(w), Some(h)) => Some((w, h)),
        _ => None,
    }
}

} // verus!
