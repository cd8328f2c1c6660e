//! The runtime configuration the core derives from a profile document: the
//! output cadence, the output targets and their modifier, and one frame
//! stream per enabled motion source.
use vstd::prelude::*;

use crate::float_bits::{clamp_bounds_ok, f32_clamp, is_finite, F32Bits};
use crate::post_process_settings::{
    clamped_or, core_media_pipe_post_process_settings, engine_settings_from, flag_or, modifier_of, number_or,
    CoreMediaPipePostProcessSettings, F32_ONE, F32_ZERO,
};
use crate::profile_schema::{
    copy_opt_string, copy_rotations, DocumentProfile, DocumentSource, ProfileDocument, ProfileModifierSettings,
    ProfilePipelineComponents, ProfileRuntimeSettings,
};
use crate::api_config::BindAddress;
use crate::profile_ops::{find_profile, lemma_position_bounds, position};
use crate::runtime_choices::{
    denoise_key, mirror_mode_of, opt_view, parse_mirror_mode, parse_smoothing_preset, smoothing_preset_of, MirrorMode,
    SmoothingPreset,
};
use crate::catalog::target_is_windows;
use crate::runtime_choices::{
    denoise_mode_of, engine_id_of, topic_mode_of, CoreZenohTopicMode, normalize_input_denoise_mode, normalize_media_pipe_running_mode,
    normalize_mediapipe_engine_id, parse_resolution, resolution_of, running_mode_of,
};
use crate::text::{ascii_lower, chars_eq_str, chars_of, concat, lower_chars, owned, seq_eq, slice_chars, string_of, trim, trim_chars};

verus! {

/// The output cadence when a profile names none: as fast as the input.
pub const FOLLOW_INPUT_OUTPUT_FPS_CAP: u32 = 240;
/// The highest cadence of any stream or output.
pub const MAX_FPS: u32 = 240;
/// The input rate when a profile names none.
pub const DEFAULT_FPS: u32 = 30;

/// `value` clamped to `lo..=hi`.
pub open spec fn clamp_u32(value: u32, lo: u32, hi: u32) -> u32 {
    if value < lo {
        lo
    } else if value > hi {
        hi
    } else {
        value
    }
}

/// The runtime selection a profile writes, or one that sets nothing.
pub open spec fn runtime_or_empty(runtime: Option<&ProfileRuntimeSettings>) -> ProfileRuntimeSettings {
    match runtime {
        Some(r) => *r,
        None => ProfileRuntimeSettings::spec_empty(),
    }
}

/// The pipeline components a profile writes, or ones that set nothing.
pub open spec fn pipeline_or_empty(pipeline: Option<&ProfilePipelineComponents>) -> ProfilePipelineComponents {
    match pipeline {
        Some(p) => *p,
        None => ProfilePipelineComponents::spec_empty(),
    }
}

/// A value the profile may set, else its default.
pub open spec fn u32_or(value: Option<u32>, default: u32) -> u32 {
    match value {
        Some(v) => v,
        None => default,
    }
}

/// The input rate of a stream: for a still image the output cadence comes
/// first, since an image has no clock of its own; for any other input its
/// own rate comes first. Clamped to `1..=240`.
pub open spec fn input_fps_of(input_component: Seq<char>, output_fps: Option<u32>, input_fps: Option<u32>) -> u32 {
    let chosen = if input_component == "file-image"@ {
        match output_fps {
            Some(v) => v,
            None => u32_or(input_fps, DEFAULT_FPS),
        }
    } else {
        match input_fps {
            Some(v) => v,
            None => u32_or(output_fps, DEFAULT_FPS),
        }
    };
    clamp_u32(chosen, 1, MAX_FPS)
}

fn clamp_fps(value: u32) -> (r: u32)
    ensures
        r == clamp_u32(value, 1, MAX_FPS),
{
    if value < 1 {
        1
    } else if value > MAX_FPS {
        MAX_FPS
    } else {
        value
    }
}

/// The input rate of a stream.
pub fn effective_input_fps(
    input_component: &str,
    runtime: Option<&ProfileRuntimeSettings>,
    pipeline: Option<&ProfilePipelineComponents>,
) -> (r: u32)
    ensures
        r == input_fps_of(input_component@, runtime_or_empty(runtime).fps, pipeline_or_empty(pipeline).input_fps),
{
    let explicit_output_fps: Option<u32> = match runtime {
        Some(r) => r.fps,
        None => None,
    };
    let pipeline_fps: Option<u32> = match pipeline {
        Some(p) => p.input_fps,
        None => None,
    };
    let component = chars_of(input_component);
    let chosen: u32 = if chars_eq_str(&component, "file-image") {
        match explicit_output_fps {
            Some(v) => v,
            None => match pipeline_fps {
                Some(v) => v,
                None => DEFAULT_FPS,
            },
        }
    } else {
        match pipeline_fps {
            Some(v) => v,
            None => match explicit_output_fps {
                Some(v) => v,
                None => DEFAULT_FPS,
            },
        }
    };
    clamp_fps(chosen)
}

/// `1.0`, `32.0` and the preset cut-off frequencies of the denoise filter.
pub const HZ_1: u32 = 0x3f80_0000;
pub const HZ_2: u32 = 0x4000_0000;
pub const HZ_4: u32 = 0x4080_0000;
pub const HZ_6: u32 = 0x40c0_0000;
pub const HZ_8: u32 = 0x4100_0000;
pub const HZ_10: u32 = 0x4120_0000;
pub const HZ_32: u32 = 0x4200_0000;

/// The cut-off frequency a denoise mode name carries; 10 Hz for any name
/// that carries none.
pub open spec fn preset_hz_of(k: Seq<char>) -> u32 {
    if k == "temporal-iir-8hz"@ || k == "temporal_iir_8hz"@ {
        HZ_8
    } else if k == "temporal-iir-6hz"@ || k == "temporal_iir_6hz"@ {
        HZ_6
    } else if k == "temporal-iir-4hz"@ || k == "temporal_iir_4hz"@ {
        HZ_4
    } else if k == "temporal-iir-2hz"@ || k == "temporal_iir_2hz"@ {
        HZ_2
    } else {
        HZ_10
    }
}

/// The cut-off frequency of the temporal denoise filter: an explicit finite
/// frequency clamped to `1..=32` Hz, else the one the mode name carries.
/// The result is an `f32` pattern whose value the `f64` of the stream holds
/// exactly.
pub open spec fn denoise_hz_of(explicit: Option<F32Bits>, mode: Option<Seq<char>>) -> u32 {
    match explicit {
        Some(v) if is_finite(v.0) => f32_clamp(v.0, HZ_1, HZ_32),
        _ => preset_hz_of(ascii_lower(trim(
            match mode {
                Some(m) => m,
                None => ""@,
            },
        ))),
    }
}

fn preset_hz(k: &Vec<char>) -> (r: u32)
    ensures
        r == preset_hz_of(k@),
{
    if chars_eq_str(k, "temporal-iir-8hz") || chars_eq_str(k, "temporal_iir_8hz") {
        HZ_8
    } else if chars_eq_str(k, "temporal-iir-6hz") || chars_eq_str(k, "temporal_iir_6hz") {
        HZ_6
    } else if chars_eq_str(k, "temporal-iir-4hz") || chars_eq_str(k, "temporal_iir_4hz") {
        HZ_4
    } else if chars_eq_str(k, "temporal-iir-2hz") || chars_eq_str(k, "temporal_iir_2hz") {
        HZ_2
    } else {
        HZ_10
    }
}

/// The cut-off frequency of a stream's temporal denoise filter.
pub fn effective_input_denoise_temporal_iir_hz(pipeline: Option<&ProfilePipelineComponents>) -> (r: F32Bits)
    ensures
        r.0 == denoise_hz_of(
            pipeline_or_empty(pipeline).input_denoise_temporal_iir_hz,
            match pipeline_or_empty(pipeline).input_denoise_mode {
                Some(m) => Some(m@),
                None => None,
            },
        ),
{
    let explicit: Option<F32Bits> = match pipeline {
        Some(p) => p.input_denoise_temporal_iir_hz,
        None => None,
    };
    match explicit {
        Some(v) => {
            if v.is_finite() {
                assert(clamp_bounds_ok(HZ_1, HZ_32));
                return v.clamp(F32Bits(HZ_1), F32Bits(HZ_32));
            }
        },
        None => {},
    }
    let raw = match pipeline {
        Some(p) => match &p.input_denoise_mode {
            Some(m) => chars_of(m.as_str()),
            None => chars_of(""),
        },
        None => chars_of(""),
    };
    let t = trim_chars(&raw);
    let k = lower_chars(&t);
    F32Bits(preset_hz(&k))
}

/// How many analysis samples a capture of `duration_ms` keeps: 120 per
/// second plus 240, within `120..=10_000`, each step saturating.
pub open spec fn analysis_extras_max_samples_of(duration_ms: usize) -> usize {
    let scaled: int = if duration_ms * 120 > usize::MAX { usize::MAX as int } else { duration_ms * 120 };
    let estimated: int = if scaled / 1000 + 240 > usize::MAX { usize::MAX as int } else { scaled / 1000 + 240 };
    (if estimated < 120 {
        120
    } else if estimated > 10_000 {
        10_000
    } else {
        estimated
    }) as usize
}

/// How many analysis samples a capture of `duration_ms` milliseconds keeps.
pub fn analysis_extras_max_samples(duration_ms: usize) -> (r: usize)
    ensures
        r == analysis_extras_max_samples_of(duration_ms),
{
    let scaled: usize = if duration_ms > usize::MAX / 120 {
        usize::MAX
    } else {
        duration_ms * 120
    };
    let per_mille: usize = scaled / 1000;
    let estimated: usize = if per_mille > usize::MAX - 240 {
        usize::MAX
    } else {
        per_mille + 240
    };
    if estimated < 120 {
        120
    } else if estimated > 10_000 {
        10_000
    } else {
        estimated
    }
}

/// How output rotations are smoothed.
#[derive(Clone, Copy, Debug, PartialEq, Eq, Structural)]
pub struct SmoothingConfig {
    pub preset: SmoothingPreset,
    pub ema_enabled: bool,
    pub ema_alpha: F32Bits,
    pub one_euro_enabled: bool,
    pub confidence_adaptive_cutoff_enabled: bool,
    pub adaptive_min_cutoff_hz: F32Bits,
    pub adaptive_beta: F32Bits,
    pub adaptive_derivative_cutoff_hz: F32Bits,
}

/// The neutral rotations the output modifier takes off each bone.
#[derive(Clone, Debug, PartialEq)]
pub struct NeutralCalibrationConfig {
    pub enabled: bool,
    /// Bone name and rotation quaternion (x, y, z, w).
    pub rotations: Vec<(String, (F32Bits, F32Bits, F32Bits, F32Bits))>,
}

/// How the output modifier mirrors the body.
#[derive(Clone, Copy, Debug, PartialEq, Eq, Structural)]
pub struct MirrorConfig {
    pub mode: MirrorMode,
}

/// The output modifier: which body parts pass, how the body is mirrored,
/// calibrated and smoothed.
#[derive(Clone, Debug, PartialEq)]
pub struct ModifierConfig {
    pub head_enabled: bool,
    pub face_enabled: bool,
    pub hands_enabled: bool,
    pub arms_ik_enabled: bool,
    pub torso_enabled: bool,
    pub legs_enabled: bool,
    pub feet_enabled: bool,
    pub torso_pitch_scale: F32Bits,
    pub neutral_calibration: NeutralCalibrationConfig,
    pub mirror: MirrorConfig,
    pub smoothing: SmoothingConfig,
}

impl ModifierConfig {
    /// Whether two modifiers hold the same settings.
    pub open spec fn eqv(self, o: Self) -> bool {
        &&& self.neutral_calibration.rotations@ == o.neutral_calibration.rotations@
        &&& self.neutral_calibration.enabled == o.neutral_calibration.enabled
        &&& ModifierConfig { neutral_calibration: o.neutral_calibration, ..self } == o
    }

    /// A modifier holding the same settings.
    pub fn copy(&self) -> (r: Self)
        ensures
            r.eqv(*self),
    {
        ModifierConfig {
            head_enabled: self.head_enabled,
            face_enabled: self.face_enabled,
            hands_enabled: self.hands_enabled,
            arms_ik_enabled: self.arms_ik_enabled,
            torso_enabled: self.torso_enabled,
            legs_enabled: self.legs_enabled,
            feet_enabled: self.feet_enabled,
            torso_pitch_scale: self.torso_pitch_scale,
            neutral_calibration: NeutralCalibrationConfig {
                enabled: self.neutral_calibration.enabled,
                rotations: copy_rotations(&self.neutral_calibration.rotations),
            },
            mirror: self.mirror,
            smoothing: self.smoothing,
        }
    }
}

/// Whether `c` is `base` overridden by what the modifier block `m` sets:
/// the pitch scale clamped to `0..=1`, names mapped to their modes.
pub open spec fn modifier_config_of(c: ModifierConfig, base: ModifierConfig, m: ProfileModifierSettings) -> bool {
    &&& c.head_enabled == flag_or(m.head_enabled, base.head_enabled)
    &&& c.face_enabled == flag_or(m.face_enabled, base.face_enabled)
    &&& c.hands_enabled == flag_or(m.hands_enabled, base.hands_enabled)
    &&& c.arms_ik_enabled == flag_or(m.arms_ik_enabled, base.arms_ik_enabled)
    &&& c.torso_enabled == flag_or(m.torso_enabled, base.torso_enabled)
    &&& c.legs_enabled == flag_or(m.legs_enabled, base.legs_enabled)
    &&& c.feet_enabled == flag_or(m.feet_enabled, base.feet_enabled)
    &&& c.torso_pitch_scale.0 == clamped_or(m.torso_pitch_scale, F32_ZERO, F32_ONE, base.torso_pitch_scale.0)
    &&& c.neutral_calibration.enabled == flag_or(m.neutral_calibration_enabled, base.neutral_calibration.enabled)
    &&& c.neutral_calibration.rotations@ == match m.neutral_calibration_rotations {
        Some(v) => v@,
        None => base.neutral_calibration.rotations@,
    }
    &&& c.mirror.mode == match m.mirror_mode {
        Some(v) => mirror_mode_of(v@),
        None => base.mirror.mode,
    }
    &&& c.smoothing.preset == match m.smoothing_preset {
        Some(v) => smoothing_preset_of(v@),
        None => base.smoothing.preset,
    }
    &&& c.smoothing.ema_enabled == flag_or(m.smoothing_ema_enabled, base.smoothing.ema_enabled)
    &&& c.smoothing.ema_alpha.0 == number_or(m.smoothing_ema_alpha, base.smoothing.ema_alpha.0)
    &&& c.smoothing.one_euro_enabled == flag_or(m.smoothing_one_euro_enabled, base.smoothing.one_euro_enabled)
    &&& c.smoothing.confidence_adaptive_cutoff_enabled == flag_or(
        m.smoothing_confidence_adaptive_cutoff,
        base.smoothing.confidence_adaptive_cutoff_enabled,
    )
    &&& c.smoothing.adaptive_min_cutoff_hz.0 == number_or(m.adaptive_min_cutoff_hz, base.smoothing.adaptive_min_cutoff_hz.0)
    &&& c.smoothing.adaptive_beta.0 == number_or(m.adaptive_beta, base.smoothing.adaptive_beta.0)
    &&& c.smoothing.adaptive_derivative_cutoff_hz.0 == number_or(
        m.adaptive_derivative_cutoff_hz,
        base.smoothing.adaptive_derivative_cutoff_hz.0,
    )
}

/// Whether `c` is the modifier a runtime selection derives from `base`:
/// `base` itself where the selection has no modifier block.
pub open spec fn modifier_from_runtime(c: ModifierConfig, base: ModifierConfig, runtime: Option<ProfileModifierSettings>) -> bool {
    match runtime {
        Some(m) => modifier_config_of(c, base, m),
        None => c.eqv(base),
    }
}

fn pick_flag(value: Option<bool>, current: bool) -> (r: bool)
    ensures
        r == flag_or(value, current),
{
    match value {
        Some(v) => v,
        None => current,
    }
}

fn pick_number(value: Option<F32Bits>, current: F32Bits) -> (r: F32Bits)
    ensures
        r.0 == number_or(value, current.0),
{
    match value {
        Some(v) => v,
        None => current,
    }
}

/// The smoothing of a modifier block over `base`.
fn smoothing_from(m: &ProfileModifierSettings, base: SmoothingConfig) -> (r: SmoothingConfig)
    ensures
        r.preset == match m.smoothing_preset {
            Some(v) => smoothing_preset_of(v@),
            None => base.preset,
        },
        r.ema_enabled == flag_or(m.smoothing_ema_enabled, base.ema_enabled),
        r.ema_alpha.0 == number_or(m.smoothing_ema_alpha, base.ema_alpha.0),
        r.one_euro_enabled == flag_or(m.smoothing_one_euro_enabled, base.one_euro_enabled),
        r.confidence_adaptive_cutoff_enabled == flag_or(
            m.smoothing_confidence_adaptive_cutoff,
            base.confidence_adaptive_cutoff_enabled,
        ),
        r.adaptive_min_cutoff_hz.0 == number_or(m.adaptive_min_cutoff_hz, base.adaptive_min_cutoff_hz.0),
        r.adaptive_beta.0 == number_or(m.adaptive_beta, base.adaptive_beta.0),
        r.adaptive_derivative_cutoff_hz.0 == number_or(m.adaptive_derivative_cutoff_hz, base.adaptive_derivative_cutoff_hz.0),
{
    let preset = match &m.smoothing_preset {
        Some(v) => parse_smoothing_preset(v.as_str()),
        None => base.preset,
    };
    SmoothingConfig {
        preset,
        ema_enabled: pick_flag(m.smoothing_ema_enabled, base.ema_enabled),
        ema_alpha: pick_number(m.smoothing_ema_alpha, base.ema_alpha),
        one_euro_enabled: pick_flag(m.smoothing_one_euro_enabled, base.one_euro_enabled),
        confidence_adaptive_cutoff_enabled: pick_flag(
            m.smoothing_confidence_adaptive_cutoff,
            base.confidence_adaptive_cutoff_enabled,
        ),
        adaptive_min_cutoff_hz: pick_number(m.adaptive_min_cutoff_hz, base.adaptive_min_cutoff_hz),
        adaptive_beta: pick_number(m.adaptive_beta, base.adaptive_beta),
        adaptive_derivative_cutoff_hz: pick_number(m.adaptive_derivative_cutoff_hz, base.adaptive_derivative_cutoff_hz),
    }
}

/// The output modifier a runtime selection derives from the runtime's
/// defaults `base`.
pub fn modifier_config_from_runtime(runtime: Option<&ProfileRuntimeSettings>, base: ModifierConfig) -> (r: ModifierConfig)
    ensures
        modifier_from_runtime(r, base, modifier_of(runtime)),
{
    let settings: &ProfileModifierSettings = match runtime {
        Some(rt) => match &rt.modifier {
            Some(m) => m,
            None => {
                return base;
            },
        },
        None => {
            return base;
        },
    };
    assert(clamp_bounds_ok(F32_ZERO, F32_ONE));
    let torso_pitch_scale = match settings.torso_pitch_scale {
        Some(v) => v.clamp(F32Bits(F32_ZERO), F32Bits(F32_ONE)),
        None => base.torso_pitch_scale,
    };
    let rotations = match &settings.neutral_calibration_rotations {
        Some(v) => copy_rotations(v),
        None => base.neutral_calibration.rotations,
    };
    let mode = match &settings.mirror_mode {
        Some(v) => parse_mirror_mode(v.as_str()),
        None => base.mirror.mode,
    };
    ModifierConfig {
        head_enabled: pick_flag(settings.head_enabled, base.head_enabled),
        face_enabled: pick_flag(settings.face_enabled, base.face_enabled),
        hands_enabled: pick_flag(settings.hands_enabled, base.hands_enabled),
        arms_ik_enabled: pick_flag(settings.arms_ik_enabled, base.arms_ik_enabled),
        torso_enabled: pick_flag(settings.torso_enabled, base.torso_enabled),
        legs_enabled: pick_flag(settings.legs_enabled, base.legs_enabled),
        feet_enabled: pick_flag(settings.feet_enabled, base.feet_enabled),
        torso_pitch_scale,
        neutral_calibration: NeutralCalibrationConfig {
            enabled: pick_flag(settings.neutral_calibration_enabled, base.neutral_calibration.enabled),
            rotations,
        },
        mirror: MirrorConfig { mode },
        smoothing: smoothing_from(settings, base.smoothing),
    }
}

/// The webcam input a platform has natively: DirectShow on Windows, nokhwa
/// elsewhere.
pub open spec fn native_input_component_of(windows: bool) -> Seq<char> {
    if windows {
        "webcam-directshow"@
    } else {
        "webcam-nokhwa"@
    }
}

/// The native webcam input of a platform.
pub fn default_native_input_component_for(windows: bool) -> (r: &'static str)
    ensures
        r@ == native_input_component_of(windows),
{
    if windows {
        "webcam-directshow"
    } else {
        "webcam-nokhwa"
    }
}

/// The native webcam input of the platform this crate was built for.
pub fn default_native_input_component() -> (r: &'static str)
    ensures
        r@ == native_input_component_of(true) || r@ == native_input_component_of(false),
{
    default_native_input_component_for(target_is_windows())
}

/// The runtime stream id of a profile stream: `unmotion:` and its id.
pub open spec fn runtime_stream_id_of(profile_stream_id: Seq<char>) -> Seq<char> {
    "unmotion:"@ + profile_stream_id
}

/// The runtime stream id of a profile stream.
pub fn unmotion_runtime_stream_id(profile_stream_id: &str) -> (r: String)
    ensures
        r@ == runtime_stream_id_of(profile_stream_id@),
{
    concat("unmotion:", profile_stream_id)
}

/// How a stream's frames are resized before the engine sees them.
#[derive(Clone, Debug, PartialEq, Eq)]
pub struct CoreUnmotionResizeConfig {
    pub preserve_aspect_ratio: bool,
    pub axis: String,
    pub reference: u32,
    pub width: u32,
    pub height: u32,
    pub pad_color: String,
}

/// One motion stream of the runtime: where its frames come from and how the
/// engine treats them.
#[derive(Clone, Debug, PartialEq)]
pub struct CoreMotionFrameStreamConfig {
    pub profile_stream_id: String,
    pub stream_id: String,
    /// The webcam device, for the MediaPipe native engine only; empty for any other.
    pub device_id: String,
    pub runtime_engine: String,
    pub input_component: String,
    pub vmc_receive_listen_addr: Option<String>,
    pub ifacialmocap_receive_listen_addr: Option<String>,
    pub input_path: Option<String>,
    pub input_fps: u32,
    pub input_width: Option<u32>,
    pub input_height: Option<u32>,
    pub input_pixel_format: Option<String>,
    pub input_repeat: bool,
    pub input_ffmpeg_path: Option<String>,
    pub input_denoise_mode: String,
    /// An `f32` pattern; the stream reads it as the `f64` of the same value.
    pub input_denoise_temporal_iir_hz: F32Bits,
    pub input_resize: Option<CoreUnmotionResizeConfig>,
    pub media_pipe_running_mode: String,
    pub media_pipe_holistic_enabled: bool,
    pub media_pipe_delegate: Option<String>,
    pub media_pipe_num_threads: Option<u32>,
    pub media_pipe_holistic_flow_limiter_enabled: bool,
    pub media_pipe_holistic_flow_limiter_max_in_flight: u32,
    pub media_pipe_holistic_flow_limiter_max_in_queue: u32,
    pub post_process_component: String,
    pub media_pipe_post_process: CoreMediaPipePostProcessSettings,
}

/// A text the profile may set, else its default.
pub open spec fn str_or(value: Option<String>, default: Seq<char>) -> Seq<char> {
    match value {
        Some(v) => v@,
        None => default,
    }
}

/// The capture size a runtime selection names, `640x480` where it names
/// none or one that does not parse.
pub open spec fn runtime_size_of(rt: ProfileRuntimeSettings) -> (u32, u32) {
    match rt.resolution {
        Some(s) => match resolution_of(s@) {
            Some(size) => size,
            None => (640, 480),
        },
        None => (640, 480),
    }
}

/// The resize a stream's pipeline asks for, over input frames of
/// `width` x `height`.
pub open spec fn resize_of(p: ProfilePipelineComponents, width: u32, height: u32) -> Option<(bool, Seq<char>, u32, u32, u32, Seq<char>)> {
    let resize_width = u32_or(p.input_resize_width, width);
    let resize_height = u32_or(p.input_resize_height, height);
    let axis = str_or(p.input_resize_axis, "width"@);
    if flag_or(p.input_resize_enabled, false) {
        Some((
            flag_or(p.input_resize_preserve_aspect, true),
            axis,
            u32_or(p.input_resize_reference, if axis == "height"@ { resize_height } else { resize_width }),
            resize_width,
            resize_height,
            str_or(p.input_resize_pad_color, "000000ff"@),
        ))
    } else {
        None
    }
}

/// The view of an optional resize.
pub open spec fn resize_view(r: Option<CoreUnmotionResizeConfig>) -> Option<(bool, Seq<char>, u32, u32, u32, Seq<char>)> {
    match r {
        Some(c) => Some((c.preserve_aspect_ratio, c.axis@, c.reference, c.width, c.height, c.pad_color@)),
        None => None,
    }
}

/// The resize of a stream.
fn input_resize_for(p: &ProfilePipelineComponents, width: u32, height: u32) -> (r: Option<CoreUnmotionResizeConfig>)
    ensures
        resize_view(r) == resize_of(*p, width, height),
{
    let resize_width = match p.input_resize_width {
        Some(v) => v,
        None => width,
    };
    let resize_height = match p.input_resize_height {
        Some(v) => v,
        None => height,
    };
    let enabled = match p.input_resize_enabled {
        Some(v) => v,
        None => false,
    };
    if !enabled {
        return None;
    }
    let axis = match &p.input_resize_axis {
        Some(a) => owned(a.as_str()),
        None => owned("width"),
    };
    let axis_chars = chars_of(axis.as_str());
    let reference = match p.input_resize_reference {
        Some(v) => v,
        None => if chars_eq_str(&axis_chars, "height") {
            resize_height
        } else {
            resize_width
        },
    };
    let pad_color = match &p.input_resize_pad_color {
        Some(c) => owned(c.as_str()),
        None => owned("000000ff"),
    };
    Some(CoreUnmotionResizeConfig {
        preserve_aspect_ratio: match p.input_resize_preserve_aspect {
            Some(v) => v,
            None => true,
        },
        axis,
        reference,
        width: resize_width,
        height: resize_height,
        pad_color,
    })
}

/// Whether `c` is the stream a profile's selection `rt` and pipeline `p`
/// describe for the profile stream `id`. `windows` is whether the build
/// target is Windows; `settings_ffmpeg_path` is the ffmpeg path the user
/// settings name, used where the pipeline names none.
pub open spec fn frame_stream_of(
    c: CoreMotionFrameStreamConfig,
    id: Seq<char>,
    rt: ProfileRuntimeSettings,
    p: ProfilePipelineComponents,
    modifier: Option<ProfileModifierSettings>,
    windows: bool,
    settings_ffmpeg_path: Option<String>,
) -> bool {
    let input_component = str_or(p.input, native_input_component_of(windows));
    let (runtime_width, runtime_height) = runtime_size_of(rt);
    let width = u32_or(p.input_width, runtime_width);
    let height = u32_or(p.input_height, runtime_height);
    let engine = engine_id_of(str_or(rt.engine, "mediapipe-native"@));
    &&& c.profile_stream_id@ == id
    &&& c.stream_id@ == runtime_stream_id_of(id)
    &&& c.device_id@ == (if engine == "mediapipe-native"@ { str_or(rt.device, ""@) } else { ""@ })
    &&& c.runtime_engine@ == engine
    &&& c.input_component@ == input_component
    &&& c.vmc_receive_listen_addr == rt.vmc_receive_listen_addr
    &&& c.ifacialmocap_receive_listen_addr == rt.ifacialmocap_receive_listen_addr
    &&& c.input_path == p.input_path
    &&& c.input_fps == input_fps_of(input_component, rt.fps, p.input_fps)
    &&& c.input_width == Some(width)
    &&& c.input_height == Some(height)
    &&& c.input_pixel_format == p.input_pixel_format
    &&& c.input_repeat == flag_or(p.input_repeat, input_component == "file-image"@)
    &&& c.input_ffmpeg_path == match p.input_ffmpeg_path {
        Some(path) => Some(path),
        None => settings_ffmpeg_path,
    }
    &&& c.input_denoise_mode@ == denoise_mode_of(
        match p.input_denoise_mode {
            Some(m) => Some(m@),
            None => None,
        },
    )
    &&& c.input_denoise_temporal_iir_hz.0 == denoise_hz_of(
        p.input_denoise_temporal_iir_hz,
        match p.input_denoise_mode {
            Some(m) => Some(m@),
            None => None,
        },
    )
    &&& resize_view(c.input_resize) == resize_of(p, width, height)
    &&& c.media_pipe_running_mode@ == running_mode_of(str_or(rt.media_pipe_running_mode, "live-stream"@))
    &&& c.media_pipe_holistic_enabled == flag_or(rt.media_pipe_holistic_enabled, true)
    &&& c.media_pipe_delegate == rt.media_pipe_delegate
    &&& c.media_pipe_num_threads == match rt.media_pipe_num_threads {
        Some(n) => Some(if n < 1 { 1u32 } else { n }),
        None => None,
    }
    &&& c.media_pipe_holistic_flow_limiter_enabled == flag_or(rt.media_pipe_holistic_flow_limiter_enabled, true)
    &&& c.media_pipe_holistic_flow_limiter_max_in_flight == (if u32_or(
        rt.media_pipe_holistic_flow_limiter_max_in_flight,
        1,
    ) < 1 {
        1
    } else {
        u32_or(rt.media_pipe_holistic_flow_limiter_max_in_flight, 1)
    })
    &&& c.media_pipe_holistic_flow_limiter_max_in_queue == u32_or(rt.media_pipe_holistic_flow_limiter_max_in_queue, 1)
    &&& c.post_process_component@ == str_or(p.post_process, "media-pipe-default"@)
    &&& engine_settings_from(c.media_pipe_post_process, modifier)
}

fn text_or_default(value: &Option<String>, default: &str) -> (r: String)
    ensures
        r@ == str_or(*value, default@),
{
    match value {
        Some(v) => owned(v.as_str()),
        None => owned(default),
    }
}

/// The size a runtime selection names.
fn runtime_size(rt: &ProfileRuntimeSettings) -> (r: (u32, u32))
    ensures
        r == runtime_size_of(*rt),
{
    match &rt.resolution {
        Some(s) => match parse_resolution(s.as_str()) {
            Some(size) => size,
            None => (640, 480),
        },
        None => (640, 480),
    }
}

/// One motion stream of the runtime, for the profile stream
/// `profile_stream_id`.
#[verifier::rlimit(60)]
pub fn core_frame_stream_config(
    profile_stream_id: String,
    runtime: Option<&ProfileRuntimeSettings>,
    pipeline: Option<&ProfilePipelineComponents>,
    windows: bool,
    settings_ffmpeg_path: Option<String>,
) -> (r: CoreMotionFrameStreamConfig)
    ensures
        frame_stream_of(
            r,
            profile_stream_id@,
            runtime_or_empty(runtime),
            pipeline_or_empty(pipeline),
            modifier_of(runtime),
            windows,
            settings_ffmpeg_path,
        ),
{
    let empty_rt = ProfileRuntimeSettings::empty();
    let empty_p = ProfilePipelineComponents::empty();
    let rt: &ProfileRuntimeSettings = match runtime {
        Some(r) => r,
        None => &empty_rt,
    };
    let p: &ProfilePipelineComponents = match pipeline {
        Some(x) => x,
        None => &empty_p,
    };
    assert(*rt == runtime_or_empty(runtime));
    assert(*p == pipeline_or_empty(pipeline));
    let input_component = text_or_default(&p.input, default_native_input_component_for(windows));
    let (runtime_width, runtime_height) = runtime_size(rt);
    let width = match p.input_width {
        Some(v) => v,
        None => runtime_width,
    };
    let height = match p.input_height {
        Some(v) => v,
        None => runtime_height,
    };
    let input_resize = input_resize_for(p, width, height);
    let engine_name = text_or_default(&rt.engine, "mediapipe-native");
    let runtime_engine = normalize_mediapipe_engine_id(engine_name.as_str());
    let component_chars = chars_of(input_component.as_str());
    let is_file_image = chars_eq_str(&component_chars, "file-image");
    let input_repeat = match p.input_repeat {
        Some(v) => v,
        None => is_file_image,
    };
    let input_fps = effective_input_fps(input_component.as_str(), Some(rt), Some(p));
    let engine_chars = chars_of(runtime_engine.as_str());
    let device_id = if chars_eq_str(&engine_chars, "mediapipe-native") {
        text_or_default(&rt.device, "")
    } else {
        owned("")
    };
    let input_ffmpeg_path = match &p.input_ffmpeg_path {
        Some(path) => Some(path.clone()),
        None => settings_ffmpeg_path,
    };
    let denoise_mode: Option<&str> = match &p.input_denoise_mode {
        Some(m) => Some(m.as_str()),
        None => None,
    };
    let input_denoise_mode = owned(normalize_input_denoise_mode(denoise_mode));
    let input_denoise_temporal_iir_hz = effective_input_denoise_temporal_iir_hz(Some(p));
    let running_mode_name = text_or_default(&rt.media_pipe_running_mode, "live-stream");
    let media_pipe_running_mode = normalize_media_pipe_running_mode(running_mode_name.as_str());
    let max_in_flight: u32 = match rt.media_pipe_holistic_flow_limiter_max_in_flight {
        Some(v) => v,
        None => 1,
    };
    let stream_id = unmotion_runtime_stream_id(profile_stream_id.as_str());
    CoreMotionFrameStreamConfig {
        profile_stream_id,
        stream_id,
        device_id,
        runtime_engine,
        input_component,
        vmc_receive_listen_addr: copy_opt_string(&rt.vmc_receive_listen_addr),
        ifacialmocap_receive_listen_addr: copy_opt_string(&rt.ifacialmocap_receive_listen_addr),
        input_path: copy_opt_string(&p.input_path),
        input_fps,
        input_width: Some(width),
        input_height: Some(height),
        input_pixel_format: copy_opt_string(&p.input_pixel_format),
        input_repeat,
        input_ffmpeg_path,
        input_denoise_mode,
        input_denoise_temporal_iir_hz,
        input_resize,
        media_pipe_running_mode,
        media_pipe_holistic_enabled: match rt.media_pipe_holistic_enabled {
            Some(v) => v,
            None => true,
        },
        media_pipe_delegate: copy_opt_string(&rt.media_pipe_delegate),
        media_pipe_num_threads: match rt.media_pipe_num_threads {
            Some(n) => Some(if n < 1 { 1 } else { n }),
            None => None,
        },
        media_pipe_holistic_flow_limiter_enabled: match rt.media_pipe_holistic_flow_limiter_enabled {
            Some(v) => v,
            None => true,
        },
        media_pipe_holistic_flow_limiter_max_in_flight: if max_in_flight < 1 {
            1
        } else {
            max_in_flight
        },
        media_pipe_holistic_flow_limiter_max_in_queue: match rt.media_pipe_holistic_flow_limiter_max_in_queue {
            Some(v) => v,
            None => 1,
        },
        post_process_component: text_or_default(&p.post_process, "media-pipe-default"),
        media_pipe_post_process: core_media_pipe_post_process_settings(runtime),
    }
}

/// The id of the built-in stream a profile may enable.
pub open spec fn builtin_stream_id() -> Seq<char> {
    "mediapipe-main"@
}

/// The ids of the extra `unmotion` sources bound to the profile `profile_id`,
/// in order.
pub open spec fn unmotion_source_ids(sources: Seq<DocumentSource>, profile_id: Seq<char>) -> Seq<Seq<char>>
    decreases sources.len(),
{
    if sources.len() == 0 {
        Seq::empty()
    } else {
        let rest = unmotion_source_ids(sources.drop_last(), profile_id);
        let s = sources.last();
        if s.profile_id@ == profile_id && s.kind@ == "unmotion"@ {
            rest.push(s.id@)
        } else {
            rest
        }
    }
}

/// The ids of the streams a profile runs: the built-in one where it is
/// enabled, then its `unmotion` sources.
pub open spec fn stream_ids_of(profile: DocumentProfile, sources: Seq<DocumentSource>) -> Seq<Seq<char>> {
    (if profile.default_source_enabled {
        seq![builtin_stream_id()]
    } else {
        Seq::empty()
    }) + unmotion_source_ids(sources, profile.id@)
}

/// Whether `streams` are the streams of `profile`, one per id, in order.
pub open spec fn frame_streams_of(
    streams: Seq<CoreMotionFrameStreamConfig>,
    profile: DocumentProfile,
    sources: Seq<DocumentSource>,
    windows: bool,
    settings_ffmpeg_path: Option<String>,
) -> bool {
    let ids = stream_ids_of(profile, sources);
    let rt = match profile.runtime_selection {
        Some(r) => r,
        None => ProfileRuntimeSettings::spec_empty(),
    };
    let p = match profile.pipeline_components {
        Some(x) => x,
        None => ProfilePipelineComponents::spec_empty(),
    };
    let modifier = match profile.runtime_selection {
        Some(r) => r.modifier,
        None => None,
    };
    &&& streams.len() == ids.len()
    &&& forall|i: int|
        0 <= i < ids.len() ==> frame_stream_of(
            #[trigger] streams[i],
            ids[i],
            rt,
            p,
            modifier,
            windows,
            settings_ffmpeg_path,
        )
}

fn opt_ref<T>(o: &Option<T>) -> (r: Option<&T>)
    ensures
        match r {
            Some(x) => *o == Some(*x),
            None => *o is None,
        },
{
    match o {
        Some(x) => Some(x),
        None => None,
    }
}

/// The streams a profile runs.
pub fn core_frame_stream_configs(
    profile: &DocumentProfile,
    sources: &Vec<DocumentSource>,
    windows: bool,
    settings_ffmpeg_path: &Option<String>,
) -> (r: Vec<CoreMotionFrameStreamConfig>)
    ensures
        frame_streams_of(r@, *profile, sources@, windows, *settings_ffmpeg_path),
{
    let runtime = opt_ref(&profile.runtime_selection);
    let pipeline = opt_ref(&profile.pipeline_components);
    let ghost rt = runtime_or_empty(runtime);
    let ghost p = pipeline_or_empty(pipeline);
    let ghost modifier = modifier_of(runtime);
    let mut out: Vec<CoreMotionFrameStreamConfig> = Vec::new();
    let ghost head: Seq<Seq<char>> = if profile.default_source_enabled {
        seq![builtin_stream_id()]
    } else {
        Seq::empty()
    };
    if profile.default_source_enabled {
        let c = core_frame_stream_config(
            owned("mediapipe-main"),
            runtime,
            pipeline,
            windows,
            copy_opt_string(settings_ffmpeg_path),
        );
        out.push(c);
    }
    let profile_id = chars_of(profile.id.as_str());
    let mut i: usize = 0;
    while i < sources.len()
        invariant
            i <= sources.len(),
            profile_id@ == profile.id@,
            rt == runtime_or_empty(runtime),
            p == pipeline_or_empty(pipeline),
            modifier == modifier_of(runtime),
            out@.len() == head.len() + unmotion_source_ids(sources@.take(i as int), profile.id@).len(),
            forall|j: int|
                0 <= j < out@.len() ==> #[trigger] frame_stream_of(
                    out@[j],
                    (head + unmotion_source_ids(sources@.take(i as int), profile.id@))[j],
                    rt,
                    p,
                    modifier,
                    windows,
                    *settings_ffmpeg_path,
                ),
        decreases sources.len() - i,
    {
        let s = &sources[i];
        assert(sources@.take(i as int + 1).drop_last() =~= sources@.take(i as int));
        assert(sources@.take(i as int + 1).last() == sources@[i as int]);
        let sid = chars_of(s.profile_id.as_str());
        let kind = chars_of(s.kind.as_str());
        if seq_eq(&sid, &profile_id) && chars_eq_str(&kind, "unmotion") {
            let c = core_frame_stream_config(
                owned(s.id.as_str()),
                runtime,
                pipeline,
                windows,
                copy_opt_string(settings_ffmpeg_path),
            );
            let ghost before = head + unmotion_source_ids(sources@.take(i as int), profile.id@);
            out.push(c);
            assert(head + unmotion_source_ids(sources@.take(i as int + 1), profile.id@) =~= before.push(s.id@));
        } else {
            assert(head + unmotion_source_ids(sources@.take(i as int + 1), profile.id@) =~= head
                + unmotion_source_ids(sources@.take(i as int), profile.id@));
        }
        i = i + 1;
    }
    assert(sources@.take(sources.len() as int) =~= sources@);
    out
}

/// Where the VMC output of a profile sends to.
#[derive(Clone, Debug, PartialEq)]
pub struct CoreVmcOutputConfig {
    pub target_addr: BindAddress,
    pub modifier: ModifierConfig,
}

/// Where and how the VRChat OSC output of a profile sends.
#[derive(Clone, Debug, PartialEq)]
pub struct CoreVrcOscOutputConfig {
    pub target_addr: BindAddress,
    pub parameter_prefix: String,
    pub send_only_when_vrchat_running: bool,
    pub process_poll_interval_secs: u64,
    pub modifier: ModifierConfig,
}

/// Where and how the Zenoh output of a profile publishes.
#[derive(Clone, Debug, PartialEq)]
pub struct CoreZenohOutputConfig {
    pub base_key_expr: String,
    pub topic_mode: CoreZenohTopicMode,
    pub stream_id: Option<String>,
    pub producer: Option<String>,
    pub modifier: ModifierConfig,
}

/// What the runtime runs for the active profile.
#[derive(Clone, Debug, PartialEq)]
pub struct CoreRuntimeConfig {
    pub active_profile_id: String,
    pub fps: u32,
    pub vmc_output: Option<CoreVmcOutputConfig>,
    pub vrc_osc_output: Option<CoreVrcOscOutputConfig>,
    pub zenoh_output: Option<CoreZenohOutputConfig>,
    pub frame_streams: Vec<CoreMotionFrameStreamConfig>,
}

/// Why no runtime configuration could be derived.
#[derive(Clone, Debug, PartialEq, Eq)]
pub enum RuntimeConfigError {
    /// The document holds no profile.
    NoProfiles,
    /// The VMC output is on and its target is no socket address.
    InvalidVmcTarget { target: String },
    /// The VRChat OSC output is on and its target is no socket address.
    InvalidVrcOscTarget { target: String },
}

/// The texts of the output targets a document's active profile sends to,
/// which are to be read as socket addresses.
#[derive(Clone, Debug, PartialEq, Eq)]
pub struct OutputTargetTexts {
    /// The VMC target, where the VMC output is on.
    pub vmc: Option<String>,
    /// The VRChat OSC target, where that output is on.
    pub vrc_osc: Option<String>,
}

/// The index of the profile the runtime runs: the selected one, else the
/// first; none in an empty document.
pub open spec fn active_index(doc: ProfileDocument) -> int {
    let i = position(doc.profiles@, doc.selected_profile_id@);
    if i >= 0 {
        i
    } else if doc.profiles@.len() > 0 {
        0
    } else {
        -1
    }
}

/// The runtime selection of a profile, or one that sets nothing.
pub open spec fn runtime_of(profile: DocumentProfile) -> ProfileRuntimeSettings {
    match profile.runtime_selection {
        Some(r) => r,
        None => ProfileRuntimeSettings::spec_empty(),
    }
}

/// The modifier block of a profile, if it has one.
pub open spec fn profile_modifier(profile: DocumentProfile) -> Option<ProfileModifierSettings> {
    match profile.runtime_selection {
        Some(r) => r.modifier,
        None => None,
    }
}

/// The VMC target a selection names: `127.0.0.1:39539` where it names none.
pub open spec fn vmc_target_of(rt: ProfileRuntimeSettings) -> Option<Seq<char>> {
    if flag_or(rt.vmc_enabled, false) {
        Some(str_or(rt.vmc_target_addr, "127.0.0.1:39539"@))
    } else {
        None
    }
}

/// The VRChat OSC target a selection names: `127.0.0.1:9000` where it names none.
pub open spec fn vrc_osc_target_of(rt: ProfileRuntimeSettings) -> Option<Seq<char>> {
    if flag_or(rt.vrc_osc_enabled, false) {
        Some(str_or(rt.vrc_osc_target_addr, "127.0.0.1:9000"@))
    } else {
        None
    }
}

/// The view of an optional text.
pub open spec fn opt_string_view(o: Option<String>) -> Option<Seq<char>> {
    match o {
        Some(s) => Some(s@),
        None => None,
    }
}

/// `s` without the `c` it ends with, however many.
pub open spec fn trim_end_char(s: Seq<char>, c: char) -> Seq<char>
    decreases s.len(),
{
    if s.len() > 0 && s.last() == c {
        trim_end_char(s.drop_last(), c)
    } else {
        s
    }
}

/// The base key expression of the Zenoh output: the one named, trimmed and
/// without trailing `/`, else `un-motion/frame`.
pub open spec fn zenoh_key_expr_of(value: Option<String>) -> Seq<char> {
    match value {
        Some(v) => {
            let t = trim_end_char(trim(v@), '/');
            if t.len() == 0 {
                "un-motion/frame"@
            } else {
                t
            }
        },
        None => "un-motion/frame"@,
    }
}

/// Whether `c` is the Zenoh output a selection describes for `profile_id`.
pub open spec fn zenoh_output_of(c: CoreZenohOutputConfig, rt: ProfileRuntimeSettings, profile_id: Seq<char>, base: ModifierConfig) -> bool {
    &&& c.base_key_expr@ == zenoh_key_expr_of(rt.zenoh_key_expr)
    &&& c.topic_mode == topic_mode_of(str_or(rt.zenoh_topic_mode, "frame"@))
    &&& opt_string_view(c.stream_id) == Some(str_or(rt.zenoh_stream_id, profile_id))
    &&& opt_string_view(c.producer) == Some(str_or(rt.zenoh_producer, "un-motion-core"@))
    &&& modifier_from_runtime(c.modifier, base, rt.modifier)
}

/// Whether `c` is the configuration the document's active profile
/// describes, with the output targets read as `vmc_addr` and `vrc_addr`.
pub open spec fn runtime_config_of(
    c: CoreRuntimeConfig,
    doc: ProfileDocument,
    vmc_addr: Option<BindAddress>,
    vrc_addr: Option<BindAddress>,
    base: ModifierConfig,
    windows: bool,
    settings_ffmpeg_path: Option<String>,
) -> bool {
    let profile = doc.profiles@[active_index(doc)];
    let rt = runtime_of(profile);
    &&& c.active_profile_id@ == profile.id@
    &&& c.fps == clamp_u32(u32_or(rt.fps, FOLLOW_INPUT_OUTPUT_FPS_CAP), 1, MAX_FPS)
    &&& frame_streams_of(c.frame_streams@, profile, doc.profile_sources@, windows, settings_ffmpeg_path)
    &&& match c.vmc_output {
        Some(o) => vmc_target_of(rt) is Some && vmc_addr == Some(o.target_addr)
            && modifier_from_runtime(o.modifier, base, rt.modifier),
        None => vmc_target_of(rt) is None,
    }
    &&& match c.vrc_osc_output {
        Some(o) => vrc_osc_target_of(rt) is Some && vrc_addr == Some(o.target_addr)
            && o.parameter_prefix@ == str_or(rt.vrc_osc_parameter_prefix, ""@)
            && o.send_only_when_vrchat_running == flag_or(rt.vrc_osc_send_only_when_vrchat_running, true)
            && o.process_poll_interval_secs == (if u64_or(rt.vrc_osc_process_poll_interval_secs, 10) < 1 {
                1
            } else if u64_or(rt.vrc_osc_process_poll_interval_secs, 10) > 3600 {
                3600
            } else {
                u64_or(rt.vrc_osc_process_poll_interval_secs, 10)
            })
            && modifier_from_runtime(o.modifier, base, rt.modifier),
        None => vrc_osc_target_of(rt) is None,
    }
    &&& match c.zenoh_output {
        Some(o) => flag_or(rt.zenoh_enabled, false) && zenoh_output_of(o, rt, profile.id@, base),
        None => !flag_or(rt.zenoh_enabled, false),
    }
}

/// A value the profile may set, else its default.
pub open spec fn u64_or(value: Option<u64>, default: u64) -> u64 {
    match value {
        Some(v) => v,
        None => default,
    }
}

/// The output targets of a document's active profile that are to be read
/// as socket addresses.
pub fn output_target_texts(document: &ProfileDocument) -> (r: OutputTargetTexts)
    ensures
        active_index(*document) >= 0 ==> opt_string_view(r.vmc) == vmc_target_of(runtime_of(document.profiles@[active_index(*document)]))
            && opt_string_view(r.vrc_osc) == vrc_osc_target_of(runtime_of(document.profiles@[active_index(*document)])),
        active_index(*document) < 0 ==> r.vmc is None && r.vrc_osc is None,
{
    let index = match active_profile_index(document) {
        Some(i) => i,
        None => {
            return OutputTargetTexts { vmc: None, vrc_osc: None };
        },
    };
    let profile = &document.profiles[index];
    let empty_rt = ProfileRuntimeSettings::empty();
    let rt: &ProfileRuntimeSettings = match &profile.runtime_selection {
        Some(r) => r,
        None => &empty_rt,
    };
    let vmc_on = match rt.vmc_enabled {
        Some(v) => v,
        None => false,
    };
    let vrc_on = match rt.vrc_osc_enabled {
        Some(v) => v,
        None => false,
    };
    OutputTargetTexts {
        vmc: if vmc_on {
            Some(text_or_default(&rt.vmc_target_addr, "127.0.0.1:39539"))
        } else {
            None
        },
        vrc_osc: if vrc_on {
            Some(text_or_default(&rt.vrc_osc_target_addr, "127.0.0.1:9000"))
        } else {
            None
        },
    }
}

/// The index of the profile the runtime runs.
pub fn active_profile_index(document: &ProfileDocument) -> (r: Option<usize>)
    ensures
        match r {
            Some(i) => i as int == active_index(*document) && i < document.profiles@.len(),
            None => active_index(*document) == -1,
        },
{
    let id = chars_of(document.selected_profile_id.as_str());
    proof {
        lemma_position_bounds(document.profiles@, document.selected_profile_id@);
    }
    match find_profile(&document.profiles, &id) {
        Some(i) => Some(i),
        None => if document.profiles.len() > 0 {
            Some(0)
        } else {
            None
        },
    }
}

/// `s` trimmed and without trailing `/`.
fn zenoh_key_expr(value: &Option<String>) -> (r: String)
    ensures
        r@ == zenoh_key_expr_of(*value),
{
    match value {
        Some(v) => {
            let raw = chars_of(v.as_str());
            let t = trim_chars(&raw);
            let mut end: usize = t.len();
            assert(t@.take(end as int) =~= t@);
            while end > 0 && t[end - 1] == '/'
                invariant
                    end <= t.len(),
                    trim_end_char(t@, '/') == trim_end_char(t@.take(end as int), '/'),
                decreases end,
            {
                assert(t@.take(end as int).drop_last() =~= t@.take(end as int - 1));
                end = end - 1;
            }
            let kept = slice_chars(&t, 0, end);
            assert(kept@ =~= t@.take(end as int));
            if kept.len() == 0 {
                owned("un-motion/frame")
            } else {
                string_of(&kept)
            }
        },
        None => owned("un-motion/frame"),
    }
}

/// The Zenoh output of a selection, where it is on.
fn parse_zenoh_output_config(runtime: &ProfileRuntimeSettings, profile_id: &str, base: &ModifierConfig) -> (r: Option<
    CoreZenohOutputConfig,
>)
    ensures
        match r {
            Some(o) => flag_or(runtime.zenoh_enabled, false) && zenoh_output_of(o, *runtime, profile_id@, *base),
            None => !flag_or(runtime.zenoh_enabled, false),
        },
{
    let on = match runtime.zenoh_enabled {
        Some(v) => v,
        None => false,
    };
    if !on {
        return None;
    }
    let mode_name = text_or_default(&runtime.zenoh_topic_mode, "frame");
    let modifier = modifier_config_from_runtime(Some(runtime), base.copy());
    Some(CoreZenohOutputConfig {
        base_key_expr: zenoh_key_expr(&runtime.zenoh_key_expr),
        topic_mode: CoreZenohTopicMode::from_str(mode_name.as_str()),
        stream_id: Some(text_or_default(&runtime.zenoh_stream_id, profile_id)),
        producer: Some(text_or_default(&runtime.zenoh_producer, "un-motion-core")),
        modifier,
    })
}

/// The VRChat OSC output of a selection, where it is on.
fn parse_vrc_osc_output_config(
    runtime: &ProfileRuntimeSettings,
    vrc_addr: Option<BindAddress>,
    base: &ModifierConfig,
) -> (r: Result<Option<CoreVrcOscOutputConfig>, RuntimeConfigError>)
    ensures
        match r {
            Ok(Some(o)) => vrc_osc_target_of(*runtime) is Some && vrc_addr == Some(o.target_addr)
                && o.parameter_prefix@ == str_or(runtime.vrc_osc_parameter_prefix, ""@)
                && o.send_only_when_vrchat_running == flag_or(runtime.vrc_osc_send_only_when_vrchat_running, true)
                && o.process_poll_interval_secs == (if u64_or(runtime.vrc_osc_process_poll_interval_secs, 10) < 1 {
                    1
                } else if u64_or(runtime.vrc_osc_process_poll_interval_secs, 10) > 3600 {
                    3600
                } else {
                    u64_or(runtime.vrc_osc_process_poll_interval_secs, 10)
                })
                && modifier_from_runtime(o.modifier, *base, runtime.modifier),
            Ok(None) => vrc_osc_target_of(*runtime) is None,
            Err(e) => vrc_osc_target_of(*runtime) is Some && vrc_addr is None && (e matches RuntimeConfigError::InvalidVrcOscTarget { target }
                && Some(target@) == vrc_osc_target_of(*runtime)),
        },
{
    let on = match runtime.vrc_osc_enabled {
        Some(v) => v,
        None => false,
    };
    if !on {
        return Ok(None);
    }
    let target_addr = match vrc_addr {
        Some(a) => a,
        None => {
            return Err(
                RuntimeConfigError::InvalidVrcOscTarget {
                    target: text_or_default(&runtime.vrc_osc_target_addr, "127.0.0.1:9000"),
                },
            );
        },
    };
    let poll: u64 = match runtime.vrc_osc_process_poll_interval_secs {
        Some(v) => v,
        None => 10,
    };
    Ok(
        Some(
            CoreVrcOscOutputConfig {
                target_addr,
                parameter_prefix: text_or_default(&runtime.vrc_osc_parameter_prefix, ""),
                send_only_when_vrchat_running: match runtime.vrc_osc_send_only_when_vrchat_running {
                    Some(v) => v,
                    None => true,
                },
                process_poll_interval_secs: if poll < 1 {
                    1
                } else if poll > 3600 {
                    3600
                } else {
                    poll
                },
                modifier: modifier_config_from_runtime(Some(runtime), base.copy()),
            },
        ),
    )
}

/// The runtime configuration of a document's active profile: the selected
/// profile, else the first. `vmc_addr` and `vrc_addr` are the targets that
/// `output_target_texts` names read as socket addresses (`None` where one
/// does not read as one); `base` holds the runtime's modifier defaults.
pub fn core_runtime_config_from_document(
    document: &ProfileDocument,
    vmc_addr: Option<BindAddress>,
    vrc_addr: Option<BindAddress>,
    base: &ModifierConfig,
    windows: bool,
    settings_ffmpeg_path: &Option<String>,
) -> (r: Result<CoreRuntimeConfig, RuntimeConfigError>)
    ensures
        match r {
            Ok(c) => active_index(*document) >= 0 && runtime_config_of(
                c,
                *document,
                vmc_addr,
                vrc_addr,
                *base,
                windows,
                *settings_ffmpeg_path,
            ),
            Err(RuntimeConfigError::NoProfiles) => active_index(*document) < 0,
            Err(RuntimeConfigError::InvalidVmcTarget { target }) => active_index(*document) >= 0
                && vmc_addr is None
                && vmc_target_of(runtime_of(document.profiles@[active_index(*document)])) == Some(target@),
            Err(RuntimeConfigError::InvalidVrcOscTarget { target }) => active_index(*document) >= 0
                && (vmc_target_of(runtime_of(document.profiles@[active_index(*document)])) is Some ==> vmc_addr is Some)
                && vrc_addr is None
                && vrc_osc_target_of(runtime_of(document.profiles@[active_index(*document)])) == Some(target@),
        },
{
    let index = match active_profile_index(document) {
        Some(i) => i,
        None => {
            return Err(RuntimeConfigError::NoProfiles);
        },
    };
    let profile = &document.profiles[index];
    let empty_rt = ProfileRuntimeSettings::empty();
    let rt: &ProfileRuntimeSettings = match &profile.runtime_selection {
        Some(r) => r,
        None => &empty_rt,
    };
    assert(*rt == runtime_of(*profile));
    let frame_streams = core_frame_stream_configs(profile, &document.profile_sources, windows, settings_ffmpeg_path);
    let fps_choice: u32 = match rt.fps {
        Some(v) => v,
        None => FOLLOW_INPUT_OUTPUT_FPS_CAP,
    };
    let fps = clamp_fps(fps_choice);
    let vmc_on = match rt.vmc_enabled {
        Some(v) => v,
        None => false,
    };
    let vmc_output = if vmc_on {
        match vmc_addr {
            Some(a) => Some(
                CoreVmcOutputConfig {
                    target_addr: a,
                    modifier: modifier_config_from_runtime(Some(rt), base.copy()),
                },
            ),
            None => {
                return Err(
                    RuntimeConfigError::InvalidVmcTarget {
                        target: text_or_default(&rt.vmc_target_addr, "127.0.0.1:39539"),
                    },
                );
            },
        }
    } else {
        None
    };
    let vrc_osc_output = match parse_vrc_osc_output_config(rt, vrc_addr, base) {
        Ok(o) => o,
        Err(e) => {
            return Err(e);
        },
    };
    let zenoh_output = parse_zenoh_output_config(rt, profile.id.as_str(), base);
    Ok(
        CoreRuntimeConfig {
            active_profile_id: owned(profile.id.as_str()),
            fps,
            vmc_output,
            vrc_osc_output,
            zenoh_output,
            frame_streams,
        },
    )
}

/// The modifier a captured frame is shown through: the Zenoh output's, else
/// the VMC output's, else the runtime's defaults.
pub fn capture_unmotion_frame_modifier<'a>(config: &'a CoreRuntimeConfig, defaults: &'a ModifierConfig) -> (r: &'a ModifierConfig)
    ensures
        *r == match config.zenoh_output {
            Some(o) => o.modifier,
            None => match config.vmc_output {
                Some(o) => o.modifier,
                None => *defaults,
            },
        },
{
    match &config.zenoh_output {
        Some(o) => &o.modifier,
        None => match &config.vmc_output {
            Some(o) => &o.modifier,
            None => defaults,
        },
    }
}

/// Whether a bone keeps a neutral offset after calibration: only the root and
/// the head, whose rotations are stable references, not pose output.
pub open spec fn neutral_key_enabled(key: Seq<char>) -> bool {
    key == "Root"@ || key == "Head"@
}

/// Whether a bone keeps a neutral offset after calibration.
pub fn neutral_calibration_key_enabled(key: &str) -> (r: bool)
    ensures
        r == neutral_key_enabled(key@),
{
    let k = chars_of(key);
    chars_eq_str(&k, "Root") || chars_eq_str(&k, "Head")
}

/// Whether a bone keeps its live rotation under a U or I pose calibration:
/// the shoulders and upper arms.
pub open spec fn preserves_live_rotation(key: Seq<char>) -> bool {
    key == "LeftShoulder"@ || key == "LeftUpperArm"@ || key == "RightShoulder"@ || key == "RightUpperArm"@
}

/// Whether a bone keeps its live rotation under a U or I pose calibration.
pub fn neutral_calibration_preserve_live_rotation_for_key(key: &str) -> (r: bool)
    ensures
        r == preserves_live_rotation(key@),
{
    let k = chars_of(key);
    chars_eq_str(&k, "LeftShoulder") || chars_eq_str(&k, "LeftUpperArm") || chars_eq_str(&k, "RightShoulder")
        || chars_eq_str(&k, "RightUpperArm")
}

/// Every stream of a profile reads at `1..=240` frames per second.
pub proof fn lemma_frame_streams_fps_bounded(
    streams: Seq<CoreMotionFrameStreamConfig>,
    profile: DocumentProfile,
    sources: Seq<DocumentSource>,
    windows: bool,
    settings_ffmpeg_path: Option<String>,
)
    requires
        frame_streams_of(streams, profile, sources, windows, settings_ffmpeg_path),
    ensures
        forall|i: int| 0 <= i < streams.len() ==> 1 <= #[trigger] streams[i].input_fps <= MAX_FPS,
{
    let ids = stream_ids_of(profile, sources);
    let rt = match profile.runtime_selection {
        Some(r) => r,
        None => ProfileRuntimeSettings::spec_empty(),
    };
    let p = match profile.pipeline_components {
        Some(x) => x,
        None => ProfilePipelineComponents::spec_empty(),
    };
    let modifier = match profile.runtime_selection {
        Some(r) => r.modifier,
        None => None,
    };
    assert(streams.len() == ids.len());
    assert forall|i: int| 0 <= i < streams.len() implies 1 <= #[trigger] streams[i].input_fps <= MAX_FPS by {
        assert(0 <= i < ids.len());
        assert(frame_stream_of(streams[i], ids[i], rt, p, modifier, windows, settings_ffmpeg_path));
    }
}

} // verus!
