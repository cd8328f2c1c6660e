//! The profile as the console's settings form shows it: each block
//! flattened into optional values, with the defaults the form displays.
use vstd::prelude::*;

use crate::float_bits::F32Bits;
use crate::profile_schema::{
    copy_opt_string, DocumentProfile, ProfileFacePoseModelSettings, ProfileModifierSettings, ProfilePipelineComponents,
    ProfilePostProcessRules, ProfileRuntimeSettings,
};
use crate::runtime_choices::{denoise_mode_of, opt_view};
use crate::supervisor::{legacy_hz_of, profile_view_input_denoise_legacy_hz, profile_view_input_denoise_mode};
use crate::text::{chars_of, owned, trim, trim_chars};

verus! {

/// A modifier block, or one that sets nothing.
pub open spec fn modifier_or_empty(m: Option<ProfileModifierSettings>) -> ProfileModifierSettings {
    match m {
        Some(m) => m,
        None => ProfileModifierSettings::spec_empty(),
    }
}

/// A face pose model block, or one that sets nothing.
pub open spec fn face_pose_model_or_empty(f: Option<ProfileFacePoseModelSettings>) -> ProfileFacePoseModelSettings {
    match f {
        Some(f) => f,
        None => ProfileFacePoseModelSettings::spec_empty(),
    }
}

/// A post-process rules block, or one that sets nothing.
pub open spec fn rules_block_or_empty(r: Option<ProfilePostProcessRules>) -> ProfilePostProcessRules {
    match r {
        Some(r) => r,
        None => ProfilePostProcessRules::spec_empty(),
    }
}

/// A runtime selection as the console's profile form shows it: every
/// setting flattened, the neutral rotations by their count.
#[derive(Clone, Debug, PartialEq)]
pub struct ProfileRuntimeView {
    pub fps: Option<u32>,
    pub vmc_enabled: Option<bool>,
    pub vmc_target_addr: Option<String>,
    pub zenoh_enabled: Option<bool>,
    pub zenoh_key_expr: Option<String>,
    pub zenoh_topic_mode: Option<String>,
    pub zenoh_stream_id: Option<String>,
    pub zenoh_producer: Option<String>,
    pub engine: Option<String>,
    pub device: Option<String>,
    pub resolution: Option<String>,
    pub media_pipe_running_mode: Option<String>,
    pub media_pipe_holistic_enabled: Option<bool>,
    pub media_pipe_delegate: Option<String>,
    pub media_pipe_num_threads: Option<u32>,
    pub media_pipe_holistic_flow_limiter_enabled: Option<bool>,
    pub media_pipe_holistic_flow_limiter_max_in_flight: Option<u32>,
    pub media_pipe_holistic_flow_limiter_max_in_queue: Option<u32>,
    pub vmc_receive_listen_addr: Option<String>,
    pub ifacialmocap_receive_listen_addr: Option<String>,
    pub modifier_head_enabled: Option<bool>,
    pub modifier_face_enabled: Option<bool>,
    pub modifier_hands_enabled: Option<bool>,
    pub modifier_arms_ik_enabled: Option<bool>,
    pub modifier_torso_enabled: Option<bool>,
    pub modifier_legs_enabled: Option<bool>,
    pub modifier_feet_enabled: Option<bool>,
    pub modifier_torso_pitch_scale: Option<F32Bits>,
    pub modifier_neutral_calibration_enabled: Option<bool>,
    pub modifier_neutral_calibration_sample_count: Option<usize>,
    pub modifier_neutral_calibration_pose: Option<String>,
    pub modifier_mirror_mode: Option<String>,
    pub modifier_eye_open_bias: Option<F32Bits>,
    pub modifier_smoothing_preset: Option<String>,
    pub modifier_smoothing_ema_enabled: Option<bool>,
    pub modifier_smoothing_ema_alpha: Option<F32Bits>,
    pub modifier_smoothing_one_euro_enabled: Option<bool>,
    pub modifier_smoothing_confidence_adaptive_cutoff: Option<bool>,
    pub modifier_adaptive_min_cutoff_hz: Option<F32Bits>,
    pub modifier_adaptive_beta: Option<F32Bits>,
    pub modifier_adaptive_derivative_cutoff_hz: Option<F32Bits>,
    pub modifier_face_pose_model_enabled: Option<bool>,
    pub modifier_face_pose_model_neutral_nose_drop_eye_mouth: Option<F32Bits>,
    pub modifier_face_pose_model_sample_count: Option<u32>,
    pub modifier_anatomical_constraints: Option<bool>,
    pub modifier_hold_lost_landmarks: Option<bool>,
    pub modifier_ease_recovery: Option<bool>,
    pub modifier_limit_rotation_jumps: Option<bool>,
    pub modifier_head_source_switch_blend: Option<bool>,
    pub modifier_head_from_face_matrix: Option<bool>,
    pub modifier_lost_signal_behavior: Option<String>,
    pub modifier_lost_signal_rest_pose_blend: Option<F32Bits>,
    pub modifier_lost_signal_hold_seconds: Option<F32Bits>,
    pub modifier_lost_signal_head_behavior: Option<String>,
    pub modifier_lost_signal_head_rest_pose_blend: Option<F32Bits>,
    pub modifier_lost_signal_head_hold_seconds: Option<F32Bits>,
    pub modifier_lost_signal_hands_behavior: Option<String>,
    pub modifier_lost_signal_hands_rest_pose_blend: Option<F32Bits>,
    pub modifier_lost_signal_hands_hold_seconds: Option<F32Bits>,
    pub modifier_lost_signal_arms_behavior: Option<String>,
    pub modifier_lost_signal_arms_rest_pose_blend: Option<F32Bits>,
    pub modifier_lost_signal_arms_hold_seconds: Option<F32Bits>,
    pub modifier_lost_signal_recovery_seconds: Option<F32Bits>,
}

/// Whether `v` shows the runtime selection `s`.
pub open spec fn runtime_view_of(v: ProfileRuntimeView, s: ProfileRuntimeSettings) -> bool {
    let m = modifier_or_empty(s.modifier);
    let fpm = face_pose_model_or_empty(m.face_pose_model);
    let rules = rules_block_or_empty(m.post_process_rules);
    &&& v.fps == s.fps
    &&& v.vmc_enabled == s.vmc_enabled
    &&& v.vmc_target_addr == s.vmc_target_addr
    &&& v.zenoh_enabled == s.zenoh_enabled
    &&& v.zenoh_key_expr == s.zenoh_key_expr
    &&& v.zenoh_topic_mode == s.zenoh_topic_mode
    &&& v.zenoh_stream_id == s.zenoh_stream_id
    &&& v.zenoh_producer == s.zenoh_producer
    &&& v.engine == s.engine
    &&& v.device == s.device
    &&& v.resolution == s.resolution
    &&& v.media_pipe_running_mode == s.media_pipe_running_mode
    &&& v.media_pipe_holistic_enabled == s.media_pipe_holistic_enabled
    &&& v.media_pipe_delegate == s.media_pipe_delegate
    &&& v.media_pipe_num_threads == s.media_pipe_num_threads
    &&& v.media_pipe_holistic_flow_limiter_enabled == s.media_pipe_holistic_flow_limiter_enabled
    &&& v.media_pipe_holistic_flow_limiter_max_in_flight == s.media_pipe_holistic_flow_limiter_max_in_flight
    &&& v.media_pipe_holistic_flow_limiter_max_in_queue == s.media_pipe_holistic_flow_limiter_max_in_queue
    &&& v.vmc_receive_listen_addr == s.vmc_receive_listen_addr
    &&& v.ifacialmocap_receive_listen_addr == s.ifacialmocap_receive_listen_addr
    &&& v.modifier_head_enabled == m.head_enabled
    &&& v.modifier_face_enabled == m.face_enabled
    &&& v.modifier_hands_enabled == m.hands_enabled
    &&& v.modifier_arms_ik_enabled == m.arms_ik_enabled
    &&& v.modifier_torso_enabled == m.torso_enabled
    &&& v.modifier_legs_enabled == m.legs_enabled
    &&& v.modifier_feet_enabled == m.feet_enabled
    &&& v.modifier_torso_pitch_scale == m.torso_pitch_scale
    &&& v.modifier_neutral_calibration_enabled == m.neutral_calibration_enabled
    &&& v.modifier_neutral_calibration_sample_count == match m.neutral_calibration_rotations {
        Some(r) => Some(r@.len() as usize),
        None => None,
    }
    &&& v.modifier_neutral_calibration_pose == m.neutral_calibration_pose
    &&& v.modifier_mirror_mode == m.mirror_mode
    &&& v.modifier_eye_open_bias == m.eye_open_bias
    &&& v.modifier_smoothing_preset == m.smoothing_preset
    &&& v.modifier_smoothing_ema_enabled == m.smoothing_ema_enabled
    &&& v.modifier_smoothing_ema_alpha == m.smoothing_ema_alpha
    &&& v.modifier_smoothing_one_euro_enabled == m.smoothing_one_euro_enabled
    &&& v.modifier_smoothing_confidence_adaptive_cutoff == m.smoothing_confidence_adaptive_cutoff
    &&& v.modifier_adaptive_min_cutoff_hz == m.adaptive_min_cutoff_hz
    &&& v.modifier_adaptive_beta == m.adaptive_beta
    &&& v.modifier_adaptive_derivative_cutoff_hz == m.adaptive_derivative_cutoff_hz
    &&& v.modifier_face_pose_model_enabled == fpm.enabled
    &&& v.modifier_face_pose_model_neutral_nose_drop_eye_mouth == fpm.neutral_nose_drop_eye_mouth
    &&& v.modifier_face_pose_model_sample_count == fpm.sample_count
    &&& v.modifier_anatomical_constraints == rules.anatomical_constraints
    &&& v.modifier_hold_lost_landmarks == rules.hold_lost_landmarks
    &&& v.modifier_ease_recovery == rules.ease_recovery
    &&& v.modifier_limit_rotation_jumps == rules.limit_rotation_jumps
    &&& v.modifier_head_source_switch_blend == rules.head_source_switch_blend
    &&& v.modifier_head_from_face_matrix == rules.head_from_face_matrix
    &&& v.modifier_lost_signal_behavior == rules.lost_signal_behavior
    &&& v.modifier_lost_signal_rest_pose_blend == rules.lost_signal_rest_pose_blend
    &&& v.modifier_lost_signal_hold_seconds == rules.lost_signal_hold_seconds
    &&& v.modifier_lost_signal_head_behavior == rules.lost_signal_head_behavior
    &&& v.modifier_lost_signal_head_rest_pose_blend == rules.lost_signal_head_rest_pose_blend
    &&& v.modifier_lost_signal_head_hold_seconds == rules.lost_signal_head_hold_seconds
    &&& v.modifier_lost_signal_hands_behavior == rules.lost_signal_hands_behavior
    &&& v.modifier_lost_signal_hands_rest_pose_blend == rules.lost_signal_hands_rest_pose_blend
    &&& v.modifier_lost_signal_hands_hold_seconds == rules.lost_signal_hands_hold_seconds
    &&& v.modifier_lost_signal_arms_behavior == rules.lost_signal_arms_behavior
    &&& v.modifier_lost_signal_arms_rest_pose_blend == rules.lost_signal_arms_rest_pose_blend
    &&& v.modifier_lost_signal_arms_hold_seconds == rules.lost_signal_arms_hold_seconds
    &&& v.modifier_lost_signal_recovery_seconds == rules.lost_signal_recovery_seconds
}

impl ProfileRuntimeView {
    /// The view of a runtime selection.
    pub fn from_settings(settings: &ProfileRuntimeSettings) -> (r: Self)
        ensures
            runtime_view_of(r, *settings),
    {
        let empty_m = ProfileModifierSettings::empty();
        let empty_f = ProfileFacePoseModelSettings::empty();
        let empty_r = ProfilePostProcessRules::empty();
        let m: &ProfileModifierSettings = match &settings.modifier {
            Some(m) => m,
            None => &empty_m,
        };
        let fpm: &ProfileFacePoseModelSettings = match &m.face_pose_model {
            Some(f) => f,
            None => &empty_f,
        };
        let rules: &ProfilePostProcessRules = match &m.post_process_rules {
            Some(r) => r,
            None => &empty_r,
        };
        ProfileRuntimeView {
            fps: settings.fps,
            vmc_enabled: settings.vmc_enabled,
            vmc_target_addr: copy_opt_string(&settings.vmc_target_addr),
            zenoh_enabled: settings.zenoh_enabled,
            zenoh_key_expr: copy_opt_string(&settings.zenoh_key_expr),
            zenoh_topic_mode: copy_opt_string(&settings.zenoh_topic_mode),
            zenoh_stream_id: copy_opt_string(&settings.zenoh_stream_id),
            zenoh_producer: copy_opt_string(&settings.zenoh_producer),
            engine: copy_opt_string(&settings.engine),
            device: copy_opt_string(&settings.device),
            resolution: copy_opt_string(&settings.resolution),
            media_pipe_running_mode: copy_opt_string(&settings.media_pipe_running_mode),
            media_pipe_holistic_enabled: settings.media_pipe_holistic_enabled,
            media_pipe_delegate: copy_opt_string(&settings.media_pipe_delegate),
            media_pipe_num_threads: settings.media_pipe_num_threads,
            media_pipe_holistic_flow_limiter_enabled: settings.media_pipe_holistic_flow_limiter_enabled,
            media_pipe_holistic_flow_limiter_max_in_flight: settings.media_pipe_holistic_flow_limiter_max_in_flight,
            media_pipe_holistic_flow_limiter_max_in_queue: settings.media_pipe_holistic_flow_limiter_max_in_queue,
            vmc_receive_listen_addr: copy_opt_string(&settings.vmc_receive_listen_addr),
            ifacialmocap_receive_listen_addr: copy_opt_string(&settings.ifacialmocap_receive_listen_addr),
            modifier_head_enabled: m.head_enabled,
            modifier_face_enabled: m.face_enabled,
            modifier_hands_enabled: m.hands_enabled,
            modifier_arms_ik_enabled: m.arms_ik_enabled,
            modifier_torso_enabled: m.torso_enabled,
            modifier_legs_enabled: m.legs_enabled,
            modifier_feet_enabled: m.feet_enabled,
            modifier_torso_pitch_scale: m.torso_pitch_scale,
            modifier_neutral_calibration_enabled: m.neutral_calibration_enabled,
            modifier_neutral_calibration_sample_count: match &m.neutral_calibration_rotations {
                Some(r) => Some(r.len()),
                None => None,
            },
            modifier_neutral_calibration_pose: copy_opt_string(&m.neutral_calibration_pose),
            modifier_mirror_mode: copy_opt_string(&m.mirror_mode),
            modifier_eye_open_bias: m.eye_open_bias,
            modifier_smoothing_preset: copy_opt_string(&m.smoothing_preset),
            modifier_smoothing_ema_enabled: m.smoothing_ema_enabled,
            modifier_smoothing_ema_alpha: m.smoothing_ema_alpha,
            modifier_smoothing_one_euro_enabled: m.smoothing_one_euro_enabled,
            modifier_smoothing_confidence_adaptive_cutoff: m.smoothing_confidence_adaptive_cutoff,
            modifier_adaptive_min_cutoff_hz: m.adaptive_min_cutoff_hz,
            modifier_adaptive_beta: m.adaptive_beta,
            modifier_adaptive_derivative_cutoff_hz: m.adaptive_derivative_cutoff_hz,
            modifier_face_pose_model_enabled: fpm.enabled,
            modifier_face_pose_model_neutral_nose_drop_eye_mouth: fpm.neutral_nose_drop_eye_mouth,
            modifier_face_pose_model_sample_count: fpm.sample_count,
            modifier_anatomical_constraints: rules.anatomical_constraints,
            modifier_hold_lost_landmarks: rules.hold_lost_landmarks,
            modifier_ease_recovery: rules.ease_recovery,
            modifier_limit_rotation_jumps: rules.limit_rotation_jumps,
            modifier_head_source_switch_blend: rules.head_source_switch_blend,
            modifier_head_from_face_matrix: rules.head_from_face_matrix,
            modifier_lost_signal_behavior: copy_opt_string(&rules.lost_signal_behavior),
            modifier_lost_signal_rest_pose_blend: rules.lost_signal_rest_pose_blend,
            modifier_lost_signal_hold_seconds: rules.lost_signal_hold_seconds,
            modifier_lost_signal_head_behavior: copy_opt_string(&rules.lost_signal_head_behavior),
            modifier_lost_signal_head_rest_pose_blend: rules.lost_signal_head_rest_pose_blend,
            modifier_lost_signal_head_hold_seconds: rules.lost_signal_head_hold_seconds,
            modifier_lost_signal_hands_behavior: copy_opt_string(&rules.lost_signal_hands_behavior),
            modifier_lost_signal_hands_rest_pose_blend: rules.lost_signal_hands_rest_pose_blend,
            modifier_lost_signal_hands_hold_seconds: rules.lost_signal_hands_hold_seconds,
            modifier_lost_signal_arms_behavior: copy_opt_string(&rules.lost_signal_arms_behavior),
            modifier_lost_signal_arms_rest_pose_blend: rules.lost_signal_arms_rest_pose_blend,
            modifier_lost_signal_arms_hold_seconds: rules.lost_signal_arms_hold_seconds,
            modifier_lost_signal_recovery_seconds: rules.lost_signal_recovery_seconds,
        }
    }
}


/// Pipeline components as the console's profile form shows them: the
/// denoise mode always named, and an old mode name's frequency where no
/// explicit one is set.
#[derive(Clone, Debug, PartialEq)]
pub struct ProfilePipelineView {
    pub engine: Option<String>,
    pub input: Option<String>,
    pub post_process: Option<String>,
    pub input_path: Option<String>,
    pub input_fps: Option<u32>,
    pub input_width: Option<u32>,
    pub input_height: Option<u32>,
    pub input_pixel_format: Option<String>,
    pub input_repeat: Option<bool>,
    pub input_ffmpeg_path: Option<String>,
    pub input_denoise_mode: Option<String>,
    pub input_denoise_temporal_iir_hz: Option<F32Bits>,
    pub input_resize_enabled: Option<bool>,
    pub input_resize_axis: Option<String>,
    pub input_resize_reference: Option<u32>,
    pub input_resize_width: Option<u32>,
    pub input_resize_height: Option<u32>,
    pub input_resize_preserve_aspect: Option<bool>,
    pub input_resize_pad_color: Option<String>,
}

/// Whether `v` shows the pipeline components `c`.
pub open spec fn pipeline_view_of(v: ProfilePipelineView, c: ProfilePipelineComponents) -> bool {
    let mode = match c.input_denoise_mode {
        Some(m) => Some(m@),
        None => None,
    };
    &&& v.engine == c.engine
    &&& v.input == c.input
    &&& v.post_process == c.post_process
    &&& v.input_path == c.input_path
    &&& v.input_fps == c.input_fps
    &&& v.input_width == c.input_width
    &&& v.input_height == c.input_height
    &&& v.input_pixel_format == c.input_pixel_format
    &&& v.input_repeat == c.input_repeat
    &&& v.input_ffmpeg_path == c.input_ffmpeg_path
    &&& v.input_denoise_mode matches Some(m) && m@ == denoise_mode_of(mode)
    &&& v.input_denoise_temporal_iir_hz == match c.input_denoise_temporal_iir_hz {
        Some(hz) => Some(hz),
        None => match legacy_hz_of(mode) {
            Some(bits) => Some(F32Bits(bits)),
            None => None,
        },
    }
    &&& v.input_resize_enabled == c.input_resize_enabled
    &&& v.input_resize_axis == c.input_resize_axis
    &&& v.input_resize_reference == c.input_resize_reference
    &&& v.input_resize_width == c.input_resize_width
    &&& v.input_resize_height == c.input_resize_height
    &&& v.input_resize_preserve_aspect == c.input_resize_preserve_aspect
    &&& v.input_resize_pad_color == c.input_resize_pad_color
}

impl ProfilePipelineView {
    /// The view of pipeline components.
    pub fn from_components(components: &ProfilePipelineComponents) -> (r: Self)
        ensures
            pipeline_view_of(r, *components),
    {
        let mode: Option<&str> = match &components.input_denoise_mode {
            Some(m) => Some(m.as_str()),
            None => None,
        };
        let input_denoise_temporal_iir_hz = match components.input_denoise_temporal_iir_hz {
            Some(hz) => Some(hz),
            None => profile_view_input_denoise_legacy_hz(mode),
        };
        ProfilePipelineView {
            engine: copy_opt_string(&components.engine),
            input: copy_opt_string(&components.input),
            post_process: copy_opt_string(&components.post_process),
            input_path: copy_opt_string(&components.input_path),
            input_fps: components.input_fps,
            input_width: components.input_width,
            input_height: components.input_height,
            input_pixel_format: copy_opt_string(&components.input_pixel_format),
            input_repeat: components.input_repeat,
            input_ffmpeg_path: copy_opt_string(&components.input_ffmpeg_path),
            input_denoise_mode: profile_view_input_denoise_mode(mode),
            input_denoise_temporal_iir_hz,
            input_resize_enabled: components.input_resize_enabled,
            input_resize_axis: copy_opt_string(&components.input_resize_axis),
            input_resize_reference: components.input_resize_reference,
            input_resize_width: components.input_resize_width,
            input_resize_height: components.input_resize_height,
            input_resize_preserve_aspect: components.input_resize_preserve_aspect,
            input_resize_pad_color: copy_opt_string(&components.input_resize_pad_color),
        }
    }
}

/// A profile as the console's detail pane shows it.
#[derive(Clone, Debug, PartialEq)]
pub struct ProfileDetail {
    pub id: String,
    pub name: String,
    pub note: String,
    /// Where the profile is stored.
    pub path: String,
    pub icon_path: Option<String>,
    pub group: String,
    pub runtime: ProfileRuntimeView,
    pub pipeline: ProfilePipelineView,
}

/// Whether an optional text is absent or blank.
pub open spec fn blank(o: Option<String>) -> bool {
    match o {
        Some(s) => trim(s@).len() == 0,
        None => true,
    }
}

/// Whether `d` shows the profile `p` stored at `path`; `engine_summary` is
/// the engine the profile's settings amount to, shown where the runtime
/// selection names none, else `mediapipe-native`.
pub open spec fn profile_detail_of(d: ProfileDetail, p: DocumentProfile, path: Seq<char>, engine_summary: Option<String>) -> bool {
    let rt = match p.runtime_selection {
        Some(r) => r,
        None => ProfileRuntimeSettings::spec_empty(),
    };
    let pc = match p.pipeline_components {
        Some(c) => c,
        None => ProfilePipelineComponents::spec_empty(),
    };
    &&& d.id == p.id
    &&& d.name == p.name
    &&& d.note == p.note
    &&& d.path@ == path
    &&& d.icon_path == p.icon_path
    &&& d.group == p.group
    &&& runtime_view_of(ProfileRuntimeView { engine: rt.engine, ..d.runtime }, rt)
    &&& text_view(d.runtime.engine) == if blank(rt.engine) {
        match engine_summary {
            Some(e) => Some(e@),
            None => Some("mediapipe-native"@),
        }
    } else {
        text_view(rt.engine)
    }
    &&& pipeline_view_of(d.pipeline, pc)
}

/// The view of an optional text.
pub open spec fn text_view(o: Option<String>) -> Option<Seq<char>> {
    match o {
        Some(s) => Some(s@),
        None => None,
    }
}

impl ProfileDetail {
    /// The detail of a profile stored at `path`, with `engine_summary` the
    /// engine its settings amount to.
    pub fn from_profile(profile: &DocumentProfile, path: String, engine_summary: Option<String>) -> (r: Self)
        ensures
            profile_detail_of(r, *profile, path@, engine_summary),
    {
        let empty_rt = ProfileRuntimeSettings::empty();
        let empty_pc = ProfilePipelineComponents::empty();
        let rt: &ProfileRuntimeSettings = match &profile.runtime_selection {
            Some(r) => r,
            None => &empty_rt,
        };
        let pc: &ProfilePipelineComponents = match &profile.pipeline_components {
            Some(c) => c,
            None => &empty_pc,
        };
        let mut runtime = ProfileRuntimeView::from_settings(rt);
        let engine_blank = match &runtime.engine {
            Some(e) => {
                let v = chars_of(e.as_str());
                let t = trim_chars(&v);
                t.len() == 0
            },
            None => true,
        };
        if engine_blank {
            runtime.engine = match engine_summary {
                Some(e) => Some(e),
                None => Some(owned("mediapipe-native")),
            };
        }
        ProfileDetail {
            id: profile.id.clone(),
            name: profile.name.clone(),
            note: profile.note.clone(),
            path,
            icon_path: copy_opt_string(&profile.icon_path),
            group: profile.group.clone(),
            runtime,
            pipeline: ProfilePipelineView::from_components(pc),
        }
    }
}

} // verus!
