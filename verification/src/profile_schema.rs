//! The profile document: the profiles a user keeps, each with its runtime
//! selection and pipeline components, and the extra motion sources bound to
//! them. Every setting is optional; an absent one means the runtime default.
use vstd::prelude::*;

use crate::float_bits::F32Bits;

verus! {

/// Input stage choices of a profile.
#[derive(Clone, Debug, PartialEq)]
pub struct ProfilePipelineComponents {
    pub engine: Option<String>,
    pub input: Option<String>,
    pub post_process: Option<String>,
    pub input_path: Option<String>,
    pub input_fps: Option<u32>,
    pub input_width: Option<u32>,
    pub input_height: Option<u32>,
    pub input_pixel_format: Option<String>,
    pub input_repeat: Option<bool>,
    pub input_ffmpeg_path: Option<String>,
    pub input_denoise_mode: Option<String>,
    pub input_denoise_temporal_iir_hz: Option<F32Bits>,
    pub input_resize_enabled: Option<bool>,
    pub input_resize_axis: Option<String>,
    pub input_resize_reference: Option<u32>,
    pub input_resize_width: Option<u32>,
    pub input_resize_height: Option<u32>,
    pub input_resize_preserve_aspect: Option<bool>,
    pub input_resize_pad_color: Option<String>,
}

impl ProfilePipelineComponents {
    /// Whether no component is chosen.
    pub open spec fn is_empty(self) -> bool {
        &&& self.engine is None
        &&& self.input is None
        &&& self.post_process is None
        &&& self.input_path is None
        &&& self.input_fps is None
        &&& self.input_width is None
        &&& self.input_height is None
        &&& self.input_pixel_format is None
        &&& self.input_repeat is None
        &&& self.input_ffmpeg_path is None
        &&& self.input_denoise_mode is None
        &&& self.input_denoise_temporal_iir_hz is None
        &&& self.input_resize_enabled is None
        &&& self.input_resize_axis is None
        &&& self.input_resize_reference is None
        &&& self.input_resize_width is None
        &&& self.input_resize_height is None
        &&& self.input_resize_preserve_aspect is None
        &&& self.input_resize_pad_color is None
    }

    pub open spec fn spec_empty() -> Self {
        ProfilePipelineComponents {
            engine: None,
            input: None,
            post_process: None,
            input_path: None,
            input_fps: None,
            input_width: None,
            input_height: None,
            input_pixel_format: None,
            input_repeat: None,
            input_ffmpeg_path: None,
            input_denoise_mode: None,
            input_denoise_temporal_iir_hz: None,
            input_resize_enabled: None,
            input_resize_axis: None,
            input_resize_reference: None,
            input_resize_width: None,
            input_resize_height: None,
            input_resize_preserve_aspect: None,
            input_resize_pad_color: None,
        }
    }

    pub fn empty() -> (r: Self)
        ensures
            r.is_empty(),
            r == Self::spec_empty(),
    {
        ProfilePipelineComponents {
            engine: None,
            input: None,
            post_process: None,
            input_path: None,
            input_fps: None,
            input_width: None,
            input_height: None,
            input_pixel_format: None,
            input_repeat: None,
            input_ffmpeg_path: None,
            input_denoise_mode: None,
            input_denoise_temporal_iir_hz: None,
            input_resize_enabled: None,
            input_resize_axis: None,
            input_resize_reference: None,
            input_resize_width: None,
            input_resize_height: None,
            input_resize_preserve_aspect: None,
            input_resize_pad_color: None,
        }
    }

    pub fn check_empty(&self) -> (r: bool)
        ensures
            r == self.is_empty(),
    {
        self.engine.is_none() && self.input.is_none() && self.post_process.is_none()
            && self.input_path.is_none() && self.input_fps.is_none() && self.input_width.is_none()
            && self.input_height.is_none() && self.input_pixel_format.is_none()
            && self.input_repeat.is_none() && self.input_ffmpeg_path.is_none()
            && self.input_denoise_mode.is_none() && self.input_denoise_temporal_iir_hz.is_none()
            && self.input_resize_enabled.is_none() && self.input_resize_axis.is_none()
            && self.input_resize_reference.is_none() && self.input_resize_width.is_none()
            && self.input_resize_height.is_none() && self.input_resize_preserve_aspect.is_none()
            && self.input_resize_pad_color.is_none()
    }
}

/// Post-process rules a profile overrides.
#[derive(Clone, Debug, PartialEq)]
pub struct ProfilePostProcessRules {
    pub anatomical_constraints: Option<bool>,
    pub hold_lost_landmarks: Option<bool>,
    pub ease_recovery: Option<bool>,
    pub limit_rotation_jumps: Option<bool>,
    pub head_source_switch_blend: Option<bool>,
    pub lost_signal_behavior: Option<String>,
    pub lost_signal_rest_pose_blend: Option<F32Bits>,
    pub lost_signal_hold_seconds: Option<F32Bits>,
    pub lost_signal_head_behavior: Option<String>,
    pub lost_signal_head_rest_pose_blend: Option<F32Bits>,
    pub lost_signal_head_hold_seconds: Option<F32Bits>,
    pub lost_signal_hands_behavior: Option<String>,
    pub lost_signal_hands_rest_pose_blend: Option<F32Bits>,
    pub lost_signal_hands_hold_seconds: Option<F32Bits>,
    pub lost_signal_arms_behavior: Option<String>,
    pub lost_signal_arms_rest_pose_blend: Option<F32Bits>,
    pub lost_signal_arms_hold_seconds: Option<F32Bits>,
    pub lost_signal_recovery_seconds: Option<F32Bits>,
    pub head_from_pose: Option<bool>,
    pub head_from_face_matrix: Option<bool>,
    pub head_reconcile: Option<bool>,
    pub neutral_eye_fallback: Option<bool>,
    pub hand_camera_target: Option<bool>,
    pub hand_orientation: Option<bool>,
    pub finger_derived: Option<bool>,
    pub arm_from_pose: Option<bool>,
    pub arm_ik_from_hands: Option<bool>,
    pub crossed_hand_heuristic: Option<bool>,
    pub coordinate_correction: Option<bool>,
    pub final_clamp: Option<bool>,
}

impl ProfilePostProcessRules {
    pub open spec fn is_empty(self) -> bool {
        &&& self.anatomical_constraints is None
        &&& self.hold_lost_landmarks is None
        &&& self.ease_recovery is None
        &&& self.limit_rotation_jumps is None
        &&& self.head_source_switch_blend is None
        &&& self.lost_signal_behavior is None
        &&& self.lost_signal_rest_pose_blend is None
        &&& self.lost_signal_hold_seconds is None
        &&& self.lost_signal_head_behavior is None
        &&& self.lost_signal_head_rest_pose_blend is None
        &&& self.lost_signal_head_hold_seconds is None
        &&& self.lost_signal_hands_behavior is None
        &&& self.lost_signal_hands_rest_pose_blend is None
        &&& self.lost_signal_hands_hold_seconds is None
        &&& self.lost_signal_arms_behavior is None
        &&& self.lost_signal_arms_rest_pose_blend is None
        &&& self.lost_signal_arms_hold_seconds is None
        &&& self.lost_signal_recovery_seconds is None
        &&& self.head_from_pose is None
        &&& self.head_from_face_matrix is None
        &&& self.head_reconcile is None
        &&& self.neutral_eye_fallback is None
        &&& self.hand_camera_target is None
        &&& self.hand_orientation is None
        &&& self.finger_derived is None
        &&& self.arm_from_pose is None
        &&& self.arm_ik_from_hands is None
        &&& self.crossed_hand_heuristic is None
        &&& self.coordinate_correction is None
        &&& self.final_clamp is None
    }

    pub fn empty() -> (r: Self)
        ensures
            r.is_empty(),
            r == Self::spec_empty(),
    {
        ProfilePostProcessRules {
            anatomical_constraints: None,
            hold_lost_landmarks: None,
            ease_recovery: None,
            limit_rotation_jumps: None,
            head_source_switch_blend: None,
            lost_signal_behavior: None,
            lost_signal_rest_pose_blend: None,
            lost_signal_hold_seconds: None,
            lost_signal_head_behavior: None,
            lost_signal_head_rest_pose_blend: None,
            lost_signal_head_hold_seconds: None,
            lost_signal_hands_behavior: None,
            lost_signal_hands_rest_pose_blend: None,
            lost_signal_hands_hold_seconds: None,
            lost_signal_arms_behavior: None,
            lost_signal_arms_rest_pose_blend: None,
            lost_signal_arms_hold_seconds: None,
            lost_signal_recovery_seconds: None,
            head_from_pose: None,
            head_from_face_matrix: None,
            head_reconcile: None,
            neutral_eye_fallback: None,
            hand_camera_target: None,
            hand_orientation: None,
            finger_derived: None,
            arm_from_pose: None,
            arm_ik_from_hands: None,
            crossed_hand_heuristic: None,
            coordinate_correction: None,
            final_clamp: None,
        }
    }

    pub fn check_empty(&self) -> (r: bool)
        ensures
            r == self.is_empty(),
    {
        self.anatomical_constraints.is_none() && self.hold_lost_landmarks.is_none()
            && self.ease_recovery.is_none() && self.limit_rotation_jumps.is_none()
            && self.head_source_switch_blend.is_none() && self.lost_signal_behavior.is_none()
            && self.lost_signal_rest_pose_blend.is_none() && self.lost_signal_hold_seconds.is_none()
            && self.lost_signal_head_behavior.is_none()
            && self.lost_signal_head_rest_pose_blend.is_none()
            && self.lost_signal_head_hold_seconds.is_none()
            && self.lost_signal_hands_behavior.is_none()
            && self.lost_signal_hands_rest_pose_blend.is_none()
            && self.lost_signal_hands_hold_seconds.is_none()
            && self.lost_signal_arms_behavior.is_none()
            && self.lost_signal_arms_rest_pose_blend.is_none()
            && self.lost_signal_arms_hold_seconds.is_none()
            && self.lost_signal_recovery_seconds.is_none() && self.head_from_pose.is_none()
            && self.head_from_face_matrix.is_none() && self.head_reconcile.is_none()
            && self.neutral_eye_fallback.is_none() && self.hand_camera_target.is_none()
            && self.hand_orientation.is_none() && self.finger_derived.is_none()
            && self.arm_from_pose.is_none() && self.arm_ik_from_hands.is_none()
            && self.crossed_hand_heuristic.is_none() && self.coordinate_correction.is_none()
            && self.final_clamp.is_none()
    }
}

/// A performer's face pose model, as the profile keeps it.
#[derive(Clone, Debug, PartialEq)]
pub struct ProfileFacePoseModelSettings {
    pub enabled: Option<bool>,
    pub neutral_nose_drop_eye_mouth: Option<F32Bits>,
    pub sample_count: Option<u32>,
    pub median_abs_yaw: Option<F32Bits>,
    pub median_abs_roll: Option<F32Bits>,
}

impl ProfileFacePoseModelSettings {
    pub open spec fn is_empty(self) -> bool {
        &&& self.enabled is None
        &&& self.neutral_nose_drop_eye_mouth is None
        &&& self.sample_count is None
        &&& self.median_abs_yaw is None
        &&& self.median_abs_roll is None
    }

    pub open spec fn spec_empty() -> Self {
        ProfileFacePoseModelSettings {
            enabled: None,
            neutral_nose_drop_eye_mouth: None,
            sample_count: None,
            median_abs_yaw: None,
            median_abs_roll: None,
        }
    }

    pub fn empty() -> (r: Self)
        ensures
            r.is_empty(),
            r == Self::spec_empty(),
    {
        ProfileFacePoseModelSettings {
            enabled: None,
            neutral_nose_drop_eye_mouth: None,
            sample_count: None,
            median_abs_yaw: None,
            median_abs_roll: None,
        }
    }

    pub fn check_empty(&self) -> (r: bool)
        ensures
            r == self.is_empty(),
    {
        self.enabled.is_none() && self.neutral_nose_drop_eye_mouth.is_none()
            && self.sample_count.is_none() && self.median_abs_yaw.is_none()
            && self.median_abs_roll.is_none()
    }
}

/// Output modifier choices of a profile.
#[derive(Clone, Debug, PartialEq)]
pub struct ProfileModifierSettings {
    pub head_enabled: Option<bool>,
    pub face_enabled: Option<bool>,
    pub hands_enabled: Option<bool>,
    pub arms_ik_enabled: Option<bool>,
    pub torso_enabled: Option<bool>,
    pub legs_enabled: Option<bool>,
    pub feet_enabled: Option<bool>,
    pub torso_pitch_scale: Option<F32Bits>,
    pub neutral_calibration_enabled: Option<bool>,
    /// Bone name and rotation quaternion (x, y, z, w).
    pub neutral_calibration_rotations: Option<Vec<(String, (F32Bits, F32Bits, F32Bits, F32Bits))>>,
    pub neutral_calibration_pose: Option<String>,
    pub mirror_mode: Option<String>,
    pub eye_open_bias: Option<F32Bits>,
    pub camera_diagonal_view_angle_deg: Option<F32Bits>,
    pub min_landmark_confidence: Option<F32Bits>,
    pub smoothing_preset: Option<String>,
    pub smoothing_ema_enabled: Option<bool>,
    pub smoothing_ema_alpha: Option<F32Bits>,
    pub smoothing_one_euro_enabled: Option<bool>,
    pub smoothing_confidence_adaptive_cutoff: Option<bool>,
    pub adaptive_min_cutoff_hz: Option<F32Bits>,
    pub adaptive_beta: Option<F32Bits>,
    pub adaptive_derivative_cutoff_hz: Option<F32Bits>,
    pub face_pose_model: Option<ProfileFacePoseModelSettings>,
    pub post_process_rules: Option<ProfilePostProcessRules>,
}

impl ProfileModifierSettings {
    pub open spec fn is_empty(self) -> bool {
        &&& self.head_enabled is None
        &&& self.face_enabled is None
        &&& self.hands_enabled is None
        &&& self.arms_ik_enabled is None
        &&& self.torso_enabled is None
        &&& self.legs_enabled is None
        &&& self.feet_enabled is None
        &&& self.torso_pitch_scale is None
        &&& self.neutral_calibration_enabled is None
        &&& self.neutral_calibration_rotations is None
        &&& self.neutral_calibration_pose is None
        &&& self.mirror_mode is None
        &&& self.eye_open_bias is None
        &&& self.camera_diagonal_view_angle_deg is None
        &&& self.min_landmark_confidence is None
        &&& self.smoothing_preset is None
        &&& self.smoothing_ema_enabled is None
        &&& self.smoothing_ema_alpha is None
        &&& self.smoothing_one_euro_enabled is None
        &&& self.smoothing_confidence_adaptive_cutoff is None
        &&& self.adaptive_min_cutoff_hz is None
        &&& self.adaptive_beta is None
        &&& self.adaptive_derivative_cutoff_hz is None
        &&& self.face_pose_model is None
        &&& self.post_process_rules is None
    }

    pub open spec fn spec_empty() -> Self {
        ProfileModifierSettings {
            head_enabled: None,
            face_enabled: None,
            hands_enabled: None,
            arms_ik_enabled: None,
            torso_enabled: None,
            legs_enabled: None,
            feet_enabled: None,
            torso_pitch_scale: None,
            neutral_calibration_enabled: None,
            neutral_calibration_rotations: None,
            neutral_calibration_pose: None,
            mirror_mode: None,
            eye_open_bias: None,
            camera_diagonal_view_angle_deg: None,
            min_landmark_confidence: None,
            smoothing_preset: None,
            smoothing_ema_enabled: None,
            smoothing_ema_alpha: None,
            smoothing_one_euro_enabled: None,
            smoothing_confidence_adaptive_cutoff: None,
            adaptive_min_cutoff_hz: None,
            adaptive_beta: None,
            adaptive_derivative_cutoff_hz: None,
            face_pose_model: None,
            post_process_rules: None,
        }
    }

    pub fn empty() -> (r: Self)
        ensures
            r.is_empty(),
            r == Self::spec_empty(),
    {
        ProfileModifierSettings {
            head_enabled: None,
            face_enabled: None,
            hands_enabled: None,
            arms_ik_enabled: None,
            torso_enabled: None,
            legs_enabled: None,
            feet_enabled: None,
            torso_pitch_scale: None,
            neutral_calibration_enabled: None,
            neutral_calibration_rotations: None,
            neutral_calibration_pose: None,
            mirror_mode: None,
            eye_open_bias: None,
            camera_diagonal_view_angle_deg: None,
            min_landmark_confidence: None,
            smoothing_preset: None,
            smoothing_ema_enabled: None,
            smoothing_ema_alpha: None,
            smoothing_one_euro_enabled: None,
            smoothing_confidence_adaptive_cutoff: None,
            adaptive_min_cutoff_hz: None,
            adaptive_beta: None,
            adaptive_derivative_cutoff_hz: None,
            face_pose_model: None,
            post_process_rules: None,
        }
    }

    pub fn check_empty(&self) -> (r: bool)
        ensures
            r == self.is_empty(),
    {
        self.head_enabled.is_none() && self.face_enabled.is_none() && self.hands_enabled.is_none()
            && self.arms_ik_enabled.is_none() && self.torso_enabled.is_none()
            && self.legs_enabled.is_none() && self.feet_enabled.is_none()
            && self.torso_pitch_scale.is_none() && self.neutral_calibration_enabled.is_none()
            && self.neutral_calibration_rotations.is_none()
            && self.neutral_calibration_pose.is_none() && self.mirror_mode.is_none()
            && self.eye_open_bias.is_none() && self.camera_diagonal_view_angle_deg.is_none()
            && self.min_landmark_confidence.is_none() && self.smoothing_preset.is_none()
            && self.smoothing_ema_enabled.is_none() && self.smoothing_ema_alpha.is_none()
            && self.smoothing_one_euro_enabled.is_none()
            && self.smoothing_confidence_adaptive_cutoff.is_none()
            && self.adaptive_min_cutoff_hz.is_none() && self.adaptive_beta.is_none()
            && self.adaptive_derivative_cutoff_hz.is_none() && self.face_pose_model.is_none()
            && self.post_process_rules.is_none()
    }
}

/// Runtime choices of a profile: engine, outputs and MediaPipe knobs.
#[derive(Clone, Debug, PartialEq)]
pub struct ProfileRuntimeSettings {
    pub fps: Option<u32>,
    pub vmc_enabled: Option<bool>,
    pub vmc_target_addr: Option<String>,
    pub zenoh_enabled: Option<bool>,
    pub zenoh_key_expr: Option<String>,
    pub zenoh_topic_mode: Option<String>,
    pub zenoh_stream_id: Option<String>,
    pub zenoh_producer: Option<String>,
    pub engine: Option<String>,
    pub device: Option<String>,
    pub resolution: Option<String>,
    pub media_pipe_running_mode: Option<String>,
    pub media_pipe_holistic_enabled: Option<bool>,
    pub media_pipe_delegate: Option<String>,
    pub media_pipe_num_threads: Option<u32>,
    pub media_pipe_holistic_flow_limiter_enabled: Option<bool>,
    pub media_pipe_holistic_flow_limiter_max_in_flight: Option<u32>,
    pub media_pipe_holistic_flow_limiter_max_in_queue: Option<u32>,
    pub vmc_receive_listen_addr: Option<String>,
    pub ifacialmocap_receive_listen_addr: Option<String>,
    pub vrc_osc_enabled: Option<bool>,
    pub vrc_osc_target_addr: Option<String>,
    pub vrc_osc_parameter_prefix: Option<String>,
    pub vrc_osc_send_only_when_vrchat_running: Option<bool>,
    pub vrc_osc_process_poll_interval_secs: Option<u64>,
    pub modifier: Option<ProfileModifierSettings>,
}

impl ProfileRuntimeSettings {
    pub open spec fn is_empty(self) -> bool {
        &&& self.fps is None
        &&& self.vmc_enabled is None
        &&& self.vmc_target_addr is None
        &&& self.zenoh_enabled is None
        &&& self.zenoh_key_expr is None
        &&& self.zenoh_topic_mode is None
        &&& self.zenoh_stream_id is None
        &&& self.zenoh_producer is None
        &&& self.engine is None
        &&& self.device is None
        &&& self.resolution is None
        &&& self.media_pipe_running_mode is None
        &&& self.media_pipe_holistic_enabled is None
        &&& self.media_pipe_delegate is None
        &&& self.media_pipe_num_threads is None
        &&& self.media_pipe_holistic_flow_limiter_enabled is None
        &&& self.media_pipe_holistic_flow_limiter_max_in_flight is None
        &&& self.media_pipe_holistic_flow_limiter_max_in_queue is None
        &&& self.vmc_receive_listen_addr is None
        &&& self.ifacialmocap_receive_listen_addr is None
        &&& self.vrc_osc_enabled is None
        &&& self.vrc_osc_target_addr is None
        &&& self.vrc_osc_parameter_prefix is None
        &&& self.vrc_osc_send_only_when_vrchat_running is None
        &&& self.vrc_osc_process_poll_interval_secs is None
        &&& self.modifier is None
    }

    pub open spec fn spec_empty() -> Self {
        ProfileRuntimeSettings {
            fps: None,
            vmc_enabled: None,
            vmc_target_addr: None,
            zenoh_enabled: None,
            zenoh_key_expr: None,
            zenoh_topic_mode: None,
            zenoh_stream_id: None,
            zenoh_producer: None,
            engine: None,
            device: None,
            resolution: None,
            media_pipe_running_mode: None,
            media_pipe_holistic_enabled: None,
            media_pipe_delegate: None,
            media_pipe_num_threads: None,
            media_pipe_holistic_flow_limiter_enabled: None,
            media_pipe_holistic_flow_limiter_max_in_flight: None,
            media_pipe_holistic_flow_limiter_max_in_queue: None,
            vmc_receive_listen_addr: None,
            ifacialmocap_receive_listen_addr: None,
            vrc_osc_enabled: None,
            vrc_osc_target_addr: None,
            vrc_osc_parameter_prefix: None,
            vrc_osc_send_only_when_vrchat_running: None,
            vrc_osc_process_poll_interval_secs: None,
            modifier: None,
        }
    }

    pub fn empty() -> (r: Self)
        ensures
            r.is_empty(),
            r == Self::spec_empty(),
    {
        ProfileRuntimeSettings {
            fps: None,
            vmc_enabled: None,
            vmc_target_addr: None,
            zenoh_enabled: None,
            zenoh_key_expr: None,
            zenoh_topic_mode: None,
            zenoh_stream_id: None,
            zenoh_producer: None,
            engine: None,
            device: None,
            resolution: None,
            media_pipe_running_mode: None,
            media_pipe_holistic_enabled: None,
            media_pipe_delegate: None,
            media_pipe_num_threads: None,
            media_pipe_holistic_flow_limiter_enabled: None,
            media_pipe_holistic_flow_limiter_max_in_flight: None,
            media_pipe_holistic_flow_limiter_max_in_queue: None,
            vmc_receive_listen_addr: None,
            ifacialmocap_receive_listen_addr: None,
            vrc_osc_enabled: None,
            vrc_osc_target_addr: None,
            vrc_osc_parameter_prefix: None,
            vrc_osc_send_only_when_vrchat_running: None,
            vrc_osc_process_poll_interval_secs: None,
            modifier: None,
        }
    }

    pub fn check_empty(&self) -> (r: bool)
        ensures
            r == self.is_empty(),
    {
        self.fps.is_none() && self.vmc_enabled.is_none() && self.vmc_target_addr.is_none()
            && self.zenoh_enabled.is_none() && self.zenoh_key_expr.is_none()
            && self.zenoh_topic_mode.is_none() && self.zenoh_stream_id.is_none()
            && self.zenoh_producer.is_none() && self.engine.is_none() && self.device.is_none()
            && self.resolution.is_none() && self.media_pipe_running_mode.is_none()
            && self.media_pipe_holistic_enabled.is_none() && self.media_pipe_delegate.is_none()
            && self.media_pipe_num_threads.is_none()
            && self.media_pipe_holistic_flow_limiter_enabled.is_none()
            && self.media_pipe_holistic_flow_limiter_max_in_flight.is_none()
            && self.media_pipe_holistic_flow_limiter_max_in_queue.is_none()
            && self.vmc_receive_listen_addr.is_none()
            && self.ifacialmocap_receive_listen_addr.is_none() && self.vrc_osc_enabled.is_none()
            && self.vrc_osc_target_addr.is_none() && self.vrc_osc_parameter_prefix.is_none()
            && self.vrc_osc_send_only_when_vrchat_running.is_none()
            && self.vrc_osc_process_poll_interval_secs.is_none() && self.modifier.is_none()
    }
}

/// One profile of the document.
#[derive(Clone, Debug, PartialEq)]
pub struct DocumentProfile {
    pub id: String,
    pub name: String,
    pub created_at: String,
    pub note: String,
    pub icon_path: Option<String>,
    pub group: String,
    pub default_source_enabled: bool,
    pub default_source_label: String,
    pub runtime_selection: Option<ProfileRuntimeSettings>,
    pub pipeline_components: Option<ProfilePipelineComponents>,
}

/// An extra motion source bound to a profile.
#[derive(Clone, Debug, PartialEq)]
pub struct DocumentSource {
    pub id: String,
    pub profile_id: String,
    pub kind: String,
}

/// All profiles a user keeps, and which one is selected.
#[derive(Clone, Debug, PartialEq)]
pub struct ProfileDocument {
    pub selected_profile_id: String,
    pub profiles: Vec<DocumentProfile>,
    pub profile_sources: Vec<DocumentSource>,
    pub next_profile_index: u64,
    pub next_source_index: u64,
}

/// The ids of the profiles, in order.
pub open spec fn profile_ids(profiles: Seq<DocumentProfile>) -> Seq<Seq<char>> {
    profiles.map_values(|p: DocumentProfile| p.id@)
}

/// The names of the profiles, in order.
pub open spec fn profile_names(profiles: Seq<DocumentProfile>) -> Seq<Seq<char>> {
    profiles.map_values(|p: DocumentProfile| p.name@)
}

impl ProfilePipelineComponents {
    /// A copy equal to `self`.
    pub fn copy(&self) -> (r: Self)
        ensures
            r == *self,
    {
        ProfilePipelineComponents {
            engine: copy_opt_string(&self.engine),
            input: copy_opt_string(&self.input),
            post_process: copy_opt_string(&self.post_process),
            input_path: copy_opt_string(&self.input_path),
            input_fps: self.input_fps,
            input_width: self.input_width,
            input_height: self.input_height,
            input_pixel_format: copy_opt_string(&self.input_pixel_format),
            input_repeat: self.input_repeat,
            input_ffmpeg_path: copy_opt_string(&self.input_ffmpeg_path),
            input_denoise_mode: copy_opt_string(&self.input_denoise_mode),
            input_denoise_temporal_iir_hz: self.input_denoise_temporal_iir_hz,
            input_resize_enabled: self.input_resize_enabled,
            input_resize_axis: copy_opt_string(&self.input_resize_axis),
            input_resize_reference: self.input_resize_reference,
            input_resize_width: self.input_resize_width,
            input_resize_height: self.input_resize_height,
            input_resize_preserve_aspect: self.input_resize_preserve_aspect,
            input_resize_pad_color: copy_opt_string(&self.input_resize_pad_color),
        }
    }
}

impl ProfilePostProcessRules {
    /// A copy equal to `self`.
    pub fn copy(&self) -> (r: Self)
        ensures
            r == *self,
    {
        ProfilePostProcessRules {
            anatomical_constraints: self.anatomical_constraints,
            hold_lost_landmarks: self.hold_lost_landmarks,
            ease_recovery: self.ease_recovery,
            limit_rotation_jumps: self.limit_rotation_jumps,
            head_source_switch_blend: self.head_source_switch_blend,
            lost_signal_behavior: copy_opt_string(&self.lost_signal_behavior),
            lost_signal_rest_pose_blend: self.lost_signal_rest_pose_blend,
            lost_signal_hold_seconds: self.lost_signal_hold_seconds,
            lost_signal_head_behavior: copy_opt_string(&self.lost_signal_head_behavior),
            lost_signal_head_rest_pose_blend: self.lost_signal_head_rest_pose_blend,
            lost_signal_head_hold_seconds: self.lost_signal_head_hold_seconds,
            lost_signal_hands_behavior: copy_opt_string(&self.lost_signal_hands_behavior),
            lost_signal_hands_rest_pose_blend: self.lost_signal_hands_rest_pose_blend,
            lost_signal_hands_hold_seconds: self.lost_signal_hands_hold_seconds,
            lost_signal_arms_behavior: copy_opt_string(&self.lost_signal_arms_behavior),
            lost_signal_arms_rest_pose_blend: self.lost_signal_arms_rest_pose_blend,
            lost_signal_arms_hold_seconds: self.lost_signal_arms_hold_seconds,
            lost_signal_recovery_seconds: self.lost_signal_recovery_seconds,
            head_from_pose: self.head_from_pose,
            head_from_face_matrix: self.head_from_face_matrix,
            head_reconcile: self.head_reconcile,
            neutral_eye_fallback: self.neutral_eye_fallback,
            hand_camera_target: self.hand_camera_target,
            hand_orientation: self.hand_orientation,
            finger_derived: self.finger_derived,
            arm_from_pose: self.arm_from_pose,
            arm_ik_from_hands: self.arm_ik_from_hands,
            crossed_hand_heuristic: self.crossed_hand_heuristic,
            coordinate_correction: self.coordinate_correction,
            final_clamp: self.final_clamp,
        }
    }
}

impl ProfileFacePoseModelSettings {
    /// A copy equal to `self`.
    pub fn copy(&self) -> (r: Self)
        ensures
            r == *self,
    {
        ProfileFacePoseModelSettings {
            enabled: self.enabled,
            neutral_nose_drop_eye_mouth: self.neutral_nose_drop_eye_mouth,
            sample_count: self.sample_count,
            median_abs_yaw: self.median_abs_yaw,
            median_abs_roll: self.median_abs_roll,
        }
    }
}

impl ProfileModifierSettings {
    /// A copy that holds what `self` holds.
    pub fn copy(&self) -> (r: Self)
        ensures
            r.eqv(*self),
    {
        ProfileModifierSettings {
            head_enabled: self.head_enabled,
            face_enabled: self.face_enabled,
            hands_enabled: self.hands_enabled,
            arms_ik_enabled: self.arms_ik_enabled,
            torso_enabled: self.torso_enabled,
            legs_enabled: self.legs_enabled,
            feet_enabled: self.feet_enabled,
            torso_pitch_scale: self.torso_pitch_scale,
            neutral_calibration_enabled: self.neutral_calibration_enabled,
            neutral_calibration_rotations: match &self.neutral_calibration_rotations { Some(x) => Some(copy_rotations(x)), None => None },
            neutral_calibration_pose: copy_opt_string(&self.neutral_calibration_pose),
            mirror_mode: copy_opt_string(&self.mirror_mode),
            eye_open_bias: self.eye_open_bias,
            camera_diagonal_view_angle_deg: self.camera_diagonal_view_angle_deg,
            min_landmark_confidence: self.min_landmark_confidence,
            smoothing_preset: copy_opt_string(&self.smoothing_preset),
            smoothing_ema_enabled: self.smoothing_ema_enabled,
            smoothing_ema_alpha: self.smoothing_ema_alpha,
            smoothing_one_euro_enabled: self.smoothing_one_euro_enabled,
            smoothing_confidence_adaptive_cutoff: self.smoothing_confidence_adaptive_cutoff,
            adaptive_min_cutoff_hz: self.adaptive_min_cutoff_hz,
            adaptive_beta: self.adaptive_beta,
            adaptive_derivative_cutoff_hz: self.adaptive_derivative_cutoff_hz,
            face_pose_model: match &self.face_pose_model { Some(x) => Some(x.copy()), None => None },
            post_process_rules: match &self.post_process_rules { Some(x) => Some(x.copy()), None => None },
        }
    }
}

impl ProfileRuntimeSettings {
    /// A copy that holds what `self` holds.
    pub fn copy(&self) -> (r: Self)
        ensures
            r.eqv(*self),
    {
        ProfileRuntimeSettings {
            fps: self.fps,
            vmc_enabled: self.vmc_enabled,
            vmc_target_addr: copy_opt_string(&self.vmc_target_addr),
            zenoh_enabled: self.zenoh_enabled,
            zenoh_key_expr: copy_opt_string(&self.zenoh_key_expr),
            zenoh_topic_mode: copy_opt_string(&self.zenoh_topic_mode),
            zenoh_stream_id: copy_opt_string(&self.zenoh_stream_id),
            zenoh_producer: copy_opt_string(&self.zenoh_producer),
            engine: copy_opt_string(&self.engine),
            device: copy_opt_string(&self.device),
            resolution: copy_opt_string(&self.resolution),
            media_pipe_running_mode: copy_opt_string(&self.media_pipe_running_mode),
            media_pipe_holistic_enabled: self.media_pipe_holistic_enabled,
            media_pipe_delegate: copy_opt_string(&self.media_pipe_delegate),
            media_pipe_num_threads: self.media_pipe_num_threads,
            media_pipe_holistic_flow_limiter_enabled: self.media_pipe_holistic_flow_limiter_enabled,
            media_pipe_holistic_flow_limiter_max_in_flight: self.media_pipe_holistic_flow_limiter_max_in_flight,
            media_pipe_holistic_flow_limiter_max_in_queue: self.media_pipe_holistic_flow_limiter_max_in_queue,
            vmc_receive_listen_addr: copy_opt_string(&self.vmc_receive_listen_addr),
            ifacialmocap_receive_listen_addr: copy_opt_string(&self.ifacialmocap_receive_listen_addr),
            vrc_osc_enabled: self.vrc_osc_enabled,
            vrc_osc_target_addr: copy_opt_string(&self.vrc_osc_target_addr),
            vrc_osc_parameter_prefix: copy_opt_string(&self.vrc_osc_parameter_prefix),
            vrc_osc_send_only_when_vrchat_running: self.vrc_osc_send_only_when_vrchat_running,
            vrc_osc_process_poll_interval_secs: self.vrc_osc_process_poll_interval_secs,
            modifier: match &self.modifier { Some(x) => Some(x.copy()), None => None },
        }
    }
}

impl DocumentProfile {
    /// A copy that holds what `self` holds.
    pub fn copy(&self) -> (r: Self)
        ensures
            r.eqv(*self),
    {
        DocumentProfile {
            id: self.id.clone(),
            name: self.name.clone(),
            created_at: self.created_at.clone(),
            note: self.note.clone(),
            icon_path: copy_opt_string(&self.icon_path),
            group: self.group.clone(),
            default_source_enabled: self.default_source_enabled,
            default_source_label: self.default_source_label.clone(),
            runtime_selection: match &self.runtime_selection { Some(x) => Some(x.copy()), None => None },
            pipeline_components: match &self.pipeline_components { Some(x) => Some(x.copy()), None => None },
        }
    }
}

impl DocumentSource {
    /// A copy equal to `self`.
    pub fn copy(&self) -> (r: Self)
        ensures
            r == *self,
    {
        DocumentSource {
            id: self.id.clone(),
            profile_id: self.profile_id.clone(),
            kind: self.kind.clone(),
        }
    }
}


/// Whether two optional rotation lists hold the same entries.
pub open spec fn rotations_eqv(
    a: Option<Vec<(String, (F32Bits, F32Bits, F32Bits, F32Bits))>>,
    b: Option<Vec<(String, (F32Bits, F32Bits, F32Bits, F32Bits))>>,
) -> bool {
    match (a, b) {
        (None, None) => true,
        (Some(x), Some(y)) => x@ == y@,
        _ => false,
    }
}

impl ProfileModifierSettings {
    /// Whether `self` and `o` hold the same settings.
    pub open spec fn eqv(self, o: Self) -> bool {
        rotations_eqv(self.neutral_calibration_rotations, o.neutral_calibration_rotations)
            && ProfileModifierSettings {
            neutral_calibration_rotations: o.neutral_calibration_rotations,
            ..self
        } == o
    }
}

/// Whether two optional modifier settings hold the same settings.
pub open spec fn modifier_eqv(a: Option<ProfileModifierSettings>, b: Option<ProfileModifierSettings>) -> bool {
    match (a, b) {
        (None, None) => true,
        (Some(x), Some(y)) => x.eqv(y),
        _ => false,
    }
}

impl ProfileRuntimeSettings {
    /// Whether `self` and `o` hold the same settings.
    pub open spec fn eqv(self, o: Self) -> bool {
        modifier_eqv(self.modifier, o.modifier) && ProfileRuntimeSettings {
            modifier: o.modifier,
            ..self
        } == o
    }
}

/// Whether two optional runtime selections hold the same settings.
pub open spec fn runtime_eqv(a: Option<ProfileRuntimeSettings>, b: Option<ProfileRuntimeSettings>) -> bool {
    match (a, b) {
        (None, None) => true,
        (Some(x), Some(y)) => x.eqv(y),
        _ => false,
    }
}

impl DocumentProfile {
    /// Whether `self` and `o` hold the same profile.
    pub open spec fn eqv(self, o: Self) -> bool {
        runtime_eqv(self.runtime_selection, o.runtime_selection) && DocumentProfile {
            runtime_selection: o.runtime_selection,
            ..self
        } == o
    }
}

/// A copy of an optional string.
pub fn copy_opt_string(o: &Option<String>) -> (r: Option<String>)
    ensures
        r == *o,
{
    match o {
        Some(s) => Some(s.clone()),
        None => None,
    }
}

/// A copy of a list of calibration rotations.
pub fn copy_rotations(v: &Vec<(String, (F32Bits, F32Bits, F32Bits, F32Bits))>) -> (r: Vec<
    (String, (F32Bits, F32Bits, F32Bits, F32Bits)),
>)
    ensures
        r@ == v@,
{
    let mut out: Vec<(String, (F32Bits, F32Bits, F32Bits, F32Bits))> = Vec::new();
    let mut i: usize = 0;
    while i < v.len()
        invariant
            i <= v.len(),
            out@ == v@.take(i as int),
        decreases v.len() - i,
    {
        out.push((v[i].0.clone(), v[i].1));
        assert(out@ =~= v@.take(i as int + 1));
        i = i + 1;
    }
    assert(v@.take(v.len() as int) =~= v@);
    out
}

/// A copy of a list of sources.
pub fn copy_sources(v: &Vec<DocumentSource>) -> (r: Vec<DocumentSource>)
    ensures
        r@ == v@,
{
    let mut out: Vec<DocumentSource> = Vec::new();
    let mut i: usize = 0;
    while i < v.len()
        invariant
            i <= v.len(),
            out@ == v@.take(i as int),
        decreases v.len() - i,
    {
        out.push(v[i].copy());
        assert(out@ =~= v@.take(i as int + 1));
        i = i + 1;
    }
    assert(v@.take(v.len() as int) =~= v@);
    out
}

} // verus!
