//! The MediaPipe post-process settings a motion stream runs with: the
//! built-in defaults, overridden by what a profile's modifier block sets.
//! Ratios are clamped to `0..=1`, hold times to `0..=30` s and the recovery
//! time to `0..=5` s, as `f32::clamp` clamps them.
use vstd::prelude::*;

use crate::float_bits::{clamp_bounds_ok, f32_clamp, F32Bits};
use crate::profile_schema::{ProfileModifierSettings, ProfilePostProcessRules, ProfileRuntimeSettings};
use crate::text::owned;

verus! {

pub const F32_ZERO: u32 = 0x0000_0000;
pub const F32_ONE: u32 = 0x3f80_0000;
pub const F32_FIVE: u32 = 0x40a0_0000;
pub const F32_THIRTY: u32 = 0x41f0_0000;
/// `0.3`, the default rest-pose blend.
pub const DEFAULT_REST_POSE_BLEND: u32 = 0x3e99_999a;
/// `8.2` s, the default hold time.
pub const DEFAULT_HOLD_SECONDS: u32 = 0x4103_3333;
/// `0.25` s, the default recovery time.
pub const DEFAULT_RECOVERY_SECONDS: u32 = 0x3e80_0000;
/// `70.0` degrees, the default diagonal view angle of the camera.
pub const DEFAULT_VIEW_ANGLE_DEG: u32 = 0x428c_0000;
/// `0.55`, the default landmark confidence floor.
pub const DEFAULT_MIN_LANDMARK_CONFIDENCE: u32 = 0x3f0c_cccd;
/// `0.5`, the default eye-open bias.
pub const DEFAULT_EYE_OPEN_BIAS: u32 = 0x3f00_0000;

/// The post-process rules of a motion stream.
#[derive(Clone, Debug, PartialEq)]
pub struct CoreUnmotionPostProcessRulesConfig {
    pub anatomical_constraints: bool,
    pub hold_lost_landmarks: bool,
    pub ease_recovery: bool,
    pub limit_rotation_jumps: bool,
    pub head_source_switch_blend: bool,
    pub lost_signal_behavior: String,
    pub lost_signal_rest_pose_blend: F32Bits,
    pub lost_signal_hold_seconds: F32Bits,
    pub lost_signal_head_behavior: String,
    pub lost_signal_head_rest_pose_blend: F32Bits,
    pub lost_signal_head_hold_seconds: F32Bits,
    pub lost_signal_hands_behavior: String,
    pub lost_signal_hands_rest_pose_blend: F32Bits,
    pub lost_signal_hands_hold_seconds: F32Bits,
    pub lost_signal_arms_behavior: String,
    pub lost_signal_arms_rest_pose_blend: F32Bits,
    pub lost_signal_arms_hold_seconds: F32Bits,
    pub lost_signal_recovery_seconds: F32Bits,
    pub head_from_pose: bool,
    pub head_from_face_matrix: bool,
    pub head_reconcile: bool,
    pub neutral_eye_fallback: bool,
    pub hand_camera_target: bool,
    pub hand_orientation: bool,
    pub finger_derived: bool,
    pub arm_from_pose: bool,
    pub arm_ik_from_hands: bool,
    pub crossed_hand_heuristic: bool,
    pub coordinate_correction: bool,
    pub final_clamp: bool,
}

/// A flag the profile may set, else its default.
pub open spec fn flag_or(value: Option<bool>, default: bool) -> bool {
    match value {
        Some(v) => v,
        None => default,
    }
}

/// A text the profile may set, else its default.
pub open spec fn text_or(value: Option<String>, default: Seq<char>) -> Seq<char> {
    match value {
        Some(v) => v@,
        None => default,
    }
}

/// A number the profile may set, clamped to `lo..=hi`, else its default.
pub open spec fn clamped_or(value: Option<F32Bits>, lo: u32, hi: u32, default: u32) -> u32 {
    match value {
        Some(v) => f32_clamp(v.0, lo, hi),
        None => default,
    }
}

/// A number the profile may set, else its default.
pub open spec fn number_or(value: Option<F32Bits>, default: u32) -> u32 {
    match value {
        Some(v) => v.0,
        None => default,
    }
}

/// The rules a profile writes, or none at all.
pub open spec fn rules_or_empty(rules: Option<&ProfilePostProcessRules>) -> ProfilePostProcessRules {
    match rules {
        Some(r) => *r,
        None => ProfilePostProcessRules::spec_empty(),
    }
}

impl ProfilePostProcessRules {
    pub open spec fn spec_empty() -> ProfilePostProcessRules {
        ProfilePostProcessRules {
            anatomical_constraints: None,
            hold_lost_landmarks: None,
            ease_recovery: None,
            limit_rotation_jumps: None,
            head_source_switch_blend: None,
            lost_signal_behavior: None,
            lost_signal_rest_pose_blend: None,
            lost_signal_hold_seconds: None,
            lost_signal_head_behavior: None,
            lost_signal_head_rest_pose_blend: None,
            lost_signal_head_hold_seconds: None,
            lost_signal_hands_behavior: None,
            lost_signal_hands_rest_pose_blend: None,
            lost_signal_hands_hold_seconds: None,
            lost_signal_arms_behavior: None,
            lost_signal_arms_rest_pose_blend: None,
            lost_signal_arms_hold_seconds: None,
            lost_signal_recovery_seconds: None,
            head_from_pose: None,
            head_from_face_matrix: None,
            head_reconcile: None,
            neutral_eye_fallback: None,
            hand_camera_target: None,
            hand_orientation: None,
            finger_derived: None,
            arm_from_pose: None,
            arm_ik_from_hands: None,
            crossed_hand_heuristic: None,
            coordinate_correction: None,
            final_clamp: None,
        }
    }
}

/// Whether `c` holds the defaults overridden by what `r` sets.
pub open spec fn rules_config_from(c: CoreUnmotionPostProcessRulesConfig, r: ProfilePostProcessRules) -> bool {
    &&& c.anatomical_constraints == flag_or(r.anatomical_constraints, true)
    &&& c.hold_lost_landmarks == flag_or(r.hold_lost_landmarks, true)
    &&& c.ease_recovery == flag_or(r.ease_recovery, true)
    &&& c.limit_rotation_jumps == flag_or(r.limit_rotation_jumps, true)
    &&& c.head_source_switch_blend == flag_or(r.head_source_switch_blend, true)
    &&& c.lost_signal_behavior@ == text_or(r.lost_signal_behavior, "rest-pose"@)
    &&& c.lost_signal_rest_pose_blend.0 == clamped_or(r.lost_signal_rest_pose_blend, F32_ZERO, F32_ONE, DEFAULT_REST_POSE_BLEND)
    &&& c.lost_signal_hold_seconds.0 == clamped_or(r.lost_signal_hold_seconds, F32_ZERO, F32_THIRTY, DEFAULT_HOLD_SECONDS)
    &&& c.lost_signal_head_behavior@ == text_or(r.lost_signal_head_behavior, "hold"@)
    &&& c.lost_signal_head_rest_pose_blend.0 == clamped_or(r.lost_signal_head_rest_pose_blend, F32_ZERO, F32_ONE, DEFAULT_REST_POSE_BLEND)
    &&& c.lost_signal_head_hold_seconds.0 == clamped_or(r.lost_signal_head_hold_seconds, F32_ZERO, F32_THIRTY, DEFAULT_HOLD_SECONDS)
    &&& c.lost_signal_hands_behavior@ == text_or(r.lost_signal_hands_behavior, "rest-pose"@)
    &&& c.lost_signal_hands_rest_pose_blend.0 == clamped_or(r.lost_signal_hands_rest_pose_blend, F32_ZERO, F32_ONE, DEFAULT_REST_POSE_BLEND)
    &&& c.lost_signal_hands_hold_seconds.0 == clamped_or(r.lost_signal_hands_hold_seconds, F32_ZERO, F32_THIRTY, DEFAULT_HOLD_SECONDS)
    &&& c.lost_signal_arms_behavior@ == text_or(r.lost_signal_arms_behavior, "rest-pose"@)
    &&& c.lost_signal_arms_rest_pose_blend.0 == clamped_or(r.lost_signal_arms_rest_pose_blend, F32_ZERO, F32_ONE, DEFAULT_REST_POSE_BLEND)
    &&& c.lost_signal_arms_hold_seconds.0 == clamped_or(r.lost_signal_arms_hold_seconds, F32_ZERO, F32_THIRTY, DEFAULT_HOLD_SECONDS)
    &&& c.lost_signal_recovery_seconds.0 == clamped_or(r.lost_signal_recovery_seconds, F32_ZERO, F32_FIVE, DEFAULT_RECOVERY_SECONDS)
    &&& c.head_from_pose == flag_or(r.head_from_pose, true)
    &&& c.head_from_face_matrix == flag_or(r.head_from_face_matrix, true)
    &&& c.head_reconcile == flag_or(r.head_reconcile, true)
    &&& c.neutral_eye_fallback == flag_or(r.neutral_eye_fallback, true)
    &&& c.hand_camera_target == flag_or(r.hand_camera_target, true)
    &&& c.hand_orientation == flag_or(r.hand_orientation, true)
    &&& c.finger_derived == flag_or(r.finger_derived, true)
    &&& c.arm_from_pose == flag_or(r.arm_from_pose, true)
    &&& c.arm_ik_from_hands == flag_or(r.arm_ik_from_hands, true)
    &&& c.crossed_hand_heuristic == flag_or(r.crossed_hand_heuristic, true)
    &&& c.coordinate_correction == flag_or(r.coordinate_correction, true)
    &&& c.final_clamp == flag_or(r.final_clamp, true)
}

impl Default for CoreUnmotionPostProcessRulesConfig {
    fn default() -> (r: Self)
        ensures
            rules_config_from(r, ProfilePostProcessRules::spec_empty()),
    {
        CoreUnmotionPostProcessRulesConfig {
            anatomical_constraints: true,
            hold_lost_landmarks: true,
            ease_recovery: true,
            limit_rotation_jumps: true,
            head_source_switch_blend: true,
            lost_signal_behavior: owned("rest-pose"),
            lost_signal_rest_pose_blend: F32Bits(DEFAULT_REST_POSE_BLEND),
            lost_signal_hold_seconds: F32Bits(DEFAULT_HOLD_SECONDS),
            lost_signal_head_behavior: owned("hold"),
            lost_signal_head_rest_pose_blend: F32Bits(DEFAULT_REST_POSE_BLEND),
            lost_signal_head_hold_seconds: F32Bits(DEFAULT_HOLD_SECONDS),
            lost_signal_hands_behavior: owned("rest-pose"),
            lost_signal_hands_rest_pose_blend: F32Bits(DEFAULT_REST_POSE_BLEND),
            lost_signal_hands_hold_seconds: F32Bits(DEFAULT_HOLD_SECONDS),
            lost_signal_arms_behavior: owned("rest-pose"),
            lost_signal_arms_rest_pose_blend: F32Bits(DEFAULT_REST_POSE_BLEND),
            lost_signal_arms_hold_seconds: F32Bits(DEFAULT_HOLD_SECONDS),
            lost_signal_recovery_seconds: F32Bits(DEFAULT_RECOVERY_SECONDS),
            head_from_pose: true,
            head_from_face_matrix: true,
            head_reconcile: true,
            neutral_eye_fallback: true,
            hand_camera_target: true,
            hand_orientation: true,
            finger_derived: true,
            arm_from_pose: true,
            arm_ik_from_hands: true,
            crossed_hand_heuristic: true,
            coordinate_correction: true,
            final_clamp: true,
        }
    }
}

/// A set flag, else the current one.
fn set_flag(value: Option<bool>, current: bool) -> (r: bool)
    ensures
        r == flag_or(value, current),
{
    match value {
        Some(v) => v,
        None => current,
    }
}

/// A set text, else the current one.
fn set_text(value: &Option<String>, current: String) -> (r: String)
    ensures
        r@ == text_or(*value, current@),
{
    match value {
        Some(v) => owned(v.as_str()),
        None => current,
    }
}

/// A set number clamped to `lo..=hi`, else the current one.
fn set_clamped(value: Option<F32Bits>, lo: u32, hi: u32, current: F32Bits) -> (r: F32Bits)
    requires
        clamp_bounds_ok(lo, hi),
    ensures
        r.0 == clamped_or(value, lo, hi, current.0),
{
    match value {
        Some(v) => v.clamp(F32Bits(lo), F32Bits(hi)),
        None => current,
    }
}

/// The post-process rules of a stream: the defaults, overridden by what the
/// profile sets.
pub fn core_unmotion_post_process_rules_config(rules: Option<&ProfilePostProcessRules>) -> (r:
    CoreUnmotionPostProcessRulesConfig)
    ensures
        rules_config_from(r, rules_or_empty(rules)),
{
    let mut config = CoreUnmotionPostProcessRulesConfig::default();
    let rules = match rules {
        Some(rules) => rules,
        None => {
            return config;
        },
    };
    assert(clamp_bounds_ok(F32_ZERO, F32_ONE));
    assert(clamp_bounds_ok(F32_ZERO, F32_THIRTY));
    assert(clamp_bounds_ok(F32_ZERO, F32_FIVE));
    config.anatomical_constraints = set_flag(rules.anatomical_constraints, config.anatomical_constraints);
    config.hold_lost_landmarks = set_flag(rules.hold_lost_landmarks, config.hold_lost_landmarks);
    config.ease_recovery = set_flag(rules.ease_recovery, config.ease_recovery);
    config.limit_rotation_jumps = set_flag(rules.limit_rotation_jumps, config.limit_rotation_jumps);
    config.head_source_switch_blend = set_flag(rules.head_source_switch_blend, config.head_source_switch_blend);
    config.lost_signal_behavior = set_text(&rules.lost_signal_behavior, config.lost_signal_behavior);
    config.lost_signal_rest_pose_blend =
        set_clamped(rules.lost_signal_rest_pose_blend, F32_ZERO, F32_ONE, config.lost_signal_rest_pose_blend);
    config.lost_signal_hold_seconds =
        set_clamped(rules.lost_signal_hold_seconds, F32_ZERO, F32_THIRTY, config.lost_signal_hold_seconds);
    config.lost_signal_head_behavior = set_text(&rules.lost_signal_head_behavior, config.lost_signal_head_behavior);
    config.lost_signal_head_rest_pose_blend =
        set_clamped(rules.lost_signal_head_rest_pose_blend, F32_ZERO, F32_ONE, config.lost_signal_head_rest_pose_blend);
    config.lost_signal_head_hold_seconds =
        set_clamped(rules.lost_signal_head_hold_seconds, F32_ZERO, F32_THIRTY, config.lost_signal_head_hold_seconds);
    config.lost_signal_hands_behavior = set_text(&rules.lost_signal_hands_behavior, config.lost_signal_hands_behavior);
    config.lost_signal_hands_rest_pose_blend =
        set_clamped(rules.lost_signal_hands_rest_pose_blend, F32_ZERO, F32_ONE, config.lost_signal_hands_rest_pose_blend);
    config.lost_signal_hands_hold_seconds =
        set_clamped(rules.lost_signal_hands_hold_seconds, F32_ZERO, F32_THIRTY, config.lost_signal_hands_hold_seconds);
    config.lost_signal_arms_behavior = set_text(&rules.lost_signal_arms_behavior, config.lost_signal_arms_behavior);
    config.lost_signal_arms_rest_pose_blend =
        set_clamped(rules.lost_signal_arms_rest_pose_blend, F32_ZERO, F32_ONE, config.lost_signal_arms_rest_pose_blend);
    config.lost_signal_arms_hold_seconds =
        set_clamped(rules.lost_signal_arms_hold_seconds, F32_ZERO, F32_THIRTY, config.lost_signal_arms_hold_seconds);
    config.lost_signal_recovery_seconds =
        set_clamped(rules.lost_signal_recovery_seconds, F32_ZERO, F32_FIVE, config.lost_signal_recovery_seconds);
    config.head_from_pose = set_flag(rules.head_from_pose, config.head_from_pose);
    config.head_from_face_matrix = set_flag(rules.head_from_face_matrix, config.head_from_face_matrix);
    config.head_reconcile = set_flag(rules.head_reconcile, config.head_reconcile);
    config.neutral_eye_fallback = set_flag(rules.neutral_eye_fallback, config.neutral_eye_fallback);
    config.hand_camera_target = set_flag(rules.hand_camera_target, config.hand_camera_target);
    config.hand_orientation = set_flag(rules.hand_orientation, config.hand_orientation);
    config.finger_derived = set_flag(rules.finger_derived, config.finger_derived);
    config.arm_from_pose = set_flag(rules.arm_from_pose, config.arm_from_pose);
    config.arm_ik_from_hands = set_flag(rules.arm_ik_from_hands, config.arm_ik_from_hands);
    config.crossed_hand_heuristic = set_flag(rules.crossed_hand_heuristic, config.crossed_hand_heuristic);
    config.coordinate_correction = set_flag(rules.coordinate_correction, config.coordinate_correction);
    config.final_clamp = set_flag(rules.final_clamp, config.final_clamp);
    config
}

/// A performer's face pose model as a stream uses it.
#[derive(Clone, Copy, Debug, PartialEq, Eq, Structural)]
pub struct CoreFacePoseModelConfig {
    pub enabled: bool,
    pub neutral_nose_drop_eye_mouth: F32Bits,
}

/// The MediaPipe post-process settings of a motion stream.
#[derive(Clone, Debug, PartialEq)]
pub struct CoreMediaPipePostProcessSettings {
    pub head_enabled: bool,
    pub face_enabled: bool,
    pub hands_enabled: bool,
    pub arms_ik_enabled: bool,
    pub torso_enabled: bool,
    pub legs_enabled: bool,
    pub feet_enabled: bool,
    pub camera_diagonal_view_angle_deg: F32Bits,
    pub min_landmark_confidence: F32Bits,
    pub eye_open_bias: F32Bits,
    pub mirror_mode: String,
    pub post_process_rules: CoreUnmotionPostProcessRulesConfig,
    pub face_pose_model: Option<CoreFacePoseModelConfig>,
}

/// Whether the fields that a modifier block overrides hold `base`
/// overridden by `m`.
pub open spec fn modifier_applied(
    c: CoreMediaPipePostProcessSettings,
    base: CoreMediaPipePostProcessSettings,
    m: ProfileModifierSettings,
) -> bool {
    &&& c.head_enabled == flag_or(m.head_enabled, base.head_enabled)
    &&& c.face_enabled == flag_or(m.face_enabled, base.face_enabled)
    &&& c.hands_enabled == flag_or(m.hands_enabled, base.hands_enabled)
    &&& c.arms_ik_enabled == flag_or(m.arms_ik_enabled, base.arms_ik_enabled)
    &&& c.torso_enabled == flag_or(m.torso_enabled, base.torso_enabled)
    &&& c.legs_enabled == flag_or(m.legs_enabled, base.legs_enabled)
    &&& c.feet_enabled == flag_or(m.feet_enabled, base.feet_enabled)
    &&& c.camera_diagonal_view_angle_deg.0 == number_or(m.camera_diagonal_view_angle_deg, base.camera_diagonal_view_angle_deg.0)
    &&& c.min_landmark_confidence.0 == number_or(m.min_landmark_confidence, base.min_landmark_confidence.0)
    &&& c.eye_open_bias.0 == clamped_or(m.eye_open_bias, F32_ZERO, F32_ONE, base.eye_open_bias.0)
    &&& c.mirror_mode@ == text_or(m.mirror_mode, base.mirror_mode@)
}

/// Whether `c` is the default of every field that a modifier block reads.
pub open spec fn is_default_settings(c: CoreMediaPipePostProcessSettings) -> bool {
    &&& c.head_enabled
    &&& c.face_enabled
    &&& !c.hands_enabled
    &&& !c.arms_ik_enabled
    &&& !c.torso_enabled
    &&& !c.legs_enabled
    &&& !c.feet_enabled
    &&& c.camera_diagonal_view_angle_deg.0 == DEFAULT_VIEW_ANGLE_DEG
    &&& c.min_landmark_confidence.0 == DEFAULT_MIN_LANDMARK_CONFIDENCE
    &&& c.eye_open_bias.0 == DEFAULT_EYE_OPEN_BIAS
    &&& c.mirror_mode@ == "normal"@
    &&& rules_config_from(c.post_process_rules, ProfilePostProcessRules::spec_empty())
    &&& c.face_pose_model is None
}

impl Default for CoreMediaPipePostProcessSettings {
    fn default() -> (r: Self)
        ensures
            is_default_settings(r),
    {
        CoreMediaPipePostProcessSettings {
            head_enabled: true,
            face_enabled: true,
            hands_enabled: false,
            arms_ik_enabled: false,
            torso_enabled: false,
            legs_enabled: false,
            feet_enabled: false,
            camera_diagonal_view_angle_deg: F32Bits(DEFAULT_VIEW_ANGLE_DEG),
            min_landmark_confidence: F32Bits(DEFAULT_MIN_LANDMARK_CONFIDENCE),
            eye_open_bias: F32Bits(DEFAULT_EYE_OPEN_BIAS),
            mirror_mode: owned("normal"),
            post_process_rules: CoreUnmotionPostProcessRulesConfig::default(),
            face_pose_model: None,
        }
    }
}

/// A set number, else the current one.
fn set_number(value: Option<F32Bits>, current: F32Bits) -> (r: F32Bits)
    ensures
        r.0 == number_or(value, current.0),
{
    match value {
        Some(v) => v,
        None => current,
    }
}

/// Overrides the settings with what the modifier block sets; the eye-open
/// bias is clamped to `0..=1`.
#[verifier::rlimit(60)]
pub fn apply_modifier_settings(config: &mut CoreMediaPipePostProcessSettings, modifier: Option<&ProfileModifierSettings>)
    ensures
        match modifier {
            Some(m) => modifier_applied(*final(config), *old(config), *m)
                && final(config).post_process_rules == old(config).post_process_rules
                && final(config).face_pose_model == old(config).face_pose_model,
            None => *final(config) == *old(config),
        },
{
    let modifier = match modifier {
        Some(m) => m,
        None => {
            return;
        },
    };
    assert(clamp_bounds_ok(F32_ZERO, F32_ONE));
    config.head_enabled = set_flag(modifier.head_enabled, config.head_enabled);
    config.face_enabled = set_flag(modifier.face_enabled, config.face_enabled);
    config.hands_enabled = set_flag(modifier.hands_enabled, config.hands_enabled);
    config.arms_ik_enabled = set_flag(modifier.arms_ik_enabled, config.arms_ik_enabled);
    config.torso_enabled = set_flag(modifier.torso_enabled, config.torso_enabled);
    config.legs_enabled = set_flag(modifier.legs_enabled, config.legs_enabled);
    config.feet_enabled = set_flag(modifier.feet_enabled, config.feet_enabled);
    config.camera_diagonal_view_angle_deg =
        set_number(modifier.camera_diagonal_view_angle_deg, config.camera_diagonal_view_angle_deg);
    config.min_landmark_confidence = set_number(modifier.min_landmark_confidence, config.min_landmark_confidence);
    config.eye_open_bias = set_clamped(modifier.eye_open_bias, F32_ZERO, F32_ONE, config.eye_open_bias);
    match &modifier.mirror_mode {
        Some(v) => {
            config.mirror_mode = owned(v.as_str());
        },
        None => {},
    }
}

/// The modifier block of a runtime selection, if there is one.
pub open spec fn modifier_of(runtime: Option<&ProfileRuntimeSettings>) -> Option<ProfileModifierSettings> {
    match runtime {
        Some(r) => r.modifier,
        None => None,
    }
}

/// The face pose model a modifier block enables: present only where the
/// block has a model marked enabled with a neutral nose drop.
pub open spec fn face_pose_model_of(m: Option<ProfileModifierSettings>) -> Option<CoreFacePoseModelConfig> {
    match m {
        Some(m) => match m.face_pose_model {
            Some(model) => match model.neutral_nose_drop_eye_mouth {
                Some(neutral) => if flag_or(model.enabled, false) {
                    Some(CoreFacePoseModelConfig { enabled: true, neutral_nose_drop_eye_mouth: neutral })
                } else {
                    None
                },
                None => None,
            },
            None => None,
        },
        None => None,
    }
}

/// The post-process rules of a modifier block, if it has any.
pub open spec fn rules_of(m: Option<ProfileModifierSettings>) -> ProfilePostProcessRules {
    match m {
        Some(m) => match m.post_process_rules {
            Some(r) => r,
            None => ProfilePostProcessRules::spec_empty(),
        },
        None => ProfilePostProcessRules::spec_empty(),
    }
}

/// The settings a stream's engine runs with: the defaults overridden by the
/// modifier block, then every body part on and mirroring off, since the
/// output modifier is the one stage that reads those.
pub open spec fn engine_settings_from(c: CoreMediaPipePostProcessSettings, m: Option<ProfileModifierSettings>) -> bool {
    &&& c.head_enabled && c.face_enabled && c.hands_enabled && c.arms_ik_enabled
    &&& c.torso_enabled && c.legs_enabled && c.feet_enabled
    &&& c.mirror_mode@ == "normal"@
    &&& c.camera_diagonal_view_angle_deg.0 == number_or(
        match m { Some(m) => m.camera_diagonal_view_angle_deg, None => None },
        DEFAULT_VIEW_ANGLE_DEG,
    )
    &&& c.min_landmark_confidence.0 == number_or(
        match m { Some(m) => m.min_landmark_confidence, None => None },
        DEFAULT_MIN_LANDMARK_CONFIDENCE,
    )
    &&& c.eye_open_bias.0 == clamped_or(
        match m { Some(m) => m.eye_open_bias, None => None },
        F32_ZERO,
        F32_ONE,
        DEFAULT_EYE_OPEN_BIAS,
    )
    &&& rules_config_from(c.post_process_rules, rules_of(m))
    &&& c.face_pose_model == face_pose_model_of(m)
}

/// The modifier block of a runtime selection, by reference.
fn modifier_ref(runtime: Option<&ProfileRuntimeSettings>) -> (r: Option<&ProfileModifierSettings>)
    ensures
        match r {
            Some(m) => modifier_of(runtime) == Some(*m),
            None => modifier_of(runtime) is None,
        },
{
    match runtime {
        Some(rt) => match &rt.modifier {
            Some(m) => Some(m),
            None => None,
        },
        None => None,
    }
}

/// The post-process rules of a modifier block, by reference.
fn rules_ref(modifier: Option<&ProfileModifierSettings>) -> (r: Option<&ProfilePostProcessRules>)
    ensures
        rules_or_empty(r) == rules_of(match modifier { Some(m) => Some(*m), None => None }),
{
    match modifier {
        Some(m) => match &m.post_process_rules {
            Some(r) => Some(r),
            None => None,
        },
        None => None,
    }
}

/// The face pose model a modifier block enables.
fn face_pose_model_from(modifier: Option<&ProfileModifierSettings>) -> (r: Option<CoreFacePoseModelConfig>)
    ensures
        r == face_pose_model_of(match modifier { Some(m) => Some(*m), None => None }),
{
    match modifier {
        Some(m) => match &m.face_pose_model {
            Some(model) => match model.neutral_nose_drop_eye_mouth {
                Some(neutral) => {
                    let enabled = match model.enabled {
                        Some(e) => e,
                        None => false,
                    };
                    if enabled {
                        Some(CoreFacePoseModelConfig { enabled, neutral_nose_drop_eye_mouth: neutral })
                    } else {
                        None
                    }
                },
                None => None,
            },
            None => None,
        },
        None => None,
    }
}

/// The MediaPipe post-process settings of a runtime selection.
pub fn core_media_pipe_post_process_settings(runtime: Option<&ProfileRuntimeSettings>) -> (r:
    CoreMediaPipePostProcessSettings)
    ensures
        engine_settings_from(r, modifier_of(runtime)),
{
    let modifier = modifier_ref(runtime);
    let mut config = CoreMediaPipePostProcessSettings::default();
    apply_modifier_settings(&mut config, modifier);
    config.post_process_rules = core_unmotion_post_process_rules_config(rules_ref(modifier));
    config.face_pose_model = face_pose_model_from(modifier);
    config.head_enabled = true;
    config.face_enabled = true;
    config.hands_enabled = true;
    config.arms_ik_enabled = true;
    config.torso_enabled = true;
    config.legs_enabled = true;
    config.feet_enabled = true;
    config.mirror_mode = owned("normal");
    config
}

} // verus!
