//! Editing one setting of a profile by its dotted path, as the console's
//! settings form does: `name`, `runtime_selection.fps`,
//! `runtime_selection.modifier.post_process_rules.final_clamp` and so on.
//! A null value unsets an optional setting, which brings back the runtime
//! default; a block left with nothing set is removed.
use vstd::prelude::*;

use crate::float_bits::{clamp_bounds_ok, f32_clamp, F32Bits};
use crate::post_process_settings::{F32_ONE, F32_ZERO};
use crate::profile_schema::{
    ProfileFacePoseModelSettings, ProfileModifierSettings, ProfilePipelineComponents, ProfilePostProcessRules,
    ProfileRuntimeSettings, DocumentProfile, ProfileDocument,
};
use crate::profile_ops::{find_profile, lemma_position_bounds, position};
use crate::text::{
    chars_eq_str, chars_of, has_prefix, owned, slice_chars, starts_with, string_of, trim, trim_chars, trimmed,
};

verus! {

/// A JSON value as the editor reads it.
#[derive(Clone, Debug, PartialEq)]
pub enum FieldValue {
    Null,
    Bool(bool),
    Text(String),
    /// A number: the `u64` it is, if it is one, and the `f32` nearest to it,
    /// if it is finite, not negative and within the range of `f32`.
    Number { as_u64: Option<u64>, as_nonnegative_f32: Option<F32Bits> },
    /// An array or an object.
    Other,
}

/// Why an edit was refused.
#[derive(Clone, Debug, PartialEq, Eq)]
pub enum FieldError {
    NotString { field: String },
    NotStringOrNull { field: String },
    NotBoolOrNull { field: String },
    ExceedsU32 { field: String },
    NotUnsignedOrNull { field: String },
    NotNumberOrNull { field: String },
    UnknownField { scope: FieldScope, field: String },
}

/// The block a setting path was resolved in.
#[derive(Clone, Copy, Debug, PartialEq, Eq, Structural)]
pub enum FieldScope {
    Profile,
    RuntimeSelection,
    Modifier,
    FacePoseModel,
    PostProcessRules,
    PipelineComponents,
}

/// A refusal as plain values.
pub enum FieldErrorView {
    NotString(Seq<char>),
    NotStringOrNull(Seq<char>),
    NotBoolOrNull(Seq<char>),
    ExceedsU32(Seq<char>),
    NotUnsignedOrNull(Seq<char>),
    NotNumberOrNull(Seq<char>),
    UnknownField(FieldScope, Seq<char>),
}

impl FieldError {
    pub open spec fn view(self) -> FieldErrorView {
        match self {
            FieldError::NotString { field } => FieldErrorView::NotString(field@),
            FieldError::NotStringOrNull { field } => FieldErrorView::NotStringOrNull(field@),
            FieldError::NotBoolOrNull { field } => FieldErrorView::NotBoolOrNull(field@),
            FieldError::ExceedsU32 { field } => FieldErrorView::ExceedsU32(field@),
            FieldError::NotUnsignedOrNull { field } => FieldErrorView::NotUnsignedOrNull(field@),
            FieldError::NotNumberOrNull { field } => FieldErrorView::NotNumberOrNull(field@),
            FieldError::UnknownField { scope, field } => FieldErrorView::UnknownField(scope, field@),
        }
    }
}

/// An optional text: null unsets it, a text sets it trimmed, a blank text
/// unsets it.
pub open spec fn text_value(v: FieldValue, field: Seq<char>) -> Result<Option<Seq<char>>, FieldErrorView> {
    match v {
        FieldValue::Null => Ok(None),
        FieldValue::Text(s) => if trim(s@).len() == 0 {
            Ok(None)
        } else {
            Ok(Some(trim(s@)))
        },
        _ => Err(FieldErrorView::NotStringOrNull(field)),
    }
}

/// A required text, as given.
pub open spec fn required_text_value(v: FieldValue, field: Seq<char>) -> Result<Seq<char>, FieldErrorView> {
    match v {
        FieldValue::Text(s) => Ok(s@),
        _ => Err(FieldErrorView::NotString(field)),
    }
}

/// An optional flag.
pub open spec fn flag_value(v: FieldValue, field: Seq<char>) -> Result<Option<bool>, FieldErrorView> {
    match v {
        FieldValue::Null => Ok(None),
        FieldValue::Bool(b) => Ok(Some(b)),
        _ => Err(FieldErrorView::NotBoolOrNull(field)),
    }
}

/// An optional `u32`.
pub open spec fn u32_value(v: FieldValue, field: Seq<char>) -> Result<Option<u32>, FieldErrorView> {
    match v {
        FieldValue::Null => Ok(None),
        FieldValue::Number { as_u64: Some(n), .. } => if n > u32::MAX {
            Err(FieldErrorView::ExceedsU32(field))
        } else {
            Ok(Some(n as u32))
        },
        _ => Err(FieldErrorView::NotUnsignedOrNull(field)),
    }
}

/// An optional non-negative number.
pub open spec fn number_value(v: FieldValue, field: Seq<char>) -> Result<Option<F32Bits>, FieldErrorView> {
    match v {
        FieldValue::Null => Ok(None),
        FieldValue::Number { as_nonnegative_f32: Some(x), .. } => Ok(Some(x)),
        _ => Err(FieldErrorView::NotNumberOrNull(field)),
    }
}

/// The view of an optional text.
pub open spec fn text_view(o: Option<String>) -> Option<Seq<char>> {
    match o {
        Some(s) => Some(s@),
        None => None,
    }
}

/// Whether an exec result matches a spec result over views.
pub open spec fn text_result_matches(r: Result<Option<String>, FieldError>, s: Result<Option<Seq<char>>, FieldErrorView>) -> bool {
    match r {
        Ok(x) => s == Ok::<Option<Seq<char>>, FieldErrorView>(text_view(x)),
        Err(e) => s == Err::<Option<Seq<char>>, FieldErrorView>(e.view()),
    }
}

pub open spec fn result_matches<T>(r: Result<T, FieldError>, s: Result<T, FieldErrorView>) -> bool {
    match r {
        Ok(x) => s == Ok::<T, FieldErrorView>(x),
        Err(e) => s == Err::<T, FieldErrorView>(e.view()),
    }
}

/// An optional text setting.
pub fn opt_string(value: &FieldValue, field: &str) -> (r: Result<Option<String>, FieldError>)
    ensures
        text_result_matches(r, text_value(*value, field@)),
{
    match value {
        FieldValue::Null => Ok(None),
        FieldValue::Text(s) => {
            let v = chars_of(s.as_str());
            let t = trim_chars(&v);
            if t.len() == 0 {
                Ok(None)
            } else {
                Ok(Some(string_of(&t)))
            }
        },
        _ => Err(FieldError::NotStringOrNull { field: owned(field) }),
    }
}

/// A required text setting.
pub fn expect_string(value: &FieldValue, field: &str) -> (r: Result<String, FieldError>)
    ensures
        match r {
            Ok(s) => required_text_value(*value, field@) == Ok::<Seq<char>, FieldErrorView>(s@),
            Err(e) => required_text_value(*value, field@) == Err::<Seq<char>, FieldErrorView>(e.view()),
        },
{
    match value {
        FieldValue::Text(s) => Ok(owned(s.as_str())),
        _ => Err(FieldError::NotString { field: owned(field) }),
    }
}

/// An optional flag setting.
pub fn opt_bool(value: &FieldValue, field: &str) -> (r: Result<Option<bool>, FieldError>)
    ensures
        result_matches(r, flag_value(*value, field@)),
{
    match value {
        FieldValue::Null => Ok(None),
        FieldValue::Bool(b) => Ok(Some(*b)),
        _ => Err(FieldError::NotBoolOrNull { field: owned(field) }),
    }
}

/// An optional `u32` setting.
pub fn opt_u32(value: &FieldValue, field: &str) -> (r: Result<Option<u32>, FieldError>)
    ensures
        result_matches(r, u32_value(*value, field@)),
{
    match value {
        FieldValue::Null => Ok(None),
        FieldValue::Number { as_u64: Some(n), .. } => if *n > 0xffff_ffffu64 {
            Err(FieldError::ExceedsU32 { field: owned(field) })
        } else {
            Ok(Some(*n as u32))
        },
        _ => Err(FieldError::NotUnsignedOrNull { field: owned(field) }),
    }
}

/// An optional non-negative number setting.
pub fn opt_f32(value: &FieldValue, field: &str) -> (r: Result<Option<F32Bits>, FieldError>)
    ensures
        result_matches(r, number_value(*value, field@)),
{
    match value {
        FieldValue::Null => Ok(None),
        FieldValue::Number { as_nonnegative_f32: Some(x), .. } => Ok(Some(*x)),
        _ => Err(FieldError::NotNumberOrNull { field: owned(field) }),
    }
}

/// A number clamped to `0..=1`.
pub open spec fn unit_clamped(x: Option<F32Bits>) -> Option<F32Bits> {
    match x {
        Some(v) => Some(F32Bits(f32_clamp(v.0, F32_ZERO, F32_ONE))),
        None => None,
    }
}

fn clamp_unit(x: Option<F32Bits>) -> (r: Option<F32Bits>)
    ensures
        r == unit_clamped(x),
{
    assert(clamp_bounds_ok(F32_ZERO, F32_ONE));
    match x {
        Some(v) => Some(v.clamp(F32Bits(F32_ZERO), F32Bits(F32_ONE))),
        None => None,
    }
}

/// A count of at least one.
pub open spec fn at_least_one(x: Option<u32>) -> Option<u32> {
    match x {
        Some(n) => Some(if n < 1 { 1u32 } else { n }),
        None => None,
    }
}

fn raise_to_one(x: Option<u32>) -> (r: Option<u32>)
    ensures
        r == at_least_one(x),
{
    match x {
        Some(n) => Some(if n < 1 { 1 } else { n }),
        None => None,
    }
}

/// A result with its value dropped.
pub open spec fn unit_of<T>(r: Result<T, FieldErrorView>) -> Result<(), FieldErrorView> {
    match r {
        Ok(_) => Ok(()),
        Err(e) => Err(e),
    }
}

/// Whether setting `field` of a face pose model block to `v` is accepted, and the refusal where it is not.
pub open spec fn face_pose_model_field_result(field: Seq<char>, v: FieldValue) -> Result<(), FieldErrorView> {
    if field == "enabled"@ {
        unit_of(flag_value(v, field))
    } else if field == "neutral_nose_drop_eye_mouth"@ {
        unit_of(number_value(v, field))
    } else if field == "sample_count"@ {
        unit_of(u32_value(v, field))
    } else if field == "median_abs_yaw"@ {
        unit_of(number_value(v, field))
    } else if field == "median_abs_roll"@ {
        unit_of(number_value(v, field))
    } else {
        Err(FieldErrorView::UnknownField(FieldScope::FacePoseModel, field))
    }
}

/// Whether `new` is the face pose model block `old` with `field` set to `v`.
pub open spec fn face_pose_model_field_applied(old: ProfileFacePoseModelSettings, new: ProfileFacePoseModelSettings, field: Seq<char>, v: FieldValue) -> bool {
    if field == "enabled"@ {
        flag_value(v, field) matches Ok(x) && new == (ProfileFacePoseModelSettings { enabled: x, ..old })
    } else if field == "neutral_nose_drop_eye_mouth"@ {
        number_value(v, field) matches Ok(x) && new == (ProfileFacePoseModelSettings { neutral_nose_drop_eye_mouth: x, ..old })
    } else if field == "sample_count"@ {
        u32_value(v, field) matches Ok(x) && new == (ProfileFacePoseModelSettings { sample_count: x, ..old })
    } else if field == "median_abs_yaw"@ {
        number_value(v, field) matches Ok(x) && new == (ProfileFacePoseModelSettings { median_abs_yaw: x, ..old })
    } else if field == "median_abs_roll"@ {
        number_value(v, field) matches Ok(x) && new == (ProfileFacePoseModelSettings { median_abs_roll: x, ..old })
    } else {
        false
    }
}

/// Sets `field` of a face pose model block to `value`; refused, and nothing changed, where
/// the path names no setting or the value does not fit it.
pub fn apply_face_pose_model_field(target: &mut ProfileFacePoseModelSettings, field: &str, value: &FieldValue) -> (r: Result<(), FieldError>)
    ensures
        match r {
            Ok(()) => face_pose_model_field_result(field@, *value) is Ok && face_pose_model_field_applied(*old(target), *final(target), field@, *value),
            Err(e) => face_pose_model_field_result(field@, *value) == Err::<(), FieldErrorView>(e.view()) && *final(target) == *old(target),
        },
{
    let f = chars_of(field);
    if chars_eq_str(&f, "enabled") {
        match opt_bool(value, field) {
            Ok(x) => { target.enabled = x; Ok(()) },
            Err(e) => Err(e),
        }
    } else if chars_eq_str(&f, "neutral_nose_drop_eye_mouth") {
        match opt_f32(value, field) {
            Ok(x) => { target.neutral_nose_drop_eye_mouth = x; Ok(()) },
            Err(e) => Err(e),
        }
    } else if chars_eq_str(&f, "sample_count") {
        match opt_u32(value, field) {
            Ok(x) => { target.sample_count = x; Ok(()) },
            Err(e) => Err(e),
        }
    } else if chars_eq_str(&f, "median_abs_yaw") {
        match opt_f32(value, field) {
            Ok(x) => { target.median_abs_yaw = x; Ok(()) },
            Err(e) => Err(e),
        }
    } else if chars_eq_str(&f, "median_abs_roll") {
        match opt_f32(value, field) {
            Ok(x) => { target.median_abs_roll = x; Ok(()) },
            Err(e) => Err(e),
        }
    } else {
        Err(FieldError::UnknownField { scope: FieldScope::FacePoseModel, field: owned(field) })
    }
}

/// Whether setting `field` of a post-process rules block to `v` is accepted, and the refusal where it is not.
pub open spec fn post_process_rules_field_result(field: Seq<char>, v: FieldValue) -> Result<(), FieldErrorView> {
    if field == "anatomical_constraints"@ {
        unit_of(flag_value(v, field))
    } else if field == "hold_lost_landmarks"@ {
        unit_of(flag_value(v, field))
    } else if field == "ease_recovery"@ {
        unit_of(flag_value(v, field))
    } else if field == "limit_rotation_jumps"@ {
        unit_of(flag_value(v, field))
    } else if field == "head_source_switch_blend"@ {
        unit_of(flag_value(v, field))
    } else if field == "head_from_face_matrix"@ {
        unit_of(flag_value(v, field))
    } else if field == "lost_signal_behavior"@ {
        unit_of(text_value(v, field))
    } else if field == "lost_signal_rest_pose_blend"@ {
        unit_of(number_value(v, field))
    } else if field == "lost_signal_hold_seconds"@ {
        unit_of(number_value(v, field))
    } else if field == "lost_signal_head_behavior"@ {
        unit_of(text_value(v, field))
    } else if field == "lost_signal_head_rest_pose_blend"@ {
        unit_of(number_value(v, field))
    } else if field == "lost_signal_head_hold_seconds"@ {
        unit_of(number_value(v, field))
    } else if field == "lost_signal_hands_behavior"@ {
        unit_of(text_value(v, field))
    } else if field == "lost_signal_hands_rest_pose_blend"@ {
        unit_of(number_value(v, field))
    } else if field == "lost_signal_hands_hold_seconds"@ {
        unit_of(number_value(v, field))
    } else if field == "lost_signal_arms_behavior"@ {
        unit_of(text_value(v, field))
    } else if field == "lost_signal_arms_rest_pose_blend"@ {
        unit_of(number_value(v, field))
    } else if field == "lost_signal_arms_hold_seconds"@ {
        unit_of(number_value(v, field))
    } else if field == "lost_signal_recovery_seconds"@ {
        unit_of(number_value(v, field))
    } else {
        Err(FieldErrorView::UnknownField(FieldScope::PostProcessRules, field))
    }
}

/// Whether `new` is the post-process rules block `old` with `field` set to `v`.
pub open spec fn post_process_rules_field_applied(old: ProfilePostProcessRules, new: ProfilePostProcessRules, field: Seq<char>, v: FieldValue) -> bool {
    if field == "anatomical_constraints"@ {
        flag_value(v, field) matches Ok(x) && new == (ProfilePostProcessRules { anatomical_constraints: x, ..old })
    } else if field == "hold_lost_landmarks"@ {
        flag_value(v, field) matches Ok(x) && new == (ProfilePostProcessRules { hold_lost_landmarks: x, ..old })
    } else if field == "ease_recovery"@ {
        flag_value(v, field) matches Ok(x) && new == (ProfilePostProcessRules { ease_recovery: x, ..old })
    } else if field == "limit_rotation_jumps"@ {
        flag_value(v, field) matches Ok(x) && new == (ProfilePostProcessRules { limit_rotation_jumps: x, ..old })
    } else if field == "head_source_switch_blend"@ {
        flag_value(v, field) matches Ok(x) && new == (ProfilePostProcessRules { head_source_switch_blend: x, ..old })
    } else if field == "head_from_face_matrix"@ {
        flag_value(v, field) matches Ok(x) && new == (ProfilePostProcessRules { head_from_face_matrix: x, ..old })
    } else if field == "lost_signal_behavior"@ {
        text_value(v, field) matches Ok(x) && new == (ProfilePostProcessRules { lost_signal_behavior: new.lost_signal_behavior, ..old }) && text_view(new.lost_signal_behavior) == x
    } else if field == "lost_signal_rest_pose_blend"@ {
        number_value(v, field) matches Ok(x) && new == (ProfilePostProcessRules { lost_signal_rest_pose_blend: x, ..old })
    } else if field == "lost_signal_hold_seconds"@ {
        number_value(v, field) matches Ok(x) && new == (ProfilePostProcessRules { lost_signal_hold_seconds: x, ..old })
    } else if field == "lost_signal_head_behavior"@ {
        text_value(v, field) matches Ok(x) && new == (ProfilePostProcessRules { lost_signal_head_behavior: new.lost_signal_head_behavior, ..old }) && text_view(new.lost_signal_head_behavior) == x
    } else if field == "lost_signal_head_rest_pose_blend"@ {
        number_value(v, field) matches Ok(x) && new == (ProfilePostProcessRules { lost_signal_head_rest_pose_blend: x, ..old })
    } else if field == "lost_signal_head_hold_seconds"@ {
        number_value(v, field) matches Ok(x) && new == (ProfilePostProcessRules { lost_signal_head_hold_seconds: x, ..old })
    } else if field == "lost_signal_hands_behavior"@ {
        text_value(v, field) matches Ok(x) && new == (ProfilePostProcessRules { lost_signal_hands_behavior: new.lost_signal_hands_behavior, ..old }) && text_view(new.lost_signal_hands_behavior) == x
    } else if field == "lost_signal_hands_rest_pose_blend"@ {
        number_value(v, field) matches Ok(x) && new == (ProfilePostProcessRules { lost_signal_hands_rest_pose_blend: x, ..old })
    } else if field == "lost_signal_hands_hold_seconds"@ {
        number_value(v, field) matches Ok(x) && new == (ProfilePostProcessRules { lost_signal_hands_hold_seconds: x, ..old })
    } else if field == "lost_signal_arms_behavior"@ {
        text_value(v, field) matches Ok(x) && new == (ProfilePostProcessRules { lost_signal_arms_behavior: new.lost_signal_arms_behavior, ..old }) && text_view(new.lost_signal_arms_behavior) == x
    } else if field == "lost_signal_arms_rest_pose_blend"@ {
        number_value(v, field) matches Ok(x) && new == (ProfilePostProcessRules { lost_signal_arms_rest_pose_blend: x, ..old })
    } else if field == "lost_signal_arms_hold_seconds"@ {
        number_value(v, field) matches Ok(x) && new == (ProfilePostProcessRules { lost_signal_arms_hold_seconds: x, ..old })
    } else if field == "lost_signal_recovery_seconds"@ {
        number_value(v, field) matches Ok(x) && new == (ProfilePostProcessRules { lost_signal_recovery_seconds: x, ..old })
    } else {
        false
    }
}

/// Sets `field` of a post-process rules block to `value`; refused, and nothing changed, where
/// the path names no setting or the value does not fit it.
pub fn apply_post_process_rules_field(target: &mut ProfilePostProcessRules, field: &str, value: &FieldValue) -> (r: Result<(), FieldError>)
    ensures
        match r {
            Ok(()) => post_process_rules_field_result(field@, *value) is Ok && post_process_rules_field_applied(*old(target), *final(target), field@, *value),
            Err(e) => post_process_rules_field_result(field@, *value) == Err::<(), FieldErrorView>(e.view()) && *final(target) == *old(target),
        },
{
    let f = chars_of(field);
    if chars_eq_str(&f, "anatomical_constraints") {
        match opt_bool(value, field) {
            Ok(x) => { target.anatomical_constraints = x; Ok(()) },
            Err(e) => Err(e),
        }
    } else if chars_eq_str(&f, "hold_lost_landmarks") {
        match opt_bool(value, field) {
            Ok(x) => { target.hold_lost_landmarks = x; Ok(()) },
            Err(e) => Err(e),
        }
    } else if chars_eq_str(&f, "ease_recovery") {
        match opt_bool(value, field) {
            Ok(x) => { target.ease_recovery = x; Ok(()) },
            Err(e) => Err(e),
        }
    } else if chars_eq_str(&f, "limit_rotation_jumps") {
        match opt_bool(value, field) {
            Ok(x) => { target.limit_rotation_jumps = x; Ok(()) },
            Err(e) => Err(e),
        }
    } else if chars_eq_str(&f, "head_source_switch_blend") {
        match opt_bool(value, field) {
            Ok(x) => { target.head_source_switch_blend = x; Ok(()) },
            Err(e) => Err(e),
        }
    } else if chars_eq_str(&f, "head_from_face_matrix") {
        match opt_bool(value, field) {
            Ok(x) => { target.head_from_face_matrix = x; Ok(()) },
            Err(e) => Err(e),
        }
    } else if chars_eq_str(&f, "lost_signal_behavior") {
        match opt_string(value, field) {
            Ok(x) => { target.lost_signal_behavior = x; Ok(()) },
            Err(e) => Err(e),
        }
    } else if chars_eq_str(&f, "lost_signal_rest_pose_blend") {
        match opt_f32(value, field) {
            Ok(x) => { target.lost_signal_rest_pose_blend = x; Ok(()) },
            Err(e) => Err(e),
        }
    } else if chars_eq_str(&f, "lost_signal_hold_seconds") {
        match opt_f32(value, field) {
            Ok(x) => { target.lost_signal_hold_seconds = x; Ok(()) },
            Err(e) => Err(e),
        }
    } else if chars_eq_str(&f, "lost_signal_head_behavior") {
        match opt_string(value, field) {
            Ok(x) => { target.lost_signal_head_behavior = x; Ok(()) },
            Err(e) => Err(e),
        }
    } else if chars_eq_str(&f, "lost_signal_head_rest_pose_blend") {
        match opt_f32(value, field) {
            Ok(x) => { target.lost_signal_head_rest_pose_blend = x; Ok(()) },
            Err(e) => Err(e),
        }
    } else if chars_eq_str(&f, "lost_signal_head_hold_seconds") {
        match opt_f32(value, field) {
            Ok(x) => { target.lost_signal_head_hold_seconds = x; Ok(()) },
            Err(e) => Err(e),
        }
    } else if chars_eq_str(&f, "lost_signal_hands_behavior") {
        match opt_string(value, field) {
            Ok(x) => { target.lost_signal_hands_behavior = x; Ok(()) },
            Err(e) => Err(e),
        }
    } else if chars_eq_str(&f, "lost_signal_hands_rest_pose_blend") {
        match opt_f32(value, field) {
            Ok(x) => { target.lost_signal_hands_rest_pose_blend = x; Ok(()) },
            Err(e) => Err(e),
        }
    } else if chars_eq_str(&f, "lost_signal_hands_hold_seconds") {
        match opt_f32(value, field) {
            Ok(x) => { target.lost_signal_hands_hold_seconds = x; Ok(()) },
            Err(e) => Err(e),
        }
    } else if chars_eq_str(&f, "lost_signal_arms_behavior") {
        match opt_string(value, field) {
            Ok(x) => { target.lost_signal_arms_behavior = x; Ok(()) },
            Err(e) => Err(e),
        }
    } else if chars_eq_str(&f, "lost_signal_arms_rest_pose_blend") {
        match opt_f32(value, field) {
            Ok(x) => { target.lost_signal_arms_rest_pose_blend = x; Ok(()) },
            Err(e) => Err(e),
        }
    } else if chars_eq_str(&f, "lost_signal_arms_hold_seconds") {
        match opt_f32(value, field) {
            Ok(x) => { target.lost_signal_arms_hold_seconds = x; Ok(()) },
            Err(e) => Err(e),
        }
    } else if chars_eq_str(&f, "lost_signal_recovery_seconds") {
        match opt_f32(value, field) {
            Ok(x) => { target.lost_signal_recovery_seconds = x; Ok(()) },
            Err(e) => Err(e),
        }
    } else {
        Err(FieldError::UnknownField { scope: FieldScope::PostProcessRules, field: owned(field) })
    }
}

/// Whether setting `field` of a pipeline components block to `v` is accepted, and the refusal where it is not.
pub open spec fn pipeline_field_result(field: Seq<char>, v: FieldValue) -> Result<(), FieldErrorView> {
    if field == "input"@ {
        unit_of(text_value(v, field))
    } else if field == "post_process"@ {
        unit_of(text_value(v, field))
    } else if field == "input_path"@ {
        unit_of(text_value(v, field))
    } else if field == "input_fps"@ {
        unit_of(u32_value(v, field))
    } else if field == "input_width"@ {
        unit_of(u32_value(v, field))
    } else if field == "input_height"@ {
        unit_of(u32_value(v, field))
    } else if field == "input_pixel_format"@ {
        unit_of(text_value(v, field))
    } else if field == "input_repeat"@ {
        unit_of(flag_value(v, field))
    } else if field == "input_ffmpeg_path"@ {
        unit_of(text_value(v, field))
    } else if field == "input_denoise_mode"@ {
        unit_of(text_value(v, field))
    } else if field == "input_denoise_temporal_iir_hz"@ {
        unit_of(number_value(v, field))
    } else if field == "input_resize_enabled"@ {
        unit_of(flag_value(v, field))
    } else if field == "input_resize_axis"@ {
        unit_of(text_value(v, field))
    } else if field == "input_resize_reference"@ {
        unit_of(u32_value(v, field))
    } else if field == "input_resize_width"@ {
        unit_of(u32_value(v, field))
    } else if field == "input_resize_height"@ {
        unit_of(u32_value(v, field))
    } else if field == "input_resize_preserve_aspect"@ {
        unit_of(flag_value(v, field))
    } else if field == "input_resize_pad_color"@ {
        unit_of(text_value(v, field))
    } else {
        Err(FieldErrorView::UnknownField(FieldScope::PipelineComponents, field))
    }
}

/// Whether `new` is the pipeline components block `old` with `field` set to `v`.
pub open spec fn pipeline_field_applied(old: ProfilePipelineComponents, new: ProfilePipelineComponents, field: Seq<char>, v: FieldValue) -> bool {
    if field == "input"@ {
        text_value(v, field) matches Ok(x) && new == (ProfilePipelineComponents { input: new.input, ..old }) && text_view(new.input) == x
    } else if field == "post_process"@ {
        text_value(v, field) matches Ok(x) && new == (ProfilePipelineComponents { post_process: new.post_process, ..old }) && text_view(new.post_process) == x
    } else if field == "input_path"@ {
        text_value(v, field) matches Ok(x) && new == (ProfilePipelineComponents { input_path: new.input_path, ..old }) && text_view(new.input_path) == x
    } else if field == "input_fps"@ {
        u32_value(v, field) matches Ok(x) && new == (ProfilePipelineComponents { input_fps: x, ..old })
    } else if field == "input_width"@ {
        u32_value(v, field) matches Ok(x) && new == (ProfilePipelineComponents { input_width: x, ..old })
    } else if field == "input_height"@ {
        u32_value(v, field) matches Ok(x) && new == (ProfilePipelineComponents { input_height: x, ..old })
    } else if field == "input_pixel_format"@ {
        text_value(v, field) matches Ok(x) && new == (ProfilePipelineComponents { input_pixel_format: new.input_pixel_format, ..old }) && text_view(new.input_pixel_format) == x
    } else if field == "input_repeat"@ {
        flag_value(v, field) matches Ok(x) && new == (ProfilePipelineComponents { input_repeat: x, ..old })
    } else if field == "input_ffmpeg_path"@ {
        text_value(v, field) matches Ok(x) && new == (ProfilePipelineComponents { input_ffmpeg_path: new.input_ffmpeg_path, ..old }) && text_view(new.input_ffmpeg_path) == x
    } else if field == "input_denoise_mode"@ {
        text_value(v, field) matches Ok(x) && new == (ProfilePipelineComponents { input_denoise_mode: new.input_denoise_mode, ..old }) && text_view(new.input_denoise_mode) == x
    } else if field == "input_denoise_temporal_iir_hz"@ {
        number_value(v, field) matches Ok(x) && new == (ProfilePipelineComponents { input_denoise_temporal_iir_hz: x, ..old })
    } else if field == "input_resize_enabled"@ {
        flag_value(v, field) matches Ok(x) && new == (ProfilePipelineComponents { input_resize_enabled: x, ..old })
    } else if field == "input_resize_axis"@ {
        text_value(v, field) matches Ok(x) && new == (ProfilePipelineComponents { input_resize_axis: new.input_resize_axis, ..old }) && text_view(new.input_resize_axis) == x
    } else if field == "input_resize_reference"@ {
        u32_value(v, field) matches Ok(x) && new == (ProfilePipelineComponents { input_resize_reference: x, ..old })
    } else if field == "input_resize_width"@ {
        u32_value(v, field) matches Ok(x) && new == (ProfilePipelineComponents { input_resize_width: x, ..old })
    } else if field == "input_resize_height"@ {
        u32_value(v, field) matches Ok(x) && new == (ProfilePipelineComponents { input_resize_height: x, ..old })
    } else if field == "input_resize_preserve_aspect"@ {
        flag_value(v, field) matches Ok(x) && new == (ProfilePipelineComponents { input_resize_preserve_aspect: x, ..old })
    } else if field == "input_resize_pad_color"@ {
        text_value(v, field) matches Ok(x) && new == (ProfilePipelineComponents { input_resize_pad_color: new.input_resize_pad_color, ..old }) && text_view(new.input_resize_pad_color) == x
    } else {
        false
    }
}

/// Sets `field` of a pipeline components block to `value`; refused, and nothing changed, where
/// the path names no setting or the value does not fit it.
pub fn apply_pipeline_field(target: &mut ProfilePipelineComponents, field: &str, value: &FieldValue) -> (r: Result<(), FieldError>)
    ensures
        match r {
            Ok(()) => pipeline_field_result(field@, *value) is Ok && pipeline_field_applied(*old(target), *final(target), field@, *value),
            Err(e) => pipeline_field_result(field@, *value) == Err::<(), FieldErrorView>(e.view()) && *final(target) == *old(target),
        },
{
    let f = chars_of(field);
    if chars_eq_str(&f, "input") {
        match opt_string(value, field) {
            Ok(x) => { target.input = x; Ok(()) },
            Err(e) => Err(e),
        }
    } else if chars_eq_str(&f, "post_process") {
        match opt_string(value, field) {
            Ok(x) => { target.post_process = x; Ok(()) },
            Err(e) => Err(e),
        }
    } else if chars_eq_str(&f, "input_path") {
        match opt_string(value, field) {
            Ok(x) => { target.input_path = x; Ok(()) },
            Err(e) => Err(e),
        }
    } else if chars_eq_str(&f, "input_fps") {
        match opt_u32(value, field) {
            Ok(x) => { target.input_fps = x; Ok(()) },
            Err(e) => Err(e),
        }
    } else if chars_eq_str(&f, "input_width") {
        match opt_u32(value, field) {
            Ok(x) => { target.input_width = x; Ok(()) },
            Err(e) => Err(e),
        }
    } else if chars_eq_str(&f, "input_height") {
        match opt_u32(value, field) {
            Ok(x) => { target.input_height = x; Ok(()) },
            Err(e) => Err(e),
        }
    } else if chars_eq_str(&f, "input_pixel_format") {
        match opt_string(value, field) {
            Ok(x) => { target.input_pixel_format = x; Ok(()) },
            Err(e) => Err(e),
        }
    } else if chars_eq_str(&f, "input_repeat") {
        match opt_bool(value, field) {
            Ok(x) => { target.input_repeat = x; Ok(()) },
            Err(e) => Err(e),
        }
    } else if chars_eq_str(&f, "input_ffmpeg_path") {
        match opt_string(value, field) {
            Ok(x) => { target.input_ffmpeg_path = x; Ok(()) },
            Err(e) => Err(e),
        }
    } else if chars_eq_str(&f, "input_denoise_mode") {
        match opt_string(value, field) {
            Ok(x) => { target.input_denoise_mode = x; Ok(()) },
            Err(e) => Err(e),
        }
    } else if chars_eq_str(&f, "input_denoise_temporal_iir_hz") {
        match opt_f32(value, field) {
            Ok(x) => { target.input_denoise_temporal_iir_hz = x; Ok(()) },
            Err(e) => Err(e),
        }
    } else if chars_eq_str(&f, "input_resize_enabled") {
        match opt_bool(value, field) {
            Ok(x) => { target.input_resize_enabled = x; Ok(()) },
            Err(e) => Err(e),
        }
    } else if chars_eq_str(&f, "input_resize_axis") {
        match opt_string(value, field) {
            Ok(x) => { target.input_resize_axis = x; Ok(()) },
            Err(e) => Err(e),
        }
    } else if chars_eq_str(&f, "input_resize_reference") {
        match opt_u32(value, field) {
            Ok(x) => { target.input_resize_reference = x; Ok(()) },
            Err(e) => Err(e),
        }
    } else if chars_eq_str(&f, "input_resize_width") {
        match opt_u32(value, field) {
            Ok(x) => { target.input_resize_width = x; Ok(()) },
            Err(e) => Err(e),
        }
    } else if chars_eq_str(&f, "input_resize_height") {
        match opt_u32(value, field) {
            Ok(x) => { target.input_resize_height = x; Ok(()) },
            Err(e) => Err(e),
        }
    } else if chars_eq_str(&f, "input_resize_preserve_aspect") {
        match opt_bool(value, field) {
            Ok(x) => { target.input_resize_preserve_aspect = x; Ok(()) },
            Err(e) => Err(e),
        }
    } else if chars_eq_str(&f, "input_resize_pad_color") {
        match opt_string(value, field) {
            Ok(x) => { target.input_resize_pad_color = x; Ok(()) },
            Err(e) => Err(e),
        }
    } else {
        Err(FieldError::UnknownField { scope: FieldScope::PipelineComponents, field: owned(field) })
    }
}

/// Whether the optional face pose model block `new` is `old` with the setting `sub` set to
/// `v`, where a block with nothing left set is removed.
pub open spec fn face_pose_model_block_applied(old: Option<ProfileFacePoseModelSettings>, new: Option<ProfileFacePoseModelSettings>, sub: Seq<char>, v: FieldValue) -> bool {
    let old_m = match old {
        Some(m) => m,
        None => ProfileFacePoseModelSettings::spec_empty(),
    };
    match new {
        Some(nm) => !nm.is_empty() && face_pose_model_field_applied(old_m, nm, sub, v),
        None => face_pose_model_field_applied(old_m, ProfileFacePoseModelSettings::spec_empty(), sub, v),
    }
}

/// Whether the optional post-process rules block `new` is `old` with the setting `sub` set to
/// `v`, where a block with nothing left set is removed.
pub open spec fn post_process_rules_block_applied(old: Option<ProfilePostProcessRules>, new: Option<ProfilePostProcessRules>, sub: Seq<char>, v: FieldValue) -> bool {
    let old_m = match old {
        Some(m) => m,
        None => ProfilePostProcessRules::spec_empty(),
    };
    match new {
        Some(nm) => !nm.is_empty() && post_process_rules_field_applied(old_m, nm, sub, v),
        None => post_process_rules_field_applied(old_m, ProfilePostProcessRules::spec_empty(), sub, v),
    }
}

/// Whether setting `field` of a modifier block to `v` is accepted, and the refusal where it is not.
pub open spec fn modifier_field_result(field: Seq<char>, v: FieldValue) -> Result<(), FieldErrorView> {
    if field == "head_enabled"@ {
        unit_of(flag_value(v, field))
    } else if field == "face_enabled"@ {
        unit_of(flag_value(v, field))
    } else if field == "hands_enabled"@ {
        unit_of(flag_value(v, field))
    } else if field == "arms_ik_enabled"@ {
        unit_of(flag_value(v, field))
    } else if field == "torso_enabled"@ {
        unit_of(flag_value(v, field))
    } else if field == "legs_enabled"@ {
        unit_of(flag_value(v, field))
    } else if field == "feet_enabled"@ {
        unit_of(flag_value(v, field))
    } else if field == "torso_pitch_scale"@ {
        unit_of(number_value(v, field))
    } else if field == "mirror_mode"@ {
        unit_of(text_value(v, field))
    } else if field == "eye_open_bias"@ {
        unit_of(number_value(v, field))
    } else if field == "smoothing_preset"@ {
        unit_of(text_value(v, field))
    } else if field == "smoothing_ema_enabled"@ {
        unit_of(flag_value(v, field))
    } else if field == "smoothing_ema_alpha"@ {
        unit_of(number_value(v, field))
    } else if field == "smoothing_one_euro_enabled"@ {
        unit_of(flag_value(v, field))
    } else if field == "smoothing_confidence_adaptive_cutoff"@ {
        unit_of(flag_value(v, field))
    } else if field == "adaptive_min_cutoff_hz"@ {
        unit_of(number_value(v, field))
    } else if field == "adaptive_beta"@ {
        unit_of(number_value(v, field))
    } else if field == "adaptive_derivative_cutoff_hz"@ {
        unit_of(number_value(v, field))
    } else if has_prefix(field, "face_pose_model."@) {
        if field == "face_pose_model.enabled"@ && v == FieldValue::Bool(false) { Ok(()) } else { face_pose_model_field_result(field.skip(16), v) }
    } else if has_prefix(field, "post_process_rules."@) {
        post_process_rules_field_result(field.skip(19), v)
    } else {
        Err(FieldErrorView::UnknownField(FieldScope::Modifier, field))
    }
}

/// Whether `new` is the modifier block `old` with `field` set to `v`.
pub open spec fn modifier_field_applied(old: ProfileModifierSettings, new: ProfileModifierSettings, field: Seq<char>, v: FieldValue) -> bool {
    if field == "head_enabled"@ {
        flag_value(v, field) matches Ok(x) && new == (ProfileModifierSettings { head_enabled: x, ..old })
    } else if field == "face_enabled"@ {
        flag_value(v, field) matches Ok(x) && new == (ProfileModifierSettings { face_enabled: x, ..old })
    } else if field == "hands_enabled"@ {
        flag_value(v, field) matches Ok(x) && new == (ProfileModifierSettings { hands_enabled: x, ..old })
    } else if field == "arms_ik_enabled"@ {
        flag_value(v, field) matches Ok(x) && new == (ProfileModifierSettings { arms_ik_enabled: x, ..old })
    } else if field == "torso_enabled"@ {
        flag_value(v, field) matches Ok(x) && new == (ProfileModifierSettings { torso_enabled: x, ..old })
    } else if field == "legs_enabled"@ {
        flag_value(v, field) matches Ok(x) && new == (ProfileModifierSettings { legs_enabled: x, ..old })
    } else if field == "feet_enabled"@ {
        flag_value(v, field) matches Ok(x) && new == (ProfileModifierSettings { feet_enabled: x, ..old })
    } else if field == "torso_pitch_scale"@ {
        number_value(v, field) matches Ok(x) && new == (ProfileModifierSettings { torso_pitch_scale: unit_clamped(x), ..old })
    } else if field == "mirror_mode"@ {
        text_value(v, field) matches Ok(x) && new == (ProfileModifierSettings { mirror_mode: new.mirror_mode, ..old }) && text_view(new.mirror_mode) == x
    } else if field == "eye_open_bias"@ {
        number_value(v, field) matches Ok(x) && new == (ProfileModifierSettings { eye_open_bias: unit_clamped(x), ..old })
    } else if field == "smoothing_preset"@ {
        text_value(v, field) matches Ok(x) && new == (ProfileModifierSettings { smoothing_preset: new.smoothing_preset, ..old }) && text_view(new.smoothing_preset) == x
    } else if field == "smoothing_ema_enabled"@ {
        flag_value(v, field) matches Ok(x) && new == (ProfileModifierSettings { smoothing_ema_enabled: x, ..old })
    } else if field == "smoothing_ema_alpha"@ {
        number_value(v, field) matches Ok(x) && new == (ProfileModifierSettings { smoothing_ema_alpha: x, ..old })
    } else if field == "smoothing_one_euro_enabled"@ {
        flag_value(v, field) matches Ok(x) && new == (ProfileModifierSettings { smoothing_one_euro_enabled: x, ..old })
    } else if field == "smoothing_confidence_adaptive_cutoff"@ {
        flag_value(v, field) matches Ok(x) && new == (ProfileModifierSettings { smoothing_confidence_adaptive_cutoff: x, ..old })
    } else if field == "adaptive_min_cutoff_hz"@ {
        number_value(v, field) matches Ok(x) && new == (ProfileModifierSettings { adaptive_min_cutoff_hz: x, ..old })
    } else if field == "adaptive_beta"@ {
        number_value(v, field) matches Ok(x) && new == (ProfileModifierSettings { adaptive_beta: x, ..old })
    } else if field == "adaptive_derivative_cutoff_hz"@ {
        number_value(v, field) matches Ok(x) && new == (ProfileModifierSettings { adaptive_derivative_cutoff_hz: x, ..old })
    } else if has_prefix(field, "face_pose_model."@) {
        if field == "face_pose_model.enabled"@ && v == FieldValue::Bool(false) { new == (ProfileModifierSettings { face_pose_model: None, ..old }) } else { new == (ProfileModifierSettings { face_pose_model: new.face_pose_model, ..old }) && face_pose_model_block_applied(old.face_pose_model, new.face_pose_model, field.skip(16), v) }
    } else if has_prefix(field, "post_process_rules."@) {
        new == (ProfileModifierSettings { post_process_rules: new.post_process_rules, ..old }) && post_process_rules_block_applied(old.post_process_rules, new.post_process_rules, field.skip(19), v)
    } else {
        false
    }
}

/// Sets `field` of a modifier block to `value`; refused, and nothing changed, where
/// the path names no setting or the value does not fit it.
pub fn apply_modifier_field(target: &mut ProfileModifierSettings, field: &str, value: &FieldValue) -> (r: Result<(), FieldError>)
    ensures
        match r {
            Ok(()) => modifier_field_result(field@, *value) is Ok && modifier_field_applied(*old(target), *final(target), field@, *value),
            Err(e) => modifier_field_result(field@, *value) == Err::<(), FieldErrorView>(e.view()) && *final(target) == *old(target),
        },
{
    let f = chars_of(field);
    if chars_eq_str(&f, "head_enabled") {
        match opt_bool(value, field) {
            Ok(x) => { target.head_enabled = x; Ok(()) },
            Err(e) => Err(e),
        }
    } else if chars_eq_str(&f, "face_enabled") {
        match opt_bool(value, field) {
            Ok(x) => { target.face_enabled = x; Ok(()) },
            Err(e) => Err(e),
        }
    } else if chars_eq_str(&f, "hands_enabled") {
        match opt_bool(value, field) {
            Ok(x) => { target.hands_enabled = x; Ok(()) },
            Err(e) => Err(e),
        }
    } else if chars_eq_str(&f, "arms_ik_enabled") {
        match opt_bool(value, field) {
            Ok(x) => { target.arms_ik_enabled = x; Ok(()) },
            Err(e) => Err(e),
        }
    } else if chars_eq_str(&f, "torso_enabled") {
        match opt_bool(value, field) {
            Ok(x) => { target.torso_enabled = x; Ok(()) },
            Err(e) => Err(e),
        }
    } else if chars_eq_str(&f, "legs_enabled") {
        match opt_bool(value, field) {
            Ok(x) => { target.legs_enabled = x; Ok(()) },
            Err(e) => Err(e),
        }
    } else if chars_eq_str(&f, "feet_enabled") {
        match opt_bool(value, field) {
            Ok(x) => { target.feet_enabled = x; Ok(()) },
            Err(e) => Err(e),
        }
    } else if chars_eq_str(&f, "torso_pitch_scale") {
        match opt_f32(value, field) {
            Ok(x) => { target.torso_pitch_scale = clamp_unit(x); Ok(()) },
            Err(e) => Err(e),
        }
    } else if chars_eq_str(&f, "mirror_mode") {
        match opt_string(value, field) {
            Ok(x) => { target.mirror_mode = x; Ok(()) },
            Err(e) => Err(e),
        }
    } else if chars_eq_str(&f, "eye_open_bias") {
        match opt_f32(value, field) {
            Ok(x) => { target.eye_open_bias = clamp_unit(x); Ok(()) },
            Err(e) => Err(e),
        }
    } else if chars_eq_str(&f, "smoothing_preset") {
        match opt_string(value, field) {
            Ok(x) => { target.smoothing_preset = x; Ok(()) },
            Err(e) => Err(e),
        }
    } else if chars_eq_str(&f, "smoothing_ema_enabled") {
        match opt_bool(value, field) {
            Ok(x) => { target.smoothing_ema_enabled = x; Ok(()) },
            Err(e) => Err(e),
        }
    } else if chars_eq_str(&f, "smoothing_ema_alpha") {
        match opt_f32(value, field) {
            Ok(x) => { target.smoothing_ema_alpha = x; Ok(()) },
            Err(e) => Err(e),
        }
    } else if chars_eq_str(&f, "smoothing_one_euro_enabled") {
        match opt_bool(value, field) {
            Ok(x) => { target.smoothing_one_euro_enabled = x; Ok(()) },
            Err(e) => Err(e),
        }
    } else if chars_eq_str(&f, "smoothing_confidence_adaptive_cutoff") {
        match opt_bool(value, field) {
            Ok(x) => { target.smoothing_confidence_adaptive_cutoff = x; Ok(()) },
            Err(e) => Err(e),
        }
    } else if chars_eq_str(&f, "adaptive_min_cutoff_hz") {
        match opt_f32(value, field) {
            Ok(x) => { target.adaptive_min_cutoff_hz = x; Ok(()) },
            Err(e) => Err(e),
        }
    } else if chars_eq_str(&f, "adaptive_beta") {
        match opt_f32(value, field) {
            Ok(x) => { target.adaptive_beta = x; Ok(()) },
            Err(e) => Err(e),
        }
    } else if chars_eq_str(&f, "adaptive_derivative_cutoff_hz") {
        match opt_f32(value, field) {
            Ok(x) => { target.adaptive_derivative_cutoff_hz = x; Ok(()) },
            Err(e) => Err(e),
        }
    } else if starts_with(&f, "face_pose_model.") {
        proof {
            reveal_strlit("face_pose_model.");
        }
        let sub_chars = slice_chars(&f, 16, f.len());
        assert(sub_chars@ =~= field@.skip(16));
        let sub = string_of(&sub_chars);
        if chars_eq_str(&f, "face_pose_model.enabled") {
            match value {
                FieldValue::Bool(false) => {
                    target.face_pose_model = None;
                    return Ok(());
                },
                _ => {},
            }
        }
        let taken = target.face_pose_model.take();
        let was_set = taken.is_some();
        let mut m = match taken {
            Some(m) => m,
            None => ProfileFacePoseModelSettings::empty(),
        };
        match apply_face_pose_model_field(&mut m, sub.as_str(), value) {
            Ok(()) => {
                if m.check_empty() {
                    assert(m == ProfileFacePoseModelSettings::spec_empty());
                    target.face_pose_model = None;
                } else {
                    target.face_pose_model = Some(m);
                }
                Ok(())
            },
            Err(e) => {
                if was_set {
                    target.face_pose_model = Some(m);
                } else {
                    target.face_pose_model = None;
                }
                Err(e)
            },
        }
    } else if starts_with(&f, "post_process_rules.") {
        proof {
            reveal_strlit("post_process_rules.");
        }
        let sub_chars = slice_chars(&f, 19, f.len());
        assert(sub_chars@ =~= field@.skip(19));
        let sub = string_of(&sub_chars);
        let taken = target.post_process_rules.take();
        let was_set = taken.is_some();
        let mut m = match taken {
            Some(m) => m,
            None => ProfilePostProcessRules::empty(),
        };
        match apply_post_process_rules_field(&mut m, sub.as_str(), value) {
            Ok(()) => {
                if m.check_empty() {
                    assert(m == ProfilePostProcessRules::spec_empty());
                    target.post_process_rules = None;
                } else {
                    target.post_process_rules = Some(m);
                }
                Ok(())
            },
            Err(e) => {
                if was_set {
                    target.post_process_rules = Some(m);
                } else {
                    target.post_process_rules = None;
                }
                Err(e)
            },
        }
    } else {
        Err(FieldError::UnknownField { scope: FieldScope::Modifier, field: owned(field) })
    }
}

/// Whether the optional modifier block `new` is `old` with the setting `sub` set to
/// `v`, where a block with nothing left set is removed.
pub open spec fn modifier_block_applied(old: Option<ProfileModifierSettings>, new: Option<ProfileModifierSettings>, sub: Seq<char>, v: FieldValue) -> bool {
    let old_m = match old {
        Some(m) => m,
        None => ProfileModifierSettings::spec_empty(),
    };
    match new {
        Some(nm) => !nm.is_empty() && modifier_field_applied(old_m, nm, sub, v),
        None => modifier_field_applied(old_m, ProfileModifierSettings::spec_empty(), sub, v),
    }
}

/// Whether setting `field` of a runtime selection to `v` is accepted, and the refusal where it is not.
pub open spec fn runtime_field_result(field: Seq<char>, v: FieldValue) -> Result<(), FieldErrorView> {
    if field == "fps"@ {
        unit_of(u32_value(v, field))
    } else if field == "vmc_enabled"@ {
        unit_of(flag_value(v, field))
    } else if field == "vmc_target_addr"@ {
        unit_of(text_value(v, field))
    } else if field == "zenoh_enabled"@ {
        unit_of(flag_value(v, field))
    } else if field == "zenoh_key_expr"@ {
        unit_of(text_value(v, field))
    } else if field == "zenoh_topic_mode"@ {
        unit_of(text_value(v, field))
    } else if field == "zenoh_stream_id"@ {
        unit_of(text_value(v, field))
    } else if field == "zenoh_producer"@ {
        unit_of(text_value(v, field))
    } else if field == "engine"@ {
        unit_of(text_value(v, field))
    } else if field == "device"@ {
        unit_of(text_value(v, field))
    } else if field == "resolution"@ {
        unit_of(text_value(v, field))
    } else if field == "media_pipe_running_mode"@ {
        unit_of(text_value(v, field))
    } else if field == "media_pipe_holistic_enabled"@ {
        unit_of(flag_value(v, field))
    } else if field == "media_pipe_delegate"@ {
        unit_of(text_value(v, field))
    } else if field == "media_pipe_num_threads"@ {
        unit_of(u32_value(v, field))
    } else if field == "media_pipe_holistic_flow_limiter_enabled"@ {
        unit_of(flag_value(v, field))
    } else if field == "media_pipe_holistic_flow_limiter_max_in_flight"@ {
        unit_of(u32_value(v, field))
    } else if field == "media_pipe_holistic_flow_limiter_max_in_queue"@ {
        unit_of(u32_value(v, field))
    } else if field == "vmc_receive_listen_addr"@ {
        unit_of(text_value(v, field))
    } else if field == "ifacialmocap_receive_listen_addr"@ {
        unit_of(text_value(v, field))
    } else if has_prefix(field, "modifier."@) {
        modifier_field_result(field.skip(9), v)
    } else {
        Err(FieldErrorView::UnknownField(FieldScope::RuntimeSelection, field))
    }
}

/// Whether `new` is the runtime selection `old` with `field` set to `v`.
pub open spec fn runtime_field_applied(old: ProfileRuntimeSettings, new: ProfileRuntimeSettings, field: Seq<char>, v: FieldValue) -> bool {
    if field == "fps"@ {
        u32_value(v, field) matches Ok(x) && new == (ProfileRuntimeSettings { fps: x, ..old })
    } else if field == "vmc_enabled"@ {
        flag_value(v, field) matches Ok(x) && new == (ProfileRuntimeSettings { vmc_enabled: x, ..old })
    } else if field == "vmc_target_addr"@ {
        text_value(v, field) matches Ok(x) && new == (ProfileRuntimeSettings { vmc_target_addr: new.vmc_target_addr, ..old }) && text_view(new.vmc_target_addr) == x
    } else if field == "zenoh_enabled"@ {
        flag_value(v, field) matches Ok(x) && new == (ProfileRuntimeSettings { zenoh_enabled: x, ..old })
    } else if field == "zenoh_key_expr"@ {
        text_value(v, field) matches Ok(x) && new == (ProfileRuntimeSettings { zenoh_key_expr: new.zenoh_key_expr, ..old }) && text_view(new.zenoh_key_expr) == x
    } else if field == "zenoh_topic_mode"@ {
        text_value(v, field) matches Ok(x) && new == (ProfileRuntimeSettings { zenoh_topic_mode: new.zenoh_topic_mode, ..old }) && text_view(new.zenoh_topic_mode) == x
    } else if field == "zenoh_stream_id"@ {
        text_value(v, field) matches Ok(x) && new == (ProfileRuntimeSettings { zenoh_stream_id: new.zenoh_stream_id, ..old }) && text_view(new.zenoh_stream_id) == x
    } else if field == "zenoh_producer"@ {
        text_value(v, field) matches Ok(x) && new == (ProfileRuntimeSettings { zenoh_producer: new.zenoh_producer, ..old }) && text_view(new.zenoh_producer) == x
    } else if field == "engine"@ {
        text_value(v, field) matches Ok(x) && new == (ProfileRuntimeSettings { engine: new.engine, ..old }) && text_view(new.engine) == x
    } else if field == "device"@ {
        text_value(v, field) matches Ok(x) && new == (ProfileRuntimeSettings { device: new.device, ..old }) && text_view(new.device) == x
    } else if field == "resolution"@ {
        text_value(v, field) matches Ok(x) && new == (ProfileRuntimeSettings { resolution: new.resolution, ..old }) && text_view(new.resolution) == x
    } else if field == "media_pipe_running_mode"@ {
        text_value(v, field) matches Ok(x) && new == (ProfileRuntimeSettings { media_pipe_running_mode: new.media_pipe_running_mode, ..old }) && text_view(new.media_pipe_running_mode) == x
    } else if field == "media_pipe_holistic_enabled"@ {
        flag_value(v, field) matches Ok(x) && new == (ProfileRuntimeSettings { media_pipe_holistic_enabled: x, ..old })
    } else if field == "media_pipe_delegate"@ {
        text_value(v, field) matches Ok(x) && new == (ProfileRuntimeSettings { media_pipe_delegate: new.media_pipe_delegate, ..old }) && text_view(new.media_pipe_delegate) == x
    } else if field == "media_pipe_num_threads"@ {
        u32_value(v, field) matches Ok(x) && new == (ProfileRuntimeSettings { media_pipe_num_threads: at_least_one(x), ..old })
    } else if field == "media_pipe_holistic_flow_limiter_enabled"@ {
        flag_value(v, field) matches Ok(x) && new == (ProfileRuntimeSettings { media_pipe_holistic_flow_limiter_enabled: x, ..old })
    } else if field == "media_pipe_holistic_flow_limiter_max_in_flight"@ {
        u32_value(v, field) matches Ok(x) && new == (ProfileRuntimeSettings { media_pipe_holistic_flow_limiter_max_in_flight: at_least_one(x), ..old })
    } else if field == "media_pipe_holistic_flow_limiter_max_in_queue"@ {
        u32_value(v, field) matches Ok(x) && new == (ProfileRuntimeSettings { media_pipe_holistic_flow_limiter_max_in_queue: x, ..old })
    } else if field == "vmc_receive_listen_addr"@ {
        text_value(v, field) matches Ok(x) && new == (ProfileRuntimeSettings { vmc_receive_listen_addr: new.vmc_receive_listen_addr, ..old }) && text_view(new.vmc_receive_listen_addr) == x
    } else if field == "ifacialmocap_receive_listen_addr"@ {
        text_value(v, field) matches Ok(x) && new == (ProfileRuntimeSettings { ifacialmocap_receive_listen_addr: new.ifacialmocap_receive_listen_addr, ..old }) && text_view(new.ifacialmocap_receive_listen_addr) == x
    } else if has_prefix(field, "modifier."@) {
        new == (ProfileRuntimeSettings { modifier: new.modifier, ..old }) && modifier_block_applied(old.modifier, new.modifier, field.skip(9), v)
    } else {
        false
    }
}

/// Sets `field` of a runtime selection to `value`; refused, and nothing changed, where
/// the path names no setting or the value does not fit it.
pub fn apply_runtime_field(target: &mut ProfileRuntimeSettings, field: &str, value: &FieldValue) -> (r: Result<(), FieldError>)
    ensures
        match r {
            Ok(()) => runtime_field_result(field@, *value) is Ok && runtime_field_applied(*old(target), *final(target), field@, *value),
            Err(e) => runtime_field_result(field@, *value) == Err::<(), FieldErrorView>(e.view()) && *final(target) == *old(target),
        },
{
    let f = chars_of(field);
    if chars_eq_str(&f, "fps") {
        match opt_u32(value, field) {
            Ok(x) => { target.fps = x; Ok(()) },
            Err(e) => Err(e),
        }
    } else if chars_eq_str(&f, "vmc_enabled") {
        match opt_bool(value, field) {
            Ok(x) => { target.vmc_enabled = x; Ok(()) },
            Err(e) => Err(e),
        }
    } else if chars_eq_str(&f, "vmc_target_addr") {
        match opt_string(value, field) {
            Ok(x) => { target.vmc_target_addr = x; Ok(()) },
            Err(e) => Err(e),
        }
    } else if chars_eq_str(&f, "zenoh_enabled") {
        match opt_bool(value, field) {
            Ok(x) => { target.zenoh_enabled = x; Ok(()) },
            Err(e) => Err(e),
        }
    } else if chars_eq_str(&f, "zenoh_key_expr") {
        match opt_string(value, field) {
            Ok(x) => { target.zenoh_key_expr = x; Ok(()) },
            Err(e) => Err(e),
        }
    } else if chars_eq_str(&f, "zenoh_topic_mode") {
        match opt_string(value, field) {
            Ok(x) => { target.zenoh_topic_mode = x; Ok(()) },
            Err(e) => Err(e),
        }
    } else if chars_eq_str(&f, "zenoh_stream_id") {
        match opt_string(value, field) {
            Ok(x) => { target.zenoh_stream_id = x; Ok(()) },
            Err(e) => Err(e),
        }
    } else if chars_eq_str(&f, "zenoh_producer") {
        match opt_string(value, field) {
            Ok(x) => { target.zenoh_producer = x; Ok(()) },
            Err(e) => Err(e),
        }
    } else if chars_eq_str(&f, "engine") {
        match opt_string(value, field) {
            Ok(x) => { target.engine = x; Ok(()) },
            Err(e) => Err(e),
        }
    } else if chars_eq_str(&f, "device") {
        match opt_string(value, field) {
            Ok(x) => { target.device = x; Ok(()) },
            Err(e) => Err(e),
        }
    } else if chars_eq_str(&f, "resolution") {
        match opt_string(value, field) {
            Ok(x) => { target.resolution = x; Ok(()) },
            Err(e) => Err(e),
        }
    } else if chars_eq_str(&f, "media_pipe_running_mode") {
        match opt_string(value, field) {
            Ok(x) => { target.media_pipe_running_mode = x; Ok(()) },
            Err(e) => Err(e),
        }
    } else if chars_eq_str(&f, "media_pipe_holistic_enabled") {
        match opt_bool(value, field) {
            Ok(x) => { target.media_pipe_holistic_enabled = x; Ok(()) },
            Err(e) => Err(e),
        }
    } else if chars_eq_str(&f, "media_pipe_delegate") {
        match opt_string(value, field) {
            Ok(x) => { target.media_pipe_delegate = x; Ok(()) },
            Err(e) => Err(e),
        }
    } else if chars_eq_str(&f, "media_pipe_num_threads") {
        match opt_u32(value, field) {
            Ok(x) => { target.media_pipe_num_threads = raise_to_one(x); Ok(()) },
            Err(e) => Err(e),
        }
    } else if chars_eq_str(&f, "media_pipe_holistic_flow_limiter_enabled") {
        match opt_bool(value, field) {
            Ok(x) => { target.media_pipe_holistic_flow_limiter_enabled = x; Ok(()) },
            Err(e) => Err(e),
        }
    } else if chars_eq_str(&f, "media_pipe_holistic_flow_limiter_max_in_flight") {
        match opt_u32(value, field) {
            Ok(x) => { target.media_pipe_holistic_flow_limiter_max_in_flight = raise_to_one(x); Ok(()) },
            Err(e) => Err(e),
        }
    } else if chars_eq_str(&f, "media_pipe_holistic_flow_limiter_max_in_queue") {
        match opt_u32(value, field) {
            Ok(x) => { target.media_pipe_holistic_flow_limiter_max_in_queue = x; Ok(()) },
            Err(e) => Err(e),
        }
    } else if chars_eq_str(&f, "vmc_receive_listen_addr") {
        match opt_string(value, field) {
            Ok(x) => { target.vmc_receive_listen_addr = x; Ok(()) },
            Err(e) => Err(e),
        }
    } else if chars_eq_str(&f, "ifacialmocap_receive_listen_addr") {
        match opt_string(value, field) {
            Ok(x) => { target.ifacialmocap_receive_listen_addr = x; Ok(()) },
            Err(e) => Err(e),
        }
    } else if starts_with(&f, "modifier.") {
        proof {
            reveal_strlit("modifier.");
        }
        let sub_chars = slice_chars(&f, 9, f.len());
        assert(sub_chars@ =~= field@.skip(9));
        let sub = string_of(&sub_chars);
        let taken = target.modifier.take();
        let was_set = taken.is_some();
        let mut m = match taken {
            Some(m) => m,
            None => ProfileModifierSettings::empty(),
        };
        match apply_modifier_field(&mut m, sub.as_str(), value) {
            Ok(()) => {
                if m.check_empty() {
                    assert(m == ProfileModifierSettings::spec_empty());
                    target.modifier = None;
                } else {
                    target.modifier = Some(m);
                }
                Ok(())
            },
            Err(e) => {
                if was_set {
                    target.modifier = Some(m);
                } else {
                    target.modifier = None;
                }
                Err(e)
            },
        }
    } else {
        Err(FieldError::UnknownField { scope: FieldScope::RuntimeSelection, field: owned(field) })
    }
}

/// Whether the optional runtime selection `new` is `old` with the setting `sub` set to
/// `v`, where a block with nothing left set is removed.
pub open spec fn runtime_block_applied(old: Option<ProfileRuntimeSettings>, new: Option<ProfileRuntimeSettings>, sub: Seq<char>, v: FieldValue) -> bool {
    let old_m = match old {
        Some(m) => m,
        None => ProfileRuntimeSettings::spec_empty(),
    };
    match new {
        Some(nm) => !nm.is_empty() && runtime_field_applied(old_m, nm, sub, v),
        None => runtime_field_applied(old_m, ProfileRuntimeSettings::spec_empty(), sub, v),
    }
}

/// Whether the optional pipeline components block `new` is `old` with the setting `sub` set to
/// `v`, where a block with nothing left set is removed.
pub open spec fn pipeline_block_applied(old: Option<ProfilePipelineComponents>, new: Option<ProfilePipelineComponents>, sub: Seq<char>, v: FieldValue) -> bool {
    let old_m = match old {
        Some(m) => m,
        None => ProfilePipelineComponents::spec_empty(),
    };
    match new {
        Some(nm) => !nm.is_empty() && pipeline_field_applied(old_m, nm, sub, v),
        None => pipeline_field_applied(old_m, ProfilePipelineComponents::spec_empty(), sub, v),
    }
}


/// Whether setting `field` of a profile to `v` is accepted, and the refusal
/// where it is not.
pub open spec fn profile_field_result(field: Seq<char>, v: FieldValue) -> Result<(), FieldErrorView> {
    if field == "name"@ {
        unit_of(required_text_value(v, field))
    } else if field == "note"@ {
        unit_of(required_text_value(v, field))
    } else if field == "icon_path"@ {
        unit_of(text_value(v, field))
    } else if field == "group"@ {
        unit_of(required_text_value(v, field))
    } else if has_prefix(field, "runtime_selection."@) {
        runtime_field_result(field.skip(18), v)
    } else if has_prefix(field, "pipeline_components."@) {
        pipeline_field_result(field.skip(20), v)
    } else {
        Err(FieldErrorView::UnknownField(FieldScope::Profile, field))
    }
}

/// Whether `new` is the profile `old` with `field` set to `v`: the name and
/// the group trimmed, the note as given.
pub open spec fn profile_field_applied(old: DocumentProfile, new: DocumentProfile, field: Seq<char>, v: FieldValue) -> bool {
    if field == "name"@ {
        required_text_value(v, field) matches Ok(t) && new == (DocumentProfile { name: new.name, ..old }) && new.name@ == trim(t)
    } else if field == "note"@ {
        required_text_value(v, field) matches Ok(t) && new == (DocumentProfile { note: new.note, ..old }) && new.note@ == t
    } else if field == "icon_path"@ {
        text_value(v, field) matches Ok(x) && new == (DocumentProfile { icon_path: new.icon_path, ..old })
            && text_view(new.icon_path) == x
    } else if field == "group"@ {
        required_text_value(v, field) matches Ok(t) && new == (DocumentProfile { group: new.group, ..old }) && new.group@ == trim(t)
    } else if has_prefix(field, "runtime_selection."@) {
        new == (DocumentProfile { runtime_selection: new.runtime_selection, ..old }) && runtime_block_applied(old.runtime_selection, new.runtime_selection, field.skip(18), v)
    } else if has_prefix(field, "pipeline_components."@) {
        new == (DocumentProfile { pipeline_components: new.pipeline_components, ..old }) && pipeline_block_applied(old.pipeline_components, new.pipeline_components, field.skip(20), v)
    } else {
        false
    }
}

/// Sets the setting at the dotted path `field` of a profile to `value`;
/// refused, and nothing changed, where the path names no setting or the value
/// does not fit it.
pub fn apply_profile_field(target: &mut DocumentProfile, field: &str, value: &FieldValue) -> (r: Result<(), FieldError>)
    ensures
        match r {
            Ok(()) => profile_field_result(field@, *value) is Ok && profile_field_applied(*old(target), *final(target), field@, *value),
            Err(e) => profile_field_result(field@, *value) == Err::<(), FieldErrorView>(e.view()) && *final(target) == *old(target),
        },
{
    let f = chars_of(field);
    if chars_eq_str(&f, "name") {
        match expect_string(value, field) {
            Ok(t) => {
                target.name = trimmed(t.as_str());
                Ok(())
            },
            Err(e) => Err(e),
        }
    } else if chars_eq_str(&f, "note") {
        match expect_string(value, field) {
            Ok(t) => {
                target.note = t;
                Ok(())
            },
            Err(e) => Err(e),
        }
    } else if chars_eq_str(&f, "icon_path") {
        match opt_string(value, field) {
            Ok(x) => {
                target.icon_path = x;
                Ok(())
            },
            Err(e) => Err(e),
        }
    } else if chars_eq_str(&f, "group") {
        match expect_string(value, field) {
            Ok(t) => {
                target.group = trimmed(t.as_str());
                Ok(())
            },
            Err(e) => Err(e),
        }
    } else if starts_with(&f, "runtime_selection.") {
        proof {
            reveal_strlit("runtime_selection.");
        }
        let sub_chars = slice_chars(&f, 18, f.len());
        assert(sub_chars@ =~= field@.skip(18));
        let sub = string_of(&sub_chars);
        let taken = target.runtime_selection.take();
        let was_set = taken.is_some();
        let mut m = match taken {
            Some(m) => m,
            None => ProfileRuntimeSettings::empty(),
        };
        match apply_runtime_field(&mut m, sub.as_str(), value) {
            Ok(()) => {
                if m.check_empty() {
                    assert(m == ProfileRuntimeSettings::spec_empty());
                    target.runtime_selection = None;
                } else {
                    target.runtime_selection = Some(m);
                }
                Ok(())
            },
            Err(e) => {
                if was_set {
                    target.runtime_selection = Some(m);
                } else {
                    target.runtime_selection = None;
                }
                Err(e)
            },
        }
    } else if starts_with(&f, "pipeline_components.") {
        proof {
            reveal_strlit("pipeline_components.");
        }
        let sub_chars = slice_chars(&f, 20, f.len());
        assert(sub_chars@ =~= field@.skip(20));
        let sub = string_of(&sub_chars);
        let taken = target.pipeline_components.take();
        let was_set = taken.is_some();
        let mut m = match taken {
            Some(m) => m,
            None => ProfilePipelineComponents::empty(),
        };
        match apply_pipeline_field(&mut m, sub.as_str(), value) {
            Ok(()) => {
                if m.check_empty() {
                    assert(m == ProfilePipelineComponents::spec_empty());
                    target.pipeline_components = None;
                } else {
                    target.pipeline_components = Some(m);
                }
                Ok(())
            },
            Err(e) => {
                if was_set {
                    target.pipeline_components = Some(m);
                } else {
                    target.pipeline_components = None;
                }
                Err(e)
            },
        }
    } else {
        Err(FieldError::UnknownField { scope: FieldScope::Profile, field: owned(field) })
    }
}

/// Why a profile edit of a document was refused.
#[derive(Clone, Debug, PartialEq, Eq)]
pub enum ProfileUpdateError {
    /// No profile of the document has the id.
    NotFound { profile_id: String },
    /// The profile refused the edit.
    Field(FieldError),
}

/// Sets the setting at `field` of the document's first profile with id
/// `profile_id`; the document is unchanged where there is none or the
/// profile refuses the edit.
pub fn update_profile_field(
    document: &mut ProfileDocument,
    profile_id: &str,
    field: &str,
    value: &FieldValue,
) -> (r: Result<(), ProfileUpdateError>)
    ensures
        match r {
            Ok(()) => {
                let i = position(old(document).profiles@, profile_id@);
                &&& 0 <= i < old(document).profiles@.len()
                &&& profile_field_result(field@, *value) is Ok
                &&& final(document).profiles@.len() == old(document).profiles@.len()
                &&& final(document).profiles@ == old(document).profiles@.update(i, final(document).profiles@[i])
                &&& profile_field_applied(old(document).profiles@[i], final(document).profiles@[i], field@, *value)
                &&& *final(document) == (ProfileDocument { profiles: final(document).profiles, ..*old(document) })
            },
            Err(ProfileUpdateError::NotFound { profile_id: id }) => position(old(document).profiles@, profile_id@) < 0
                && id@ == profile_id@ && *final(document) == *old(document),
            Err(ProfileUpdateError::Field(e)) => position(old(document).profiles@, profile_id@) >= 0
                && profile_field_result(field@, *value) == Err::<(), FieldErrorView>(e.view())
                && final(document).profiles@ == old(document).profiles@
                && *final(document) == (ProfileDocument { profiles: final(document).profiles, ..*old(document) }),
        },
{
    let id = chars_of(profile_id);
    proof {
        lemma_position_bounds(document.profiles@, profile_id@);
    }
    let i = match find_profile(&document.profiles, &id) {
        Some(i) => i,
        None => {
            return Err(ProfileUpdateError::NotFound { profile_id: owned(profile_id) });
        },
    };
    let mut profiles: Vec<DocumentProfile> = Vec::new();
    std::mem::swap(&mut profiles, &mut document.profiles);
    let ghost all = profiles@;
    let mut p = profiles.remove(i);
    let result = apply_profile_field(&mut p, field, value);
    profiles.insert(i, p);
    assert(profiles@ =~= all.update(i as int, profiles@[i as int]));
    std::mem::swap(&mut profiles, &mut document.profiles);
    match result {
        Ok(()) => Ok(()),
        Err(e) => {
            assert(document.profiles@ =~= all);
            Err(ProfileUpdateError::Field(e))
        },
    }
}

impl FieldScope {
    pub open spec fn spec_name(self) -> Seq<char> {
        match self {
            FieldScope::Profile => "profile"@,
            FieldScope::RuntimeSelection => "runtime_selection"@,
            FieldScope::Modifier => "modifier"@,
            FieldScope::FacePoseModel => "face_pose_model"@,
            FieldScope::PostProcessRules => "post_process_rules"@,
            FieldScope::PipelineComponents => "pipeline_components"@,
        }
    }

    /// The name of the block in messages.
    pub fn name(self) -> (r: &'static str)
        ensures
            r@ == self.spec_name(),
    {
        match self {
            FieldScope::Profile => "profile",
            FieldScope::RuntimeSelection => "runtime_selection",
            FieldScope::Modifier => "modifier",
            FieldScope::FacePoseModel => "face_pose_model",
            FieldScope::PostProcessRules => "post_process_rules",
            FieldScope::PipelineComponents => "pipeline_components",
        }
    }
}

/// The message a refusal shows.
pub open spec fn field_error_message(e: FieldErrorView) -> Seq<char> {
    match e {
        FieldErrorView::NotString(f) => "field `"@ + f + "` must be a string"@,
        FieldErrorView::NotStringOrNull(f) => "field `"@ + f + "` must be a string or null"@,
        FieldErrorView::NotBoolOrNull(f) => "field `"@ + f + "` must be a bool or null"@,
        FieldErrorView::ExceedsU32(f) => "field `"@ + f + "` exceeds u32 range"@,
        FieldErrorView::NotUnsignedOrNull(f) => "field `"@ + f + "` must be a non-negative integer or null"@,
        FieldErrorView::NotNumberOrNull(f) => "field `"@ + f + "` must be a non-negative number or null"@,
        FieldErrorView::UnknownField(scope, f) => "unknown "@ + scope.spec_name() + " field: "@ + f,
    }
}

/// `a`, `b` and `c` in a row.
fn join3(a: &str, b: &str, c: &str) -> (r: String)
    ensures
        r@ == a@ + b@ + c@,
{
    let mut v = chars_of(a);
    let w = chars_of(b);
    let x = chars_of(c);
    let ghost va = v@;
    let mut i: usize = 0;
    while i < w.len()
        invariant
            i <= w.len(),
            v@ == va + w@.take(i as int),
        decreases w.len() - i,
    {
        v.push(w[i]);
        assert(w@.take(i as int + 1) =~= w@.take(i as int).push(w@[i as int]));
        i = i + 1;
    }
    assert(w@.take(w.len() as int) =~= w@);
    let ghost vb = v@;
    let mut j: usize = 0;
    while j < x.len()
        invariant
            j <= x.len(),
            v@ == vb + x@.take(j as int),
        decreases x.len() - j,
    {
        v.push(x[j]);
        assert(x@.take(j as int + 1) =~= x@.take(j as int).push(x@[j as int]));
        j = j + 1;
    }
    assert(x@.take(x.len() as int) =~= x@);
    string_of(&v)
}

impl FieldError {
    /// The message the refusal shows.
    pub fn message(&self) -> (r: String)
        ensures
            r@ == field_error_message(self.view()),
    {
        match self {
            FieldError::NotString { field } => join3("field `", field.as_str(), "` must be a string"),
            FieldError::NotStringOrNull { field } => join3("field `", field.as_str(), "` must be a string or null"),
            FieldError::NotBoolOrNull { field } => join3("field `", field.as_str(), "` must be a bool or null"),
            FieldError::ExceedsU32 { field } => join3("field `", field.as_str(), "` exceeds u32 range"),
            FieldError::NotUnsignedOrNull { field } => join3(
                "field `",
                field.as_str(),
                "` must be a non-negative integer or null",
            ),
            FieldError::NotNumberOrNull { field } => join3(
                "field `",
                field.as_str(),
                "` must be a non-negative number or null",
            ),
            FieldError::UnknownField { scope, field } => {
                let head = join3("unknown ", scope.name(), " field: ");
                let r = join3(head.as_str(), field.as_str(), "");
                proof {
                    reveal_strlit("");
                }
                assert(r@ =~= "unknown "@ + scope.spec_name() + " field: "@ + field@);
                r
            },
        }
    }
}

} // verus!
