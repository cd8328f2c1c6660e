use un_motion::float_bits::F32Bits;
use un_motion::profile_fields::{
    apply_profile_field, opt_string, update_profile_field, FieldError, FieldScope, FieldValue, ProfileUpdateError,
};
use un_motion::profile_ops::{
    apply_cli_active_profile, create_profile, record_calibration, CalibrationRecord, delete_profile, duplicate_profile, merge_profile_from_capturer_selection,
    new_profile_runtime_defaults, next_profile_id, reorder_profiles, set_selected_profile_id, ProfileOpError,
};
use un_motion::profile_schema::{DocumentProfile, DocumentSource, ProfileDocument};

fn make_profile(id: &str, name: &str) -> DocumentProfile {
    DocumentProfile {
        id: id.to_string(),
        name: name.to_string(),
        created_at: String::new(),
        note: String::new(),
        icon_path: None,
        group: String::new(),
        default_source_enabled: true,
        default_source_label: "Default".to_string(),
        runtime_selection: None,
        pipeline_components: None,
    }
}

fn empty_document() -> ProfileDocument {
    ProfileDocument {
        selected_profile_id: String::new(),
        profiles: Vec::new(),
        profile_sources: Vec::new(),
        next_profile_index: 1,
        next_source_index: 1,
    }
}

fn text(value: &str) -> FieldValue {
    FieldValue::Text(value.to_string())
}

fn number(value: u64) -> FieldValue {
    FieldValue::Number { as_u64: Some(value), as_nonnegative_f32: Some(F32Bits((value as f32).to_bits())) }
}

#[test]
fn next_profile_id_slugifies_and_avoids_duplicates() {
    let mut doc = empty_document();
    doc.profiles = vec![make_profile("alpha", "Alpha"), make_profile("alpha-2", "Alpha 2")];
    let id = next_profile_id(&doc, "Alpha");
    assert_eq!(id, "alpha-3");
}

#[test]
fn next_profile_id_falls_back_when_name_lacks_ascii() {
    let mut doc = empty_document();
    doc.profiles = vec![make_profile("profile", "_")];
    let id = next_profile_id(&doc, "！？");
    assert_eq!(id, "profile-2");
}

#[test]
fn new_profile_runtime_defaults_match_release_profile_baseline() {
    let runtime = new_profile_runtime_defaults();
    assert_eq!(runtime.zenoh_enabled, Some(true));
    assert_eq!(runtime.zenoh_key_expr.as_deref(), Some("un-motion/frame"));
    assert_eq!(runtime.zenoh_topic_mode.as_deref(), Some("frame"));
    assert_eq!(runtime.vmc_enabled, Some(false));
    assert_eq!(runtime.media_pipe_delegate.as_deref(), Some("xnnpack"));
    assert_eq!(runtime.media_pipe_num_threads, Some(2));
    assert_eq!(runtime.media_pipe_holistic_flow_limiter_enabled, Some(true));
    assert_eq!(runtime.media_pipe_holistic_flow_limiter_max_in_flight, Some(1));
    assert_eq!(runtime.media_pipe_holistic_flow_limiter_max_in_queue, Some(1));

    let modifier = runtime.modifier.expect("modifier defaults");
    assert_eq!(modifier.head_enabled, Some(true));
    assert_eq!(modifier.face_enabled, Some(true));
    assert_eq!(modifier.hands_enabled, Some(true));
    assert_eq!(modifier.arms_ik_enabled, Some(true));
    assert_eq!(modifier.torso_enabled, Some(true));
    assert_eq!(modifier.legs_enabled, Some(false));
    assert_eq!(modifier.feet_enabled, Some(false));
    assert_eq!(modifier.torso_pitch_scale.map(|v| f32::from_bits(v.0)), Some(1.0));
    assert_eq!(modifier.smoothing_ema_enabled, Some(false));
    assert_eq!(modifier.smoothing_ema_alpha.map(|v| f32::from_bits(v.0)), Some(0.7));
    assert_eq!(modifier.smoothing_one_euro_enabled, Some(true));
    assert_eq!(modifier.smoothing_confidence_adaptive_cutoff, Some(true));
    assert_eq!(modifier.adaptive_min_cutoff_hz.map(|v| f32::from_bits(v.0)), Some(1.0));
    assert_eq!(modifier.adaptive_beta.map(|v| f32::from_bits(v.0)), Some(0.12));
    assert_eq!(modifier.adaptive_derivative_cutoff_hz.map(|v| f32::from_bits(v.0)), Some(1.0));
}

#[test]
fn merge_profile_from_capturer_selection_preserves_unrelated_profiles() {
    let mut user_document = ProfileDocument {
        selected_profile_id: "global".to_string(),
        profiles: vec![make_profile("global", "Global Shutter Cam"), make_profile("waidayo", "Waidayo")],
        profile_sources: Vec::new(),
        next_profile_index: 3,
        next_source_index: 2,
    };
    user_document.profiles[1].note = "current waidayo".to_string();

    let mut capturer_document = user_document.clone();
    capturer_document.profiles[0].note = "updated global".to_string();
    capturer_document.profiles[1].note = "stale waidayo from capturer".to_string();

    let merged = merge_profile_from_capturer_selection("global", user_document, capturer_document).expect("merge");

    assert_eq!(merged.profiles[0].note, "updated global");
    assert_eq!(merged.profiles[1].note, "current waidayo");
}

#[test]
fn apply_profile_field_updates_name_and_note() {
    let mut profile = make_profile("alpha", "Alpha");
    apply_profile_field(&mut profile, "name", &text(" Renamed ")).unwrap();
    apply_profile_field(&mut profile, "note", &text("hello")).unwrap();
    assert_eq!(profile.name, "Renamed");
    assert_eq!(profile.note, "hello");
}

#[test]
fn apply_profile_field_round_trips_optional_runtime_fields() {
    let mut profile = make_profile("alpha", "Alpha");
    apply_profile_field(&mut profile, "runtime_selection.fps", &number(60)).unwrap();
    apply_profile_field(&mut profile, "runtime_selection.zenoh_enabled", &FieldValue::Bool(true)).unwrap();
    apply_profile_field(&mut profile, "runtime_selection.zenoh_key_expr", &text("un-motion/frame")).unwrap();
    apply_profile_field(&mut profile, "runtime_selection.media_pipe_delegate", &text("cpu")).unwrap();
    apply_profile_field(&mut profile, "runtime_selection.media_pipe_num_threads", &number(2)).unwrap();
    apply_profile_field(
        &mut profile,
        "runtime_selection.media_pipe_holistic_flow_limiter_enabled",
        &FieldValue::Bool(false),
    )
    .unwrap();
    apply_profile_field(&mut profile, "runtime_selection.media_pipe_holistic_flow_limiter_max_in_flight", &number(2))
        .unwrap();
    apply_profile_field(&mut profile, "runtime_selection.media_pipe_holistic_flow_limiter_max_in_queue", &number(0))
        .unwrap();
    let runtime = profile.runtime_selection.as_ref().expect("runtime allocated");
    assert_eq!(runtime.fps, Some(60));
    assert_eq!(runtime.zenoh_enabled, Some(true));
    assert_eq!(runtime.zenoh_key_expr.as_deref(), Some("un-motion/frame"));
    assert_eq!(runtime.media_pipe_delegate.as_deref(), Some("cpu"));
    assert_eq!(runtime.media_pipe_num_threads, Some(2));
    assert_eq!(runtime.media_pipe_holistic_flow_limiter_enabled, Some(false));
    assert_eq!(runtime.media_pipe_holistic_flow_limiter_max_in_flight, Some(2));
    assert_eq!(runtime.media_pipe_holistic_flow_limiter_max_in_queue, Some(0));

    for field in [
        "runtime_selection.fps",
        "runtime_selection.zenoh_enabled",
        "runtime_selection.zenoh_key_expr",
        "runtime_selection.media_pipe_delegate",
        "runtime_selection.media_pipe_num_threads",
        "runtime_selection.media_pipe_holistic_flow_limiter_enabled",
        "runtime_selection.media_pipe_holistic_flow_limiter_max_in_flight",
        "runtime_selection.media_pipe_holistic_flow_limiter_max_in_queue",
    ] {
        apply_profile_field(&mut profile, field, &FieldValue::Null).unwrap();
    }
    assert!(profile.runtime_selection.is_none());
}

#[test]
fn apply_profile_field_updates_modifier_subfield() {
    let mut profile = make_profile("alpha", "Alpha");
    apply_profile_field(&mut profile, "runtime_selection.modifier.hands_enabled", &FieldValue::Bool(true)).unwrap();
    let modifier = profile
        .runtime_selection
        .as_ref()
        .and_then(|runtime| runtime.modifier.as_ref())
        .expect("tracking allocated");
    assert_eq!(modifier.hands_enabled, Some(true));

    apply_profile_field(&mut profile, "runtime_selection.modifier.hands_enabled", &FieldValue::Null).unwrap();
    assert!(profile.runtime_selection.is_none());
}

#[test]
fn apply_profile_field_updates_pipeline_input_source_fields() {
    let mut profile = make_profile("alpha", "Alpha");
    apply_profile_field(&mut profile, "pipeline_components.input", &text("file-video")).unwrap();
    apply_profile_field(&mut profile, "pipeline_components.input_path", &text("C:/tmp/sample.mp4")).unwrap();
    apply_profile_field(&mut profile, "pipeline_components.input_fps", &number(24)).unwrap();
    apply_profile_field(&mut profile, "pipeline_components.input_width", &number(1280)).unwrap();
    apply_profile_field(&mut profile, "pipeline_components.input_height", &number(720)).unwrap();
    apply_profile_field(&mut profile, "pipeline_components.input_pixel_format", &text("YUY2")).unwrap();
    apply_profile_field(&mut profile, "pipeline_components.input_repeat", &FieldValue::Bool(true)).unwrap();

    let pipeline = profile.pipeline_components.as_ref().expect("pipeline persisted");
    assert_eq!(pipeline.input.as_deref(), Some("file-video"));
    assert_eq!(pipeline.input_path.as_deref(), Some("C:/tmp/sample.mp4"));
    assert_eq!(pipeline.input_fps, Some(24));
    assert_eq!(pipeline.input_width, Some(1280));
    assert_eq!(pipeline.input_height, Some(720));
    assert_eq!(pipeline.input_pixel_format.as_deref(), Some("YUY2"));
    assert_eq!(pipeline.input_repeat, Some(true));

    for field in [
        "pipeline_components.input_path",
        "pipeline_components.input_fps",
        "pipeline_components.input_width",
        "pipeline_components.input_height",
        "pipeline_components.input_pixel_format",
        "pipeline_components.input_repeat",
        "pipeline_components.input",
    ] {
        apply_profile_field(&mut profile, field, &FieldValue::Null).unwrap();
    }
    assert!(profile.pipeline_components.is_none());
}

#[test]
fn apply_profile_field_rejects_unknown_path() {
    let mut profile = make_profile("alpha", "Alpha");
    let err = apply_profile_field(&mut profile, "runtime_selection.unknown_knob", &FieldValue::Bool(true)).unwrap_err();
    assert!(err.message().contains("unknown runtime_selection field"));
}

#[test]
fn opt_string_trims_and_returns_none_for_empty() {
    assert_eq!(opt_string(&FieldValue::Null, "field").unwrap(), None);
    assert_eq!(opt_string(&text("   "), "field").unwrap(), None);
    assert_eq!(opt_string(&text("  hello "), "field").unwrap(), Some("hello".to_string()));
}

#[test]
fn refused_edit_leaves_profile_unchanged() {
    let mut profile = make_profile("alpha", "Alpha");
    let before = profile.clone();
    let err = apply_profile_field(&mut profile, "runtime_selection.fps", &text("sixty")).unwrap_err();
    assert_eq!(err, FieldError::NotUnsignedOrNull { field: "fps".to_string() });
    assert_eq!(err.message(), "field `fps` must be a non-negative integer or null");
    assert_eq!(profile, before);
}

#[test]
fn every_field_error_names_its_field() {
    let mut profile = make_profile("alpha", "Alpha");
    assert_eq!(
        apply_profile_field(&mut profile, "name", &FieldValue::Null),
        Err(FieldError::NotString { field: "name".to_string() })
    );
    assert_eq!(
        apply_profile_field(&mut profile, "icon_path", &FieldValue::Bool(true)),
        Err(FieldError::NotStringOrNull { field: "icon_path".to_string() })
    );
    assert_eq!(
        apply_profile_field(&mut profile, "runtime_selection.vmc_enabled", &text("yes")),
        Err(FieldError::NotBoolOrNull { field: "vmc_enabled".to_string() })
    );
    assert_eq!(
        apply_profile_field(&mut profile, "runtime_selection.fps", &number(5_000_000_000)),
        Err(FieldError::ExceedsU32 { field: "fps".to_string() })
    );
    assert_eq!(
        apply_profile_field(&mut profile, "runtime_selection.modifier.eye_open_bias", &text("x")),
        Err(FieldError::NotNumberOrNull { field: "eye_open_bias".to_string() })
    );
    assert_eq!(
        apply_profile_field(&mut profile, "bogus", &FieldValue::Null),
        Err(FieldError::UnknownField { scope: FieldScope::Profile, field: "bogus".to_string() })
    );
    assert_eq!(
        apply_profile_field(&mut profile, "pipeline_components.engine", &text("x")),
        Err(FieldError::UnknownField { scope: FieldScope::PipelineComponents, field: "engine".to_string() })
    );
    assert_eq!(profile, make_profile("alpha", "Alpha"));
}

#[test]
fn modifier_unit_values_are_clamped_and_counts_raised() {
    let mut profile = make_profile("alpha", "Alpha");
    let big = FieldValue::Number { as_u64: None, as_nonnegative_f32: Some(F32Bits(3.5f32.to_bits())) };
    apply_profile_field(&mut profile, "runtime_selection.modifier.eye_open_bias", &big).unwrap();
    apply_profile_field(&mut profile, "runtime_selection.media_pipe_num_threads", &number(0)).unwrap();
    let runtime = profile.runtime_selection.as_ref().unwrap();
    assert_eq!(runtime.media_pipe_num_threads, Some(1));
    let bias = runtime.modifier.as_ref().unwrap().eye_open_bias.unwrap();
    assert_eq!(f32::from_bits(bias.0), 1.0);
}

#[test]
fn face_pose_model_disable_removes_block() {
    let mut profile = make_profile("alpha", "Alpha");
    apply_profile_field(&mut profile, "runtime_selection.modifier.face_pose_model.sample_count", &number(90)).unwrap();
    apply_profile_field(&mut profile, "runtime_selection.modifier.head_enabled", &FieldValue::Bool(true)).unwrap();
    let model = profile.runtime_selection.as_ref().unwrap().modifier.as_ref().unwrap().face_pose_model.as_ref();
    assert_eq!(model.unwrap().sample_count, Some(90));
    apply_profile_field(
        &mut profile,
        "runtime_selection.modifier.face_pose_model.enabled",
        &FieldValue::Bool(false),
    )
    .unwrap();
    let modifier = profile.runtime_selection.as_ref().unwrap().modifier.as_ref().unwrap();
    assert!(modifier.face_pose_model.is_none());
    assert_eq!(modifier.head_enabled, Some(true));
}

#[test]
fn post_process_rules_edit_reaches_nested_block() {
    let mut profile = make_profile("alpha", "Alpha");
    apply_profile_field(
        &mut profile,
        "runtime_selection.modifier.post_process_rules.lost_signal_behavior",
        &text("  hold "),
    )
    .unwrap();
    let rules = profile
        .runtime_selection
        .as_ref()
        .unwrap()
        .modifier
        .as_ref()
        .unwrap()
        .post_process_rules
        .as_ref()
        .unwrap();
    assert_eq!(rules.lost_signal_behavior.as_deref(), Some("hold"));
}

#[test]
fn update_profile_field_finds_profile_by_id() {
    let mut doc = empty_document();
    doc.profiles = vec![make_profile("a", "A"), make_profile("b", "B")];
    update_profile_field(&mut doc, "b", "group", &text(" studio ")).unwrap();
    assert_eq!(doc.profiles[1].group, "studio");
    assert_eq!(doc.profiles[0].group, "");
    assert_eq!(
        update_profile_field(&mut doc, "zzz", "group", &text("x")),
        Err(ProfileUpdateError::NotFound { profile_id: "zzz".to_string() })
    );
}

fn ids(doc: &ProfileDocument) -> Vec<&str> {
    doc.profiles.iter().map(|p| p.id.as_str()).collect()
}

#[test]
fn create_and_duplicate_profiles_get_fresh_ids() {
    let mut doc = empty_document();
    let first = create_profile(&mut doc, "  My Cam ");
    assert_eq!(first, "my-cam");
    assert_eq!(doc.selected_profile_id, "my-cam");
    assert_eq!(doc.profiles[0].name, "My Cam");
    let blank = create_profile(&mut doc, "   ");
    assert_eq!(doc.profiles[1].name, "New Profile");
    assert_ne!(blank, first);
    let copy = duplicate_profile(&mut doc, "my-cam").expect("copy");
    assert_eq!(doc.profiles.last().map(|p| p.name.as_str()), Some("My Cam copy"));
    assert_eq!(copy, "my-cam-copy");
    assert_eq!(
        duplicate_profile(&mut doc, "nope"),
        Err(ProfileOpError::NotFound { id: "nope".to_string() })
    );
}

#[test]
fn delete_moves_selection_and_drops_sources() {
    let mut doc = empty_document();
    doc.profiles = vec![make_profile("a", "A"), make_profile("b", "B")];
    doc.selected_profile_id = "a".to_string();
    doc.profile_sources = vec![
        DocumentSource { id: "s1".to_string(), profile_id: "a".to_string(), kind: "vmc".to_string() },
        DocumentSource { id: "s2".to_string(), profile_id: "b".to_string(), kind: "vmc".to_string() },
    ];
    assert_eq!(
        delete_profile(doc.clone(), "a", true),
        Err(ProfileOpError::InUse { id: "a".to_string() })
    );
    assert_eq!(
        delete_profile(doc.clone(), "z", false),
        Err(ProfileOpError::NotFound { id: "z".to_string() })
    );
    let after = delete_profile(doc, "a", false).expect("deleted");
    assert_eq!(ids(&after), vec!["b"]);
    assert_eq!(after.selected_profile_id, "b");
    assert_eq!(after.profile_sources.len(), 1);
    let emptied = delete_profile(after, "b", false).expect("deleted");
    assert!(emptied.profiles.is_empty());
    assert_eq!(emptied.selected_profile_id, "");
}

#[test]
fn reorder_and_select_profiles() {
    let mut doc = empty_document();
    doc.profiles = vec![make_profile("a", "A"), make_profile("b", "B"), make_profile("c", "C")];
    reorder_profiles(&mut doc, &vec!["c".to_string(), "x".to_string(), "a".to_string()]);
    assert_eq!(ids(&doc), vec!["c", "a", "b"]);
    assert_eq!(set_selected_profile_id(&mut doc, Some(" b ".to_string())), Ok(true));
    assert_eq!(set_selected_profile_id(&mut doc, Some("b".to_string())), Ok(false));
    assert_eq!(
        set_selected_profile_id(&mut doc, Some("q".to_string())),
        Err(ProfileOpError::NotFound { id: "q".to_string() })
    );
    assert_eq!(doc.selected_profile_id, "b");
    assert_eq!(set_selected_profile_id(&mut doc, None), Ok(true));
    assert_eq!(doc.selected_profile_id, "");
    apply_cli_active_profile(&mut doc, Some(" c "));
    assert_eq!(doc.selected_profile_id, "c");
    apply_cli_active_profile(&mut doc, Some("missing"));
    assert_eq!(doc.selected_profile_id, "c");
}

#[test]
fn calibrations_are_recorded_in_the_running_profile() {
    let mut doc = empty_document();
    doc.profiles = vec![make_profile("a", "A"), make_profile("b", "B")];
    let one = F32Bits(1.0f32.to_bits());
    let zero = F32Bits(0);
    record_calibration(
        &mut doc,
        "b",
        CalibrationRecord::Neutral {
            rotations: vec![("Head".to_string(), (zero, zero, zero, one))],
            pose: un_motion::runtime_choices::NeutralCalibrationPose::parse(Some("T")).expect("pose"),
        },
    )
    .expect("recorded");
    assert!(doc.profiles[0].runtime_selection.is_none());
    let modifier = doc.profiles[1].runtime_selection.as_ref().and_then(|r| r.modifier.as_ref()).expect("modifier");
    assert_eq!(modifier.neutral_calibration_enabled, Some(true));
    assert_eq!(modifier.neutral_calibration_rotations.as_ref().map(|r| r.len()), Some(1));
    assert!(modifier.neutral_calibration_pose.is_some());

    record_calibration(&mut doc, "b", CalibrationRecord::ClearNeutral).expect("cleared");
    let modifier = doc.profiles[1].runtime_selection.as_ref().and_then(|r| r.modifier.as_ref()).expect("modifier");
    assert_eq!(modifier.neutral_calibration_enabled, Some(false));
    assert_eq!(modifier.neutral_calibration_rotations, None);
    assert_eq!(modifier.neutral_calibration_pose, None);

    record_calibration(
        &mut doc,
        "a",
        CalibrationRecord::FacePoseModel {
            neutral_nose_drop_eye_mouth: F32Bits(0.6355f32.to_bits()),
            valid_samples: 4,
            median_abs_yaw: F32Bits(0.045f32.to_bits()),
            median_abs_roll: F32Bits(0.03f32.to_bits()),
        },
    )
    .expect("recorded");
    let model = doc.profiles[0]
        .runtime_selection
        .as_ref()
        .and_then(|r| r.modifier.as_ref())
        .and_then(|m| m.face_pose_model.as_ref())
        .expect("model");
    assert_eq!(model.enabled, Some(true));
    assert_eq!(model.sample_count, Some(4));

    let before = doc.clone();
    assert_eq!(
        record_calibration(&mut doc, "zz", CalibrationRecord::ClearNeutral),
        Err(ProfileOpError::NotFound { id: "zz".to_string() })
    );
    assert_eq!(doc, before);
}
