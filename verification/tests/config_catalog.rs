use un_motion::catalog::{InputComponentKind, PipelineComponentCatalog};
use un_motion::runner_profile::{
    validate_profile, BufferComponentKind, BufferOverflowPolicy, ProfileError, RunnerProfile, VmcBlendshapeDetail,
    VmcBlendshapeEntry,
};
use un_motion::float_bits::F32Bits;

fn built_for_windows() -> bool {
    std::path::MAIN_SEPARATOR == '\\'
}

#[test]
fn component_catalog_marks_platform_specific_inputs() {
    let catalog = PipelineComponentCatalog::current_platform();
    assert!(catalog.inputs.iter().any(|option| option.id == "file-image" && option.available));
    assert!(catalog.inputs.iter().any(|option| option.id == "file-video" && option.available));
    let directshow = catalog
        .inputs
        .iter()
        .find(|option| option.id == "webcam-directshow")
        .expect("directshow option");
    assert_eq!(directshow.available, built_for_windows());
    let nokhwa = catalog
        .inputs
        .iter()
        .find(|option| option.id == "webcam-nokhwa")
        .expect("nokhwa option");
    assert_eq!(nokhwa.available, !built_for_windows());
    assert!(catalog.inputs.iter().any(|option| option.id == "webcam-browser" && option.available));
    assert!(catalog.engines.iter().any(|option| option.id == "media-pipe-native"));
    assert!(catalog.post_processes.iter().any(|option| option.id == "media-pipe-default"));
    assert!(catalog.outputs.iter().any(|option| option.id == "vmc"));
}

#[test]
fn automatic_buffer_strategy_matches_input_kind() {
    let mut realtime = RunnerProfile::default().components;
    realtime.input.kind = InputComponentKind::WebcamDirectShow;
    realtime.apply_automatic_buffer_strategy();
    assert_eq!(realtime.input_buffer.kind, BufferComponentKind::Latest);
    assert_eq!(realtime.input_buffer.capacity, 1);
    assert_eq!(realtime.input_buffer.overflow, BufferOverflowPolicy::ReplaceOld);
    assert_eq!(realtime.output_buffer.kind, BufferComponentKind::Latest);

    let mut file_video = RunnerProfile::default().components;
    file_video.input.kind = InputComponentKind::FileVideo;
    file_video.apply_automatic_buffer_strategy();
    assert_eq!(file_video.input_buffer.kind, BufferComponentKind::Ring);
    assert_eq!(file_video.input_buffer.capacity, 8);
    assert_eq!(file_video.input_buffer.overflow, BufferOverflowPolicy::BlockProducer);
    assert_eq!(file_video.output_buffer.kind, BufferComponentKind::Ring);
}

#[test]
fn validate_fails_on_toml_integer_overflow_timeout() {
    let mut profile = RunnerProfile::default();
    profile.pipeline.stale_timeout_ns = u64::MAX;
    let err = validate_profile(&profile).expect_err("validation should fail");
    assert_eq!(err, ProfileError::IntegerTooLarge { field: "pipeline.stale_timeout_ns".to_string() });
    assert!(err.message().contains("i64::MAX"));
}

#[test]
fn default_profile_validates() {
    assert_eq!(validate_profile(&RunnerProfile::default()), Ok(()));
}

#[test]
fn validate_refuses_zero_input_buffer_capacity() {
    let mut profile = RunnerProfile::default();
    profile.components.input_buffer.capacity = 0;
    assert_eq!(
        validate_profile(&profile),
        Err(ProfileError::ZeroCapacity { field: "components.input_buffer.capacity".to_string() })
    );
}

#[test]
fn validate_refuses_blank_component_id_before_capacity() {
    let mut profile = RunnerProfile::default();
    profile.components.engine.id = "   ".to_string();
    profile.components.input_buffer.capacity = 0;
    assert_eq!(
        validate_profile(&profile),
        Err(ProfileError::EmptyComponentId { field: "components.engine.id".to_string() })
    );
}

#[test]
fn validate_refuses_component_id_with_space() {
    let mut profile = RunnerProfile::default();
    profile.components.input.id = "my input".to_string();
    assert_eq!(
        validate_profile(&profile),
        Err(ProfileError::InvalidComponentId { field: "components.input.id".to_string() })
    );
}

#[test]
fn validate_refuses_missing_outputs() {
    let mut profile = RunnerProfile::default();
    profile.components.outputs.clear();
    assert_eq!(validate_profile(&profile), Err(ProfileError::NoOutputs));
}

#[test]
fn validate_refuses_duplicate_output_ids() {
    let mut profile = RunnerProfile::default();
    let second = RunnerProfile::default().components.outputs.remove(0);
    profile.components.outputs.push(second);
    assert_eq!(
        validate_profile(&profile),
        Err(ProfileError::DuplicateOutputId { id: "output-vmc".to_string() })
    );
}

#[test]
fn validate_refuses_inverted_clamp_range() {
    let mut profile = RunnerProfile::default();
    profile.output.vmc.blendshape_map.push((
        "head.pitch".to_string(),
        VmcBlendshapeEntry::Detailed(VmcBlendshapeDetail {
            name: "HeadPitch".to_string(),
            scale: F32Bits(1.0f32.to_bits()),
            offset: F32Bits(0.0f32.to_bits()),
            clamp_min: Some(F32Bits(1.0f32.to_bits())),
            clamp_max: Some(F32Bits(0.5f32.to_bits())),
        }),
    ));
    let err = validate_profile(&profile).expect_err("inverted range");
    assert!(matches!(err, ProfileError::InvalidClampRange { .. }));
}

#[test]
fn validate_refuses_empty_detailed_name() {
    let mut profile = RunnerProfile::default();
    profile.output.vmc.blendshape_map.push((
        "head.pitch".to_string(),
        VmcBlendshapeEntry::Detailed(VmcBlendshapeDetail {
            name: String::new(),
            scale: F32Bits(1.0f32.to_bits()),
            offset: F32Bits(0.0f32.to_bits()),
            clamp_min: None,
            clamp_max: None,
        }),
    ));
    assert_eq!(
        validate_profile(&profile),
        Err(ProfileError::EmptyDetailedName { signal: "head.pitch".to_string() })
    );
}

#[test]
fn catalog_for_each_platform_lists_one_native_webcam() {
    for windows in [true, false] {
        let catalog = PipelineComponentCatalog::for_platform(windows);
        let directshow = catalog.inputs.iter().find(|o| o.id == "webcam-directshow").unwrap();
        let nokhwa = catalog.inputs.iter().find(|o| o.id == "webcam-nokhwa").unwrap();
        assert_eq!(directshow.available, windows);
        assert_eq!(nokhwa.available, !windows);
    }
}

#[test]
fn validate_fails_on_empty_detailed_name() {
    let mut profile = RunnerProfile::default();
    profile.output.vmc.blendshape_map.retain(|(signal, _)| signal != "head.pitch");
    profile.output.vmc.blendshape_map.push((
        "head.pitch".to_string(),
        VmcBlendshapeEntry::Detailed(VmcBlendshapeDetail { name: String::new(), ..VmcBlendshapeDetail::default() }),
    ));
    let err = validate_profile(&profile).expect_err("validation should fail");
    assert_eq!(err, ProfileError::EmptyDetailedName { signal: "head.pitch".to_string() });
    assert!(err.message().contains("name が空"));
}

#[test]
fn validate_fails_on_invalid_clamp_range() {
    let mut profile = RunnerProfile::default();
    profile.output.vmc.blendshape_map.retain(|(signal, _)| signal != "head.pitch");
    profile.output.vmc.blendshape_map.push((
        "head.pitch".to_string(),
        VmcBlendshapeEntry::Detailed(VmcBlendshapeDetail {
            name: "HeadPitch".to_string(),
            clamp_min: Some(F32Bits(1.0f32.to_bits())),
            clamp_max: Some(F32Bits(0.5f32.to_bits())),
            ..VmcBlendshapeDetail::default()
        }),
    ));
    let err = validate_profile(&profile).expect_err("validation should fail");
    assert_eq!(
        err,
        ProfileError::InvalidClampRange {
            signal: "head.pitch".to_string(),
            min: F32Bits(1.0f32.to_bits()),
            max: F32Bits(0.5f32.to_bits()),
        }
    );
    assert!(err.message().contains("clamp 範囲が不正"));
}

#[test]
fn validate_fails_on_duplicate_output_component_id() {
    let mut profile = RunnerProfile::default();
    let mut vmc = RunnerProfile::default().components.outputs.remove(0);
    vmc.id = "same".to_string();
    let mut debug = RunnerProfile::default().components.outputs.remove(0);
    debug.id = "same".to_string();
    debug.kind = un_motion::catalog::OutputComponentKind::Debug;
    profile.components.outputs = vec![vmc, debug];
    let err = validate_profile(&profile).expect_err("validation should fail");
    assert_eq!(err, ProfileError::DuplicateOutputId { id: "same".to_string() });
    assert!(err.message().contains("duplicate id"));
}

#[test]
fn validate_fails_on_zero_buffer_capacity() {
    let mut profile = RunnerProfile::default();
    profile.components.input_buffer.capacity = 0;
    let err = validate_profile(&profile).expect_err("validation should fail");
    assert_eq!(err, ProfileError::ZeroCapacity { field: "components.input_buffer.capacity".to_string() });
}

#[test]
fn profile_error_messages_name_the_rule() {
    assert_eq!(
        ProfileError::ZeroCapacity { field: "components.input_buffer.capacity".to_string() }.message(),
        "components.input_buffer.capacity must be greater than 0"
    );
    assert_eq!(
        ProfileError::EmptyBlendshapeName { signal: "head.yaw".to_string() }.message(),
        "output.vmc.blendshape_map[head.yaw] の name が空です"
    );
    assert_eq!(ProfileError::NoOutputs.message(), "components.outputs must contain at least one output component");
    assert_eq!(
        ProfileError::InvalidComponentId { field: "components.input.id".to_string() }.message(),
        "components.input.id may only contain ASCII letters, digits, '.', '-', and '_'"
    );
}
