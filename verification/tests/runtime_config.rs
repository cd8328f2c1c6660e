use un_motion::api_config::{BindAddress, IpAddress};
use un_motion::float_bits::F32Bits;
use un_motion::runtime_choices::{MirrorMode, SmoothingPreset};
use un_motion::runtime_config::{
    analysis_extras_max_samples, core_runtime_config_from_document, effective_input_fps,
    modifier_config_from_runtime, output_target_texts, unmotion_runtime_stream_id, MirrorConfig,
    ModifierConfig, NeutralCalibrationConfig, RuntimeConfigError, SmoothingConfig, DEFAULT_FPS,
    FOLLOW_INPUT_OUTPUT_FPS_CAP,
};
use un_motion::profile_schema::{
    DocumentProfile, ProfileDocument, ProfileModifierSettings, ProfilePipelineComponents,
    ProfilePostProcessRules, ProfileRuntimeSettings,
};

fn bits(value: f32) -> F32Bits {
    F32Bits(value.to_bits())
}

fn value(bits: F32Bits) -> f32 {
    f32::from_bits(bits.0)
}

fn base_modifier() -> ModifierConfig {
    ModifierConfig {
        head_enabled: true,
        face_enabled: true,
        hands_enabled: true,
        arms_ik_enabled: true,
        torso_enabled: true,
        legs_enabled: false,
        feet_enabled: false,
        torso_pitch_scale: bits(1.0),
        neutral_calibration: NeutralCalibrationConfig { enabled: false, rotations: Vec::new() },
        mirror: MirrorConfig { mode: MirrorMode::Normal },
        smoothing: SmoothingConfig {
            preset: SmoothingPreset::Off,
            ema_enabled: false,
            ema_alpha: bits(0.5),
            one_euro_enabled: false,
            confidence_adaptive_cutoff_enabled: false,
            adaptive_min_cutoff_hz: bits(1.0),
            adaptive_beta: bits(0.0),
            adaptive_derivative_cutoff_hz: bits(1.0),
        },
    }
}

fn profile(runtime_selection: Option<ProfileRuntimeSettings>) -> DocumentProfile {
    DocumentProfile {
        id: "waidayo".to_string(),
        name: "Waidayo".to_string(),
        created_at: String::new(),
        note: String::new(),
        icon_path: None,
        group: String::new(),
        default_source_enabled: false,
        default_source_label: "UNMotion Default".to_string(),
        runtime_selection,
        pipeline_components: None,
    }
}

fn document(selected: &str, profiles: Vec<DocumentProfile>) -> ProfileDocument {
    ProfileDocument {
        selected_profile_id: selected.to_string(),
        profiles,
        profile_sources: Vec::new(),
        next_profile_index: 2,
        next_source_index: 2,
    }
}

fn loopback(port: u16) -> BindAddress {
    BindAddress { ip: IpAddress::V4(127, 0, 0, 1), port }
}

fn config_of(doc: &ProfileDocument) -> Result<un_motion::runtime_config::CoreRuntimeConfig, RuntimeConfigError> {
    core_runtime_config_from_document(doc, None, None, &base_modifier(), false, &None)
}

#[test]
fn config_leaves_output_disabled_when_profile_output_is_off() {
    let mut runtime = ProfileRuntimeSettings::empty();
    runtime.vmc_enabled = Some(false);
    let doc = document("waidayo", vec![profile(Some(runtime))]);

    let config = config_of(&doc).expect("config");

    assert_eq!(config.fps, FOLLOW_INPUT_OUTPUT_FPS_CAP);
    assert!(config.vmc_output.is_none());
}

#[test]
fn follow_input_uses_high_output_cadence_cap() {
    let mut runtime = ProfileRuntimeSettings::empty();
    runtime.engine = Some("vmc".to_string());
    runtime.vmc_receive_listen_addr = Some("127.0.0.1:39540".to_string());
    let mut unmotion_profile = profile(Some(runtime));
    unmotion_profile.default_source_enabled = true;
    let doc = document("waidayo", vec![unmotion_profile]);

    let config = config_of(&doc).expect("config");

    assert_eq!(config.fps, FOLLOW_INPUT_OUTPUT_FPS_CAP);
    assert_eq!(config.frame_streams[0].input_fps, DEFAULT_FPS);
}

#[test]
fn config_reads_unmotion_pipeline_selection() {
    let mut rules = ProfilePostProcessRules::empty();
    rules.anatomical_constraints = Some(false);
    rules.finger_derived = Some(false);
    let mut modifier = ProfileModifierSettings::empty();
    modifier.hands_enabled = Some(true);
    modifier.camera_diagonal_view_angle_deg = Some(bits(65.0));
    modifier.min_landmark_confidence = Some(bits(0.7));
    modifier.eye_open_bias = Some(bits(0.8));
    modifier.mirror_mode = Some("mirror-output".to_string());
    modifier.post_process_rules = Some(rules);
    let mut runtime = ProfileRuntimeSettings::empty();
    runtime.engine = Some("mediapipe-native".to_string());
    runtime.device = Some("dshow0:Camera".to_string());
    runtime.resolution = Some("800x600".to_string());
    runtime.media_pipe_running_mode = Some("video".to_string());
    runtime.media_pipe_holistic_enabled = Some(false);
    runtime.media_pipe_delegate = Some("cpu".to_string());
    runtime.media_pipe_num_threads = Some(2);
    runtime.media_pipe_holistic_flow_limiter_enabled = Some(false);
    runtime.media_pipe_holistic_flow_limiter_max_in_flight = Some(3);
    runtime.media_pipe_holistic_flow_limiter_max_in_queue = Some(0);
    runtime.modifier = Some(modifier);
    let mut unmotion_profile = profile(Some(runtime));
    unmotion_profile.default_source_enabled = true;
    let mut pipeline = ProfilePipelineComponents::empty();
    pipeline.input = Some("file-image".to_string());
    pipeline.engine = Some("media-pipe-native".to_string());
    pipeline.post_process = Some("none".to_string());
    pipeline.input_path = Some("fixture.png".to_string());
    pipeline.input_fps = Some(12);
    pipeline.input_width = Some(640);
    pipeline.input_height = Some(360);
    pipeline.input_pixel_format = Some("YUY2".to_string());
    pipeline.input_repeat = Some(true);
    pipeline.input_ffmpeg_path = Some("tools/ffmpeg.exe".to_string());
    pipeline.input_denoise_mode = Some("temporal-iir".to_string());
    pipeline.input_denoise_temporal_iir_hz = Some(bits(8.0));
    pipeline.input_resize_enabled = Some(true);
    pipeline.input_resize_axis = Some("height".to_string());
    pipeline.input_resize_pad_color = Some("112233ff".to_string());
    unmotion_profile.pipeline_components = Some(pipeline);
    let doc = document("waidayo", vec![unmotion_profile]);

    let config = config_of(&doc).expect("config");
    let stream = &config.frame_streams[0];

    assert_eq!(stream.runtime_engine, "mediapipe-native");
    assert_eq!(stream.device_id, "dshow0:Camera");
    assert_eq!(stream.input_component, "file-image");
    assert_eq!(stream.input_path.as_deref(), Some("fixture.png"));
    assert_eq!(stream.input_fps, 12);
    assert_eq!(config.fps, FOLLOW_INPUT_OUTPUT_FPS_CAP);
    assert_eq!(stream.input_width, Some(640));
    assert_eq!(stream.input_height, Some(360));
    assert_eq!(stream.input_pixel_format.as_deref(), Some("YUY2"));
    assert!(stream.input_repeat);
    assert_eq!(stream.input_ffmpeg_path.as_deref(), Some("tools/ffmpeg.exe"));
    assert_eq!(stream.input_denoise_mode, "temporal-iir");
    assert_eq!(value(stream.input_denoise_temporal_iir_hz), 8.0);
    assert_eq!(stream.input_resize.as_ref().map(|resize| resize.reference), Some(360));
    assert_eq!(stream.input_resize.as_ref().map(|resize| resize.pad_color.as_str()), Some("112233ff"));
    assert_eq!(stream.media_pipe_running_mode, "video");
    assert!(!stream.media_pipe_holistic_enabled);
    assert_eq!(stream.media_pipe_delegate.as_deref(), Some("cpu"));
    assert_eq!(stream.media_pipe_num_threads, Some(2));
    assert!(!stream.media_pipe_holistic_flow_limiter_enabled);
    assert_eq!(stream.media_pipe_holistic_flow_limiter_max_in_flight, 3);
    assert_eq!(stream.media_pipe_holistic_flow_limiter_max_in_queue, 0);
    assert_eq!(stream.post_process_component, "none");
    assert!(stream.media_pipe_post_process.hands_enabled);
    assert_eq!(value(stream.media_pipe_post_process.camera_diagonal_view_angle_deg), 65.0);
    assert_eq!(value(stream.media_pipe_post_process.min_landmark_confidence), 0.7);
    assert_eq!(value(stream.media_pipe_post_process.eye_open_bias), 0.8);
    assert_eq!(stream.media_pipe_post_process.mirror_mode, "normal");
    assert!(!stream.media_pipe_post_process.post_process_rules.anatomical_constraints);
    assert!(!stream.media_pipe_post_process.post_process_rules.finger_derived);
    let runtime = doc.profiles[0].runtime_selection.as_ref();
    let modifier = modifier_config_from_runtime(runtime, base_modifier());
    assert_eq!(modifier.mirror.mode, MirrorMode::MirrorOutput);
}

#[test]
fn explicit_runtime_fps_overrides_input_fps_for_output_cadence() {
    let mut runtime = ProfileRuntimeSettings::empty();
    runtime.fps = Some(90);
    runtime.engine = Some("mediapipe-native".to_string());
    let mut unmotion_profile = profile(Some(runtime));
    unmotion_profile.default_source_enabled = true;
    let mut pipeline = ProfilePipelineComponents::empty();
    pipeline.input_fps = Some(60);
    unmotion_profile.pipeline_components = Some(pipeline);
    let doc = document("waidayo", vec![unmotion_profile]);

    let config = config_of(&doc).expect("config");

    assert_eq!(config.frame_streams[0].input_fps, 60);
    assert_eq!(config.fps, 90);
}

#[test]
fn file_image_uses_explicit_output_fps_as_repeat_clock() {
    let mut runtime = ProfileRuntimeSettings::empty();
    runtime.fps = Some(60);
    runtime.engine = Some("mediapipe-native".to_string());
    let mut unmotion_profile = profile(Some(runtime));
    unmotion_profile.default_source_enabled = true;
    let mut pipeline = ProfilePipelineComponents::empty();
    pipeline.input = Some("file-image".to_string());
    pipeline.input_fps = Some(30);
    pipeline.input_repeat = Some(true);
    unmotion_profile.pipeline_components = Some(pipeline);
    let doc = document("dev-y", vec![unmotion_profile]);

    let config = config_of(&doc).expect("config");

    assert_eq!(config.frame_streams[0].input_fps, 60);
    assert_eq!(config.fps, 60);
}

fn modifier_for(preset: &str) -> ModifierConfig {
    let mut modifier = ProfileModifierSettings::empty();
    modifier.smoothing_preset = Some(preset.to_string());
    let mut settings = ProfileRuntimeSettings::empty();
    settings.modifier = Some(modifier);
    modifier_config_from_runtime(Some(&settings), base_modifier())
}

#[test]
fn modifier_config_maps_smoothing_preset_strings() {
    assert_eq!(modifier_for("off").smoothing.preset, SmoothingPreset::Off);
    assert_eq!(modifier_for("low").smoothing.preset, SmoothingPreset::Low);
    assert_eq!(modifier_for("medium").smoothing.preset, SmoothingPreset::Medium);
    assert_eq!(modifier_for("high").smoothing.preset, SmoothingPreset::High);
    assert_eq!(modifier_for("adaptive").smoothing.preset, SmoothingPreset::Adaptive);
    assert_eq!(modifier_for("ADAPTIVE").smoothing.preset, SmoothingPreset::Adaptive);
    assert_eq!(modifier_for("Medium").smoothing.preset, SmoothingPreset::Medium);
    assert_eq!(modifier_for("bogus").smoothing.preset, SmoothingPreset::Off);
}

#[test]
fn modifier_config_maps_adaptive_smoothing_parameters() {
    let mut modifier = ProfileModifierSettings::empty();
    modifier.smoothing_preset = Some("adaptive".to_string());
    modifier.adaptive_min_cutoff_hz = Some(bits(0.25));
    modifier.adaptive_beta = Some(bits(0.12));
    modifier.adaptive_derivative_cutoff_hz = Some(bits(1.7));
    let mut settings = ProfileRuntimeSettings::empty();
    settings.modifier = Some(modifier);
    let modifier = modifier_config_from_runtime(Some(&settings), base_modifier());

    assert_eq!(modifier.smoothing.preset, SmoothingPreset::Adaptive);
    assert!((value(modifier.smoothing.adaptive_min_cutoff_hz) - 0.25).abs() < f32::EPSILON);
    assert!((value(modifier.smoothing.adaptive_beta) - 0.12).abs() < f32::EPSILON);
    assert!((value(modifier.smoothing.adaptive_derivative_cutoff_hz) - 1.7).abs() < f32::EPSILON);
}

#[test]
fn modifier_config_maps_explicit_composable_smoothing_parameters() {
    let mut modifier = ProfileModifierSettings::empty();
    modifier.smoothing_preset = Some("off".to_string());
    modifier.smoothing_ema_enabled = Some(true);
    modifier.smoothing_ema_alpha = Some(bits(0.35));
    modifier.smoothing_one_euro_enabled = Some(true);
    modifier.smoothing_confidence_adaptive_cutoff = Some(true);
    modifier.adaptive_min_cutoff_hz = Some(bits(0.4));
    modifier.adaptive_beta = Some(bits(0.11));
    modifier.adaptive_derivative_cutoff_hz = Some(bits(1.4));
    let mut settings = ProfileRuntimeSettings::empty();
    settings.modifier = Some(modifier);
    let modifier = modifier_config_from_runtime(Some(&settings), base_modifier());

    assert!(modifier.smoothing.ema_enabled);
    assert!((value(modifier.smoothing.ema_alpha) - 0.35).abs() < f32::EPSILON);
    assert!(modifier.smoothing.one_euro_enabled);
    assert!(modifier.smoothing.confidence_adaptive_cutoff_enabled);
    assert!((value(modifier.smoothing.adaptive_min_cutoff_hz) - 0.4).abs() < f32::EPSILON);
    assert!((value(modifier.smoothing.adaptive_beta) - 0.11).abs() < f32::EPSILON);
    assert!((value(modifier.smoothing.adaptive_derivative_cutoff_hz) - 1.4).abs() < f32::EPSILON);
}

#[test]
fn modifier_config_defaults_to_off_when_modifier_missing() {
    let modifier = modifier_config_from_runtime(None, base_modifier());
    assert_eq!(modifier.smoothing.preset, SmoothingPreset::Off);
    assert_eq!(modifier, base_modifier());
}

#[test]
fn modifier_torso_pitch_scale_is_clamped_to_unit_range() {
    let mut modifier = ProfileModifierSettings::empty();
    modifier.torso_pitch_scale = Some(bits(3.5));
    let mut settings = ProfileRuntimeSettings::empty();
    settings.modifier = Some(modifier);
    let config = modifier_config_from_runtime(Some(&settings), base_modifier());
    assert_eq!(value(config.torso_pitch_scale), 1.0);
}

#[test]
fn empty_document_has_no_runtime_config() {
    let doc = document("", Vec::new());
    assert_eq!(config_of(&doc), Err(RuntimeConfigError::NoProfiles));
}

#[test]
fn vmc_output_needs_a_socket_address() {
    let mut runtime = ProfileRuntimeSettings::empty();
    runtime.vmc_enabled = Some(true);
    runtime.vmc_target_addr = Some("not-an-address".to_string());
    let doc = document("waidayo", vec![profile(Some(runtime))]);

    let texts = output_target_texts(&doc);
    assert_eq!(texts.vmc.as_deref(), Some("not-an-address"));
    assert_eq!(texts.vrc_osc, None);

    let refused = core_runtime_config_from_document(&doc, None, None, &base_modifier(), false, &None);
    assert_eq!(refused, Err(RuntimeConfigError::InvalidVmcTarget { target: "not-an-address".to_string() }));

    let config = core_runtime_config_from_document(&doc, Some(loopback(39539)), None, &base_modifier(), false, &None)
        .expect("config");
    assert_eq!(config.vmc_output.map(|o| o.target_addr), Some(loopback(39539)));
}

#[test]
fn vmc_output_defaults_to_local_vmc_port() {
    let mut runtime = ProfileRuntimeSettings::empty();
    runtime.vmc_enabled = Some(true);
    let doc = document("waidayo", vec![profile(Some(runtime))]);
    let texts = output_target_texts(&doc);
    assert_eq!(texts.vmc.as_deref(), Some("127.0.0.1:39539"));
}

#[test]
fn runtime_fps_is_clamped() {
    let mut runtime = ProfileRuntimeSettings::empty();
    runtime.fps = Some(1000);
    let doc = document("waidayo", vec![profile(Some(runtime))]);
    assert_eq!(config_of(&doc).expect("config").fps, 240);

    let mut runtime = ProfileRuntimeSettings::empty();
    runtime.fps = Some(0);
    let doc = document("waidayo", vec![profile(Some(runtime))]);
    assert_eq!(config_of(&doc).expect("config").fps, 1);
}

#[test]
fn input_fps_prefers_pipeline_for_live_inputs() {
    let mut runtime = ProfileRuntimeSettings::empty();
    runtime.fps = Some(50);
    let mut pipeline = ProfilePipelineComponents::empty();
    pipeline.input_fps = Some(25);
    assert_eq!(effective_input_fps("webcam-nokhwa", Some(&runtime), Some(&pipeline)), 25);
    assert_eq!(effective_input_fps("file-image", Some(&runtime), Some(&pipeline)), 50);
    assert_eq!(effective_input_fps("webcam-nokhwa", None, None), DEFAULT_FPS);
}

#[test]
fn runtime_stream_id_is_prefixed() {
    assert_eq!(unmotion_runtime_stream_id("default"), "unmotion:default");
}

#[test]
fn analysis_extras_samples_follow_duration() {
    assert_eq!(analysis_extras_max_samples(0), 240);
    assert_eq!(analysis_extras_max_samples(10_000), 1_440);
    assert_eq!(analysis_extras_max_samples(1_000_000), 10_000);
}
