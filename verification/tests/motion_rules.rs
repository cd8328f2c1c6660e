use un_motion::capturer::{
    build_capturer_tray_options, flicker_capture_request, parse_resolution, resolve_tray, select_camera,
    tray_action, CameraCandidate, FlickerTestError, TrayAction, TrayEventKind, TrayOptions,
};
use un_motion::capturer_fleet::{
    capturer_args, crashed_capturer, select_capturers, CapturerSelection, find_live_capturer, healthz_step, join_lines, launched_capturer,
    next_capturer_id, push_stderr_line, HealthzDecision, HealthzProcess, MAX_CAPTURER_LOG_LINES,
    prune_stopped_capturer_history, refresh_capturer_state, resolve_profile_key, ProcessCheck,
};
use un_motion::file_image::{
    letterbox_plan, rgba_to_rgb, scale_other_axis, FileImageEmissionMode, ImageResizeOptions, LetterboxPlan,
    ResizeAxis, RgbaColor,
};
use un_motion::profile_schema::{ProfilePipelineComponents, ProfileRuntimeSettings};
use un_motion::runtime_loop::{
    apply_frame_stream_startup_errors, calibration_sample_target, drain_control_step, loop_may_sleep,
    record_frame_sent, refresh_stream_events, select_latest_unsent_frame, zenoh_expected_dt_ns, StreamEventStamp, ControlAction, LatestFrameKey, ControlDrainResult, ControlPoll,
    OutputSendOutcome, RuntimeControlKind, RuntimeCounters, StreamErrorCount,
};
use un_motion::signal_rules::{
    blendshape_name, lost_signal_behavior, lost_signal_behavior_name, non_empty_or,
    should_flip_user_horizontal_signal, should_flip_vmc_coordinate_signal, swap_signal_side,
    typed_finger_rest_prefix, HandSide, LostSignalBehavior,
};
use un_motion::source_routing::{
    capture_dimensions, file_image_emission_mode, native_live_stream_frame_counters,
    native_mediapipe_delegate_from_str, source_route, DelegateChoice, EnabledTasks, LiveStreamStats,
    SourceKind, SourceRouteError, TaskCounters,
};
use un_motion::float_bits::F32Bits;
use un_motion::capturer_fleet::{is_versioned_capturer_sidecar, launch_step, LaunchAction};
use un_motion::supervisor::{lookup_paths, response_error, where_exe_name};
use un_motion::supervisor::{
    external_url_allowed, main_window_geometry, normalize_app_settings, should_hide_on_close, AppRuntimeSettings,
    exe_name_for, exe_suffix_for, log_file_name, profile_path_text, profile_view_input_denoise_mode,
    CapturerInstance, CapturerState, SnapshotDuration,
};

fn name_buffer(name: &[u8]) -> [u8; 64] {
    let mut bytes = [0u8; 64];
    bytes[..name.len()].copy_from_slice(name);
    bytes
}

#[test]
fn blendshape_names_stop_at_the_first_nul() {
    assert_eq!(blendshape_name(name_buffer(b"eyeBlinkLeft")), "eyeBlinkLeft");
    assert_eq!(blendshape_name([b'a'; 64]), "a".repeat(64));
    assert_eq!(blendshape_name(name_buffer(b"")), "");
}

#[test]
fn blendshape_names_replace_invalid_utf8() {
    assert_eq!(blendshape_name(name_buffer(&[b'j', 0xff, b'w'])), "j\u{fffd}w");
}

#[test]
fn signal_sides_swap_both_ways() {
    assert_eq!(swap_signal_side("hand.left.wrist.x"), "hand.right.wrist.x");
    assert_eq!(swap_signal_side("arm.right.elbow.left.x"), "arm.right.elbow.right.x");
    assert_eq!(swap_signal_side("head.yaw"), "head.yaw");
    assert_eq!(swap_signal_side(&swap_signal_side("hand.left.index.x")), "hand.left.index.x");
    assert_eq!(HandSide::Left.prefix(), "left");
    assert_eq!(HandSide::Right.prefix(), "right");
}

#[test]
fn coordinate_flips_follow_signal_suffixes() {
    assert!(should_flip_vmc_coordinate_signal("head.yaw"));
    assert!(should_flip_vmc_coordinate_signal("hand.left.wrist.x"));
    assert!(!should_flip_vmc_coordinate_signal("head.roll"));
    assert!(should_flip_user_horizontal_signal("head.roll"));
    assert!(should_flip_user_horizontal_signal("hand.right.palm.roll"));
    assert!(!should_flip_user_horizontal_signal("head.pitch"));
}

#[test]
fn lost_signal_behaviors_are_named() {
    assert_eq!(lost_signal_behavior(" HOLD "), LostSignalBehavior::Hold);
    assert_eq!(lost_signal_behavior("send-none"), LostSignalBehavior::Drop);
    assert_eq!(lost_signal_behavior("whatever"), LostSignalBehavior::RestPose);
    assert_eq!(lost_signal_behavior_name("None"), "drop");
    assert_eq!(lost_signal_behavior_name(lost_signal_behavior_name("Hold")), "hold");
    assert_eq!(non_empty_or("  ", "fallback"), "fallback");
    assert_eq!(non_empty_or("x", "fallback"), "x");
    assert_eq!(typed_finger_rest_prefix("little"), "Little");
    assert_eq!(typed_finger_rest_prefix("toe"), "");
}

#[test]
fn snapshot_durations_round_trip() {
    assert_eq!(SnapshotDuration::from_request(Some(5000), None), SnapshotDuration::ThreeSeconds);
    assert_eq!(SnapshotDuration::from_request(Some(1500), None), SnapshotDuration::OneSecond);
    assert_eq!(SnapshotDuration::from_request(None, None), SnapshotDuration::OneFrame);
    assert_eq!(SnapshotDuration::from_request(Some(0), Some(" 1M ")), SnapshotDuration::ThreeSeconds);
    assert_eq!(SnapshotDuration::from_request(Some(5000), Some("one_frame")), SnapshotDuration::OneFrame);
    assert_eq!(SnapshotDuration::from_request(Some(5000), Some("later")), SnapshotDuration::ThreeSeconds);
    for d in [SnapshotDuration::OneFrame, SnapshotDuration::OneSecond, SnapshotDuration::ThreeSeconds] {
        let ms = d.capture_duration_ms();
        if d != SnapshotDuration::OneFrame {
            assert_eq!(SnapshotDuration::from_ms(ms), d);
        }
    }
    assert_eq!(SnapshotDuration::OneSecond.file_label(), "1s-snapshot");
    assert_eq!(SnapshotDuration::OneFrame.capture_duration_ms(), 100);
}

#[test]
fn supervisor_names_files() {
    assert_eq!(log_file_name("core log!", 1700000000), "corelog-1700000000.txt");
    assert_eq!(log_file_name("???", 7), "supervisor-7.txt");
    assert_eq!(exe_name_for("un-motion-core", true), "un-motion-core.exe");
    assert_eq!(exe_name_for("un-motion-core", false), "un-motion-core");
    assert_eq!(exe_suffix_for(true), ".exe");
    assert_eq!(profile_path_text("assets\\icons\\a.png"), "assets/icons/a.png");
    assert_eq!(profile_view_input_denoise_mode(Some("temporal_iir_8hz")).as_deref(), Some("temporal-iir"));
    assert_eq!(profile_view_input_denoise_mode(None).as_deref(), Some("off"));
}

#[test]
fn letterbox_plan_centres_a_wide_image() {
    let options = ImageResizeOptions {
        preserve_aspect_ratio: true,
        reference_axis: ResizeAxis::Width,
        reference_length: 4,
        output_width: 4,
        output_height: 4,
        pad_color: RgbaColor { r: 1, g: 2, b: 3, a: 255 },
    };
    let plan = letterbox_plan(2, 1, options).expect("plan");
    assert_eq!(plan, LetterboxPlan { target_width: 4, target_height: 2, x: 0, y: 1 });
}

#[test]
fn letterbox_needs_a_canvas() {
    let options = ImageResizeOptions {
        preserve_aspect_ratio: false,
        reference_axis: ResizeAxis::Height,
        reference_length: 0,
        output_width: 4,
        output_height: 4,
        pad_color: RgbaColor { r: 0, g: 0, b: 0, a: 0 },
    };
    assert_eq!(letterbox_plan(2, 1, options), None);
    let stretched = letterbox_plan(2, 1, ImageResizeOptions { reference_length: 9, ..options }).expect("plan");
    assert_eq!(stretched, LetterboxPlan { target_width: 4, target_height: 4, x: 0, y: 0 });
    let by_height = ImageResizeOptions { preserve_aspect_ratio: true, reference_length: 2, ..options };
    assert_eq!(
        letterbox_plan(8, 4, by_height),
        Some(LetterboxPlan { target_width: 4, target_height: 2, x: 0, y: 1 })
    );
}

#[test]
fn other_axis_scales_with_rounding() {
    assert_eq!(scale_other_axis(4, 2, 1), 2);
    assert_eq!(scale_other_axis(10, 3, 1), 3);
    assert_eq!(scale_other_axis(1, 1000, 1), 1);
    assert_eq!(scale_other_axis(7, 0, 5), 7);
}

#[test]
fn rgba_drops_alpha() {
    assert_eq!(rgba_to_rgb(&vec![1, 2, 3, 4, 5, 6, 7, 8]), vec![1, 2, 3, 5, 6, 7]);
    assert_eq!(rgba_to_rgb(&Vec::new()), Vec::<u8>::new());
}

#[test]
fn emission_mode_follows_repeat_flag() {
    assert_eq!(file_image_emission_mode(false, 30), FileImageEmissionMode::Once);
    assert_eq!(file_image_emission_mode(true, 30), FileImageEmissionMode::RepeatFps(30));
}

#[test]
fn sources_are_routed_by_engine_and_input() {
    assert_eq!(source_route("vmc", "anything"), Ok(Some(SourceKind::VmcReceive)));
    assert_eq!(source_route("ifacialmocap", ""), Ok(Some(SourceKind::IfacialmocapReceive)));
    assert_eq!(source_route("mediapipe-native", "file-video"), Ok(Some(SourceKind::FileVideo)));
    assert_eq!(source_route("mediapipe-native", "webcam-directshow"), Ok(Some(SourceKind::WebcamDirectShow)));
    assert_eq!(
        source_route("mediapipe-native", "webcam-nokhwa"),
        Err(SourceRouteError::MediaFoundationUnsupported)
    );
    assert_eq!(source_route("other", "file-image"), Ok(None));
    assert_eq!(capture_dimensions(None, Some(720)), (640, 720));
}

#[test]
fn delegates_are_chosen_per_platform() {
    assert_eq!(native_mediapipe_delegate_from_str(" XNNPACK ", false), DelegateChoice::Xnnpack);
    assert_eq!(native_mediapipe_delegate_from_str("tflite", true), DelegateChoice::Cpu);
    assert_eq!(native_mediapipe_delegate_from_str("gpu", false), DelegateChoice::Gpu);
    assert_eq!(native_mediapipe_delegate_from_str("gpu", true), DelegateChoice::Keep);
}

#[test]
fn live_stream_counters_take_the_slowest_task() {
    let c = |s: u64, e: u64, b: u64| TaskCounters { submissions: s, submission_errors: e, callbacks: b };
    let stats = LiveStreamStats {
        holistic: c(9, 9, 9),
        pose: c(5, 1, 4),
        hands: c(6, 3, 2),
        face: c(7, 0, 7),
        gestures: c(1, 1, 1),
    };
    let tasks = EnabledTasks { holistic: false, pose: true, hands: true, face: true, gestures: false };
    assert_eq!(native_live_stream_frame_counters(tasks, stats), c(5, 3, 2));
    assert_eq!(
        native_live_stream_frame_counters(EnabledTasks { holistic: true, ..tasks }, stats),
        c(9, 9, 9)
    );
    let none = EnabledTasks { holistic: false, pose: false, hands: false, face: false, gestures: false };
    assert_eq!(native_live_stream_frame_counters(none, stats), c(0, 0, 0));
}

#[test]
fn control_messages_drain_until_empty_or_stop() {
    let start = ControlDrainResult { stop: false, received: false };
    let (after, action) =
        drain_control_step(start, ControlPoll::Message(RuntimeControlKind::CalibrateNeutral { valid_sample_count: 999 }));
    assert_eq!(action, ControlAction::StartNeutralCalibration { target_samples: 240 });
    assert!(after.received && !after.stop);
    let (after, action) = drain_control_step(after, ControlPoll::Disconnected);
    assert_eq!(action, ControlAction::Stop);
    assert!(after.stop && after.received);
    let (same, action) = drain_control_step(start, ControlPoll::Empty);
    assert_eq!((same, action), (start, ControlAction::Done));
    assert_eq!(calibration_sample_target(0), 1);
    assert_eq!(calibration_sample_target(45), 45);
}

#[test]
fn frame_counters_and_health_follow_outputs() {
    let mut counters = RuntimeCounters { frame_count: 4, packet_count: 2, health: "running".to_string() };
    record_frame_sent(&mut counters, OutputSendOutcome { vmc: Some(true), vrc_osc: None, zenoh: None });
    assert_eq!(counters.frame_count, 5);
    assert_eq!(counters.health, "running");
    record_frame_sent(&mut counters, OutputSendOutcome { vmc: Some(false), vrc_osc: Some(false), zenoh: None });
    assert_eq!(counters.health, "vrc osc output disconnected");
    let mut full = RuntimeCounters { frame_count: u64::MAX, packet_count: 0, health: String::new() };
    record_frame_sent(&mut full, OutputSendOutcome { vmc: None, vrc_osc: None, zenoh: Some(false) });
    assert_eq!(full.frame_count, u64::MAX);
    assert_eq!(full.health, "zenoh output disconnected");
    assert!(loop_may_sleep(false, false, false));
    assert!(!loop_may_sleep(false, true, false));
    assert_eq!(zenoh_expected_dt_ns(0), None);
    assert_eq!(zenoh_expected_dt_ns(30), Some(33_333_333));
}

#[test]
fn stream_startup_errors_mark_streams_and_health() {
    let mut states = vec![StreamErrorCount { stream_id: "a".to_string(), decode_error_count: 0 }];
    let mut health = "running".to_string();
    let errors = vec![("a".to_string(), "boom".to_string()), ("b".to_string(), "gone".to_string())];
    assert!(apply_frame_stream_startup_errors(&errors, &mut states, &mut health));
    assert_eq!(health, "b Motion frame stream failed: gone");
    assert_eq!(states.len(), 2);
    assert!(states.iter().all(|s| s.decode_error_count > 0));
    assert!(!apply_frame_stream_startup_errors(&errors, &mut states, &mut health));
    let mut untouched = "ok".to_string();
    assert!(!apply_frame_stream_startup_errors(&Vec::new(), &mut states, &mut untouched));
    assert_eq!(untouched, "ok");
}

#[test]
fn capturer_tray_names_its_pid() {
    let options = build_capturer_tray_options(4242, Some("supervisor.exe".to_string()));
    assert_eq!(options.tooltip.as_deref(), Some("UN Motion Capturer (PID 4242)"));
    assert_eq!(options.exit_menu_label.as_deref(), Some("Exit Capturer (PID 4242)"));
    assert_eq!(options.open_on_startup, Some(false));
    let resolved = resolve_tray(&options);
    assert!(resolved.open_enabled);
    assert_eq!(resolved.open_label, "Open Supervisor Console");
    let plain = resolve_tray(&TrayOptions::default());
    assert_eq!(plain.tooltip, "UNMotion Core");
    assert_eq!(plain.exit_label, "Exit UNMotion Core");
    assert!(!plain.open_enabled);
    assert_eq!(tray_action(TrayEventKind::DoubleClick), TrayAction::LaunchOpenExe);
    assert_eq!(tray_action(TrayEventKind::ExitMenu), TrayAction::Exit);
    assert_eq!(tray_action(TrayEventKind::Other), TrayAction::Wait);
}

#[test]
fn capturer_reads_resolutions_and_cameras() {
    assert_eq!(parse_resolution("1280x720"), Some((1280, 720)));
    assert_eq!(parse_resolution("1280X720"), Some((1280, 720)));
    assert_eq!(parse_resolution("1280*720"), None);
    let cameras = vec![
        CameraCandidate { id: "0".to_string(), name: "Front".to_string() },
        CameraCandidate { id: "1".to_string(), name: "Back".to_string() },
    ];
    assert_eq!(select_camera(&cameras, "Back"), Some(1));
    assert_eq!(select_camera(&cameras, ""), Some(0));
    assert_eq!(select_camera(&cameras, "Side"), None);
}

#[test]
fn flicker_test_accepts_directshow_mediapipe_profiles_only() {
    let mut runtime = ProfileRuntimeSettings::empty();
    runtime.resolution = Some("800x600".to_string());
    runtime.device = Some("cam".to_string());
    let mut pipeline = ProfilePipelineComponents::empty();
    pipeline.input_fps = Some(500);
    let request = flicker_capture_request(Some(&runtime), Some(&pipeline)).expect("request");
    assert_eq!((request.width, request.height, request.fps), (800, 600, 240));
    assert_eq!(request.device, "cam");

    runtime.engine = Some("vmc".to_string());
    assert_eq!(
        flicker_capture_request(Some(&runtime), None),
        Err(FlickerTestError::UnsupportedEngine { engine: "vmc".to_string() })
    );
    runtime.engine = None;
    pipeline.input = Some("file-image".to_string());
    assert_eq!(
        flicker_capture_request(Some(&runtime), Some(&pipeline)),
        Err(FlickerTestError::UnsupportedInput { input: "file-image".to_string() })
    );
}

fn record(id: u32, state: CapturerState, profile: Option<&str>) -> CapturerInstance {
    CapturerInstance {
        id,
        name: format!("Capturer #{id}"),
        state,
        pid: None,
        bind_addr: None,
        profile_id: profile.map(|p| p.to_string()),
        uptime_secs: 0,
        last_stderr: None,
        stderr_tail: Vec::new(),
        exit_code: None,
    }
}

#[test]
fn capturer_fleet_finds_and_launches() {
    assert_eq!(resolve_profile_key(Some("  p1 ")), Some("p1".to_string()));
    assert_eq!(resolve_profile_key(Some("   ")), None);
    let fleet = vec![
        record(1, CapturerState::Exited, Some("p1")),
        record(2, CapturerState::Running, Some("p1")),
        record(3, CapturerState::Starting, None),
    ];
    assert_eq!(find_live_capturer(&fleet, &Some("p1".to_string())), Some(1));
    assert_eq!(find_live_capturer(&fleet, &None), Some(2));
    assert_eq!(find_live_capturer(&fleet, &Some("p2".to_string())), None);
    assert_eq!(
        capturer_args("127.0.0.1:40000", true, Some(" p1 "), 2),
        vec![
            "--bind",
            "127.0.0.1:40000",
            "--api-workers",
            "2",
            "--allow-non-loopback",
            "--active-profile",
            " p1 ",
            "--with-tray=true"
        ]
    );
    assert_eq!(next_capturer_id(7), 8);
    assert_eq!(next_capturer_id(u32::MAX), u32::MAX);
    let launched = launched_capturer(8, 99, "127.0.0.1:40000".to_string(), None);
    assert_eq!(launched.name, "Capturer #8");
    assert_eq!(launched.state, CapturerState::Running);
    assert_eq!(launched.pid, Some(99));
    let crashed = crashed_capturer(9, "x".to_string(), None, 3, vec!["a".to_string(), "b".to_string()], Some(2));
    assert_eq!(crashed.state, CapturerState::Crashed);
    assert_eq!(crashed.last_stderr.as_deref(), Some("b"));
}

#[test]
fn capturer_states_follow_process_checks() {
    let mut starting = record(1, CapturerState::Starting, None);
    starting.pid = Some(5);
    refresh_capturer_state(&mut starting, ProcessCheck::StillRunning);
    assert_eq!(starting.state, CapturerState::Running);
    refresh_capturer_state(&mut starting, ProcessCheck::Exited { success: false, code: Some(3) });
    assert_eq!(starting.state, CapturerState::Crashed);
    assert_eq!(starting.pid, None);
    assert_eq!(starting.exit_code, Some(3));
    let mut stopping = record(2, CapturerState::Stopping, None);
    refresh_capturer_state(&mut stopping, ProcessCheck::Exited { success: false, code: None });
    assert_eq!(stopping.state, CapturerState::Exited);
    let mut exited = record(3, CapturerState::Exited, None);
    refresh_capturer_state(&mut exited, ProcessCheck::StillRunning);
    assert_eq!(exited.state, CapturerState::Exited);
}

#[test]
fn stopped_capturer_history_is_capped() {
    let mut fleet = Vec::new();
    for id in 0..25 {
        fleet.push(record(id, CapturerState::Exited, None));
    }
    fleet.push(record(100, CapturerState::Running, None));
    let pruned = prune_stopped_capturer_history(fleet, 20);
    assert_eq!(pruned.len(), 21);
    assert_eq!(pruned[0].id, 5);
    assert!(pruned.iter().any(|c| c.id == 100));
}

#[test]
fn app_settings_default_and_normalize() {
    let defaults = AppRuntimeSettings::default_for(8);
    assert!(defaults.stop_capturers_on_exit);
    assert_eq!(defaults.theme_mode, "system");
    assert_eq!(defaults.api_worker_threads, 2);
    assert_eq!(f32::from_bits(defaults.calibration_sound_volume.0), 0.75);
    assert_eq!(AppRuntimeSettings::default_for(1).api_worker_threads, 1);

    let mut settings = defaults.clone();
    settings.theme_mode = "neon".to_string();
    settings.locale = "xx-XX".to_string();
    settings.external_tools_ffmpeg_path = Some("  C:/ffmpeg.exe ".to_string());
    settings.snapshot_save_dir = Some("   ".to_string());
    settings.calibration_start_delay_seconds = 99;
    settings.calibration_sample_count = 0;
    settings.calibration_sound_volume = F32Bits(2.5f32.to_bits());
    settings.api_worker_threads = 64;
    normalize_app_settings(&mut settings, false, 8);
    assert_eq!(settings.theme_mode, "system");
    assert_eq!(settings.locale, "");
    assert_eq!(settings.external_tools_ffmpeg_path.as_deref(), Some("C:/ffmpeg.exe"));
    assert_eq!(settings.snapshot_save_dir, None);
    assert_eq!(settings.calibration_start_delay_seconds, 30);
    assert_eq!(settings.calibration_sample_count, 1);
    assert_eq!(f32::from_bits(settings.calibration_sound_volume.0), 1.0);
    assert_eq!(settings.api_worker_threads, 8);

    let mut kept = defaults.clone();
    kept.theme_mode = "dark".to_string();
    kept.locale = "ja-JP".to_string();
    normalize_app_settings(&mut kept, true, 8);
    assert_eq!(kept.theme_mode, "dark");
    assert_eq!(kept.locale, "ja-JP");
}

#[test]
fn console_hides_in_tray_only_with_a_tray() {
    let mut settings = AppRuntimeSettings::default_for(4);
    assert!(!should_hide_on_close(&settings, true));
    settings.system_tray_enabled = true;
    assert!(should_hide_on_close(&settings, false));
    settings.minimize_to_tray = false;
    assert!(!should_hide_on_close(&settings, false));
    assert!(should_hide_on_close(&settings, true));
    assert!(external_url_allowed("https://example.com"));
    assert!(!external_url_allowed("file:///etc/passwd"));
}

#[test]
fn normalizing_settings_twice_changes_nothing_more() {
    let mut settings = AppRuntimeSettings::default_for(4);
    settings.theme_mode = "sepia".to_string();
    settings.snapshot_save_dir = Some("  /tmp/snaps  ".to_string());
    settings.calibration_sound_volume = F32Bits((-3.0f32).to_bits());
    settings.calibration_sample_count = 500;
    normalize_app_settings(&mut settings, true, 4);
    let once = settings.clone();
    normalize_app_settings(&mut settings, true, 4);
    assert_eq!(settings, once);
    assert_eq!(once.snapshot_save_dir.as_deref(), Some("/tmp/snaps"));
    assert_eq!(f32::from_bits(once.calibration_sound_volume.0), 0.0);
    assert_eq!(once.calibration_sample_count, 240);
}

fn latest(stream: &str, sequence: u64, capture_timestamp_ns: u64) -> LatestFrameKey {
    LatestFrameKey { stream_id: stream.to_string(), sequence, capture_timestamp_ns }
}

#[test]
fn runtime_host_selects_only_latest_unsent_frame() {
    let slot = vec![latest("unmotion:vmc-main", 2, 2)];
    let mut last_output_sequences = Vec::new();
    let sent = select_latest_unsent_frame(&slot, &mut last_output_sequences).expect("selected frame");
    assert_eq!(slot[sent].sequence, 2);
    assert!(select_latest_unsent_frame(&slot, &mut last_output_sequences).is_none());
}

#[test]
fn newest_unsent_frame_wins_across_streams() {
    let frames = vec![latest("a", 1, 50), latest("b", 7, 90), latest("c", 3, 90)];
    let mut sent = vec![("b".to_string(), 6)];
    assert_eq!(select_latest_unsent_frame(&frames, &mut sent), Some(2));
    assert_eq!(sent, vec![("b".to_string(), 6), ("c".to_string(), 3)]);
    assert_eq!(select_latest_unsent_frame(&frames, &mut sent), Some(1));
    assert_eq!(sent, vec![("b".to_string(), 7), ("c".to_string(), 3)]);
    assert_eq!(select_latest_unsent_frame(&frames, &mut sent), Some(0));
    assert_eq!(select_latest_unsent_frame(&frames, &mut sent), None);
}

#[test]
fn stderr_tail_keeps_the_newest_lines() {
    let mut tail = Vec::new();
    for n in 0..(MAX_CAPTURER_LOG_LINES + 5) {
        push_stderr_line(&mut tail, format!("line {n}"));
    }
    assert_eq!(tail.len(), MAX_CAPTURER_LOG_LINES);
    assert_eq!(tail[0], "line 5");
    assert_eq!(tail.last().map(String::as_str), Some("line 804"));
    assert_eq!(join_lines(&vec!["a".to_string(), "b".to_string(), "".to_string()]), "a\nb\n");
    assert_eq!(join_lines(&Vec::new()), "");
}

#[test]
fn healthz_wait_ends_on_exit_answer_or_timeout() {
    assert_eq!(
        healthz_step(HealthzProcess::Exited { code: Some(1) }, true, 0),
        HealthzDecision::ExitedEarly { code: Some(1) }
    );
    assert_eq!(healthz_step(HealthzProcess::Unknown, true, 0), HealthzDecision::WaitFailed);
    assert_eq!(healthz_step(HealthzProcess::Running, true, 9000), HealthzDecision::Ready);
    assert_eq!(healthz_step(HealthzProcess::Running, false, 8000), HealthzDecision::TimedOut);
    assert_eq!(healthz_step(HealthzProcess::Running, false, 7999), HealthzDecision::Retry);
}

#[test]
fn console_window_geometry_is_bounded() {
    let mut settings = AppRuntimeSettings::default_for(2);
    let geometry = main_window_geometry(&settings);
    assert_eq!((geometry.width, geometry.height, geometry.position, geometry.visible), (1190, 620, None, true));
    settings.console_window_width = Some(1000);
    settings.console_window_height = Some(5000);
    settings.console_window_x = Some(-20);
    settings.console_window_y = Some(40);
    settings.start_minimized_to_tray = true;
    settings.system_tray_enabled = true;
    let geometry = main_window_geometry(&settings);
    assert_eq!((geometry.width, geometry.height, geometry.position, geometry.visible), (1000, 620, Some((-20, 40)), false));
    settings.console_window_y = Some(20000);
    assert_eq!(main_window_geometry(&settings).position, None);
}

#[test]
fn console_actions_pick_their_capturers() {
    let fleet = vec![
        record(1, CapturerState::Running, Some("p1")),
        record(2, CapturerState::Exited, Some("p1")),
        record(3, CapturerState::Running, Some("p2")),
        record(4, CapturerState::Stopping, None),
        record(5, CapturerState::Crashed, None),
    ];
    assert_eq!(select_capturers(&fleet, &CapturerSelection::Running), vec![0, 2]);
    assert_eq!(
        select_capturers(&fleet, &CapturerSelection::RunningProfile { profile_id: "p1".to_string() }),
        vec![0]
    );
    assert_eq!(select_capturers(&fleet, &CapturerSelection::NotStopped), vec![0, 2, 3]);
}

fn stamp(stream: &str, at: Option<u64>) -> StreamEventStamp {
    StreamEventStamp { stream_id: stream.to_string(), last_event_at_ns: at }
}

#[test]
fn refreshed_slots_count_only_new_frames() {
    let mut known = Vec::new();
    let mut packets = 0;
    let mut health = String::new();
    let slots = vec![stamp("unmotion:mediapipe-main", Some(100)), stamp("unmotion:vmc", None)];
    let received = refresh_stream_events(&slots, &mut known, &mut packets, &mut health);
    assert_eq!(received, vec![0]);
    assert_eq!(packets, 1);
    assert_eq!(health, "streaming");

    let mut quiet = "idle".to_string();
    assert!(refresh_stream_events(&slots, &mut known, &mut packets, &mut quiet).is_empty());
    assert_eq!(packets, 1);
    assert_eq!(quiet, "idle");

    let later = vec![stamp("unmotion:mediapipe-main", Some(200)), stamp("unmotion:vmc", Some(5))];
    assert_eq!(refresh_stream_events(&later, &mut known, &mut packets, &mut quiet), vec![0, 1]);
    assert_eq!(packets, 3);
    assert_eq!(quiet, "streaming");
}

fn still_image_stream(repeat: bool, resize: Option<un_motion::runtime_config::CoreUnmotionResizeConfig>) -> un_motion::runtime_config::CoreMotionFrameStreamConfig {
    un_motion::runtime_config::CoreMotionFrameStreamConfig {
        profile_stream_id: "cam-a".to_string(),
        stream_id: "unmotion:cam-a".to_string(),
        device_id: String::new(),
        runtime_engine: "mediapipe-native".to_string(),
        input_component: "file-image".to_string(),
        vmc_receive_listen_addr: None,
        ifacialmocap_receive_listen_addr: None,
        input_path: Some("fixture.png".to_string()),
        input_fps: 12,
        input_width: None,
        input_height: None,
        input_pixel_format: None,
        input_repeat: repeat,
        input_ffmpeg_path: None,
        input_denoise_mode: "off".to_string(),
        input_denoise_temporal_iir_hz: F32Bits(0),
        input_resize: resize,
        media_pipe_running_mode: "video".to_string(),
        media_pipe_holistic_enabled: false,
        media_pipe_delegate: Some(" GPU ".to_string()),
        media_pipe_num_threads: Some(0),
        media_pipe_holistic_flow_limiter_enabled: true,
        media_pipe_holistic_flow_limiter_max_in_flight: 0,
        media_pipe_holistic_flow_limiter_max_in_queue: 3,
        post_process_component: "mediapipe-post-process".to_string(),
        media_pipe_post_process: un_motion::post_process_settings::CoreMediaPipePostProcessSettings::default(),
    }
}

#[test]
fn still_image_input_is_named_after_its_stream() {
    let pad = RgbaColor { r: 0x11, g: 0x22, b: 0x33, a: 0xff };
    let resize = un_motion::runtime_config::CoreUnmotionResizeConfig {
        preserve_aspect_ratio: true,
        axis: "height".to_string(),
        reference: 360,
        width: 640,
        height: 360,
        pad_color: "112233ff".to_string(),
    };
    let config = still_image_stream(true, Some(resize));
    let input = un_motion::source_routing::file_image_input_config(
        &config,
        "fixtures/fixture.png".to_string(),
        Some("fixture.png".to_string()),
        pad,
    );
    assert_eq!(input.source_id, "file-image:cam-a");
    assert_eq!(input.path, "fixtures/fixture.png");
    assert_eq!(input.source_label.as_deref(), Some("fixture.png"));
    assert_eq!(input.emission_mode, FileImageEmissionMode::RepeatFps(12));
    let options = input.resize.expect("resize options");
    assert_eq!(options.reference_axis, ResizeAxis::Height);
    assert_eq!(options.reference_length, 360);
    assert_eq!((options.output_width, options.output_height), (640, 360));
    assert_eq!(options.pad_color, pad);

    let once = un_motion::source_routing::file_image_input_config(&still_image_stream(false, None), "a.png".to_string(), None, pad);
    assert_eq!(once.emission_mode, FileImageEmissionMode::Once);
    assert!(once.resize.is_none());
}

#[test]
fn resize_axis_other_than_height_keeps_width() {
    let resize = un_motion::runtime_config::CoreUnmotionResizeConfig {
        preserve_aspect_ratio: false,
        axis: "Height".to_string(),
        reference: 100,
        width: 10,
        height: 20,
        pad_color: "#000000ff".to_string(),
    };
    let options = un_motion::source_routing::image_resize_options(&resize, RgbaColor { r: 0, g: 0, b: 0, a: 255 });
    assert_eq!(options.reference_axis, ResizeAxis::Width);
    assert!(!options.preserve_aspect_ratio);
}

#[test]
fn profile_options_keep_thread_and_flight_counts_positive() {
    let config = still_image_stream(false, None);
    let linux = un_motion::source_routing::native_mediapipe_profile_options(&config, false);
    assert_eq!(linux.delegate, DelegateChoice::Gpu);
    assert_eq!(linux.delegate_num_threads, Some(1));
    assert!(linux.holistic_flow_limiter_enabled);
    assert_eq!(linux.holistic_flow_limiter_max_in_flight, 1);
    assert_eq!(linux.holistic_flow_limiter_max_in_queue, 3);
    let windows = un_motion::source_routing::native_mediapipe_profile_options(&config, true);
    assert_eq!(windows.delegate, DelegateChoice::Keep);

    let mut unset = still_image_stream(false, None);
    unset.media_pipe_delegate = None;
    unset.media_pipe_num_threads = None;
    unset.media_pipe_holistic_flow_limiter_max_in_flight = 4;
    let options = un_motion::source_routing::native_mediapipe_profile_options(&unset, false);
    assert_eq!(options.delegate, DelegateChoice::Keep);
    assert_eq!(options.delegate_num_threads, None);
    assert_eq!(options.holistic_flow_limiter_max_in_flight, 4);
}

fn candidate(path: &str, modified_ns: Option<u64>) -> un_motion::capturer_fleet::CapturerCandidate {
    un_motion::capturer_fleet::CapturerCandidate { path: path.to_string(), modified_ns }
}

#[test]
fn capturer_candidates_run_newest_first_with_missing_last() {
    let ordered = un_motion::capturer_fleet::newest_first(vec![
        candidate("bin/un-motion-capturer", None),
        candidate("bin/runtimes/un-motion-capturer", Some(10)),
        candidate("bin/runtimes/un-motion-capturer-0.2", Some(30)),
        candidate("bin/runtimes/un-motion-capturer-0.1", Some(10)),
        candidate("target/debug/un-motion-capturer", None),
    ]);
    let paths: Vec<&str> = ordered.iter().map(|c| c.path.as_str()).collect();
    assert_eq!(
        paths,
        vec![
            "bin/runtimes/un-motion-capturer-0.2",
            "bin/runtimes/un-motion-capturer",
            "bin/runtimes/un-motion-capturer-0.1",
            "bin/un-motion-capturer",
            "target/debug/un-motion-capturer",
        ]
    );
    assert!(un_motion::capturer_fleet::newest_first(Vec::new()).is_empty());
}

#[test]
fn versioned_capturer_sidecars_carry_prefix_and_suffix() {
    assert!(is_versioned_capturer_sidecar("un-motion-capturer-0.3.exe", true));
    assert!(!is_versioned_capturer_sidecar("un-motion-capturer-0.3", true));
    assert!(is_versioned_capturer_sidecar("un-motion-capturer-0.3", false));
    assert!(!is_versioned_capturer_sidecar("un-motion-capturer.exe", true));
    assert!(!is_versioned_capturer_sidecar("other-0.3.exe", true));
}

#[test]
fn snapshot_save_dir_is_written_only_when_it_changes() {
    let mut settings = un_motion::supervisor::AppRuntimeSettings::default_for(4);
    assert!(un_motion::supervisor::update_snapshot_save_dir(&mut settings, " /tmp/snaps ".to_string(), true, 4));
    assert_eq!(settings.snapshot_save_dir.as_deref(), Some("/tmp/snaps"));
    let before = settings.clone();
    assert!(!un_motion::supervisor::update_snapshot_save_dir(&mut settings, "/tmp/snaps".to_string(), true, 4));
    assert_eq!(settings, before);
    assert!(un_motion::supervisor::update_snapshot_save_dir(&mut settings, "   ".to_string(), true, 4));
    assert_eq!(settings.snapshot_save_dir, None);
}

#[test]
fn failed_capturer_request_names_method_url_status_and_body() {
    assert_eq!(
        response_error("GET", "http://127.0.0.1:9000/api/snapshot", "503 Service Unavailable", "  runtime is not running \n"),
        "GET http://127.0.0.1:9000/api/snapshot HTTP 503 Service Unavailable: runtime is not running"
    );
    assert_eq!(response_error("PUT", "http://x/y", "404 Not Found", "   "), "PUT http://x/y HTTP 404 Not Found");
}

#[test]
fn path_lookup_keeps_nonblank_trimmed_lines() {
    assert_eq!(
        lookup_paths("C:\\tools\\ffprobe.exe\r\n\r\n  D:\\bin\\ffprobe.exe  \r\n"),
        vec!["C:\\tools\\ffprobe.exe".to_string(), "D:\\bin\\ffprobe.exe".to_string()]
    );
    assert_eq!(lookup_paths("/usr/bin/ffprobe"), vec!["/usr/bin/ffprobe".to_string()]);
    assert!(lookup_paths("\n  \n").is_empty());
    assert_eq!(where_exe_name("ffprobe"), "ffprobe.exe");
    assert_eq!(where_exe_name("ffprobe.exe"), "ffprobe.exe");
}

#[test]
fn startup_errors_give_failed_streams_exactly_one_error() {
    let mut states = vec![
        StreamErrorCount { stream_id: "a".to_string(), decode_error_count: 7 },
        StreamErrorCount { stream_id: "b".to_string(), decode_error_count: 0 },
    ];
    let errors = vec![("a".to_string(), "busy".to_string()), ("b".to_string(), "gone".to_string()), ("c".to_string(), "missing".to_string())];
    let mut health = String::new();
    assert!(apply_frame_stream_startup_errors(&errors, &mut states, &mut health));
    assert_eq!(
        states,
        vec![
            StreamErrorCount { stream_id: "a".to_string(), decode_error_count: 7 },
            StreamErrorCount { stream_id: "b".to_string(), decode_error_count: 1 },
            StreamErrorCount { stream_id: "c".to_string(), decode_error_count: 1 },
        ]
    );
    assert_eq!(health, "c Motion frame stream failed: missing");
}

#[test]
fn each_model_comes_from_the_first_root_that_holds_it() {
    let files = |pose, hand, face, holistic| un_motion::source_routing::ModelFiles { pose, hand, face, holistic };
    let roots = vec![files(false, true, false, false), files(true, true, false, true), files(true, false, false, true)];
    let r = un_motion::source_routing::resolve_model_roots(&roots);
    assert_eq!(r.pose, Some(1));
    assert_eq!(r.hand, Some(0));
    assert_eq!(r.face, None);
    assert_eq!(r.holistic, Some(1));
    let none = un_motion::source_routing::resolve_model_roots(&Vec::new());
    assert_eq!(none.pose, None);
}

#[test]
fn launch_reuses_a_live_capturer_of_the_profile_else_spawns() {
    let fleet = vec![
        launched_capturer(1, 100, "127.0.0.1:40001".to_string(), Some("studio".to_string())),
        launched_capturer(2, 101, "127.0.0.1:40002".to_string(), None),
    ];
    assert_eq!(launch_step(&fleet, Some("  studio ")), LaunchAction::Reuse(0));
    assert_eq!(launch_step(&fleet, Some("   ")), LaunchAction::Reuse(1));
    assert_eq!(launch_step(&fleet, None), LaunchAction::Reuse(1));
    assert_eq!(launch_step(&fleet, Some("stage")), LaunchAction::Spawn { profile_key: Some("stage".to_string()) });
    assert_eq!(launch_step(&Vec::new(), None), LaunchAction::Spawn { profile_key: None });
}

#[test]
fn cargo_fallback_runs_the_capturer_package_with_its_arguments() {
    let args = un_motion::capturer_fleet::cargo_run_capturer_args("127.0.0.1:40001", false, Some("studio"), 4);
    assert_eq!(
        args,
        vec![
            "run", "-q", "-p", "un-motion-capturer", "--bin", "un-motion-capturer", "--", "--bind", "127.0.0.1:40001",
            "--api-workers", "4", "--active-profile", "studio", "--with-tray=true",
        ]
    );
}
