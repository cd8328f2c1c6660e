use un_motion::output_telemetry::{
    drain_output_messages, drain_vrc_osc_output_messages, drain_zenoh_output_messages, OutputTelemetry,
    VmcOutputEvent, VmcOutputTelemetry, VrcOscOutputEvent, VrcOscOutputTelemetry, ZenohOutputEvent,
    ZenohOutputTelemetry,
};

#[test]
fn drain_output_messages_accumulates_vmc_sent_and_error() {
    let mut telemetry = OutputTelemetry {
        vmc: Some(VmcOutputTelemetry {
            target_addr: Some("127.0.0.1:39539".to_string()),
            ..VmcOutputTelemetry::default()
        }),
        ..OutputTelemetry::default()
    };
    let mut health = String::new();
    let events = vec![
        VmcOutputEvent::Sent { datagrams: 1, packets: 4 },
        VmcOutputEvent::Sent { datagrams: 1, packets: 5 },
        VmcOutputEvent::Error { message: "network unreachable".to_string() },
    ];

    drain_output_messages(&events, &mut health, &mut telemetry);

    let vmc = telemetry.vmc.expect("vmc telemetry");
    assert_eq!(vmc.sent_datagrams, 2);
    assert_eq!(vmc.sent_packets, 9);
    assert_eq!(vmc.error_count, 1);
    assert_eq!(vmc.last_error.as_deref(), Some("network unreachable"));
    assert!(health.starts_with("VMC output failed:"));
}

#[test]
fn drain_zenoh_output_messages_accumulates_zenoh_sent_and_error() {
    let mut telemetry = OutputTelemetry {
        zenoh: Some(ZenohOutputTelemetry {
            base_key_expr: Some("unmotion/v1/test".to_string()),
            ..ZenohOutputTelemetry::default()
        }),
        ..OutputTelemetry::default()
    };
    let mut health = String::new();
    let events = vec![
        ZenohOutputEvent::Sent { frames: 1 },
        ZenohOutputEvent::Sent { frames: 1 },
        ZenohOutputEvent::Error { message: "session closed".to_string() },
    ];

    drain_zenoh_output_messages(&events, &mut health, &mut telemetry);

    let zenoh = telemetry.zenoh.expect("zenoh telemetry");
    assert_eq!(zenoh.sent_frames, 2);
    assert_eq!(zenoh.error_count, 1);
    assert_eq!(zenoh.last_error.as_deref(), Some("session closed"));
    assert!(health.starts_with("Zenoh output failed:"));
}

#[test]
fn drain_vrc_osc_output_messages_accumulates_sent_skipped_and_error() {
    let mut telemetry = OutputTelemetry {
        vrc_osc: Some(VrcOscOutputTelemetry {
            target_addr: Some("127.0.0.1:9000".to_string()),
            ..VrcOscOutputTelemetry::default()
        }),
        ..OutputTelemetry::default()
    };
    let mut health = String::new();
    let events = vec![
        VrcOscOutputEvent::Sent { datagrams: 1, packets: 3, vrchat_detected: true },
        VrcOscOutputEvent::Skipped { process_gate_blocked: true, vrchat_detected: false },
        VrcOscOutputEvent::Error { message: "send failed".to_string() },
    ];

    drain_vrc_osc_output_messages(&events, &mut health, &mut telemetry);

    let vrc_osc = telemetry.vrc_osc.expect("vrc osc telemetry");
    assert_eq!(vrc_osc.sent_datagrams, 1);
    assert_eq!(vrc_osc.sent_packets, 3);
    assert_eq!(vrc_osc.skipped_frames, 1);
    assert_eq!(vrc_osc.process_gate_blocked_frames, 1);
    assert!(!vrc_osc.vrchat_detected);
    assert_eq!(vrc_osc.error_count, 1);
    assert_eq!(vrc_osc.last_error.as_deref(), Some("send failed"));
    assert!(health.starts_with("VRC OSC output failed:"));
}

#[test]
fn unconfigured_outputs_only_change_health() {
    let mut telemetry = OutputTelemetry::default();
    let mut health = "running".to_string();
    drain_output_messages(&vec![VmcOutputEvent::Sent { datagrams: 3, packets: 3 }], &mut health, &mut telemetry);
    assert_eq!(health, "running");
    drain_output_messages(&vec![VmcOutputEvent::Error { message: "x".to_string() }], &mut health, &mut telemetry);
    assert_eq!(health, "VMC output failed: x");
    assert_eq!(telemetry, OutputTelemetry::default());
}

#[test]
fn counters_saturate() {
    let mut telemetry = OutputTelemetry {
        zenoh: Some(ZenohOutputTelemetry { sent_frames: u64::MAX - 1, ..ZenohOutputTelemetry::default() }),
        ..OutputTelemetry::default()
    };
    let mut health = String::new();
    drain_zenoh_output_messages(
        &vec![ZenohOutputEvent::Sent { frames: 5 }, ZenohOutputEvent::Stopped],
        &mut health,
        &mut telemetry,
    );
    assert_eq!(telemetry.zenoh.expect("zenoh").sent_frames, u64::MAX);
}

#[test]
fn initial_telemetry_lists_running_outputs() {
    let telemetry = un_motion::output_telemetry::initial_output_telemetry(
        Some("127.0.0.1:39539".to_string()),
        None,
        Some("127.0.0.1:9000".to_string()),
    );
    assert_eq!(telemetry.vmc.as_ref().and_then(|v| v.target_addr.as_deref()), Some("127.0.0.1:39539"));
    assert_eq!(telemetry.vmc.as_ref().map(|v| v.sent_packets), Some(0));
    assert!(telemetry.zenoh.is_none());
    assert_eq!(telemetry.vrc_osc.as_ref().map(|v| v.vrchat_detected), Some(false));
}
