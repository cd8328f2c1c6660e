use un_motion::api_config::{
    default_api_worker_threads, normalize_api_worker_threads, parse_api_worker_threads, ApiConfigError,
    BindAddress, CoreApiConfig, IpAddress,
};
use un_motion::control::{
    ActiveProfileDecision, CoreControlCore, CoreEventKind, CoreProfile, RuntimeStatusUpdate, StartDecision,
};
use un_motion::core_client::{CoreApiClient, CoreRequest, HttpMethod};
use un_motion::server_rules::{
    decimal_chars, format_sse_json, health_response, is_allowed_core_api_origin, is_loopback_http_origin,
    AnalysisExtrasCaptureRequest, FacePoseModelBuildRequest, NeutralCalibrationRequest,
};

const CORES: usize = 8;

fn args(values: &[&str]) -> Vec<String> {
    values.iter().map(|v| v.to_string()).collect()
}

fn any_v4(port: u16) -> BindAddress {
    BindAddress { ip: IpAddress::V4(0, 0, 0, 0), port }
}

/// The command line read with the socket addresses its texts denote.
fn from_args(values: &[&str], addrs: Vec<Option<BindAddress>>) -> Result<CoreApiConfig, ApiConfigError> {
    CoreApiConfig::from_args(&args(values), &addrs, CORES)
}

#[test]
fn default_bind_is_loopback_and_non_loopback_requires_override() {
    assert!(CoreApiConfig::default_for(CORES).bind_addr.ip.is_loopback());
    assert!(from_args(&["--bind", "0.0.0.0:39580"], vec![None, Some(any_v4(39580))]).is_err());
    let config = from_args(
        &["--bind", "0.0.0.0:39580", "--allow-non-loopback"],
        vec![None, Some(any_v4(39580)), None],
    )
    .expect("override");
    assert_eq!(config.bind_addr, any_v4(39580));
}

#[test]
fn tray_arg_is_parsed() {
    let config = from_args(&["--tray"], vec![None]).expect("config");
    assert!(config.tray_enabled);
}

#[test]
fn api_worker_threads_are_parsed_and_clamped() {
    assert_eq!(CoreApiConfig::default_for(CORES).normalized_api_worker_threads(CORES), default_api_worker_threads(CORES));

    let min = from_args(&["--api-workers", "0"], vec![None, None]).expect("config");
    assert_eq!(min.api_worker_threads, 1);

    let max = from_args(&["--api-workers=9999"], vec![None]).expect("config");
    assert_eq!(max.api_worker_threads, CORES);
}

#[test]
fn default_client_uses_local_core_port() {
    assert_eq!(CoreApiClient::default().base_url(), "http://127.0.0.1:39580");
}

#[test]
fn client_trims_trailing_slashes_and_joins_paths() {
    let client = CoreApiClient::new("http://host:1//");
    assert_eq!(client.base_url(), "http://host:1");
    assert_eq!(client.endpoint("/api/status"), "http://host:1/api/status");
    assert_eq!(CoreRequest::Status.path(), "/api/status");
    assert_eq!(CoreRequest::StartRuntime.method(), HttpMethod::Post);
}

#[test]
fn command_line_errors_are_named() {
    assert_eq!(from_args(&["--bind"], vec![None]), Err(ApiConfigError::MissingBindAddress));
    assert_eq!(
        from_args(&["--bind", "nowhere"], vec![None, None]),
        Err(ApiConfigError::InvalidBindAddress { value: "nowhere".to_string() })
    );
    assert_eq!(
        from_args(&["--bind=nowhere"], vec![None]),
        Err(ApiConfigError::InvalidBindAddress { value: "nowhere".to_string() })
    );
    assert_eq!(from_args(&["--api-workers"], vec![None]), Err(ApiConfigError::MissingApiWorkers));
    assert_eq!(
        from_args(&["--api-workers=many"], vec![None]),
        Err(ApiConfigError::InvalidApiWorkers { value: "many".to_string() })
    );
    assert_eq!(from_args(&["-h"], vec![None]), Err(ApiConfigError::Usage));
    assert_eq!(
        from_args(&["--verbose"], vec![None]),
        Err(ApiConfigError::UnknownArgument { argument: "--verbose".to_string() })
    );
    assert_eq!(
        from_args(&["--bind=0.0.0.0:1"], vec![Some(any_v4(1))]),
        Err(ApiConfigError::NonLoopbackRefused { bind_addr: any_v4(1) })
    );
}

#[test]
fn address_texts_strip_the_bind_prefix() {
    let texts = CoreApiConfig::address_texts(&args(&["--bind=127.0.0.1:5", "--tray"]));
    assert_eq!(texts, args(&["127.0.0.1:5", "--tray"]));
}

#[test]
fn worker_counts_are_clamped_to_cores() {
    assert_eq!(normalize_api_worker_threads(0, 4), 1);
    assert_eq!(normalize_api_worker_threads(3, 4), 3);
    assert_eq!(normalize_api_worker_threads(30, 4), 4);
    assert_eq!(default_api_worker_threads(1), 1);
    assert_eq!(parse_api_worker_threads("6", 4), Ok(4));
    assert_eq!(
        parse_api_worker_threads("-1", 4),
        Err(ApiConfigError::InvalidApiWorkers { value: "-1".to_string() })
    );
}

#[test]
fn cors_allows_tauri_webview_origin() {
    assert!(is_allowed_core_api_origin("tauri://localhost"));
    assert!(is_allowed_core_api_origin("http://tauri.localhost"));
}

#[test]
fn cors_allows_loopback_dev_origin() {
    assert!(is_allowed_core_api_origin("http://localhost:1420"));
    assert!(is_allowed_core_api_origin("https://127.0.0.1"));
    assert!(is_loopback_http_origin("http://[::1]:8080"));
}

#[test]
fn cors_rejects_non_local_browser_origin() {
    assert!(!is_allowed_core_api_origin("https://example.com"));
    assert!(!is_allowed_core_api_origin("http://localhost.example.com"));
    assert!(!is_allowed_core_api_origin("ftp://localhost"));
}

#[test]
fn sse_event_format_contains_event_name_and_json_payload() {
    let formatted = format_sse_json("snapshot", None, "{\"activeProfileId\":\"default\"}");
    assert!(formatted.contains("event: snapshot"));
    assert!(formatted.contains("\"activeProfileId\":\"default\""));
    assert_eq!(formatted, "event: snapshot\ndata: {\"activeProfileId\":\"default\"}\n\n");
    assert_eq!(format_sse_json("snapshot", Some(42), "{}"), "id: 42\nevent: snapshot\ndata: {}\n\n");
    assert_eq!(decimal_chars(1050).into_iter().collect::<String>(), "1050");
}

#[test]
fn request_defaults_match_the_api() {
    let calibration = NeutralCalibrationRequest::with_defaults();
    assert_eq!(calibration.valid_sample_count, 45);
    assert_eq!(calibration.pose, None);
    assert_eq!(FacePoseModelBuildRequest::with_defaults().valid_sample_count, 90);
    let capture = AnalysisExtrasCaptureRequest::with_default_duration("out".to_string());
    assert_eq!(capture.duration_ms, 1000);
    assert!(health_response().ok);
}

fn core_profile(id: &str) -> CoreProfile {
    CoreProfile {
        id: id.to_string(),
        name: id.to_string(),
        note: String::new(),
        icon_path: None,
        group: String::new(),
        engine: None,
    }
}

#[test]
fn start_stop_updates_status_and_emits_events() {
    let mut core = CoreControlCore::new(vec![core_profile("default")], "default".to_string(), 1);
    assert_eq!(core.begin_start(), StartDecision::Spawn);
    let started = core.finish_start(Ok(()), 2);
    assert_eq!(started, CoreEventKind::RuntimeStarted);
    assert!(core.status.running);
    assert_eq!(core.status.health, "running");
    assert_eq!(core.begin_start(), StartDecision::AlreadyRunning);

    let (was_running, stopped) = core.stop(3);
    assert!(was_running);
    assert_eq!(stopped, CoreEventKind::RuntimeStopped);
    assert!(!core.status.running);
    assert_eq!(core.status.health, "stopped");
    assert_eq!(stopped.sse_name(), "runtime-stopped");
}

#[test]
fn failed_start_reports_the_reason() {
    let mut core = CoreControlCore::new(vec![core_profile("default")], "default".to_string(), 1);
    let event = core.finish_start(Err("no camera".to_string()), 2);
    assert_eq!(event, CoreEventKind::RuntimeStopped);
    assert!(!core.status.running);
    assert_eq!(core.status.health, "failed: no camera");
}

#[test]
fn active_profile_requires_existing_profile() {
    let core = CoreControlCore::new(vec![core_profile("waidayo")], "waidayo".to_string(), 1);
    assert_eq!(core.request_active_profile("missing"), ActiveProfileDecision::NotFound);
    assert_eq!(core.request_active_profile("waidayo"), ActiveProfileDecision::Switch);
}

#[test]
fn active_profile_change_restarts_running_runtime() {
    let profiles = vec![core_profile("p1"), core_profile("p2")];
    let mut core = CoreControlCore::new(profiles.clone(), "p1".to_string(), 1);
    core.finish_start(Ok(()), 2);
    assert_eq!(core.request_active_profile("p1"), ActiveProfileDecision::Unchanged);
    assert_eq!(core.request_active_profile("p2"), ActiveProfileDecision::Switch);

    let (restart, event) = core.switch_active_profile(profiles, "p2".to_string(), 3);
    assert!(restart);
    assert_eq!(event, CoreEventKind::ActiveProfileChanged);
    assert_eq!(core.status.active_profile_id, "p2");
    assert_eq!(core.status.health, "restarting");
    core.finish_start(Ok(()), 4);
    assert!(core.status.running);
    assert_eq!(core.status.active_profile_id, "p2");
}

#[test]
fn profile_document_update_restarts_running_runtime_with_new_selection() {
    let profiles = vec![core_profile("p1"), core_profile("p2")];
    let mut core = CoreControlCore::new(profiles.clone(), "p1".to_string(), 1);
    core.finish_start(Ok(()), 2);
    let (restart, event) = core.replace_document(profiles, "p2".to_string(), 3);
    assert!(restart);
    assert_eq!(event, CoreEventKind::Snapshot);
    assert_eq!(core.status.active_profile_id, "p2");
}

#[test]
fn runtime_updates_for_other_profiles_are_ignored() {
    let mut core = CoreControlCore::new(vec![core_profile("p1")], "p1".to_string(), 1);
    let before = core.status.clone();
    core.apply_runtime_update(
        RuntimeStatusUpdate {
            active_profile_id: "p9".to_string(),
            running: true,
            health: "running".to_string(),
            frame_count: 5,
            packet_count: 5,
            has_snapshot: true,
        },
        7,
    );
    assert_eq!(core.status, before);
    core.apply_runtime_update(
        RuntimeStatusUpdate {
            active_profile_id: "p1".to_string(),
            running: true,
            health: "running".to_string(),
            frame_count: 5,
            packet_count: 4,
            has_snapshot: true,
        },
        8,
    );
    assert_eq!(core.status.frame_count, 5);
    assert_eq!(core.status.packet_count, 4);
    assert_eq!(core.status.updated_at_ms, 8);
    assert_eq!(core.take_event_sequence(), 1);
    assert_eq!(core.take_event_sequence(), 2);
}

#[test]
fn bare_bind_reads_its_value_as_written() {
    let loopback = BindAddress { ip: IpAddress::V4(127, 0, 0, 1), port: 1 };
    assert_eq!(
        from_args(&["--bind", "--bind=127.0.0.1:1"], vec![None, Some(loopback)]),
        Err(ApiConfigError::InvalidBindAddress { value: "--bind=127.0.0.1:1".to_string() })
    );
    let config = from_args(&["--bind=127.0.0.1:1"], vec![Some(loopback)]).expect("prefixed form");
    assert_eq!(config.bind_addr, loopback);
}
