use verwatch::batch::{aggregate_report, sweep_should_check, SWEEP_CONCURRENCY_LIMIT};
use verwatch::config::{
    BaseConfig, ComparisonMode, CreateProjectRequest, MonitorState, ProjectConfig, TimeConfig,
};
use verwatch::errors::{ErrorResponse, ErrorSpan, WatchError, WatchErrorStatus};
use verwatch::protocol::{
    GetConfigCmd, HttpMethod, IsRegisteredCmd, ListMonitorsCmd, ListProjectsRequest,
    PopProjectRequest, RegisterMonitorCmd, RegistrySwitchMonitorCmd, RegistryTriggerCheckCmd,
    SetupMonitorCmd, StopMonitorCmd, SwitchMonitorCmd, SwitchMonitorRequest, TriggerCheckCmd,
    TriggerCheckRequest,
};
use verwatch::time::{DurationSecs, Timestamp};

fn base() -> BaseConfig {
    BaseConfig {
        upstream_owner: "rust-lang".to_string(),
        upstream_repo: "rust".to_string(),
        my_owner: "me".to_string(),
        my_repo: "mirror".to_string(),
    }
}

// =========================================================
// Identity and storage keys
// =========================================================

#[test]
fn unique_key_has_exact_shape() {
    assert_eq!(base().generate_unique_key(), "rust-lang/rust->me/mirror");
}

#[test]
fn unique_key_is_deterministic() {
    // Repeated derivation from the same identity fields always yields the
    // same key.
    let b = base();
    let first = b.generate_unique_key();
    let second = b.generate_unique_key();
    assert_eq!(first, second);

    let config = ProjectConfig::new(CreateProjectRequest {
        base_config: base(),
        time_config: TimeConfig::default(),
        initial_delay: DurationSecs::from_secs(0),
        dispatch_token_secret: None,
        comparison_mode: ComparisonMode::PublishedAt,
    });
    assert_eq!(config.unique_key, first);
    assert_eq!(config.generate_unique_key(), first);
}

#[test]
fn version_store_key_uses_upstream_path_only() {
    assert_eq!(base().version_store_key(), "v:rust-lang/rust");
    let mut other_downstream = base();
    other_downstream.my_owner = "someone".to_string();
    other_downstream.my_repo = "else".to_string();
    assert_eq!(other_downstream.version_store_key(), "v:rust-lang/rust");
}

#[test]
fn new_project_starts_paused() {
    let config = ProjectConfig::new(CreateProjectRequest {
        base_config: base(),
        time_config: TimeConfig::default(),
        initial_delay: DurationSecs::from_secs(0),
        dispatch_token_secret: None,
        comparison_mode: ComparisonMode::default(),
    });
    assert!(config.state.is_paused());
    assert_eq!(config.request.comparison_mode, ComparisonMode::PublishedAt);
}

// =========================================================
// Time values
// =========================================================

#[test]
fn duration_conversions() {
    let d = DurationSecs::from_secs(90);
    assert_eq!(d.as_secs(), 90);
    assert_eq!(d.as_millis(), 90_000);
    assert_eq!(DurationSecs::from_hours(1).as_secs(), 3_600);
}

#[test]
fn timestamp_accessors_and_arithmetic() {
    let t = Timestamp::new(1_500);
    assert_eq!(t.as_millis(), 1_500);
    assert_eq!(t.as_millis_i64(), 1_500);
    assert_eq!(t.as_secs(), 1);
    let later = t.plus(DurationSecs::from_secs(2));
    assert_eq!(later.as_millis(), 3_500);
    assert!(later.is_after(&t));
    assert!(!t.is_after(&later));
}

#[test]
fn default_intervals() {
    let t = TimeConfig::default();
    assert_eq!(t.check_interval.as_secs(), 3_600);
    assert_eq!(t.retry_interval.as_secs(), 10);
}

// =========================================================
// The error taxonomy
// =========================================================

#[test]
fn every_status_maps_to_its_code() {
    let cases = [
        (WatchErrorStatus::InvalidInput, 400, "INVALID_INPUT"),
        (WatchErrorStatus::Serialization, 400, "JSON_PARSE_ERROR"),
        (WatchErrorStatus::Unauthorized, 401, "UNAUTHORIZED"),
        (WatchErrorStatus::NotFound, 404, "RESOURCE_NOT_FOUND"),
        (WatchErrorStatus::Conflict, 409, "RESOURCE_CONFLICT"),
        (WatchErrorStatus::Store, 500, "INTERNAL_STORE_ERROR"),
        (WatchErrorStatus::ExternalApi, 502, "UPSTREAM_ERROR"),
    ];
    for (status, code, name) in cases {
        assert_eq!(status.status_code(), code);
        assert_eq!(status.error_code(), name);
    }
}

#[test]
fn constructors_set_their_status() {
    assert_eq!(WatchError::store("m".to_string()).status, WatchErrorStatus::Store);
    assert_eq!(WatchError::not_found("m".to_string()).status, WatchErrorStatus::NotFound);
    assert_eq!(
        WatchError::invalid_input("m".to_string()).status,
        WatchErrorStatus::InvalidInput
    );
    assert_eq!(
        WatchError::unauthorized("m".to_string()).status,
        WatchErrorStatus::Unauthorized
    );
    assert_eq!(
        WatchError::serialization("m".to_string()).status,
        WatchErrorStatus::Serialization
    );
    assert_eq!(
        WatchError::external_api("m".to_string()).status,
        WatchErrorStatus::ExternalApi
    );
    assert_eq!(WatchError::conflict("m".to_string()).status, WatchErrorStatus::Conflict);
    let e = WatchError::new(WatchErrorStatus::Store, "boom".to_string());
    assert_eq!(e.message(), "boom");
    assert!(e.spans().is_empty());
}

#[test]
fn breadcrumbs_append_in_order() {
    let e = WatchError::store("boom".to_string())
        .in_op("storage.get".to_string())
        .in_op_with("monitor.send".to_string(), "key-1".to_string());
    let spans = e.spans();
    assert_eq!(spans.len(), 2);
    assert_eq!(spans[0].operation, "storage.get");
    assert_eq!(spans[0].detail, None);
    assert_eq!(spans[1].operation, "monitor.send");
    assert_eq!(spans[1].detail, Some("key-1".to_string()));
}

#[test]
fn error_survives_the_wire_round_trip() {
    let e = WatchError::not_found("gone".to_string()).in_op("registry.lookup".to_string());
    let wire: ErrorResponse = e.into();
    assert_eq!(wire.status, WatchErrorStatus::NotFound);
    assert_eq!(wire.status_code(), 404);
    assert_eq!(wire.error_code(), "RESOURCE_NOT_FOUND");
    let back: WatchError = wire.into();
    assert_eq!(back.status, WatchErrorStatus::NotFound);
    assert_eq!(back.message(), "gone");
    assert_eq!(back.spans().len(), 1);
    assert_eq!(back.spans()[0].operation, "registry.lookup");
}

#[test]
fn error_span_constructors() {
    let plain = ErrorSpan::new("op".to_string());
    assert_eq!(plain.operation, "op");
    assert_eq!(plain.detail, None);
    let detailed = ErrorSpan::with_detail("op".to_string(), "d".to_string());
    assert_eq!(detailed.detail, Some("d".to_string()));
}

// =========================================================
// The transport protocol
// =========================================================

#[test]
fn command_routes_are_stable() {
    assert_eq!(SetupMonitorCmd::path(), "/monitor/setup");
    assert_eq!(StopMonitorCmd::path(), "/monitor/stop");
    assert_eq!(TriggerCheckCmd::path(), "/monitor/trigger");
    assert_eq!(GetConfigCmd::path(), "/monitor/config");
    assert_eq!(SwitchMonitorCmd::path(), "/monitor/switch");
    assert_eq!(RegisterMonitorCmd::path(), "/registry/register");
    assert_eq!(verwatch::protocol::UnregisterMonitorCmd::path(), "/registry/unregister");
    assert_eq!(ListMonitorsCmd::path(), "/registry/list");
    assert_eq!(IsRegisteredCmd::path(), "/registry/exists");
    assert_eq!(RegistrySwitchMonitorCmd::path(), "/registry/switch");
    assert_eq!(RegistryTriggerCheckCmd::path(), "/registry/trigger");
    assert_eq!(ListProjectsRequest::path(), "/api/projects");
    assert_eq!(PopProjectRequest::path(), "/api/projects/pop");
    assert_eq!(SwitchMonitorRequest::path(), "/api/projects/switch");
    assert_eq!(TriggerCheckRequest::path(), "/api/projects/trigger");
    assert_eq!(verwatch::protocol::create_project_path(), "/api/projects");
    assert_eq!(verwatch::protocol::auth_header_key(), "X-Auth-Key");

    assert_eq!(StopMonitorCmd::method(), HttpMethod::Delete);
    assert_eq!(GetConfigCmd::method(), HttpMethod::Get);
    assert_eq!(SetupMonitorCmd::method(), HttpMethod::Post);
}

#[test]
fn rpc_success_reply_carries_no_error() {
    assert!(verwatch::protocol::interpret_rpc_response(200, false, None, "/monitor/setup")
        .is_none());
    assert!(verwatch::protocol::interpret_rpc_response(200, true, None, "/monitor/setup")
        .is_none());
}

#[test]
fn rpc_structured_error_is_reconstructed_with_call_site() {
    let mut envelope = ErrorResponse::new(WatchErrorStatus::NotFound, "gone".to_string());
    envelope.spans.push(ErrorSpan::new("storage.get".to_string()));

    let e = verwatch::protocol::interpret_rpc_response(
        404,
        true,
        Some(envelope),
        "/monitor/config",
    )
    .expect("a failure status must yield an error");

    assert_eq!(e.status, WatchErrorStatus::NotFound);
    assert_eq!(e.message(), "gone");
    // The remote trail is kept and the local call site appended.
    assert_eq!(e.spans().len(), 2);
    assert_eq!(e.spans()[0].operation, "storage.get");
    assert_eq!(e.spans()[1].operation, "rpc.call");
    assert_eq!(e.spans()[1].detail, Some("/monitor/config".to_string()));
}

#[test]
fn rpc_unmarked_failure_collapses_to_store() {
    let e = verwatch::protocol::interpret_rpc_response(502, false, None, "/registry/list")
        .expect("a failure status must yield an error");
    assert_eq!(e.status, WatchErrorStatus::Store);
    assert_eq!(e.message(), "RPC transport error");
    assert_eq!(e.spans().len(), 1);
    assert_eq!(e.spans()[0].operation, "rpc.call");

    // A marker without a decodable envelope collapses the same way.
    let e = verwatch::protocol::interpret_rpc_response(500, true, None, "/registry/list")
        .expect("a failure status must yield an error");
    assert_eq!(e.status, WatchErrorStatus::Store);
}

#[test]
fn rpc_error_header_name() {
    assert_eq!(verwatch::protocol::rpc_error_header_key(), "X-Rpc-Error");
}

#[test]
fn pop_request_from_delete_target() {
    let target = verwatch::config::DeleteTarget { id: "a/b->c/d".to_string() };
    let pop: PopProjectRequest = target.into();
    assert_eq!(pop.id, "a/b->c/d");
}

// =========================================================
// The batch sweep
// =========================================================

#[test]
fn sweep_skips_paused_projects() {
    let mut config = ProjectConfig::new(CreateProjectRequest {
        base_config: base(),
        time_config: TimeConfig::default(),
        initial_delay: DurationSecs::from_secs(0),
        dispatch_token_secret: None,
        comparison_mode: ComparisonMode::PublishedAt,
    });
    assert!(!sweep_should_check(&config));
    config.state = MonitorState::running(Timestamp::new(0));
    assert!(sweep_should_check(&config));
}

#[test]
fn aggregate_report_joins_with_semicolons() {
    assert_eq!(aggregate_report(&vec![]), "No projects configured.");
    assert_eq!(aggregate_report(&vec!["one".to_string()]), "one");
    assert_eq!(
        aggregate_report(&vec!["a".to_string(), "b".to_string(), "c".to_string()]),
        "a; b; c"
    );
}

#[test]
fn sweep_concurrency_is_capped_at_five() {
    assert_eq!(SWEEP_CONCURRENCY_LIMIT, 5);
}
