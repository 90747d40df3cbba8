use verwatch::check::{
    evaluate_check, resolve_token, status_error, status_no_change, status_paused, status_skipped,
    status_updated, CheckEval,
};
use verwatch::config::{
    BaseConfig, ComparisonMode, CreateProjectRequest, MonitorState, ProjectConfig, TimeConfig,
};
use verwatch::errors::{WatchError, WatchErrorStatus};
use verwatch::gateway::{
    bearer_header, build_dispatch, check_dispatch_status, dispatch_body, dispatch_url,
    parse_release_body, read_fetch_response, release_url, should_retry_rate_limit,
};
use verwatch::monitor::MonitorStore;
use verwatch::release::{GitHubRelease, ReleaseInfo, ReleaseTimestamp};
use verwatch::time::{DurationSecs, Timestamp};

fn config_for(mode: ComparisonMode, secret: Option<&str>) -> ProjectConfig {
    ProjectConfig::new(CreateProjectRequest {
        base_config: BaseConfig {
            upstream_owner: "u".to_string(),
            upstream_repo: "r".to_string(),
            my_owner: "m".to_string(),
            my_repo: "mr".to_string(),
        },
        time_config: TimeConfig::default(),
        initial_delay: DurationSecs::from_secs(60),
        dispatch_token_secret: secret.map(|s| s.to_string()),
        comparison_mode: mode,
    })
}

fn release_json(tag: &str, published_at: &str) -> String {
    format!(
        "{{\"tag_name\":\"{}\",\"published_at\":\"{}\"}}",
        tag, published_at
    )
}

// =========================================================
// Release comparison
// =========================================================

#[test]
fn same_mode_newer_iff_strictly_greater() {
    let old = GitHubRelease {
        tag_name: "v1".to_string(),
        timestamp: ReleaseTimestamp::Published(Timestamp::new(1_000)),
    };
    let newer = GitHubRelease {
        tag_name: "v2".to_string(),
        timestamp: ReleaseTimestamp::Published(Timestamp::new(2_000)),
    };
    let equal = GitHubRelease {
        tag_name: "v1b".to_string(),
        timestamp: ReleaseTimestamp::Published(Timestamp::new(1_000)),
    };
    assert_eq!(newer.is_newer_than(&old).unwrap(), true);
    assert_eq!(old.is_newer_than(&newer).unwrap(), false);
    assert_eq!(equal.is_newer_than(&old).unwrap(), false);
}

#[test]
fn mismatched_mode_is_an_error_for_direct_comparison() {
    let published = GitHubRelease {
        tag_name: "v1".to_string(),
        timestamp: ReleaseTimestamp::Published(Timestamp::new(1_000)),
    };
    let updated = GitHubRelease {
        tag_name: "v2".to_string(),
        timestamp: ReleaseTimestamp::Updated(Timestamp::new(2_000)),
    };
    let err = updated.is_newer_than(&published).unwrap_err();
    assert_eq!(err.status, WatchErrorStatus::InvalidInput);
    assert_eq!(err.message(), "Comparison mode mismatch");
    assert_eq!(err.spans().len(), 1);
    assert_eq!(err.spans()[0].operation, "release.compare");
}

#[test]
fn mismatched_mode_never_blocks_dispatch() {
    // A fingerprint recorded under the other comparison mode is treated as
    // stale: the check dispatches and repairs it, whatever the times are.
    let config = config_for(ComparisonMode::PublishedAt, None);
    let stored = Some(GitHubRelease {
        tag_name: "v9".to_string(),
        timestamp: ReleaseTimestamp::Updated(Timestamp::new(9_999_999)),
    });
    let info = ReleaseInfo {
        tag_name: "v1".to_string(),
        published_at: Some(Timestamp::new(1_000)),
        updated_at: None,
    };
    match evaluate_check(&config, Ok(info), &stored) {
        CheckEval::Dispatch { fingerprint } => {
            assert_eq!(fingerprint.tag_name, "v1");
            assert_eq!(
                fingerprint.timestamp,
                ReleaseTimestamp::Published(Timestamp::new(1_000))
            );
        }
        _ => panic!("mode mismatch must dispatch"),
    }
}

// =========================================================
// The check decision
// =========================================================

#[test]
fn no_stored_fingerprint_dispatches() {
    let config = config_for(ComparisonMode::PublishedAt, None);
    let info = ReleaseInfo {
        tag_name: "v1".to_string(),
        published_at: Some(Timestamp::new(1_000)),
        updated_at: None,
    };
    match evaluate_check(&config, Ok(info), &None) {
        CheckEval::Dispatch { fingerprint } => assert_eq!(fingerprint.tag_name, "v1"),
        _ => panic!("first sighting must dispatch"),
    }
}

#[test]
fn missing_timestamp_field_is_skipped_not_an_error() {
    let config = config_for(ComparisonMode::UpdatedAt, None);
    let info = ReleaseInfo {
        tag_name: "v1".to_string(),
        published_at: Some(Timestamp::new(1_000)),
        updated_at: None,
    };
    match evaluate_check(&config, Ok(info), &None) {
        CheckEval::Skipped => {}
        _ => panic!("missing field must be a successful no-op"),
    }
}

#[test]
fn fetch_failure_is_reported_as_is() {
    let config = config_for(ComparisonMode::PublishedAt, None);
    let e = WatchError::external_api("Upstream API error".to_string());
    match evaluate_check(&config, Err(e), &None) {
        CheckEval::FetchFailed { error } => {
            assert_eq!(error.status, WatchErrorStatus::ExternalApi)
        }
        _ => panic!("a failed fetch must fail the check"),
    }
}

#[test]
fn dispatch_iff_newer() {
    // Stored Published(2023-01-01) vs remote Published(2023-01-01): no
    // dispatch, status says no change. Remote Published(2023-02-01): one
    // dispatch with the new tag, and the fingerprint updates on success.
    let config = config_for(ComparisonMode::PublishedAt, None);
    let jan = parse_release_body(&release_json("v1", "2023-01-01T00:00:00Z")).unwrap();
    let stored = Some(GitHubRelease {
        tag_name: "v1".to_string(),
        timestamp: ReleaseTimestamp::Published(jan.published_at.unwrap()),
    });

    let same = parse_release_body(&release_json("v1", "2023-01-01T00:00:00Z")).unwrap();
    match evaluate_check(&config, Ok(same), &stored) {
        CheckEval::NoChange => {}
        _ => panic!("an equal timestamp must not dispatch"),
    }
    let status = status_no_change(&config.request.base_config);
    assert!(status.contains("No change"));

    let feb = parse_release_body(&release_json("v2", "2023-02-01T00:00:00Z")).unwrap();
    let mut store = MonitorStore::new();
    store.fingerprint = stored.clone();
    match evaluate_check(&config, Ok(feb), &store.fingerprint.clone()) {
        CheckEval::Dispatch { fingerprint } => {
            assert_eq!(fingerprint.tag_name, "v2");
            store.settle_dispatch(fingerprint.clone(), Ok(())).unwrap();
            assert_eq!(store.fingerprint.unwrap().tag_name, "v2");
        }
        _ => panic!("a strictly newer timestamp must dispatch"),
    }
}

// =========================================================
// Token resolution and dispatch building
// =========================================================

#[test]
fn token_resolution_prefers_resolved_named_secret() {
    let named = Some("X".to_string());
    let global = "global".to_string();
    assert_eq!(resolve_token(&named, Some("s3cr3t".to_string()), &global), "s3cr3t");
    assert_eq!(resolve_token(&named, None, &global), "global");
    assert_eq!(resolve_token(&None, None, &global), "global");
}

#[test]
fn service_test_update_flow_with_custom_secret() {
    // End to end through the decision functions: a stored January release,
    // a remote February release, a named secret that resolves; the
    // dispatch call carries the resolved token as its bearer credential.
    let config = config_for(ComparisonMode::PublishedAt, Some("MY_CUSTOM_TOKEN"));

    let jan = parse_release_body(&release_json("v1", "2023-01-01T00:00:00Z")).unwrap();
    let mut store = MonitorStore::new();
    store.fingerprint = Some(GitHubRelease {
        tag_name: "v1".to_string(),
        timestamp: ReleaseTimestamp::Published(jan.published_at.unwrap()),
    });

    let fetched = read_fetch_response(200, &release_json("v2", "2023-02-01T00:00:00Z"));
    let fingerprint = match evaluate_check(&config, fetched, &store.fingerprint.clone()) {
        CheckEval::Dispatch { fingerprint } => fingerprint,
        _ => panic!("the newer release must dispatch"),
    };

    // The secret resolver found the named secret.
    let token = resolve_token(
        &config.request.dispatch_token_secret,
        Some("secret_value_123".to_string()),
        &"global_token".to_string(),
    );
    let request = build_dispatch(&config, &fingerprint.tag_name, &token);

    assert_eq!(request.url, "https://api.github.com/repos/m/mr/dispatches");
    assert_eq!(request.auth_header, "Bearer secret_value_123");

    // The downstream accepted: the fingerprint advances.
    let accepted = check_dispatch_status(204);
    let tag = fingerprint.tag_name.clone();
    store.settle_dispatch(fingerprint, accepted).unwrap();
    assert_eq!(store.fingerprint.unwrap().tag_name, "v2");

    let status = status_updated(&config.request.base_config, &tag);
    assert_eq!(status, "Updated u/r to v2");
}

#[test]
fn lib_test_update_flow_with_custom_secret() {
    // The batch-runner flavor of the same flow: the sweep's aggregate
    // report carries the updated-to line, and the dispatch call carries
    // the resolved bearer token.
    let config = config_for(ComparisonMode::PublishedAt, Some("MY_CUSTOM_TOKEN"));

    let jan = parse_release_body(&release_json("v1", "2023-01-01T00:00:00Z")).unwrap();
    let stored = Some(GitHubRelease {
        tag_name: "v1".to_string(),
        timestamp: ReleaseTimestamp::Published(jan.published_at.unwrap()),
    });

    let fetched = read_fetch_response(200, &release_json("v2", "2023-02-01T00:00:00Z"));
    let fingerprint = match evaluate_check(&config, fetched, &stored) {
        CheckEval::Dispatch { fingerprint } => fingerprint,
        _ => panic!("the newer release must dispatch"),
    };
    let token = resolve_token(
        &config.request.dispatch_token_secret,
        Some("secret_value_123".to_string()),
        &"global_token".to_string(),
    );
    let request = build_dispatch(&config, &fingerprint.tag_name, &token);
    assert_eq!(request.auth_header, "Bearer secret_value_123");

    let outcomes = vec![status_updated(&config.request.base_config, &fingerprint.tag_name)];
    let report = verwatch::batch::aggregate_report(&outcomes);
    assert!(report.contains("Updated u/r to v2"));
}

#[test]
fn dispatch_token_secret_resolves_to_bearer_header() {
    // A named secret "X" resolving to "s3cr3t" yields Authorization
    // "Bearer s3cr3t".
    let config = config_for(ComparisonMode::PublishedAt, Some("X"));
    let token = resolve_token(
        &config.request.dispatch_token_secret,
        Some("s3cr3t".to_string()),
        &"global".to_string(),
    );
    let request = build_dispatch(&config, "v1", &token);
    assert_eq!(request.auth_header, "Bearer s3cr3t");
}

#[test]
fn dispatch_body_is_exact_json() {
    assert_eq!(
        dispatch_body("v1.0"),
        "{\"event_type\":\"upstream_update\",\"client_payload\":{\"version\":\"v1.0\"}}"
    );
    // The version tag is JSON-escaped, not pasted raw.
    assert_eq!(
        dispatch_body("v\"1"),
        "{\"event_type\":\"upstream_update\",\"client_payload\":{\"version\":\"v\\\"1\"}}"
    );
}

#[test]
fn urls_and_headers_are_exact() {
    assert_eq!(
        release_url("rust-lang", "rust"),
        "https://api.github.com/repos/rust-lang/rust/releases/latest"
    );
    assert_eq!(
        dispatch_url("me", "mirror"),
        "https://api.github.com/repos/me/mirror/dispatches"
    );
    assert_eq!(bearer_header("tok"), "Bearer tok");
}

// =========================================================
// Response reading
// =========================================================

#[test]
fn parse_release_body_reads_fields() {
    let info = parse_release_body(
        "{\"tag_name\":\"v3\",\"published_at\":\"1970-01-01T00:00:01Z\",\"updated_at\":\"1970-01-01T00:00:02Z\"}",
    )
    .unwrap();
    assert_eq!(info.tag_name, "v3");
    assert_eq!(info.published_at, Some(Timestamp::new(1_000)));
    assert_eq!(info.updated_at, Some(Timestamp::new(2_000)));
}

#[test]
fn parse_release_body_missing_tag_is_external_api_error() {
    let err = parse_release_body("{\"published_at\":\"2023-01-01T00:00:00Z\"}").unwrap_err();
    assert_eq!(err.status, WatchErrorStatus::ExternalApi);
    assert_eq!(err.status_code(), 502);
}

#[test]
fn parse_release_body_non_object_is_external_api_error() {
    // A body that is JSON but no object has no tag: same failure as a
    // missing tag.
    let err = parse_release_body("[1, 2, 3]").unwrap_err();
    assert_eq!(err.status, WatchErrorStatus::ExternalApi);
}

#[test]
fn parse_release_body_bad_json_is_serialization_error() {
    let err = parse_release_body("not json").unwrap_err();
    assert_eq!(err.status, WatchErrorStatus::Serialization);
    assert_eq!(err.status_code(), 400);
}

#[test]
fn parse_release_body_malformed_timestamp_counts_as_absent() {
    let info = parse_release_body("{\"tag_name\":\"v1\",\"published_at\":\"yesterday\"}")
        .unwrap();
    assert_eq!(info.tag_name, "v1");
    assert!(info.published_at.is_none());
}

#[test]
fn read_fetch_response_rejects_non_200() {
    let err = read_fetch_response(404, "").unwrap_err();
    assert_eq!(err.status, WatchErrorStatus::ExternalApi);
}

#[test]
fn dispatch_status_must_be_204() {
    assert!(check_dispatch_status(204).is_ok());
    let err = check_dispatch_status(200).unwrap_err();
    assert_eq!(err.status, WatchErrorStatus::ExternalApi);
    assert_eq!(err.status_code(), 502);
}

// =========================================================
// Rate-limit retry rule and status strings
// =========================================================

#[test]
fn retry_only_once_and_only_on_exhausted_403() {
    assert!(should_retry_rate_limit(403, &Some("0".to_string()), 0));
    assert!(!should_retry_rate_limit(403, &Some("0".to_string()), 1));
    assert!(!should_retry_rate_limit(403, &Some("7".to_string()), 0));
    assert!(!should_retry_rate_limit(403, &None, 0));
    assert!(!should_retry_rate_limit(500, &Some("0".to_string()), 0));
}

#[test]
fn status_strings_match_their_outcomes() {
    let b = BaseConfig {
        upstream_owner: "u".to_string(),
        upstream_repo: "r".to_string(),
        my_owner: "m".to_string(),
        my_repo: "mr".to_string(),
    };
    assert_eq!(status_skipped(&b), "Skipped u/r (No timestamp)");
    assert_eq!(status_no_change(&b), "No change for u/r");
    assert_eq!(status_updated(&b, "v2"), "Updated u/r to v2");
    assert_eq!(status_paused(&b), "Skipped u/r (Paused)");
    let e = WatchError::store("boom".to_string());
    assert_eq!(status_error(&b, &e), "Error checking r: boom");
}
