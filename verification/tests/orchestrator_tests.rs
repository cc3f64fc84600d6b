use funnelctl::apply::{
    build_url, commit_write_decision, host_port_of, https_base_text, plan_commit, require_etag,
    validate_prerequisites, value_to_config, CommitDecision,
};
use funnelctl::codec::{parse_serve_config, serve_config_to_json};
use funnelctl::error::{FunnelError, LocalApiError};
use funnelctl::json::JsonValue;
use funnelctl::open::{
    duration_seconds_between, ensure_loopback_allowed, expires_epoch, generate_random_path,
    invalid_bind_error, parse_ttl, OpenArgs, OpenCommand,
};
use funnelctl::output::{warning_message, HumanOutput, StopReason};
use funnelctl::status::BackendStatus;
use funnelctl::tunnel::{BackendKind, Lease, LocalTarget, TunnelSpec};
use funnelctl::types::{HttpHandler, ServeConfig, WebServerConfig};
use funnelctl::validation::ValidationWarning;

fn healthy_status() -> BackendStatus {
    BackendStatus {
        dns_name: Some("node.tail.example".to_string()),
        version: Some("1.60.0".to_string()),
        https_enabled: Some(true),
        funnel_enabled: Some(true),
        permissions_ok: Some(true),
    }
}

fn open_args() -> OpenArgs {
    OpenArgs {
        port: 8081,
        bind: "127.0.0.1".to_string(),
        path: None,
        https_port: 443,
        ttl: None,
        force: false,
        json: false,
        socket: None,
        localapi_port: None,
        localapi_password_file: None,
        allow_non_loopback: false,
    }
}

// ---------------------------------------------------------------- tunnel

#[test]
fn test_local_target_display() {
    let target = LocalTarget::new("127.0.0.1".to_string(), 8081);
    assert_eq!(target.to_string(), "http://127.0.0.1:8081");
}

#[test]
fn test_local_target_brackets_ipv6() {
    let target = LocalTarget::new("::1".to_string(), 8081);
    assert_eq!(target.to_string(), "http://[::1]:8081");
}

#[test]
fn test_local_target_to_url() {
    let target = LocalTarget::new("127.0.0.1".to_string(), 8081);
    let url = target.to_url().expect("Failed to create URL");
    assert_eq!(url.scheme(), "http");
    assert_eq!(url.host_str(), Some("127.0.0.1"));
    assert_eq!(url.port(), Some(8081));
}

#[test]
fn test_tunnel_spec_creation() {
    let target = LocalTarget::new("127.0.0.1".to_string(), 8081);
    let spec = TunnelSpec::new(target, 443, "/funnelctl/test".to_string(), true);

    assert_eq!(spec.https_port, 443);
    assert_eq!(spec.path, "/funnelctl/test");
    assert!(spec.funnel);
}

#[test]
fn test_lease_creation() {
    let target = LocalTarget::new("127.0.0.1".to_string(), 8081);
    let spec = TunnelSpec::new(target, 443, "/funnelctl/test".to_string(), true);
    let lease = Lease::new("test-lease-id".to_string(), spec, None);

    assert_eq!(lease.lease_id, "test-lease-id");
    assert!(lease.expires_at.is_none());
    assert!(matches!(lease.backend_kind, BackendKind::LocalApi));
}

// ---------------------------------------------------------------- apply

#[test]
fn test_require_etag() {
    assert_eq!(require_etag(Some("\"v7\"".to_string())).unwrap(), "\"v7\"");
    match require_etag(None) {
        Err(FunnelError::VersionTooOld { context }) => {
            assert_eq!(context, "ServeConfig ETag missing; LocalAPI too old");
        }
        other => panic!("Expected a too-old error, got {:?}", other),
    }
}

#[test]
fn test_validate_prerequisites_order() {
    assert_eq!(
        validate_prerequisites(&healthy_status()).unwrap(),
        "node.tail.example"
    );

    let mut status = healthy_status();
    status.version = Some("1.40.0".to_string());
    assert!(matches!(
        validate_prerequisites(&status),
        Err(FunnelError::VersionTooOld { .. })
    ));

    let mut status = healthy_status();
    status.dns_name = None;
    match validate_prerequisites(&status) {
        Err(FunnelError::Prerequisites { context }) => {
            assert_eq!(context, "Node not yet assigned DNS name");
        }
        other => panic!("Expected a prerequisite error, got {:?}", other),
    }

    let mut status = healthy_status();
    status.https_enabled = Some(false);
    match validate_prerequisites(&status) {
        Err(FunnelError::Prerequisites { context }) => {
            assert_eq!(context, "HTTPS not enabled. Run `tailscale cert`");
        }
        other => panic!("Expected a prerequisite error, got {:?}", other),
    }

    let mut status = healthy_status();
    status.funnel_enabled = None;
    match validate_prerequisites(&status) {
        Err(FunnelError::Prerequisites { context }) => {
            assert_eq!(context, "Funnel not enabled in tailnet policy");
        }
        other => panic!("Expected a prerequisite error, got {:?}", other),
    }
}

#[test]
fn test_host_port_and_url_base() {
    assert_eq!(host_port_of("node.tail.example", 443), "node.tail.example:443");
    assert_eq!(https_base_text("node.tail.example", 443), "https://node.tail.example");
    assert_eq!(
        https_base_text("node.tail.example", 8443),
        "https://node.tail.example:8443"
    );
}

#[test]
fn test_build_url_sets_path() {
    let url = build_url("node.tail.example", 443, "/hooks/pay").unwrap();
    assert_eq!(url.as_str(), "https://node.tail.example/hooks/pay");
    let url = build_url("node.tail.example", 8443, "/x").unwrap();
    assert_eq!(url.as_str(), "https://node.tail.example:8443/x");
}

#[test]
fn test_value_to_config_null_is_empty() {
    let config = value_to_config(JsonValue::Null).unwrap();
    assert_eq!(config, ServeConfig::new());

    match value_to_config(JsonValue::Bool(true)) {
        Err(FunnelError::ApplyFailed { context }) => {
            assert_eq!(context, "Failed to parse ServeConfig");
        }
        other => panic!("Expected a failed apply, got {:?}", other),
    }
}

fn config_with_top_route(path: &str, target: &str) -> ServeConfig {
    let mut config = ServeConfig::new();
    let mut web_config = WebServerConfig::new();
    web_config.handlers = Some(vec![(
        path.to_string(),
        HttpHandler::new_proxy(target.to_string()),
    )]);
    config.web = Some(vec![("node.tail.example:443".to_string(), web_config)]);
    config
}

#[test]
fn test_plan_commit_installs_route() {
    let config = ServeConfig::new();
    let out = plan_commit(
        config,
        "session1",
        "node.tail.example:443",
        "/hooks/pay",
        "http://127.0.0.1:8081",
        true,
        false,
    )
    .unwrap();

    let fg = out.foreground.as_ref().unwrap();
    assert_eq!(fg.len(), 1);
    assert_eq!(fg[0].0, "session1");
    let session =
        parse_serve_config(funnelctl::json::clone_json(&fg[0].1)).unwrap();
    let handlers = session.get_handlers("node.tail.example:443").unwrap();
    assert_eq!(handlers.len(), 1);
    assert_eq!(handlers[0].0, "/hooks/pay");
    assert!(session.is_funnel_enabled("node.tail.example:443"));
}

#[test]
fn test_plan_commit_top_level_conflict() {
    let config = config_with_top_route("/hooks/pay", "http://127.0.0.1:9000");
    let result = plan_commit(
        config,
        "session1",
        "node.tail.example:443",
        "/hooks/pay",
        "http://127.0.0.1:8081",
        true,
        false,
    );
    match result {
        Err(FunnelError::Conflict { context }) => {
            assert!(context.contains("/hooks/pay"));
            assert!(context.contains("9000"));
        }
        other => panic!("Expected a conflict, got {:?}", other),
    }
}

#[test]
fn test_plan_commit_force_overrides_conflict() {
    let config = config_with_top_route("/hooks/pay", "http://127.0.0.1:9000");
    let out = plan_commit(
        config,
        "session1",
        "node.tail.example:443",
        "/hooks/pay",
        "http://127.0.0.1:8081",
        true,
        true,
    )
    .unwrap();
    assert!(out.foreground.is_some());
    // The top-level table is untouched; the route lands under the session.
    let handlers = out.get_handlers("node.tail.example:443").unwrap();
    assert_eq!(
        handlers[0].1.get_proxy_target(),
        Some("http://127.0.0.1:9000")
    );
}

#[test]
fn test_plan_commit_other_session_conflict() {
    // Another session already holds the path: a conflict naming the session.
    let mut base = ServeConfig::new();
    funnelctl::patch::apply_patch(
        &mut base,
        "other-session",
        "node.tail.example:443",
        "/hooks/pay",
        "http://127.0.0.1:9000",
        false,
    )
    .unwrap();

    let result = plan_commit(
        base,
        "session1",
        "node.tail.example:443",
        "/hooks/pay",
        "http://127.0.0.1:8081",
        true,
        false,
    );
    match result {
        Err(FunnelError::Conflict { context }) => {
            assert!(context.contains("other-session"));
        }
        other => panic!("Expected a conflict, got {:?}", other),
    }
}

#[test]
fn test_plan_commit_malformed_session_fails_even_forced() {
    let mut config = ServeConfig::new();
    config.foreground = Some(vec![(
        "broken".to_string(),
        JsonValue::Str("not a config".to_string()),
    )]);
    let result = plan_commit(
        config,
        "session1",
        "node.tail.example:443",
        "/hooks/pay",
        "http://127.0.0.1:8081",
        true,
        true,
    );
    match result {
        Err(FunnelError::ApplyFailed { context }) => {
            assert_eq!(context, "Failed to parse ServeConfig");
        }
        other => panic!("Expected a failed apply, got {:?}", other),
    }
}

fn lost_race(status: u16) -> Result<(), LocalApiError> {
    Err(LocalApiError::HttpStatus {
        status,
        method: "POST".to_string(),
        path: "/localapi/v0/serve-config".to_string(),
        body: String::new(),
    })
}

#[test]
fn test_commit_succeeds_on_third_attempt() {
    // Two lost races, then success: retry, retry, committed.
    assert_eq!(commit_write_decision(lost_race(412), 1), CommitDecision::Retry);
    assert_eq!(commit_write_decision(lost_race(409), 2), CommitDecision::Retry);
    assert_eq!(commit_write_decision(Ok(()), 3), CommitDecision::Committed);
}

#[test]
fn test_commit_exhausts_after_three_attempts() {
    assert_eq!(commit_write_decision(lost_race(412), 1), CommitDecision::Retry);
    assert_eq!(commit_write_decision(lost_race(412), 2), CommitDecision::Retry);
    match commit_write_decision(lost_race(412), 3) {
        CommitDecision::Fail(FunnelError::ApplyFailed { context }) => {
            assert_eq!(context, "ServeConfig changed concurrently; retry later");
        }
        other => panic!("Expected the fatal error, got {:?}", other),
    }
}

#[test]
fn test_commit_other_error_is_fatal_at_once() {
    match commit_write_decision(lost_race(403), 1) {
        CommitDecision::Fail(FunnelError::Permission { .. }) => {}
        other => panic!("Expected a permission error, got {:?}", other),
    }
}

// ---------------------------------------------------------------- open

#[test]
fn test_parse_ttl_values() {
    assert_eq!(parse_ttl("30m").unwrap(), 1800);
    assert_eq!(parse_ttl("45s").unwrap(), 45);
    assert_eq!(parse_ttl("1h").unwrap(), 3600);
    match parse_ttl("soon") {
        Err(FunnelError::InvalidArgument(msg)) => {
            assert_eq!(msg, "Invalid TTL 'soon'");
        }
        other => panic!("Expected an invalid argument, got {:?}", other),
    }
}

#[test]
fn test_generate_random_path_shape() {
    let path = generate_random_path();
    assert_eq!(path.chars().count(), 19);
    assert!(path.starts_with("/funnelctl/"));
    assert!(path
        .chars()
        .skip(11)
        .all(|c| c.is_ascii_alphanumeric()));
    // Two draws almost surely differ; equal draws would suggest the token is
    // not random at all.
    let other = generate_random_path();
    let third = generate_random_path();
    assert!(path != other || path != third || other != third);
}

#[test]
fn test_loopback_gate() {
    assert!(ensure_loopback_allowed(true, false).is_ok());
    assert!(ensure_loopback_allowed(false, true).is_ok());
    match ensure_loopback_allowed(false, false) {
        Err(FunnelError::InvalidArgument(msg)) => {
            assert_eq!(msg, "Non-loopback bind requires --allow-non-loopback");
        }
        other => panic!("Expected an invalid argument, got {:?}", other),
    }
    match invalid_bind_error("nonsense") {
        FunnelError::InvalidArgument(msg) => {
            assert_eq!(
                msg,
                "Invalid bind address 'nonsense'. Use 127.0.0.1, ::1, or localhost"
            );
        }
        other => panic!("Expected an invalid argument, got {:?}", other),
    }
}

#[test]
fn test_expiry_arithmetic() {
    assert_eq!(expires_epoch(1000, 1800), Some(2800));
    assert_eq!(expires_epoch(i64::MAX - 5, 10), None);
    assert_eq!(duration_seconds_between(1000, 2800), 1800);
    assert_eq!(duration_seconds_between(2800, 1000), 0);
}

#[test]
fn test_open_command_validates_ports() {
    let mut args = open_args();
    args.port = 0;
    let cmd = OpenCommand::new(args);
    assert!(matches!(
        cmd.validate_ports(),
        Err(FunnelError::InvalidArgument(_))
    ));

    let mut args = open_args();
    args.https_port = 8080;
    let cmd = OpenCommand::new(args);
    assert!(cmd.validate_ports().is_err());

    let cmd = OpenCommand::new(open_args());
    assert!(cmd.validate_ports().is_ok());
}

#[test]
fn test_open_prepare_uses_default_path() {
    let cmd = OpenCommand::new(open_args());
    let prepared = cmd
        .prepare_path_and_ttl("/funnelctl/abc12345".to_string())
        .unwrap();
    assert_eq!(prepared.path, "/funnelctl/abc12345");
    assert!(prepared.ttl.is_none());
    assert!(prepared.warnings.is_empty());
}

#[test]
fn test_open_prepare_warns_in_order() {
    let mut args = open_args();
    args.path = Some("/x".to_string());
    args.ttl = Some("1m".to_string());
    let cmd = OpenCommand::new(args);
    let prepared = cmd
        .prepare_path_and_ttl("/unused-default".to_string())
        .unwrap();
    assert_eq!(prepared.path, "/x");
    assert_eq!(prepared.ttl, Some(60));
    assert_eq!(prepared.warnings.len(), 2);
    assert!(matches!(
        prepared.warnings[0],
        ValidationWarning::PathTooShort { .. }
    ));
    assert!(matches!(
        prepared.warnings[1],
        ValidationWarning::TtlTooShort { ttl: 60 }
    ));
}

#[test]
fn test_open_prepare_rejects_short_ttl() {
    let mut args = open_args();
    args.ttl = Some("10s".to_string());
    let cmd = OpenCommand::new(args);
    match cmd.prepare_path_and_ttl("/funnelctl/abc12345".to_string()) {
        Err(FunnelError::InvalidArgument(msg)) => {
            assert_eq!(msg, "TTL must be at least 30 seconds, got 10 seconds");
        }
        other => panic!("Expected an invalid argument, got {:?}", other),
    }
}

// ---------------------------------------------------------------- output

#[test]
fn test_stop_reason_texts() {
    assert_eq!(StopReason::UserInterrupt.text(), "Stopped by user");
    assert_eq!(StopReason::TtlExpired.text(), "TTL expired");
    assert_eq!(StopReason::Error.text(), "Stopped due to error");
}

#[test]
fn test_stopped_line() {
    let out = HumanOutput::new(false);
    assert_eq!(
        out.stopped_line(StopReason::UserInterrupt, Some(1800)),
        "Stopped by user (ran for 1800s)"
    );
    assert_eq!(out.stopped_line(StopReason::TtlExpired, None), "TTL expired");
}

#[test]
fn test_started_lines_plain() {
    let out = HumanOutput::new(false);
    let lines = out.started_lines(
        "https://node.tail.example/hooks/pay",
        "http://127.0.0.1:8081",
        "never (Ctrl-C to stop)",
    );
    assert_eq!(lines.len(), 4);
    assert_eq!(lines[0], "https://node.tail.example/hooks/pay");
    assert_eq!(lines[1], "├─ Local: http://127.0.0.1:8081");
    assert_eq!(lines[2], "├─ Expires: never (Ctrl-C to stop)");
    assert_eq!(lines[3], "└─ Press Ctrl-C to stop");
}

#[test]
fn test_warning_messages() {
    let w = ValidationWarning::PathTooShort {
        path: "/x".to_string(),
        length: 2,
    };
    assert_eq!(
        warning_message(&w),
        "Warning: Short path '/x' is guessable. Consider a longer path or use default random path."
    );
    let w = ValidationWarning::TtlTooShort { ttl: 60 };
    assert_eq!(
        warning_message(&w),
        "Warning: Short TTL (1m). Tunnel expires quickly."
    );
}

// ------------------------------------------------------------ end to end

#[test]
fn test_three_attempt_apply_flow() {
    // The fetch-patch-write cycle as the orchestrator runs it, against an
    // in-memory daemon whose write fails its precondition twice.
    let mut daemon_doc = serve_config_to_json(ServeConfig::new());
    let mut commits = 0;
    let mut attempt: u8 = 0;
    let write_outcomes = [412u16, 412, 200];
    loop {
        attempt += 1;
        let fetched = value_to_config(funnelctl::json::clone_json(&daemon_doc)).unwrap();
        let patched = plan_commit(
            fetched,
            "session1",
            "node.tail.example:443",
            "/hooks/pay",
            "http://127.0.0.1:8081",
            true,
            false,
        )
        .unwrap();
        let body = serve_config_to_json(patched);
        let outcome = if write_outcomes[(attempt - 1) as usize] == 200 {
            daemon_doc = body;
            commits += 1;
            Ok(())
        } else {
            Err(LocalApiError::HttpStatus {
                status: write_outcomes[(attempt - 1) as usize],
                method: "POST".to_string(),
                path: "/localapi/v0/serve-config".to_string(),
                body: String::new(),
            })
        };
        match commit_write_decision(outcome, attempt) {
            CommitDecision::Committed => break,
            CommitDecision::Retry => continue,
            CommitDecision::Fail(e) => panic!("unexpected failure: {:?}", e),
        }
    }
    assert_eq!(attempt, 3);
    assert_eq!(commits, 1);
    let final_config = parse_serve_config(daemon_doc).unwrap();
    assert!(final_config.foreground.is_some());
}

#[test]
fn test_plan_commit_tolerates_null_known_fields() {
    // A daemon document carrying nulls for recognized keys still applies.
    let document = funnelctl::json::JsonValue::Obj(vec![
        ("Tcp".to_string(), funnelctl::json::JsonValue::Null),
        ("Web".to_string(), funnelctl::json::JsonValue::Null),
    ]);
    let config = value_to_config(document).unwrap();
    let out = plan_commit(
        config,
        "session1",
        "node.tail.example:443",
        "/hooks/pay",
        "http://127.0.0.1:8081",
        true,
        false,
    )
    .unwrap();
    assert!(out.foreground.is_some());
}
