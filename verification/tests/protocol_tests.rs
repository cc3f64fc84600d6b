use funnelctl::backend::{
    interpret_permissions, CloseCommand, MockBackend, StatusCommand, UnreachableBackend,
};
use funnelctl::client::{
    body_text_or_placeholder, ensure_status_ok, get_serve_config_request, get_status_request,
    parse_session_id, set_serve_config_request, watch_ipn_bus_request,
};
use funnelctl::doctor::{
    check_dns_name, check_funnel_capability, check_https_enabled, check_localapi_auth,
    check_permissions, check_tailscaled_reachable, check_version, select_exit_code, DoctorCommand,
};
use funnelctl::error::{map_transport_error, FunnelError, LocalApiError};
use funnelctl::json::JsonValue;
use funnelctl::status::{status_from_json, BackendStatus};
use funnelctl::transport::{
    build_basic_auth, clean_password, credential_refresh_needed, plan_transport,
    resolve_tcp_exchange, socket_candidates, validate_password_permissions, TransportPlan,
    TransportRequest,
};
use funnelctl::version::{ensure_version_supported, parse_version, version_supported};

fn obj(entries: Vec<(&str, JsonValue)>) -> JsonValue {
    JsonValue::Obj(
        entries
            .into_iter()
            .map(|(k, v)| (k.to_string(), v))
            .collect(),
    )
}

fn s(text: &str) -> JsonValue {
    JsonValue::Str(text.to_string())
}

// ---------------------------------------------------------------- errors

#[test]
fn test_exit_codes() {
    let ctx = || "x".to_string();
    assert_eq!(FunnelError::Unreachable { context: ctx() }.exit_code(), 10);
    assert_eq!(FunnelError::Permission { context: ctx() }.exit_code(), 11);
    assert_eq!(FunnelError::Prerequisites { context: ctx() }.exit_code(), 12);
    assert_eq!(FunnelError::Conflict { context: ctx() }.exit_code(), 13);
    assert_eq!(FunnelError::ApplyFailed { context: ctx() }.exit_code(), 14);
    assert_eq!(
        FunnelError::TargetPortInaccessible { context: ctx() }.exit_code(),
        15
    );
    assert_eq!(FunnelError::VersionTooOld { context: ctx() }.exit_code(), 16);
    assert_eq!(FunnelError::InvalidArgument(ctx()).exit_code(), 2);
    assert_eq!(FunnelError::Other(ctx()).exit_code(), 1);
}

#[test]
fn test_format_detailed_plain() {
    let err = FunnelError::Unreachable {
        context: "no daemon".to_string(),
    };
    let text = err.format_detailed(false);
    assert_eq!(
        text,
        "Error: LocalAPI unreachable\nCause: no daemon\nFix: Is tailscaled running? Try: sudo systemctl start tailscaled"
    );
}

#[test]
fn test_format_detailed_colored_labels() {
    let err = FunnelError::Conflict {
        context: "route taken".to_string(),
    };
    let text = err.format_detailed(true);
    assert!(text.contains("\x1b[1;31mError:\x1b[0m"));
    assert!(text.contains("\x1b[1;33mCause:\x1b[0m"));
    assert!(text.contains("\x1b[1;32mFix:\x1b[0m"));
}

#[test]
fn test_get_fix_for_invalid_argument_is_none() {
    let err = FunnelError::InvalidArgument("bad".to_string());
    assert!(err.get_fix().is_none());
    let (cause, fix) = err.get_cause_and_fix();
    assert_eq!(cause, Some("bad".to_string()));
    assert!(fix.is_none());
}

#[test]
fn test_map_transport_error_statuses() {
    let unauthorized = LocalApiError::HttpStatus {
        status: 401,
        method: "GET".to_string(),
        path: "/localapi/v0/status".to_string(),
        body: "<empty>".to_string(),
    };
    match map_transport_error(unauthorized) {
        FunnelError::Permission { context } => {
            assert_eq!(context, "LocalAPI auth rejected for GET /localapi/v0/status");
        }
        other => panic!("Expected a permission error, got {:?}", other),
    }

    let missing = LocalApiError::HttpStatus {
        status: 404,
        method: "GET".to_string(),
        path: "/localapi/v0/serve-config".to_string(),
        body: "<empty>".to_string(),
    };
    match map_transport_error(missing) {
        FunnelError::VersionTooOld { context } => {
            assert_eq!(
                context,
                "LocalAPI endpoint GET /localapi/v0/serve-config not found"
            );
        }
        other => panic!("Expected a too-old error, got {:?}", other),
    }

    let boom = LocalApiError::HttpStatus {
        status: 500,
        method: "POST".to_string(),
        path: "/localapi/v0/serve-config".to_string(),
        body: "boom".to_string(),
    };
    match map_transport_error(boom) {
        FunnelError::ApplyFailed { context } => {
            assert_eq!(
                context,
                "LocalAPI POST /localapi/v0/serve-config failed: boom"
            );
        }
        other => panic!("Expected a failed apply, got {:?}", other),
    }
}

#[test]
fn test_map_transport_error_password_modes() {
    let err = LocalApiError::PasswordPermissions {
        path: "/tmp/pw".to_string(),
        mode: 0o644,
    };
    match map_transport_error(err) {
        FunnelError::InvalidArgument(msg) => {
            assert_eq!(msg, "LocalAPI password file /tmp/pw must be 0600 (got 644)");
        }
        other => panic!("Expected an invalid argument, got {:?}", other),
    }

    let err = LocalApiError::EmptyPasswordFile {
        path: "/tmp/pw".to_string(),
    };
    match map_transport_error(err) {
        FunnelError::InvalidArgument(msg) => {
            assert_eq!(msg, "LocalAPI password file /tmp/pw is empty");
        }
        other => panic!("Expected an invalid argument, got {:?}", other),
    }
}

#[test]
fn test_map_transport_error_wrapped_failures() {
    let cases: Vec<(LocalApiError, &str)> = vec![
        (
            LocalApiError::InvalidUri("bad".to_string()),
            "Invalid LocalAPI URI",
        ),
        (
            LocalApiError::Http("broken".to_string()),
            "LocalAPI request failed",
        ),
        (
            LocalApiError::Hyper("cut".to_string()),
            "LocalAPI response error",
        ),
        (
            LocalApiError::Json("brace".to_string()),
            "Failed to parse LocalAPI JSON",
        ),
    ];
    for (err, expected) in cases {
        match map_transport_error(err) {
            FunnelError::ApplyFailed { context } => assert_eq!(context, expected),
            other => panic!("Expected a failed apply, got {:?}", other),
        }
    }

    let unreadable = LocalApiError::PasswordRead {
        path: "/tmp/pw".to_string(),
        source: "denied".to_string(),
    };
    match map_transport_error(unreadable) {
        FunnelError::InvalidArgument(msg) => {
            assert_eq!(msg, "LocalAPI password file /tmp/pw could not be read: denied");
        }
        other => panic!("Expected an invalid argument, got {:?}", other),
    }

    let header = LocalApiError::InvalidHeaderValue {
        name: "etag".to_string(),
    };
    match map_transport_error(header) {
        FunnelError::ApplyFailed { context } => {
            assert_eq!(context, "Invalid header value for etag");
        }
        other => panic!("Expected a failed apply, got {:?}", other),
    }
}

#[test]
fn test_map_transport_error_missing_session() {
    match map_transport_error(LocalApiError::MissingSessionId) {
        FunnelError::ApplyFailed { context } => {
            assert_eq!(context, "watch-ipn-bus did not provide a session id");
        }
        other => panic!("Expected a failed apply, got {:?}", other),
    }
    match map_transport_error(LocalApiError::Io("refused".to_string())) {
        FunnelError::Unreachable { context } => {
            assert_eq!(context, "LocalAPI unreachable");
        }
        other => panic!("Expected unreachable, got {:?}", other),
    }
}

// ---------------------------------------------------------------- version

#[test]
fn test_parse_version_forms() {
    assert_eq!(parse_version("1.50.0"), Some((1, 50, 0)));
    assert_eq!(parse_version("1.50"), Some((1, 50, 0)));
    assert_eq!(parse_version("1.50.1-dev"), Some((1, 50, 1)));
    assert_eq!(parse_version("2.0.3"), Some((2, 0, 3)));
    assert_eq!(parse_version("1"), None);
    assert_eq!(parse_version("abc"), None);
    assert_eq!(parse_version("1..2"), None);
    assert_eq!(parse_version(""), None);
}

#[test]
fn test_version_supported_lenient() {
    assert!(version_supported("1.50.0"));
    assert!(version_supported("1.51"));
    assert!(version_supported("2.0.0"));
    assert!(!version_supported("1.49.9"));
    assert!(!version_supported("abc"));
    assert!(!version_supported("0.99"));
}

#[test]
fn test_ensure_version_supported_errors() {
    assert!(ensure_version_supported(Some("1.50.0")).is_ok());
    assert!(ensure_version_supported(Some("1.62.1")).is_ok());

    match ensure_version_supported(None) {
        Err(FunnelError::VersionTooOld { context }) => {
            assert_eq!(context, "tailscaled version missing");
        }
        other => panic!("Expected a too-old error, got {:?}", other),
    }
    match ensure_version_supported(Some("weird")) {
        Err(FunnelError::VersionTooOld { context }) => {
            assert_eq!(context, "Unsupported tailscaled version weird");
        }
        other => panic!("Expected a too-old error, got {:?}", other),
    }
    match ensure_version_supported(Some("1.49.0")) {
        Err(FunnelError::VersionTooOld { context }) => {
            assert_eq!(context, "tailscaled version 1.49.0 is not supported");
        }
        other => panic!("Expected a too-old error, got {:?}", other),
    }
}

// ---------------------------------------------------------------- status

#[test]
fn test_status_from_json_direct_dns() {
    let doc = obj(vec![
        ("Version", s("1.60.0")),
        (
            "Self",
            obj(vec![
                ("DNSName", s("node.tail.example.")),
                ("CertDomains", JsonValue::Arr(vec![s("node.tail.example")])),
            ]),
        ),
        ("Funnel", obj(vec![("Enabled", JsonValue::Bool(true))])),
    ]);
    let status = status_from_json(&doc);
    assert_eq!(status.version, Some("1.60.0".to_string()));
    assert_eq!(status.dns_name, Some("node.tail.example".to_string()));
    assert_eq!(status.https_enabled, Some(true));
    assert_eq!(status.funnel_enabled, Some(true));
    assert_eq!(status.permissions_ok, None);
}

#[test]
fn test_status_dns_fallback_host_and_suffix() {
    let doc = obj(vec![
        ("Self", obj(vec![("HostName", s("node"))])),
        (
            "CurrentTailnet",
            obj(vec![("MagicDNSSuffix", s("tail.example"))]),
        ),
    ]);
    let status = status_from_json(&doc);
    assert_eq!(status.dns_name, Some("node.tail.example".to_string()));
}

#[test]
fn test_status_funnel_capability_list() {
    let doc = obj(vec![(
        "Self",
        obj(vec![(
            "Capabilities",
            JsonValue::Arr(vec![s("https"), s("FUNNEL")]),
        )]),
    )]);
    let status = status_from_json(&doc);
    assert_eq!(status.funnel_enabled, Some(true));

    let doc2 = obj(vec![(
        "Self",
        obj(vec![("Capabilities", JsonValue::Arr(vec![s("https")]))]),
    )]);
    let status2 = status_from_json(&doc2);
    assert_eq!(status2.funnel_enabled, Some(false));
}

#[test]
fn test_status_https_empty_cert_domains() {
    let doc = obj(vec![(
        "Self",
        obj(vec![("CertDomains", JsonValue::Arr(vec![]))]),
    )]);
    let status = status_from_json(&doc);
    assert_eq!(status.https_enabled, Some(false));
    assert_eq!(status.dns_name, None);
}

// ---------------------------------------------------------------- doctor

fn healthy_status() -> BackendStatus {
    BackendStatus {
        dns_name: Some("node.tail.example".to_string()),
        version: Some("1.60.0".to_string()),
        https_enabled: Some(true),
        funnel_enabled: Some(true),
        permissions_ok: Some(true),
    }
}

#[test]
fn test_doctor_checks_all_pass() {
    let status = healthy_status();
    assert!(check_version(&status).passed);
    assert!(check_permissions(&status).passed);
    assert!(check_https_enabled(&status).passed);
    assert!(check_funnel_capability(&status).passed);
    assert!(check_dns_name(&status).passed);
    assert_eq!(
        check_version(&status).message,
        "Version 1.60.0 (>= 1.50.0)"
    );
    assert_eq!(check_dns_name(&status).message, "Node name: node.tail.example");

    let result: Result<BackendStatus, FunnelError> = Ok(status);
    assert!(check_tailscaled_reachable(&result).passed);
    assert!(check_localapi_auth(&result).passed);
    let checks = DoctorCommand::evaluate(&result, true);
    assert_eq!(checks.len(), 7);
    assert_eq!(select_exit_code(&checks), 0);
}

#[test]
fn test_doctor_version_too_old() {
    let mut status = healthy_status();
    status.version = Some("1.44.0".to_string());
    let check = check_version(&status);
    assert!(!check.passed);
    assert_eq!(check.message, "tailscaled too old (got 1.44.0, need 1.50.0+)");
    assert_eq!(check.error_code, Some(16));

    let result: Result<BackendStatus, FunnelError> = Ok(status);
    let checks = DoctorCommand::evaluate(&result, false);
    assert_eq!(select_exit_code(&checks), 16);
}

#[test]
fn test_doctor_permission_denied() {
    let result: Result<BackendStatus, FunnelError> = Err(FunnelError::Permission {
        context: "auth rejected".to_string(),
    });
    // Reachable: a permission refusal still proves the daemon answered.
    assert!(check_tailscaled_reachable(&result).passed);
    assert!(!check_localapi_auth(&result).passed);
    let checks = DoctorCommand::evaluate(&result, true);
    assert_eq!(checks.len(), 7);
    assert_eq!(select_exit_code(&checks), 11);
}

#[test]
fn test_doctor_unreachable() {
    let result: Result<BackendStatus, FunnelError> = Err(FunnelError::Unreachable {
        context: "no socket".to_string(),
    });
    assert!(!check_tailscaled_reachable(&result).passed);
    let checks = DoctorCommand::evaluate(&result, false);
    assert_eq!(checks.len(), 6);
    assert_eq!(select_exit_code(&checks), 10);
}

// ---------------------------------------------------------------- transport

#[test]
fn test_build_basic_auth_encodes_secret() {
    // ":secret" in the standard base64 alphabet.
    assert_eq!(build_basic_auth("secret"), "Basic OnNlY3JldA==");
    assert_eq!(build_basic_auth(""), "Basic Og==");
}

#[test]
fn test_clean_password_trims_newlines() {
    assert_eq!(
        clean_password("hunter2\n", "/tmp/pw").unwrap(),
        "hunter2".to_string()
    );
    assert_eq!(
        clean_password("hunter2\r\n", "/tmp/pw").unwrap(),
        "hunter2".to_string()
    );
    assert_eq!(
        clean_password("hunter2", "/tmp/pw").unwrap(),
        "hunter2".to_string()
    );
    match clean_password("\n\n", "/tmp/pw") {
        Err(LocalApiError::EmptyPasswordFile { path }) => assert_eq!(path, "/tmp/pw"),
        other => panic!("Expected an empty-file error, got {:?}", other),
    }
}

#[test]
fn test_validate_password_permissions_mode() {
    assert!(validate_password_permissions(0o600, "/tmp/pw").is_ok());
    match validate_password_permissions(0o644, "/tmp/pw") {
        Err(LocalApiError::PasswordPermissions { path, mode }) => {
            assert_eq!(path, "/tmp/pw");
            assert_eq!(mode, 0o644);
        }
        other => panic!("Expected a permissions error, got {:?}", other),
    }
}

#[test]
fn test_credential_refresh_rule() {
    assert!(credential_refresh_needed(401, false));
    assert!(!credential_refresh_needed(401, true));
    assert!(!credential_refresh_needed(200, false));
    assert!(!credential_refresh_needed(500, false));
}

#[test]
fn test_tcp_exchange_unauthorized_once() {
    // Unauthorized exactly once, then success: the caller sees the success
    // and the credential file was re-read exactly once.
    let outcome = resolve_tcp_exchange(&vec![401, 200]).unwrap();
    assert_eq!(outcome, (200, 1));
}

#[test]
fn test_tcp_exchange_second_unauthorized_terminal() {
    let outcome = resolve_tcp_exchange(&vec![401, 401]).unwrap();
    assert_eq!(outcome, (401, 1));
}

#[test]
fn test_tcp_exchange_no_refresh_on_success() {
    let outcome = resolve_tcp_exchange(&vec![200]).unwrap();
    assert_eq!(outcome, (200, 0));
    let outcome = resolve_tcp_exchange(&vec![500, 200]).unwrap();
    assert_eq!(outcome, (500, 0));
}

#[test]
fn test_plan_transport_precedence() {
    match plan_transport(Some(8088), Some("/tmp/pw".to_string()), None).unwrap() {
        TransportPlan::TcpAuth {
            host,
            port,
            password_file,
        } => {
            assert_eq!(host, "127.0.0.1");
            assert_eq!(port, 8088);
            assert_eq!(password_file, "/tmp/pw");
        }
        other => panic!("Expected a TCP plan, got {:?}", other),
    }

    match plan_transport(Some(8088), None, None) {
        Err(FunnelError::InvalidArgument(msg)) => {
            assert_eq!(
                msg,
                "--localapi-password-file is required when using --localapi-port"
            );
        }
        other => panic!("Expected an invalid argument, got {:?}", other),
    }

    match plan_transport(None, None, Some("/run/x.sock".to_string())).unwrap() {
        TransportPlan::UnixSocket { socket } => assert_eq!(socket, "/run/x.sock"),
        other => panic!("Expected a socket plan, got {:?}", other),
    }

    assert_eq!(
        plan_transport(None, None, None).unwrap(),
        TransportPlan::ProbeWellKnown
    );
    assert_eq!(socket_candidates().len(), 2);
}

#[test]
fn test_transport_request_roots_path() {
    let request = TransportRequest::new("GET".to_string(), "localapi/v0/status".to_string());
    assert_eq!(request.path, "/localapi/v0/status");
    let request = TransportRequest::new("GET".to_string(), "/already".to_string());
    assert_eq!(request.path, "/already");
}

// ---------------------------------------------------------------- client

#[test]
fn test_request_descriptors() {
    let status = get_status_request();
    assert_eq!(status.method, "GET");
    assert_eq!(status.path, "/localapi/v0/status");
    assert!(status.headers.is_empty());
    assert!(status.body.is_none());

    let read = get_serve_config_request();
    assert_eq!(read.path, "/localapi/v0/serve-config");

    let watch = watch_ipn_bus_request();
    assert_eq!(watch.path, "/localapi/v0/watch-ipn-bus?mask=2");

    let write = set_serve_config_request(b"{}".to_vec(), Some("\"v1\"".to_string()));
    assert_eq!(write.method, "POST");
    assert_eq!(write.path, "/localapi/v0/serve-config");
    assert_eq!(write.body, Some(b"{}".to_vec()));
    assert_eq!(
        write.headers,
        vec![
            ("content-type".to_string(), "application/json".to_string()),
            ("if-match".to_string(), "\"v1\"".to_string()),
        ]
    );

    let write_untagged = set_serve_config_request(b"{}".to_vec(), None);
    assert_eq!(write_untagged.headers.len(), 1);
}

#[test]
fn test_ensure_status_ok_gate() {
    assert!(ensure_status_ok(200, "GET".to_string(), "/p".to_string(), "b".to_string()).is_ok());
    match ensure_status_ok(412, "POST".to_string(), "/p".to_string(), "old".to_string()) {
        Err(LocalApiError::HttpStatus {
            status,
            method,
            path,
            body,
        }) => {
            assert_eq!(status, 412);
            assert_eq!(method, "POST");
            assert_eq!(path, "/p");
            assert_eq!(body, "old");
        }
        other => panic!("Expected a status error, got {:?}", other),
    }
}

#[test]
fn test_body_placeholder() {
    assert_eq!(body_text_or_placeholder(String::new()), "<empty>");
    assert_eq!(body_text_or_placeholder("x".to_string()), "x");
}

#[test]
fn test_parse_session_id_spellings() {
    let line = obj(vec![("SessionID", s("abc"))]);
    assert_eq!(parse_session_id(&line), Some("abc".to_string()));

    let line = obj(vec![("session_id", s("low"))]);
    assert_eq!(parse_session_id(&line), Some("low".to_string()));

    let line = obj(vec![("sessionId", s("camel"))]);
    assert_eq!(parse_session_id(&line), Some("camel".to_string()));

    // The first spelling that holds a string wins; an empty one yields none.
    let line = obj(vec![("SessionID", s("")), ("session_id", s("low"))]);
    assert_eq!(parse_session_id(&line), None);

    let line = obj(vec![("Other", s("x"))]);
    assert_eq!(parse_session_id(&line), None);
}

// ---------------------------------------------------------------- backends

#[test]
fn test_mock_backend_status() {
    let backend = MockBackend;
    let status = backend.status().unwrap();
    assert_eq!(status.dns_name, Some("mock-node".to_string()));
    assert_eq!(status.version, Some("1.50.0".to_string()));
    assert_eq!(status.https_enabled, Some(true));
    assert_eq!(status.funnel_enabled, Some(true));
    assert_eq!(status.permissions_ok, Some(true));
    assert!(backend.remove("x").is_err());
}

#[test]
fn test_unreachable_backend() {
    let backend = UnreachableBackend::new("no socket".to_string());
    match backend.status() {
        Err(FunnelError::Unreachable { context }) => assert_eq!(context, "no socket"),
        other => panic!("Expected unreachable, got {:?}", other),
    }
    assert!(backend.remove("x").is_err());
}

#[test]
fn test_placeholder_commands() {
    assert!(CloseCommand::run().is_err());
    assert!(StatusCommand::run().is_err());
}

#[test]
fn test_interpret_permissions() {
    assert_eq!(interpret_permissions(&Ok(())), Some(true));
    let forbidden = LocalApiError::HttpStatus {
        status: 403,
        method: "GET".to_string(),
        path: "/p".to_string(),
        body: String::new(),
    };
    assert_eq!(interpret_permissions(&Err(forbidden)), Some(false));
    let teapot = LocalApiError::HttpStatus {
        status: 500,
        method: "GET".to_string(),
        path: "/p".to_string(),
        body: String::new(),
    };
    assert_eq!(interpret_permissions(&Err(teapot)), None);
    assert_eq!(
        interpret_permissions(&Err(LocalApiError::Io("x".to_string()))),
        None
    );
}
