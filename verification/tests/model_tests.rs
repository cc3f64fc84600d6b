use funnelctl::codec::{parse_serve_config, serve_config_to_json};
use funnelctl::json::{clone_json, JsonValue};
use funnelctl::types::{HttpHandler, PathMapping, ServeConfig, WebServerConfig};

fn get_entry<'a, V>(es: &'a [(String, V)], k: &str) -> Option<&'a V> {
    es.iter().find(|e| e.0 == k).map(|e| &e.1)
}

fn has_key<V>(es: &[(String, V)], k: &str) -> bool {
    es.iter().any(|e| e.0 == k)
}

fn obj(entries: Vec<(&str, JsonValue)>) -> JsonValue {
    JsonValue::Obj(
        entries
            .into_iter()
            .map(|(k, v)| (k.to_string(), v))
            .collect(),
    )
}

fn s(text: &str) -> JsonValue {
    JsonValue::Str(text.to_string())
}

#[test]
fn test_path_mapping_prefix_detection() {
    let prefix = PathMapping::new("/api/".to_string(), "target".to_string(), false);
    assert!(prefix.is_prefix_of("/api/v1"));
    assert!(prefix.is_prefix_of("/api/v2/users"));
    assert!(!prefix.is_prefix_of("/other"));

    let non_prefix = PathMapping::new("/api".to_string(), "target".to_string(), false);
    assert!(!non_prefix.is_prefix_of("/api/v1"));
}

#[test]
fn test_path_mapping_has_prefix() {
    let path = PathMapping::new("/api/v1".to_string(), "target".to_string(), false);
    assert!(path.has_prefix("/api/"));
    assert!(path.has_prefix("/"));
    assert!(!path.has_prefix("/other/"));

    let path2 = PathMapping::new("/api/v1/users".to_string(), "target".to_string(), false);
    assert!(path2.has_prefix("/api/"));
    assert!(path2.has_prefix("/api/v1/"));
}

#[test]
fn test_get_handlers() {
    let mut config = ServeConfig::new();
    let mut web_config = WebServerConfig::new();
    let handlers = vec![(
        "/".to_string(),
        HttpHandler::new_proxy("http://127.0.0.1:8080".to_string()),
    )];
    web_config.handlers = Some(handlers);
    config.web = Some(vec![("example.com:443".to_string(), web_config)]);

    let result = config.get_handlers("example.com:443");
    assert!(result.is_some());
    assert_eq!(result.unwrap().len(), 1);

    let no_result = config.get_handlers("other.com:443");
    assert!(no_result.is_none());
}

#[test]
fn test_is_funnel_enabled() {
    let mut config = ServeConfig::new();
    config.allow_funnel = Some(vec![
        ("example.com:443".to_string(), true),
        ("other.com:443".to_string(), false),
    ]);

    assert!(config.is_funnel_enabled("example.com:443"));
    assert!(!config.is_funnel_enabled("other.com:443"));
    assert!(!config.is_funnel_enabled("unknown.com:443"));
}

#[test]
fn test_serve_config_serialization() {
    let config = ServeConfig::new();
    let json = serve_config_to_json(config);
    let deserialized = parse_serve_config(json).unwrap();
    assert_eq!(deserialized, ServeConfig::new());
}

#[test]
fn test_serve_config_preserves_unknown_fields() {
    let document = obj(vec![
        (
            "Web",
            obj(vec![(
                "example.com:443",
                obj(vec![(
                    "Handlers",
                    obj(vec![("/", obj(vec![("Proxy", s("http://127.0.0.1:8080"))]))]),
                )]),
            )]),
        ),
        ("UnknownField", s("should be preserved")),
        ("AnotherUnknown", JsonValue::Num("42".to_string())),
    ]);

    let config = parse_serve_config(document).unwrap();
    assert!(has_key(&config.unknown_fields, "UnknownField"));
    assert!(has_key(&config.unknown_fields, "AnotherUnknown"));

    let serialized = serve_config_to_json(config);
    match &serialized {
        JsonValue::Obj(es) => {
            assert!(has_key(es, "UnknownField"));
            assert!(has_key(es, "AnotherUnknown"));
            assert_eq!(
                get_entry(es, "UnknownField"),
                Some(&s("should be preserved"))
            );
            assert_eq!(
                get_entry(es, "AnotherUnknown"),
                Some(&JsonValue::Num("42".to_string()))
            );
        }
        _ => panic!("Expected a JSON object"),
    }
}

#[test]
fn test_web_server_config_preserves_unknown_fields() {
    // Unrecognized fields of a per-host entry survive the round trip.
    let document = obj(vec![(
        "Web",
        obj(vec![(
            "example.com:443",
            obj(vec![
                (
                    "Handlers",
                    obj(vec![("/", obj(vec![("Proxy", s("http://127.0.0.1:8080"))]))]),
                ),
                ("CustomField", s("preserved")),
            ]),
        )]),
    )]);

    let config = parse_serve_config(document).unwrap();
    let web = config.web.as_ref().unwrap();
    let host = get_entry(web, "example.com:443").unwrap();
    assert!(has_key(&host.unknown_fields, "CustomField"));

    let serialized = serve_config_to_json(config);
    let reparsed = parse_serve_config(serialized).unwrap();
    let web = reparsed.web.as_ref().unwrap();
    let host = get_entry(web, "example.com:443").unwrap();
    assert_eq!(
        get_entry(&host.unknown_fields, "CustomField"),
        Some(&s("preserved"))
    );
}

#[test]
fn test_http_handler_preserves_unknown_fields() {
    // Unrecognized fields of a handler survive the round trip.
    let document = obj(vec![(
        "Web",
        obj(vec![(
            "example.com:443",
            obj(vec![(
                "Handlers",
                obj(vec![(
                    "/",
                    obj(vec![
                        ("Proxy", s("http://127.0.0.1:8080")),
                        ("ExtraField", s("data")),
                    ]),
                )]),
            )]),
        )]),
    )]);

    let config = parse_serve_config(document).unwrap();
    let handlers = config.get_handlers("example.com:443").unwrap();
    let handler = get_entry(handlers, "/").unwrap();
    assert_eq!(handler.proxy, Some("http://127.0.0.1:8080".to_string()));
    assert!(has_key(&handler.unknown_fields, "ExtraField"));

    let serialized = serve_config_to_json(config);
    let reparsed = parse_serve_config(serialized).unwrap();
    let handlers = reparsed.get_handlers("example.com:443").unwrap();
    let handler = get_entry(handlers, "/").unwrap();
    assert_eq!(get_entry(&handler.unknown_fields, "ExtraField"), Some(&s("data")));
}

#[test]
fn test_parse_rejects_ill_typed_known_field() {
    // A recognized key with the wrong shape fails the parse.
    let document = obj(vec![("Web", s("not an object"))]);
    assert!(parse_serve_config(document).is_none());

    let document = obj(vec![(
        "AllowFunnel",
        obj(vec![("example.com:443", s("yes"))]),
    )]);
    assert!(parse_serve_config(document).is_none());

    let document = obj(vec![("Foreground", JsonValue::Bool(true))]);
    assert!(parse_serve_config(document).is_none());
}

#[test]
fn test_parse_rejects_duplicate_known_field() {
    let document = obj(vec![
        ("Web", obj(vec![])),
        ("Web", obj(vec![])),
    ]);
    assert!(parse_serve_config(document).is_none());
}

#[test]
fn test_parse_tcp_keys_are_ports() {
    let document = obj(vec![(
        "Tcp",
        obj(vec![("443", obj(vec![("HTTPS", JsonValue::Bool(true))]))]),
    )]);
    let config = parse_serve_config(document).unwrap();
    let tcp = config.tcp.as_ref().unwrap();
    assert_eq!(tcp.len(), 1);
    assert_eq!(tcp[0].0, 443);

    let bad = obj(vec![("Tcp", obj(vec![("not-a-port", JsonValue::Null)]))]);
    assert!(parse_serve_config(bad).is_none());
}

#[test]
fn test_roundtrip_preserves_field_order_of_unknowns() {
    let document = obj(vec![
        ("Zeta", s("z")),
        ("Web", obj(vec![])),
        ("Alpha", s("a")),
    ]);
    let config = parse_serve_config(document).unwrap();
    assert_eq!(config.unknown_fields.len(), 2);
    assert_eq!(config.unknown_fields[0].0, "Zeta");
    assert_eq!(config.unknown_fields[1].0, "Alpha");

    let serialized = serve_config_to_json(config);
    match &serialized {
        JsonValue::Obj(es) => {
            let keys: Vec<&str> = es.iter().map(|e| e.0.as_str()).collect();
            let zeta = keys.iter().position(|k| *k == "Zeta").unwrap();
            let alpha = keys.iter().position(|k| *k == "Alpha").unwrap();
            assert!(zeta < alpha);
        }
        _ => panic!("Expected a JSON object"),
    }
}

#[test]
fn test_clone_json_matches_original() {
    let document = obj(vec![
        ("A", JsonValue::Arr(vec![JsonValue::Null, s("x")])),
        ("B", JsonValue::Num("3.5".to_string())),
        ("C", JsonValue::Bool(false)),
    ]);
    let copy = clone_json(&document);
    assert_eq!(copy, document);
}

#[test]
fn test_number_text_is_kept_verbatim() {
    // Numbers are carried as their literal text, so an exotic spelling
    // survives the round trip unchanged.
    let document = obj(vec![("Price", JsonValue::Num("1.2500e2".to_string()))]);
    let config = parse_serve_config(document).unwrap();
    let serialized = serve_config_to_json(config);
    match &serialized {
        JsonValue::Obj(es) => {
            assert_eq!(
                get_entry(es, "Price"),
                Some(&JsonValue::Num("1.2500e2".to_string()))
            );
        }
        _ => panic!("Expected a JSON object"),
    }
}

#[test]
fn test_duplicate_unknown_keys_survive_in_order() {
    let document = obj(vec![
        ("Extra", s("first")),
        ("Extra", s("second")),
    ]);
    let config = parse_serve_config(document).unwrap();
    assert_eq!(config.unknown_fields.len(), 2);
    assert_eq!(config.unknown_fields[0].1, s("first"));
    assert_eq!(config.unknown_fields[1].1, s("second"));

    let serialized = serve_config_to_json(config);
    match &serialized {
        JsonValue::Obj(es) => {
            let values: Vec<&JsonValue> = es
                .iter()
                .filter(|e| e.0 == "Extra")
                .map(|e| &e.1)
                .collect();
            assert_eq!(values, vec![&s("first"), &s("second")]);
        }
        _ => panic!("Expected a JSON object"),
    }
}

#[test]
fn test_null_known_field_reads_as_absent() {
    // The daemon's own clients read a null field as absent and drop it when
    // re-emitting; the parser does the same for every recognized key.
    let document = obj(vec![
        ("Tcp", JsonValue::Null),
        ("Web", JsonValue::Null),
        ("AllowFunnel", JsonValue::Null),
        ("Foreground", JsonValue::Null),
        ("Kept", s("stays")),
    ]);
    let config = parse_serve_config(document).unwrap();
    assert!(config.tcp.is_none());
    assert!(config.web.is_none());
    assert!(config.allow_funnel.is_none());
    assert!(config.foreground.is_none());
    assert_eq!(config.unknown_fields.len(), 1);

    let serialized = serve_config_to_json(config);
    match &serialized {
        JsonValue::Obj(es) => {
            assert_eq!(es.len(), 1);
            assert_eq!(get_entry(es, "Kept"), Some(&s("stays")));
        }
        _ => panic!("Expected a JSON object"),
    }
}

#[test]
fn test_null_handler_field_reads_as_absent() {
    let document = obj(vec![(
        "Web",
        obj(vec![(
            "example.com:443",
            obj(vec![
                (
                    "Handlers",
                    obj(vec![(
                        "/",
                        obj(vec![
                            ("Proxy", s("http://127.0.0.1:8080")),
                            ("Path", JsonValue::Null),
                            ("Text", JsonValue::Null),
                        ]),
                    )]),
                ),
            ]),
        )]),
    )]);
    let config = parse_serve_config(document).unwrap();
    let handlers = config.get_handlers("example.com:443").unwrap();
    let handler = get_entry(handlers, "/").unwrap();
    assert_eq!(handler.proxy, Some("http://127.0.0.1:8080".to_string()));
    assert!(handler.path.is_none());
    assert!(handler.text.is_none());
    assert!(handler.unknown_fields.is_empty());
}

#[test]
fn test_null_after_set_field_is_still_duplicate() {
    // A second occurrence of an already-set recognized field is an error,
    // null or not.
    let document = obj(vec![
        ("Web", obj(vec![])),
        ("Web", JsonValue::Null),
    ]);
    assert!(parse_serve_config(document).is_none());
}
