use wasm_http_filter::config::{
    assemble, configure, decode, ConfigError, ConfigField, FilterConfig, Lookup,
};

fn fields(config: &FilterConfig) -> (String, String, u64) {
    (
        config.header_name().to_string(),
        config.header_value().to_string(),
        config.upstream_timeout_ms(),
    )
}

#[test]
fn configure_without_bytes_gives_the_defaults() {
    let config = configure(None).unwrap();
    assert_eq!(config.header_name(), "x-wasm-filter");
    assert_eq!(config.header_value(), "envoy-rust");
    assert_eq!(config.upstream_timeout_ms(), 5000);
    assert_eq!(config, FilterConfig::default());
}

#[test]
fn configure_decodes_the_three_members() {
    let raw = br#"{"header_name":"x-trace","header_value":"on","upstream_timeout_ms":250}"#;
    let config = configure(Some(&raw[..])).unwrap();
    assert_eq!(fields(&config), ("x-trace".to_string(), "on".to_string(), 250));
}

#[test]
fn configure_accepts_any_order_and_white_space() {
    let raw = b" {\n \"upstream_timeout_ms\" : 0,\n \"header_value\" : \"\",\n \"header_name\" : \"n\" }\n";
    let config = configure(Some(&raw[..])).unwrap();
    assert_eq!(fields(&config), ("n".to_string(), String::new(), 0));
}

#[test]
fn configure_ignores_unknown_members() {
    let raw = br#"{"extra":[1,{"a":null}],"header_name":"a","header_value":"b","upstream_timeout_ms":7,"more":true}"#;
    let config = configure(Some(&raw[..])).unwrap();
    assert_eq!(config, FilterConfig::new("a".to_string(), "b".to_string(), 7));
}

#[test]
fn configure_takes_the_largest_timeout() {
    let raw = br#"{"header_name":"a","header_value":"b","upstream_timeout_ms":18446744073709551615}"#;
    let config = configure(Some(&raw[..])).unwrap();
    assert_eq!(config.upstream_timeout_ms(), u64::MAX);
}

#[test]
fn configure_unescapes_strings() {
    let raw = br#"{"header_name":"x-a","header_value":"say \"hi\"\n","upstream_timeout_ms":1}"#;
    let config = configure(Some(&raw[..])).unwrap();
    assert_eq!(config.header_name(), "x-a");
    assert_eq!(config.header_value(), "say \"hi\"\n");
}

#[test]
fn configure_rejects_bytes_that_are_no_json() {
    for raw in [&b""[..], &b"{"[..], &b"not json"[..], &b"{\"header_name\":}"[..], &[0xff, 0xfe][..]] {
        match configure(Some(raw)) {
            Err(ConfigError::Malformed { reason }) => assert!(!reason.is_empty()),
            other => panic!("expected a malformed document, got {:?}", other),
        }
    }
}

#[test]
fn configure_rejects_text_after_the_document() {
    let raw = br#"{"header_name":"a","header_value":"b","upstream_timeout_ms":1} x"#;
    assert!(matches!(configure(Some(&raw[..])), Err(ConfigError::Malformed { .. })));
}

#[test]
fn configure_reports_the_first_missing_member() {
    let raw = br#"{"header_value":"b","upstream_timeout_ms":1}"#;
    assert_eq!(
        configure(Some(&raw[..])),
        Err(ConfigError::MissingField { field: ConfigField::HeaderName })
    );
    let raw = br#"{"header_name":"a","upstream_timeout_ms":1}"#;
    assert_eq!(
        configure(Some(&raw[..])),
        Err(ConfigError::MissingField { field: ConfigField::HeaderValue })
    );
    let raw = br#"{"header_name":"a","header_value":"b"}"#;
    assert_eq!(
        configure(Some(&raw[..])),
        Err(ConfigError::MissingField { field: ConfigField::UpstreamTimeoutMs })
    );
    assert_eq!(
        configure(Some(&b"{}"[..])),
        Err(ConfigError::MissingField { field: ConfigField::HeaderName })
    );
}

#[test]
fn configure_reports_a_member_of_the_wrong_type() {
    let raw = br#"{"header_name":5,"header_value":"b","upstream_timeout_ms":1}"#;
    assert_eq!(
        configure(Some(&raw[..])),
        Err(ConfigError::InvalidField { field: ConfigField::HeaderName })
    );
    let raw = br#"{"header_name":"a","header_value":null,"upstream_timeout_ms":1}"#;
    assert_eq!(
        configure(Some(&raw[..])),
        Err(ConfigError::InvalidField { field: ConfigField::HeaderValue })
    );
    let raw = br#"{"header_name":"a","header_value":"b","upstream_timeout_ms":"1"}"#;
    assert_eq!(
        configure(Some(&raw[..])),
        Err(ConfigError::InvalidField { field: ConfigField::UpstreamTimeoutMs })
    );
}

#[test]
fn configure_rejects_a_timeout_that_is_no_unsigned_integer() {
    for timeout in ["-1", "1.5", "1e3", "18446744073709551616", "true"] {
        let raw = format!(
            "{{\"header_name\":\"a\",\"header_value\":\"b\",\"upstream_timeout_ms\":{}}}",
            timeout
        );
        assert_eq!(
            configure(Some(raw.as_bytes())),
            Err(ConfigError::InvalidField { field: ConfigField::UpstreamTimeoutMs }),
            "timeout {}",
            timeout
        );
    }
}

#[test]
fn configure_rejects_a_document_that_is_no_object() {
    for raw in [&b"[\"a\",\"b\",1]"[..], &b"5"[..], &b"\"text\""[..], &b"null"[..]] {
        assert_eq!(
            configure(Some(raw)),
            Err(ConfigError::MissingField { field: ConfigField::HeaderName })
        );
    }
}

#[test]
fn decode_agrees_with_configure_on_bytes() {
    let raw = br#"{"header_name":"a","header_value":"b","upstream_timeout_ms":3}"#;
    assert_eq!(decode(&raw[..]), configure(Some(&raw[..])));
    assert!(decode(&b"{"[..]).is_err());
}

#[test]
fn assemble_needs_all_three_members() {
    let found = assemble(
        Lookup::Found("n".to_string()),
        Lookup::Found("v".to_string()),
        Lookup::Found(9),
    );
    assert_eq!(found, Ok(FilterConfig::new("n".to_string(), "v".to_string(), 9)));
    assert_eq!(
        assemble(Lookup::Missing, Lookup::Invalid, Lookup::Invalid),
        Err(ConfigError::MissingField { field: ConfigField::HeaderName })
    );
    assert_eq!(
        assemble(Lookup::Found("n".to_string()), Lookup::Invalid, Lookup::Missing),
        Err(ConfigError::InvalidField { field: ConfigField::HeaderValue })
    );
    assert_eq!(
        assemble(Lookup::Found("n".to_string()), Lookup::Found("v".to_string()), Lookup::Missing),
        Err(ConfigError::MissingField { field: ConfigField::UpstreamTimeoutMs })
    );
    assert_eq!(
        assemble(Lookup::Found("n".to_string()), Lookup::Found("v".to_string()), Lookup::Invalid),
        Err(ConfigError::InvalidField { field: ConfigField::UpstreamTimeoutMs })
    );
}

#[test]
fn field_names_are_the_keys_of_the_schema() {
    assert_eq!(ConfigField::HeaderName.name(), "header_name");
    assert_eq!(ConfigField::HeaderValue.name(), "header_value");
    assert_eq!(ConfigField::UpstreamTimeoutMs.name(), "upstream_timeout_ms");
}

#[test]
fn error_messages_name_the_member() {
    let missing = ConfigError::MissingField { field: ConfigField::HeaderValue };
    assert_eq!(missing.message(), "missing field header_value");
    let invalid = ConfigError::InvalidField { field: ConfigField::UpstreamTimeoutMs };
    assert_eq!(invalid.message(), "invalid type of field upstream_timeout_ms");
    let malformed = ConfigError::Malformed { reason: "EOF while parsing".to_string() };
    assert_eq!(malformed.message(), "EOF while parsing");
}

#[test]
fn a_copy_of_a_configuration_is_equal_to_it() {
    let config = FilterConfig::new("a".to_string(), "b".to_string(), 3);
    assert_eq!(config.clone(), config);
}
