use kroki::config::{select_config_path, Config, EnvOverrides};
use kroki::parse::{parse_bool, parse_unsigned};
use kroki::transport::{default_output_format, RenderRequestDto, RenderResponseDto};
use kroki::{DiagramRequest, DiagramResponse, OutputFormat};

#[test]
fn defaults_match_documented_values() {
    let c = Config::default();
    assert_eq!(c.server.port, 8000);
    assert_eq!(c.server.admin_port, 8081);
    assert_eq!(c.server.host, "127.0.0.1");
    assert_eq!(c.server.log_level, "info");
    assert_eq!(c.server.timeout_ms, 5000);
    assert_eq!(c.server.max_input_size, 1_048_576);
    assert_eq!(c.server.max_output_size, 52_428_800);
    assert!(!c.server.auth.enabled);
    assert!(!c.server.rate_limit.enabled);
    assert_eq!(c.server.rate_limit.requests_per_second, 100);
    assert_eq!(c.server.rate_limit.burst_size, 10);
    assert_eq!(c.server.circuit_breaker.failure_threshold, 5);
    assert_eq!(c.server.circuit_breaker.reset_timeout_secs, 60);
    assert_eq!(c.browser.pool_size, 4);
    assert_eq!(c.browser.context_ttl_requests, 100);
}

#[test]
fn env_overrides_apply_valid_values_only() {
    let mut c = Config::default();
    let env = EnvOverrides {
        server_host: Some("127.0.0.1".to_string()),
        server_port: Some("9000".to_string()),
        server_admin_port: Some("70000".to_string()),
        auth_enabled: Some("true".to_string()),
        rate_limit_rps: Some("+7".to_string()),
        circuit_breaker_enabled: Some("yes".to_string()),
        browser_pool_size: Some("0".to_string()),
        ..EnvOverrides::default()
    };
    c.apply_env_overrides(&env);
    assert_eq!(c.server.host, "127.0.0.1");
    assert_eq!(c.server.port, 9000);
    assert_eq!(c.server.admin_port, 8081);
    assert!(c.server.auth.enabled);
    assert_eq!(c.server.rate_limit.requests_per_second, 7);
    assert!(!c.server.circuit_breaker.enabled);
    assert_eq!(c.browser.pool_size, 1);
}

#[test]
fn applying_overrides_twice_changes_nothing_more() {
    let env = EnvOverrides {
        server_port: Some("1234".to_string()),
        rate_limit_burst: Some("3".to_string()),
        ..EnvOverrides::default()
    };
    let mut once = Config::default();
    once.apply_env_overrides(&env);
    let mut twice = once.clone();
    twice.apply_env_overrides(&env);
    assert_eq!(once.server.port, twice.server.port);
    assert_eq!(once.server.rate_limit.burst_size, twice.server.rate_limit.burst_size);
    assert_eq!(twice.server.port, 1234);
}

#[test]
fn config_path_choice_order() {
    assert_eq!(
        select_config_path(Some("a.toml".into()), Some("b.toml".into()), true),
        Some("a.toml".to_string())
    );
    assert_eq!(select_config_path(None, Some("b.toml".into()), true), Some("b.toml".to_string()));
    assert_eq!(select_config_path(None, None, true), Some("kroki.toml".to_string()));
    assert_eq!(select_config_path(None, None, false), None);
}

#[test]
fn unsigned_parsing_follows_from_str() {
    assert_eq!(parse_unsigned("42", 100), Some(42));
    assert_eq!(parse_unsigned("+42", 100), Some(42));
    assert_eq!(parse_unsigned("101", 100), None);
    assert_eq!(parse_unsigned("", 100), None);
    assert_eq!(parse_unsigned("+", 100), None);
    assert_eq!(parse_unsigned("-1", 100), None);
    assert_eq!(parse_unsigned(" 1", 100), None);
    assert_eq!(parse_unsigned("18446744073709551615", u64::MAX), Some(u64::MAX));
    assert_eq!(parse_unsigned("18446744073709551616", u64::MAX), None);
    assert_eq!(parse_bool("true"), Some(true));
    assert_eq!(parse_bool("false"), Some(false));
    assert_eq!(parse_bool("True"), None);
}

#[test]
fn transport_dtos_convert() {
    assert_eq!(default_output_format(), OutputFormat::Svg);
    let req = DiagramRequest::from(RenderRequestDto {
        source: "a".to_string(),
        diagram_type: "echo".to_string(),
        output_format: OutputFormat::Png,
    });
    assert_eq!(req.source, "a");
    assert_eq!(req.diagram_type, "echo");
    assert_eq!(req.output_format, OutputFormat::Png);
    assert!(req.options.font_urls.is_empty());
    assert_eq!(req.options.timeout_ms, None);
    let resp = RenderResponseDto::from(DiagramResponse {
        data: b"<svg/>".to_vec(),
        content_type: "image/svg+xml".to_string(),
        duration_ms: 4,
    });
    assert_eq!(resp.data_as_string(), "<svg/>");
    assert_eq!(resp.content_type, "image/svg+xml");
    assert_eq!(resp.duration_ms, 4);
}

#[test]
fn output_format_names() {
    assert_eq!(OutputFormat::WebP.content_type(), "image/webp");
    assert_eq!(OutputFormat::Pdf.extension(), "pdf");
    assert_eq!(OutputFormat::parse("PNG"), Ok(OutputFormat::Png));
    assert!(OutputFormat::parse("gif").is_err());
}

#[test]
fn transport_keeps_utf8_text_intact() {
    let resp = RenderResponseDto::from(DiagramResponse {
        data: "bootstrap-echo:echo:A -> B é".as_bytes().to_vec(),
        content_type: "image/svg+xml".to_string(),
        duration_ms: 0,
    });
    assert_eq!(resp.data, "bootstrap-echo:echo:A -> B é");
    let lossy = RenderResponseDto::from(DiagramResponse {
        data: vec![b'a', 0xff, b'b'],
        content_type: "x".to_string(),
        duration_ms: 0,
    });
    assert_eq!(lossy.data, "a\u{fffd}b");
}
