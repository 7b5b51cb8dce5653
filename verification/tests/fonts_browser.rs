use kroki::browser::{
    rendered_svg,
    font_injection_script, harness_url, pool_permits, recycle_failure_threshold,
    render_expression, RecyclePolicy,
};
use kroki::fonts::{
    font_cache_dir, font_family_from_url, is_remote_font, prepare_font_css, safe_file_name,
    source_file_part_of, validate_font_size, MAX_FONT_BYTES,
};
use kroki::DiagramError;

#[test]
fn family_comes_from_the_file_stem() {
    assert_eq!(
        font_family_from_url("https://fonts.example.com/files/Open_Sans-Bold.ttf?v=2#x"),
        "Open Sans Bold"
    );
    assert_eq!(font_family_from_url("/usr/share/fonts/noto.woff2"), "noto");
    assert_eq!(font_family_from_url("https://example.com/"), "kroki custom font");
    assert_eq!(font_family_from_url(".hidden"), ".hidden");
    assert_eq!(font_family_from_url("archive.tar.gz"), "archive.tar");
}

#[test]
fn file_part_strips_query_and_fragment() {
    assert_eq!(source_file_part_of("a/b/c.ttf?x=1#y"), "c.ttf");
    assert_eq!(source_file_part_of("c.ttf#y?x"), "c.ttf");
    assert_eq!(source_file_part_of("plain"), "plain");
}

#[test]
fn cache_name_is_hash_and_lowercase_extension() {
    let name = safe_file_name("https://example.com/Font.TTF");
    let (hash, ext) = name.split_at(64);
    assert!(hash.chars().all(|c| c.is_ascii_digit() || ('a'..='f').contains(&c)));
    assert_eq!(ext, ".ttf");
    assert_eq!(safe_file_name("https://example.com/font"), format!("{}.ttf", hash_of("https://example.com/font")));
    // SHA-256 of the empty text.
    assert_eq!(
        safe_file_name(""),
        "e3b0c44298fc1c149afbf4c8996fb92427ae41e4649b934ca495991b7852b855.ttf"
    );
    assert!(safe_file_name("x/y.WOFF2?z").ends_with(".woff2"));
}

fn hash_of(s: &str) -> String {
    safe_file_name(s).split('.').next().unwrap().to_string()
}

#[test]
fn font_size_limit() {
    assert!(validate_font_size(MAX_FONT_BYTES).is_ok());
    assert_eq!(
        validate_font_size(MAX_FONT_BYTES + 1).unwrap_err(),
        "font payload too large (5242881 bytes). maximum allowed is 5242880 bytes"
    );
}

#[test]
fn remote_sources_are_http_urls() {
    assert!(is_remote_font("http://a/b.ttf"));
    assert!(is_remote_font("https://a/b.ttf"));
    assert!(!is_remote_font("ftp://a/b.ttf"));
    assert!(!is_remote_font("/local/b.ttf"));
    assert!(!is_remote_font("http:/"));
}

#[test]
fn font_css_declares_each_font() {
    assert_eq!(prepare_font_css(&vec![], &vec![]), None);
    let css = prepare_font_css(
        &vec!["https://x/My-Font.ttf".to_string(), "b_c.otf".to_string()],
        &vec!["/cache/aa.ttf".to_string(), "C:\\cache\\bb.otf".to_string()],
    )
    .unwrap();
    assert_eq!(
        css,
        "@font-face{font-family:'My Font';src:url('file:///cache/aa.ttf');}\n\
         @font-face{font-family:'b c';src:url('file://C:\\\\cache\\\\bb.otf');}\n"
    );
}

#[test]
fn cache_dir_default() {
    assert_eq!(font_cache_dir(None), ".kroki-cache/fonts");
    assert_eq!(font_cache_dir(Some("/tmp/f".to_string())), "/tmp/f");
}

#[test]
fn recycle_threshold_setting() {
    assert_eq!(recycle_failure_threshold(None), 3);
    assert_eq!(recycle_failure_threshold(Some("0")), 3);
    assert_eq!(recycle_failure_threshold(Some("x")), 3);
    assert_eq!(recycle_failure_threshold(Some("7")), 7);
    assert_eq!(pool_permits(0), 1);
    assert_eq!(pool_permits(4), 4);
}

#[test]
fn browser_is_recycled_at_time_to_live_or_after_failures() {
    let mut p = RecyclePolicy::new(3);
    assert!(!p.begin_request(3));
    assert!(!p.begin_request(3));
    assert!(p.begin_request(3));
    p.record_recycled();
    assert_eq!(p.request_count, 0);
    p.record_outcome(false);
    p.record_outcome(false);
    assert!(!p.begin_request(3));
    p.record_outcome(false);
    assert!(p.begin_request(3));
    p.record_outcome(true);
    assert_eq!(p.consecutive_failures, 0);
    assert_eq!(RecyclePolicy::new(0).context_ttl_requests, 1);
}

#[test]
fn render_scripts() {
    assert_eq!(
        render_expression("mermaid", "graph TD; A-->\"B\";", "svg").unwrap(),
        "window.krokiRenderMermaid(\"graph TD; A-->\\\"B\\\";\")"
    );
    match render_expression("bpmn", "x", "svg") {
        Err(DiagramError::Internal(m)) => assert_eq!(m, "bpmn browser runtime not wired yet"),
        other => panic!("unexpected: {other:?}"),
    }
    match render_expression("vega", "x", "png") {
        Err(DiagramError::UnsupportedFormat { format, provider }) => {
            assert_eq!(format, "png");
            assert_eq!(provider, "vega");
        }
        other => panic!("unexpected: {other:?}"),
    }
    assert_eq!(
        font_injection_script("a'b").unwrap(),
        "const style=document.getElementById('kroki-fonts'); if(style){style.innerHTML=\"a'b\";}"
    );
    assert_eq!(harness_url("/tmp/h.html"), "file:///tmp/h.html");
}

#[test]
fn json_escapes_in_render_scripts() {
    assert_eq!(
        render_expression("mermaid", "a\u{1}\n\\\t\u{8}\u{c}\r\u{1f}é", "svg").unwrap(),
        "window.krokiRenderMermaid(\"a\\u0001\\n\\\\\\t\\b\\f\\r\\u001fé\")"
    );
}

#[test]
fn page_value_becomes_svg_bytes() {
    assert_eq!(rendered_svg(Some("<svg>é</svg>".to_string())).unwrap(), "<svg>é</svg>".as_bytes());
    match rendered_svg(None) {
        Err(DiagramError::ProcessFailed(m)) => assert_eq!(m, "render returned null or non-string"),
        other => panic!("unexpected: {other:?}"),
    }
}
