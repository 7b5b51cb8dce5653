use kroki::cli::{
    build_registry, convert_request, detect_diagram_type, fallback_request, resolve_diagram_type,
    resolve_output_path, source_origin, CliOutputFormat, ConvertArgs, SourceOrigin,
};
use kroki::{DiagramError, OutputFormat, Provider, ProviderCategory, RuntimeDependency};

fn args(diagram_type: Option<&str>, input: Option<&str>, format: CliOutputFormat) -> ConvertArgs {
    ConvertArgs {
        diagram_type: diagram_type.map(|s| s.to_string()),
        source: None,
        input: input.map(|s| s.to_string()),
        format,
        output: None,
    }
}

#[test]
fn unit_detect_diagram_type_from_extensions() {
    assert_eq!(detect_diagram_type("test.dot"), Some("graphviz"));
    assert_eq!(detect_diagram_type("test.gv"), Some("graphviz"));
    assert_eq!(detect_diagram_type("test.mmd"), Some("mermaid"));
    assert_eq!(detect_diagram_type("test.d2"), Some("d2"));
    assert_eq!(detect_diagram_type("test.bpmn"), Some("bpmn"));
    assert_eq!(detect_diagram_type("test.vega"), Some("vega"));
    assert_eq!(detect_diagram_type("test.vl"), Some("vegalite"));
    assert_eq!(detect_diagram_type("test.unknown"), None);
}

#[test]
fn detection_ignores_extension_case_and_directories() {
    assert_eq!(detect_diagram_type("dir/sub/Diagram.DOT"), Some("graphviz"));
    assert_eq!(detect_diagram_type("noext"), None);
    assert_eq!(detect_diagram_type(".dot"), None);
}

#[test]
fn diagram_type_prefers_flag_then_extension_then_graphviz() {
    assert_eq!(resolve_diagram_type(&args(Some("d2"), Some("x.dot"), CliOutputFormat::Svg)), "d2");
    assert_eq!(resolve_diagram_type(&args(None, Some("x.mmd"), CliOutputFormat::Svg)), "mermaid");
    assert_eq!(resolve_diagram_type(&args(None, Some("x.txt"), CliOutputFormat::Svg)), "graphviz");
    assert_eq!(resolve_diagram_type(&args(None, None, CliOutputFormat::Svg)), "graphviz");
}

#[test]
fn output_path_defaults_to_type_time_and_extension() {
    let a = args(Some("c4/plantuml"), None, CliOutputFormat::Webp);
    assert_eq!(resolve_output_path(&a, 1700000000), "kroki-c4-plantuml-1700000000.webp");
    let mut b = args(None, None, CliOutputFormat::Png);
    b.output = Some("out/file.png".to_string());
    assert_eq!(resolve_output_path(&b, 5), "out/file.png");
}

#[test]
fn source_origin_cases() {
    let mut a = args(None, None, CliOutputFormat::Svg);
    match source_origin(&a) {
        SourceOrigin::Text(t) => assert_eq!(t, "digraph G { A -> B; }"),
        other => panic!("unexpected: {other:?}"),
    }
    a.source = Some("-".to_string());
    assert!(matches!(source_origin(&a), SourceOrigin::Stdin));
    a.source = Some("graph".to_string());
    assert!(matches!(source_origin(&a), SourceOrigin::Text(ref t) if t == "graph"));
    a.source = None;
    a.input = Some("-".to_string());
    assert!(matches!(source_origin(&a), SourceOrigin::Stdin));
    a.input = Some("in.dot".to_string());
    assert!(matches!(source_origin(&a), SourceOrigin::File(ref p) if p == "in.dot"));
}

#[test]
fn convert_request_carries_resolved_type_and_format() {
    let a = args(None, Some("x.d2"), CliOutputFormat::Pdf);
    let req = convert_request(&a, "a -> b".to_string());
    assert_eq!(req.source, "a -> b");
    assert_eq!(req.diagram_type, "d2");
    assert_eq!(req.output_format, OutputFormat::Pdf);
}

#[test]
fn cli_formats_map_to_core_formats() {
    assert_eq!(OutputFormat::from(CliOutputFormat::Webp), OutputFormat::WebP);
    assert_eq!(CliOutputFormat::Webp.file_extension(), "webp");
    assert_eq!(CliOutputFormat::Svg.file_extension(), "svg");
}

#[test]
fn missing_graphviz_falls_back_to_echo() {
    let src = "digraph G {}".to_string();
    let req = fallback_request(
        DiagramError::ToolNotFound("dot".to_string()),
        &src,
        &"graphviz".to_string(),
    )
    .unwrap();
    assert_eq!(req.diagram_type, "echo");
    assert_eq!(req.source, src);
    assert_eq!(req.output_format, OutputFormat::Svg);
}

#[test]
fn missing_mermaid_is_reported_unavailable() {
    let err = fallback_request(
        DiagramError::ToolNotFound("x".to_string()),
        &"graph TD; A-->B;".to_string(),
        &"mermaid".to_string(),
    )
    .unwrap_err();
    assert!(err
        .message()
        .contains("provider 'mermaid' is unavailable"));
}

#[test]
fn other_errors_are_kept() {
    let err = fallback_request(
        DiagramError::ProcessFailed("boom".to_string()),
        &"x".to_string(),
        &"graphviz".to_string(),
    )
    .unwrap_err();
    assert!(matches!(err, DiagramError::ProcessFailed(ref m) if m == "boom"));
}

#[test]
fn command_line_registry_has_its_providers() {
    let registry = build_registry();
    assert_eq!(
        registry.known_types(),
        vec![
            "bpmn", "d2", "ditaa", "echo", "excalidraw", "graphviz", "mermaid", "wavedrom"
        ]
        .into_iter()
        .map(String::from)
        .collect::<Vec<_>>()
    );
    let graphviz = registry.metadata("graphviz").unwrap();
    assert_eq!(graphviz.category, ProviderCategory::Command);
    assert_eq!(
        graphviz.runtime,
        RuntimeDependency::SystemTool { binary: "dot".to_string() }
    );
    let ditaa = registry.metadata("ditaa").unwrap();
    assert_eq!(ditaa.supported_formats, vec![OutputFormat::Png, OutputFormat::Svg]);
    assert_eq!(registry.metadata("mermaid").unwrap().runtime, RuntimeDependency::BrowserEngine);
    assert!(matches!(registry.get("echo"), Some(Provider::Echo(_))));
}
