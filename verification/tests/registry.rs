use kroki::ports::RenderStep;
use kroki::{
    render_with_registry, CapabilityRegistry, DiagramError, DiagramOptions, DiagramRegistry,
    DiagramRequest, EchoProvider, GraphvizProvider, OutputFormat, Provider, ProviderCategory,
    ProviderMetadata, RuntimeDependency,
};

fn echo() -> Provider {
    Provider::Echo(EchoProvider::new())
}

#[test]
fn unit_registry_starts_empty() {
    let registry = DiagramRegistry::new();
    assert!(registry.known_types().is_empty());
}

#[test]
fn registry_starts_empty() {
    let registry = DiagramRegistry::new();
    assert!(registry.known_types().is_empty());
}

#[test]
fn register_adds_bootstrap_metadata_by_default() {
    let mut registry = DiagramRegistry::new();
    registry.register("echo", echo());

    let metadata = registry
        .metadata("echo")
        .expect("metadata should exist for registered provider");
    assert_eq!(metadata.provider_id, "echo");
    assert_eq!(metadata.category, ProviderCategory::Stub);
    assert_eq!(metadata.runtime, RuntimeDependency::NoDependency);
    assert_eq!(metadata.supported_formats, vec![OutputFormat::Svg]);
}

#[test]
fn register_with_metadata_preserves_explicit_contract() {
    let mut registry = DiagramRegistry::new();
    let metadata = ProviderMetadata {
        provider_id: "graphviz".to_string(),
        category: ProviderCategory::Command,
        runtime: RuntimeDependency::SystemTool {
            binary: "dot".to_string(),
        },
        supported_formats: vec![OutputFormat::Svg],
        description: "Graphviz command provider".to_string(),
    };
    registry.register_with_metadata("graphviz", echo(), metadata);

    let graphviz = registry
        .metadata("graphviz")
        .expect("graphviz metadata should be available");
    assert_eq!(graphviz.category, ProviderCategory::Command);
    assert_eq!(
        graphviz.runtime,
        RuntimeDependency::SystemTool {
            binary: "dot".to_string()
        }
    );
}

#[test]
fn lookup_ignores_case_of_names() {
    let mut registry = DiagramRegistry::new();
    registry.register("GraphViz", Provider::Graphviz(GraphvizProvider::new()));
    assert!(matches!(registry.get("graphviz"), Some(Provider::Graphviz(_))));
    assert!(matches!(registry.get("GRAPHVIZ"), Some(Provider::Graphviz(_))));
    assert!(registry.get("d2").is_none());
    assert_eq!(registry.metadata("graphviz").unwrap().provider_id, "graphviz");
}

#[test]
fn registering_again_replaces_the_entry() {
    let mut registry = DiagramRegistry::new();
    registry.register("x", echo());
    registry.register("X", Provider::Graphviz(GraphvizProvider::new()));
    assert_eq!(registry.known_types(), vec!["x".to_string()]);
    assert!(matches!(registry.get("x"), Some(Provider::Graphviz(_))));
}

#[test]
fn known_types_are_sorted_and_distinct() {
    let mut registry = DiagramRegistry::new();
    registry.register("wavedrom", echo());
    registry.register("d2", echo());
    registry.register("echo", echo());
    registry.register("D2", echo());
    assert_eq!(
        registry.known_types(),
        vec!["d2".to_string(), "echo".to_string(), "wavedrom".to_string()]
    );
}

fn request(diagram_type: &str, source: &str) -> DiagramRequest {
    DiagramRequest {
        source: source.to_string(),
        diagram_type: diagram_type.to_string(),
        output_format: OutputFormat::Svg,
        options: DiagramOptions::default(),
    }
}

#[test]
fn render_with_registry_reports_unknown_type() {
    let registry = DiagramRegistry::new();
    match render_with_registry(&registry, &request("nope", "x")) {
        Err(DiagramError::ToolNotFound(name)) => assert_eq!(name, "nope"),
        other => panic!("unexpected: {:?}", other.map(|(_, s)| s)),
    }
}

#[test]
fn render_with_registry_runs_echo_to_completion() {
    let mut registry = DiagramRegistry::new();
    registry.register("echo", echo());
    match render_with_registry(&registry, &request("Echo", "hello")) {
        Ok((_, RenderStep::Done(response))) => {
            assert_eq!(response.content_type, "image/svg+xml");
        }
        other => panic!("unexpected: {:?}", other.map(|(_, s)| s)),
    }
}

#[test]
fn render_with_registry_refuses_blank_source() {
    let mut registry = DiagramRegistry::new();
    registry.register("echo", echo());
    assert!(render_with_registry(&registry, &request("echo", "  \n ")).is_err());
}

#[test]
fn capability_registry_lists_by_id() {
    let mut caps = CapabilityRegistry::new();
    caps.register(ProviderMetadata::bootstrap("Zeta", vec![OutputFormat::Svg]));
    caps.register(ProviderMetadata::bootstrap("alpha", vec![OutputFormat::Png]));
    let ids: Vec<String> = caps.all().iter().map(|m| m.provider_id.clone()).collect();
    assert_eq!(ids, vec!["alpha".to_string(), "zeta".to_string()]);
    assert_eq!(caps.get("ZETA").unwrap().supported_formats, vec![OutputFormat::Svg]);
    assert!(caps.get("beta").is_none());
}

#[test]
fn bootstrap_metadata_lowercases_name() {
    let m = ProviderMetadata::bootstrap("Echo", vec![OutputFormat::Svg]);
    assert_eq!(m.provider_id, "echo");
    assert_eq!(m.category, ProviderCategory::Stub);
    assert_eq!(m.runtime, RuntimeDependency::NoDependency);
    assert_eq!(m.description, "Bootstrap provider metadata");
}

#[test]
fn capability_lookup_and_count() {
    let mut caps = CapabilityRegistry::new();
    caps.register(ProviderMetadata::bootstrap("Graphviz", vec![OutputFormat::Svg]));
    assert_eq!(caps.all().len(), 1);
    caps.register(ProviderMetadata::bootstrap("GRAPHVIZ", vec![OutputFormat::Png]));
    assert_eq!(caps.all().len(), 1);
    caps.register(ProviderMetadata::bootstrap("d2", vec![OutputFormat::Svg]));
    assert_eq!(caps.all().len(), 2);
    let found = caps.get("GraphViz").unwrap();
    assert_eq!(found.provider_id.to_lowercase(), "graphviz");
    assert_eq!(found.supported_formats, vec![OutputFormat::Png]);
}
