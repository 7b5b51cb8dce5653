use kroki::ports::{CommandArg, CommandExit, CommandOutcome, OutputRead, RenderStep};
use kroki::providers::normalize_escaped_whitespace;
use kroki::{
    BpmnProvider, D2Provider, DiagramError, DiagramOptions, DiagramProvider, DiagramRequest,
    DiagramResult, DitaaProvider, EchoProvider, GraphvizProvider, MermaidProvider, OutputFormat,
    VegaProvider,
};

fn request(diagram_type: &str, source: &str) -> DiagramRequest {
    DiagramRequest {
        source: source.to_string(),
        diagram_type: diagram_type.to_string(),
        output_format: OutputFormat::Svg,
        options: DiagramOptions::default(),
    }
}

/// Runs a provider as if none of the programs it asks for were installed.
fn generate_without_tools<P: DiagramProvider>(
    provider: &P,
    req: &DiagramRequest,
) -> DiagramResult<Vec<u8>> {
    let mut step = provider.start(req)?;
    loop {
        match step {
            RenderStep::Done(response) => return Ok(response.data),
            RenderStep::Run { stage, .. } => {
                step = provider.advance(req, stage, CommandOutcome::Missing)?;
            }
        }
    }
}

fn finished(stdout: &[u8], output: OutputRead) -> CommandOutcome {
    CommandOutcome::Finished(CommandExit {
        success: true,
        stdout: stdout.to_vec(),
        stderr: Vec::new(),
        output,
        elapsed_ms: 12,
    })
}

#[test]
fn graphviz_provider_rejects_empty_source() {
    let provider = GraphvizProvider::new();
    let result = generate_without_tools(&provider, &request("graphviz", "   "));
    assert!(result.is_err());
    assert!(provider.validate("   ").is_err());
}

#[test]
fn graphviz_provider_maps_missing_binary_to_tool_not_found() {
    let provider = GraphvizProvider::with_binary("kroki-dot-missing-for-test");
    let result = generate_without_tools(&provider, &request("graphviz", "digraph G { A -> B; }"))
        .expect_err("missing tool should return DiagramError");
    assert_eq!(result.message(), "Tool not found: kroki-dot-missing-for-test");
}

#[test]
fn graphviz_provider_runs_dot_on_stdin() {
    let provider = GraphvizProvider::new();
    let req = request("graphviz", "digraph G { A -> B; }");
    match provider.start(&req).unwrap() {
        RenderStep::Run { stage, invocation } => {
            assert_eq!(invocation.program, "dot");
            assert!(matches!(invocation.args.as_slice(), [CommandArg::Text(t)] if t == "-Tsvg"));
            assert_eq!(invocation.stdin, Some(b"digraph G { A -> B; }".to_vec()));
            match provider.advance(&req, stage, finished(b"<svg/>", OutputRead::NotRequested)) {
                Ok(RenderStep::Done(r)) => {
                    assert_eq!(r.data, b"<svg/>");
                    assert_eq!(r.content_type, "image/svg+xml");
                    assert_eq!(r.duration_ms, 12);
                }
                other => panic!("unexpected: {other:?}"),
            }
        }
        other => panic!("unexpected: {other:?}"),
    }
}

#[test]
fn graphviz_provider_accepts_escaped_newline_sequences() {
    let provider = GraphvizProvider::new();
    match provider.start(&request("graphviz", "digraph G {\\nA -> B;\\n}")).unwrap() {
        RenderStep::Run { invocation, .. } => {
            assert_eq!(invocation.stdin, Some(b"digraph G {\nA -> B;\n}".to_vec()));
        }
        other => panic!("unexpected: {other:?}"),
    }
}

#[test]
fn escaped_whitespace_is_normalized() {
    assert_eq!(normalize_escaped_whitespace("a\\nb\\tc\\r"), "a\nb\tc\\r");
    assert_eq!(normalize_escaped_whitespace("plain"), "plain");
}

#[test]
fn graphviz_failure_reports_stderr() {
    let provider = GraphvizProvider::new();
    let req = request("graphviz", "digraph {");
    let outcome = CommandOutcome::Finished(CommandExit {
        success: false,
        stdout: Vec::new(),
        stderr: b"  syntax error in line 1 \n".to_vec(),
        output: OutputRead::NotRequested,
        elapsed_ms: 3,
    });
    match provider.advance(&req, 0, outcome) {
        Err(DiagramError::ProcessFailed(m)) => assert_eq!(m, "syntax error in line 1"),
        other => panic!("unexpected: {other:?}"),
    }
}

#[test]
fn timed_out_command_reports_timeout() {
    let provider = GraphvizProvider::new();
    let mut req = request("graphviz", "digraph G {}");
    req.options.timeout_ms = Some(250);
    let err = provider.advance(&req, 0, CommandOutcome::TimedOut).unwrap_err();
    assert_eq!(err.message(), "Execution timeout: dot exceeded 250ms");
}

#[test]
fn graphviz_refuses_png() {
    let provider = GraphvizProvider::new();
    let mut req = request("graphviz", "digraph G {}");
    req.output_format = OutputFormat::Png;
    let err = provider.start(&req).unwrap_err();
    assert_eq!(err.message(), "Unsupported format 'Png' for provider 'graphviz'");
}

#[test]
fn d2_provider_rejects_empty_source() {
    let provider = D2Provider::new();
    assert!(generate_without_tools(&provider, &request("d2", "   ")).is_err());
}

#[test]
fn d2_provider_maps_missing_binary_to_tool_not_found() {
    let provider = D2Provider::with_binary("kroki-d2-missing-for-test");
    let err = generate_without_tools(&provider, &request("d2", "a -> b")).unwrap_err();
    assert_eq!(err.message(), "Tool not found: kroki-d2-missing-for-test");
}

#[test]
fn d2_reads_its_output_file() {
    let provider = D2Provider::new();
    let req = request("d2", "a -> b");
    match provider.start(&req).unwrap() {
        RenderStep::Run { stage, invocation } => {
            assert_eq!(invocation.output_file.as_deref(), Some("diagram.svg"));
            let input = invocation.input_file.expect("d2 reads an input file");
            assert_eq!(input.contents, b"a -> b");
            let step = provider
                .advance(&req, stage, finished(b"", OutputRead::Read(b"<svg>d2</svg>".to_vec())))
                .unwrap();
            assert!(matches!(step, RenderStep::Done(ref r) if r.data == b"<svg>d2</svg>"));
        }
        other => panic!("unexpected: {other:?}"),
    }
}

#[test]
fn ditaa_provider_rejects_empty_source() {
    let provider = DitaaProvider::new();
    let request = DiagramRequest {
        source: "   \n  \t ".to_string(),
        diagram_type: "ditaa".to_string(),
        options: DiagramOptions::default(),
        output_format: OutputFormat::Svg,
    };

    let result = generate_without_tools(&provider, &request);
    assert!(matches!(result, Err(DiagramError::ValidationFailed(_))));
}

#[test]
fn ditaa_provider_maps_missing_binary_to_tool_not_found() {
    let provider = DitaaProvider::with_binary("this-binary-does-not-exist");
    let request = DiagramRequest {
        source: "A -> B".to_string(),
        diagram_type: "ditaa".to_string(),
        options: DiagramOptions {
            timeout_ms: Some(500),
            ..Default::default()
        },
        output_format: OutputFormat::Svg,
    };

    let result = generate_without_tools(&provider, &request);
    match result {
        Err(DiagramError::ToolNotFound(binary)) => {
            assert_eq!(binary, "this-binary-does-not-exist");
        }
        _ => panic!("Expected ToolNotFound error, got {result:?}"),
    }
}

#[test]
fn vega_provider_rejects_empty_source() {
    let provider = VegaProvider::new();
    let request = DiagramRequest {
        source: "   \n  \t ".to_string(),
        diagram_type: "vega".to_string(),
        options: DiagramOptions::default(),
        output_format: OutputFormat::Svg,
    };

    let result = generate_without_tools(&provider, &request);
    assert!(matches!(result, Err(DiagramError::ValidationFailed(_))));
}

#[test]
fn vega_provider_maps_missing_binary_to_tool_not_found() {
    let provider = VegaProvider::with_binary("this-binary-does-not-exist");
    let request = DiagramRequest {
        source: "{\"data\": []}".to_string(),
        diagram_type: "vega".to_string(),
        options: DiagramOptions {
            timeout_ms: Some(500),
            ..Default::default()
        },
        output_format: OutputFormat::Svg,
    };

    let result = generate_without_tools(&provider, &request);
    match result {
        Err(DiagramError::ToolNotFound(binary)) => {
            assert_eq!(binary, "this-binary-does-not-exist");
        }
        _ => panic!("Expected ToolNotFound error, got {result:?}"),
    }
}

#[test]
fn mermaid_provider_rejects_empty_source() {
    assert!(generate_without_tools(&MermaidProvider::new(), &request("mermaid", "   ")).is_err());
}

#[test]
fn mermaid_provider_reports_feature_gate_when_browser_runtime_disabled() {
    let err = generate_without_tools(&MermaidProvider::new(), &request("mermaid", "graph TD; A-->B;"))
        .expect_err("without the browser runtime, mermaid should report ToolNotFound");
    assert_eq!(
        err.message(),
        "Tool not found: native-browser feature disabled for mermaid provider"
    );
}

#[test]
fn bpmn_provider_rejects_empty_source() {
    assert!(generate_without_tools(&BpmnProvider::new(), &request("bpmn", "   ")).is_err());
}

#[test]
fn bpmn_provider_reports_feature_gate_without_native_browser() {
    let err = generate_without_tools(
        &BpmnProvider::new(),
        &request("bpmn", "<?xml version=\"1.0\"?><definitions></definitions>"),
    )
    .expect_err("without the browser runtime, bpmn should report ToolNotFound");
    assert_eq!(
        err.message(),
        "Tool not found: native-browser feature disabled for bpmn provider"
    );
}

#[test]
fn echo_provider_renders_without_tools() {
    let data = generate_without_tools(&EchoProvider::new(), &request("echo", "hello")).unwrap();
    let text = String::from_utf8(data).unwrap();
    assert!(text.contains("<svg"));
}

#[test]
fn io_failure_is_reported_as_io_error() {
    let provider = GraphvizProvider::new();
    let req = request("graphviz", "digraph G {}");
    let outcome = CommandOutcome::Failed(std::io::Error::new(std::io::ErrorKind::Other, "pipe broke"));
    match provider.advance(&req, 0, outcome) {
        Err(err @ DiagramError::Io(_)) => assert!(err.message().starts_with("IO error: ")),
        other => panic!("unexpected: {other:?}"),
    }
}

#[test]
fn missing_output_file_is_an_internal_error() {
    let provider = D2Provider::new();
    let req = request("d2", "a -> b");
    let err = provider
        .advance(&req, 0, finished(b"", OutputRead::NotRequested))
        .unwrap_err();
    assert_eq!(err.message(), "Internal error: d2 succeeded but wrote no output file");
    let err = provider
        .advance(
            &req,
            0,
            finished(
                b"",
                OutputRead::Unreadable { path: "/t/diagram.svg".to_string(), reason: "gone".to_string() },
            ),
        )
        .unwrap_err();
    assert_eq!(
        err.message(),
        "Internal error: d2 succeeded but output file '/t/diagram.svg' was unreadable: gone"
    );
}

#[test]
fn unexpected_stage_is_an_internal_error() {
    let provider = GraphvizProvider::new();
    let req = request("graphviz", "digraph G {}");
    let err = provider.advance(&req, 3, CommandOutcome::TimedOut).unwrap_err();
    assert_eq!(err.message(), "Internal error: unexpected render stage");
}

#[test]
fn normalizing_twice_changes_nothing() {
    for s in ["a\\nb", "\\\\n", "\\\\nn", "x\\t\\n", "plain", "\\"] {
        let once = normalize_escaped_whitespace(s);
        assert_eq!(normalize_escaped_whitespace(&once), once);
        assert!(once.len() <= s.len());
    }
}
