//! Command-line surface: argument records, output formats, diagram-type
//! detection, output naming and the provider set of the command line.
use crate::capabilities::{ProviderCategory, ProviderMetadata, RuntimeDependency};
use crate::error::DiagramError;
use crate::ports::OutputFormat;
use crate::paths::{file_extension_of, is_dash_path, path_extension, path_is_dash};
use crate::providers::{
    BpmnProvider, D2Provider, DitaaProvider, EchoProvider, ExcalidrawProvider, GraphvizProvider,
    MermaidProvider, Provider, WavedromProvider,
};
use crate::services::DiagramRegistry;
use crate::text::{chars_of, decimal, join3, lowercase, owned, push_char, push_decimal, str_eq, to_lower};
use crate::transport::RenderRequestDto;
use vstd::prelude::*;
use vstd::string::*;

verus! {

/// Output formats offered on the command line.
#[derive(Debug, Clone, Copy, PartialEq, Eq, Structural)]
pub enum CliOutputFormat {
    Svg,
    Png,
    Webp,
    Pdf,
}

/// Shells for which completion scripts can be generated.
#[derive(Debug, Clone, Copy, PartialEq, Eq, Structural)]
pub enum CompletionShell {
    Bash,
    Elvish,
    Fish,
    PowerShell,
    Zsh,
}

/// The core format of a command-line format.
pub open spec fn core_format(f: CliOutputFormat) -> OutputFormat {
    match f {
        CliOutputFormat::Svg => OutputFormat::Svg,
        CliOutputFormat::Png => OutputFormat::Png,
        CliOutputFormat::Webp => OutputFormat::WebP,
        CliOutputFormat::Pdf => OutputFormat::Pdf,
    }
}

impl From<CliOutputFormat> for OutputFormat {
    fn from(value: CliOutputFormat) -> (r: OutputFormat) {
        match value {
            CliOutputFormat::Svg => OutputFormat::Svg,
            CliOutputFormat::Png => OutputFormat::Png,
            CliOutputFormat::Webp => OutputFormat::WebP,
            CliOutputFormat::Pdf => OutputFormat::Pdf,
        }
    }
}

impl vstd::std_specs::convert::FromSpecImpl<CliOutputFormat> for OutputFormat {
    open spec fn obeys_from_spec() -> bool {
        true
    }

    open spec fn from_spec(v: CliOutputFormat) -> OutputFormat {
        core_format(v)
    }
}

/// The file extension of a command-line format.
pub open spec fn cli_extension(f: CliOutputFormat) -> Seq<char> {
    match f {
        CliOutputFormat::Svg => "svg"@,
        CliOutputFormat::Png => "png"@,
        CliOutputFormat::Webp => "webp"@,
        CliOutputFormat::Pdf => "pdf"@,
    }
}

impl CliOutputFormat {
    pub fn file_extension(self) -> (r: &'static str)
        ensures
            r@ == cli_extension(self),
    {
        match self {
            CliOutputFormat::Svg => "svg",
            CliOutputFormat::Png => "png",
            CliOutputFormat::Webp => "webp",
            CliOutputFormat::Pdf => "pdf",
        }
    }
}

/// The command line: an optional subcommand.
#[derive(Debug, Clone)]
pub struct Cli {
    pub command: Option<Commands>,
}

/// The subcommands.
#[derive(Debug, Clone)]
pub enum Commands {
    /// Convert a diagram file to an output format
    Convert(ConvertArgs),
    /// Encode text to deflate + base64 (for use in GET URLs)
    Encode(EncodeArgs),
    /// Decode deflate + base64 back to plain text
    Decode(DecodeArgs),
    /// Generate shell completion scripts
    Completions(CompletionArgs),
    /// Show version information
    Version,
    /// Batch convert diagram files (placeholder)
    Batch,
}

/// Arguments of `convert`; paths are kept as text.
#[derive(Debug, Clone)]
pub struct ConvertArgs {
    pub diagram_type: Option<String>,
    pub source: Option<String>,
    pub input: Option<String>,
    pub format: CliOutputFormat,
    pub output: Option<String>,
}

#[derive(Debug, Clone)]
pub struct EncodeArgs {
    pub text: Option<String>,
}

#[derive(Debug, Clone)]
pub struct DecodeArgs {
    pub encoded: Option<String>,
}

#[derive(Debug, Clone)]
pub struct CompletionArgs {
    pub shell: CompletionShell,
    pub output: Option<String>,
}

/// The diagram type a (lowercased) file extension stands for.
pub open spec fn type_for_extension(ext: Seq<char>) -> Option<Seq<char>> {
    if ext == "dot"@ || ext == "gv"@ {
        Some("graphviz"@)
    } else if ext == "mmd"@ || ext == "mermaid"@ {
        Some("mermaid"@)
    } else if ext == "d2"@ {
        Some("d2"@)
    } else if ext == "puml"@ || ext == "plantuml"@ {
        Some("plantuml"@)
    } else if ext == "excalidraw"@ {
        Some("excalidraw"@)
    } else if ext == "bpmn"@ {
        Some("bpmn"@)
    } else if ext == "vega"@ {
        Some("vega"@)
    } else if ext == "vl"@ {
        Some("vegalite"@)
    } else if ext == "ditaa"@ {
        Some("ditaa"@)
    } else if ext == "wavedrom"@ {
        Some("wavedrom"@)
    } else {
        None
    }
}

/// The diagram type a path's extension stands for, case-insensitively.
pub open spec fn detected_type(path: Seq<char>) -> Option<Seq<char>> {
    match path_extension(path) {
        Some(e) => type_for_extension(lowercase(e)),
        None => None,
    }
}

/// Auto-detect the diagram type from a file's extension.
pub fn detect_diagram_type(path: &str) -> (r: Option<&'static str>)
    ensures
        (match r {
            Some(t) => Some(t@),
            None => None,
        }) == detected_type(path@),
{
    let ext = match file_extension_of(path) {
        Some(e) => e,
        None => return None,
    };
    let lower = to_lower(ext.as_str());
    let e = lower.as_str();
    if str_eq(e, "dot") || str_eq(e, "gv") {
        Some("graphviz")
    } else if str_eq(e, "mmd") || str_eq(e, "mermaid") {
        Some("mermaid")
    } else if str_eq(e, "d2") {
        Some("d2")
    } else if str_eq(e, "puml") || str_eq(e, "plantuml") {
        Some("plantuml")
    } else if str_eq(e, "excalidraw") {
        Some("excalidraw")
    } else if str_eq(e, "bpmn") {
        Some("bpmn")
    } else if str_eq(e, "vega") {
        Some("vega")
    } else if str_eq(e, "vl") {
        Some("vegalite")
    } else if str_eq(e, "ditaa") {
        Some("ditaa")
    } else if str_eq(e, "wavedrom") {
        Some("wavedrom")
    } else {
        None
    }
}

/// The diagram type of a conversion: the explicit flag, else the type the
/// input file's extension names, else `graphviz`.
pub open spec fn resolved_type(args: ConvertArgs) -> Seq<char> {
    match args.diagram_type {
        Some(t) => t@,
        None => match args.input {
            Some(p) => match detected_type(p@) {
                Some(t) => t,
                None => "graphviz"@,
            },
            None => "graphviz"@,
        },
    }
}

/// Resolve the diagram type: explicit flag first, then detection from the input file.
pub fn resolve_diagram_type(args: &ConvertArgs) -> (r: String)
    ensures
        r@ == resolved_type(*args),
{
    if let Some(dt) = &args.diagram_type {
        return dt.clone();
    }
    if let Some(path) = &args.input {
        if let Some(detected) = detect_diagram_type(path.as_str()) {
            return owned(detected);
        }
    }
    owned("graphviz")
}

/// `s` with every `/` replaced by `-`.
pub open spec fn slashes_to_dashes(s: Seq<char>) -> Seq<char> {
    s.map_values(|c: char| if c == '/' { '-' } else { c })
}

/// The default output file name of a conversion started at `timestamp`
/// (seconds since the Unix epoch).
pub open spec fn default_output_name(args: ConvertArgs, timestamp: u64) -> Seq<char> {
    "kroki-"@ + slashes_to_dashes(resolved_type(args)) + "-"@ + decimal(timestamp as nat) + "."@
        + cli_extension(args.format)
}

/// Where a conversion writes: the explicit output path, else
/// `kroki-<type>-<timestamp>.<ext>`.
pub fn resolve_output_path(args: &ConvertArgs, timestamp: u64) -> (r: String)
    ensures
        r@ == (match args.output {
            Some(p) => p@,
            None => default_output_name(*args, timestamp),
        }),
{
    if let Some(path) = &args.output {
        return path.clone();
    }
    let provider = resolve_diagram_type(args);
    let v = chars_of(provider.as_str());
    let mut r = owned("kroki-");
    let ghost prefix = r@;
    for i in 0..v.len()
        invariant
            v@ == provider@,
            prefix == "kroki-"@,
            r@ == prefix + slashes_to_dashes(v@.subrange(0, i as int)),
    {
        let c = if v[i] == '/' {
            '-'
        } else {
            v[i]
        };
        push_char(&mut r, c);
        assert(slashes_to_dashes(v@.subrange(0, i + 1)) =~= slashes_to_dashes(
            v@.subrange(0, i as int),
        ).push(c));
    }
    assert(v@.subrange(0, v@.len() as int) =~= v@);
    r.append("-");
    push_decimal(&mut r, timestamp);
    r.append(".");
    r.append(args.format.file_extension());
    r
}

/// Where the source of a conversion comes from.
#[derive(Debug, Clone)]
pub enum SourceOrigin {
    /// Read standard input.
    Stdin,
    /// The given text.
    Text(String),
    /// Read the file at this path.
    File(String),
}

/// The source the conversion of `args` reads.
pub open spec fn source_origin_spec(args: ConvertArgs) -> SourceOrigin {
    match args.source {
        Some(s) => if s@ == "-"@ {
            SourceOrigin::Stdin
        } else {
            SourceOrigin::Text(s)
        },
        None => match args.input {
            Some(p) => if is_dash_path(p@) {
                SourceOrigin::Stdin
            } else {
                SourceOrigin::File(p)
            },
            None => SourceOrigin::Text(arbitrary()),
        },
    }
}

/// The source of a conversion when neither text nor file is given.
pub open spec fn default_source() -> Seq<char> {
    "digraph G { A -> B; }"@
}

/// Decides where the source of a conversion comes from: inline text (`-`
/// meaning standard input), else the input file (`-` meaning standard
/// input), else a default Graphviz graph.
pub fn source_origin(args: &ConvertArgs) -> (r: SourceOrigin)
    ensures
        args.source is Some || args.input is Some ==> r == source_origin_spec(*args),
        args.source is None && args.input is None ==> (r matches SourceOrigin::Text(t) && t@
            == default_source()),
        args.source is None && (args.input matches Some(p) && p@ == "-"@) ==> r is Stdin,
{
    if let Some(source) = &args.source {
        if str_eq(source.as_str(), "-") {
            return SourceOrigin::Stdin;
        }
        return SourceOrigin::Text(source.clone());
    }
    if let Some(path) = &args.input {
        if path_is_dash(path.as_str()) {
            return SourceOrigin::Stdin;
        }
        return SourceOrigin::File(path.clone());
    }
    SourceOrigin::Text(owned("digraph G { A -> B; }"))
}

/// The render request of a conversion of `source`.
pub fn convert_request(args: &ConvertArgs, source: String) -> (r: RenderRequestDto)
    ensures
        r.source == source,
        r.diagram_type@ == resolved_type(*args),
        r.output_format == core_format(args.format),
{
    RenderRequestDto {
        source,
        diagram_type: resolve_diagram_type(args),
        output_format: args.format.into(),
    }
}

/// What a conversion does when rendering failed with `error`: for a missing
/// Graphviz or D2 tool it renders the source with the echo provider
/// instead; other missing providers are reported as unavailable; other
/// errors stand.
pub fn fallback_request(error: DiagramError, source: &String, diagram_type: &String) -> (r: Result<
    RenderRequestDto,
    DiagramError,
>)
    ensures
        (error is ToolNotFound && (diagram_type@ == "graphviz"@ || diagram_type@ == "d2"@)) ==> (
        r matches Ok(req) && req.source == *source && req.diagram_type@ == "echo"@
            && req.output_format == OutputFormat::Svg),
        (error is ToolNotFound && !(diagram_type@ == "graphviz"@ || diagram_type@ == "d2"@)) ==> (
        r matches Err(e) && e@ == crate::ports::ErrorView::ToolNotFound(
            "provider '"@ + diagram_type@ + "' is unavailable in current runtime configuration"@,
        )),
        !(error is ToolNotFound) ==> (r matches Err(e) && e == error),
{
    match error {
        DiagramError::ToolNotFound(_) => {
            if !str_eq(diagram_type.as_str(), "graphviz") && !str_eq(diagram_type.as_str(), "d2") {
                return Err(
                    DiagramError::ToolNotFound(
                        join3(
                            "provider '",
                            diagram_type.as_str(),
                            "' is unavailable in current runtime configuration",
                        ),
                    ),
                );
            }
            Ok(
                RenderRequestDto {
                    source: source.clone(),
                    diagram_type: owned("echo"),
                    output_format: OutputFormat::Svg,
                },
            )
        },
        other => Err(other),
    }
}

/// An entry for a command-line tool provider with the given metadata.
pub open spec fn command_entry(
    e: crate::services::RegistryEntry,
    id: Seq<char>,
    binary: Seq<char>,
    formats: Seq<OutputFormat>,
    description: Seq<char>,
) -> bool {
    &&& e.metadata.provider_id@ == id
    &&& e.metadata.category == ProviderCategory::Command
    &&& (e.metadata.runtime matches RuntimeDependency::SystemTool { binary: b } && b@ == binary)
    &&& e.metadata.supported_formats@ == formats
    &&& e.metadata.description@ == description
}

/// An entry for a browser-engine provider with the given metadata.
pub open spec fn browser_entry(
    e: crate::services::RegistryEntry,
    id: Seq<char>,
    description: Seq<char>,
) -> bool {
    &&& e.metadata.provider_id@ == id
    &&& e.metadata.category == ProviderCategory::Browser
    &&& e.metadata.runtime == RuntimeDependency::BrowserEngine
    &&& e.metadata.supported_formats@ == seq![OutputFormat::Svg]
    &&& e.metadata.description@ == description
}

/// The names the command line registers providers under.
pub open spec fn cli_provider_names() -> Set<Seq<char>> {
    set![
        "echo"@,
        "graphviz"@,
        "d2"@,
        "mermaid"@,
        "bpmn"@,
        "ditaa"@,
        "excalidraw"@,
        "wavedrom"@,
    ]
}

fn command_metadata(id: &str, binary: &str, formats: Vec<OutputFormat>, description: &str) -> (m:
    ProviderMetadata)
    ensures
        m.provider_id@ == id@,
        m.category == ProviderCategory::Command,
        m.runtime matches RuntimeDependency::SystemTool { binary: b } && b@ == binary@,
        m.supported_formats@ == formats@,
        m.description@ == description@,
{
    ProviderMetadata {
        provider_id: owned(id),
        category: ProviderCategory::Command,
        runtime: RuntimeDependency::SystemTool { binary: owned(binary) },
        supported_formats: formats,
        description: owned(description),
    }
}

fn svg_only() -> (v: Vec<OutputFormat>)
    ensures
        v@ == seq![OutputFormat::Svg],
{
    vec![OutputFormat::Svg]
}

fn png_and_svg() -> (v: Vec<OutputFormat>)
    ensures
        v@ == seq![OutputFormat::Png, OutputFormat::Svg],
{
    vec![OutputFormat::Png, OutputFormat::Svg]
}

fn browser_metadata(id: &str, description: &str) -> (m: ProviderMetadata)
    ensures
        m.provider_id@ == id@,
        m.category == ProviderCategory::Browser,
        m.runtime == RuntimeDependency::BrowserEngine,
        m.supported_formats@ == seq![OutputFormat::Svg],
        m.description@ == description@,
{
    ProviderMetadata {
        provider_id: owned(id),
        category: ProviderCategory::Browser,
        runtime: RuntimeDependency::BrowserEngine,
        supported_formats: vec![OutputFormat::Svg],
        description: owned(description),
    }
}

proof fn lemma_lowercase_literals()
    ensures
        lowercase("echo"@) == "echo"@,
        lowercase("graphviz"@) == "graphviz"@,
        lowercase("d2"@) == "d2"@,
        lowercase("mermaid"@) == "mermaid"@,
        lowercase("bpmn"@) == "bpmn"@,
        lowercase("ditaa"@) == "ditaa"@,
        lowercase("excalidraw"@) == "excalidraw"@,
        lowercase("wavedrom"@) == "wavedrom"@,
{
    reveal_strlit("echo");
    reveal_strlit("graphviz");
    reveal_strlit("d2");
    reveal_strlit("mermaid");
    reveal_strlit("bpmn");
    reveal_strlit("ditaa");
    reveal_strlit("excalidraw");
    reveal_strlit("wavedrom");
    assert(lowercase("echo"@) =~= "echo"@);
    assert(lowercase("graphviz"@) =~= "graphviz"@);
    assert(lowercase("d2"@) =~= "d2"@);
    assert(lowercase("mermaid"@) =~= "mermaid"@);
    assert(lowercase("bpmn"@) =~= "bpmn"@);
    assert(lowercase("ditaa"@) =~= "ditaa"@);
    assert(lowercase("excalidraw"@) =~= "excalidraw"@);
    assert(lowercase("wavedrom"@) =~= "wavedrom"@);
}

/// The providers the command line offers, with their metadata.
pub fn build_registry() -> (r: DiagramRegistry)
    ensures
        r@.dom() == cli_provider_names(),
        r@["echo"@].provider is Echo,
        r@["echo"@].metadata.provider_id@ == "echo"@,
        r@["echo"@].metadata.category == ProviderCategory::Stub,
        r@["echo"@].metadata.runtime == RuntimeDependency::NoDependency,
        r@["echo"@].metadata.supported_formats@ == seq![OutputFormat::Svg],
        r@["graphviz"@].provider matches Provider::Graphviz(p) && p.binary() == "dot"@,
        command_entry(r@["graphviz"@], "graphviz"@, "dot"@, seq![OutputFormat::Svg], "Graphviz command provider"@),
        r@["d2"@].provider matches Provider::D2(p) && p.binary() == "d2"@,
        command_entry(r@["d2"@], "d2"@, "d2"@, seq![OutputFormat::Svg], "D2 command provider"@),
        r@["mermaid"@].provider is Mermaid,
        browser_entry(r@["mermaid"@], "mermaid"@, "Mermaid browser provider (feature-gated native-browser path)"@),
        r@["bpmn"@].provider is Bpmn,
        browser_entry(r@["bpmn"@], "bpmn"@, "BPMN browser provider (native-browser runtime pending)"@),
        r@["ditaa"@].provider matches Provider::Ditaa(p) && p.binary() == "ditaa"@,
        command_entry(r@["ditaa"@], "ditaa"@, "ditaa"@, seq![OutputFormat::Png, OutputFormat::Svg], "Ditaa command provider"@),
        r@["excalidraw"@].provider matches Provider::Excalidraw(p) && p.binary() == "excalidraw"@,
        command_entry(r@["excalidraw"@], "excalidraw"@, "excalidraw"@, seq![OutputFormat::Svg], "Excalidraw command provider"@),
        r@["wavedrom"@].provider matches Provider::Wavedrom(p) && p.binary() == "wavedrom-cli"@,
        command_entry(r@["wavedrom"@], "wavedrom"@, "wavedrom-cli"@, seq![OutputFormat::Svg], "Wavedrom command provider"@),
{
    proof {
        lemma_lowercase_literals();
        reveal_strlit("echo");
        reveal_strlit("graphviz");
        reveal_strlit("d2");
        reveal_strlit("mermaid");
        reveal_strlit("bpmn");
        reveal_strlit("ditaa");
        reveal_strlit("excalidraw");
        reveal_strlit("wavedrom");
        assert("bpmn"@[0] != "echo"@[0]);
        assert("wavedrom"@[0] != "graphviz"@[0]);
    }
    let mut registry = DiagramRegistry::new();
    registry.register("echo", Provider::Echo(EchoProvider::new()));
    registry.register_with_metadata(
        "graphviz",
        Provider::Graphviz(GraphvizProvider::new()),
        command_metadata("graphviz", "dot", svg_only(), "Graphviz command provider"),
    );
    registry.register_with_metadata(
        "d2",
        Provider::D2(D2Provider::new()),
        command_metadata("d2", "d2", svg_only(), "D2 command provider"),
    );
    registry.register_with_metadata(
        "mermaid",
        Provider::Mermaid(MermaidProvider::new()),
        browser_metadata("mermaid", "Mermaid browser provider (feature-gated native-browser path)"),
    );
    registry.register_with_metadata(
        "bpmn",
        Provider::Bpmn(BpmnProvider::new()),
        browser_metadata("bpmn", "BPMN browser provider (native-browser runtime pending)"),
    );
    registry.register_with_metadata(
        "ditaa",
        Provider::Ditaa(DitaaProvider::new()),
        command_metadata(
            "ditaa",
            "ditaa",
            png_and_svg(),
            "Ditaa command provider",
        ),
    );
    registry.register_with_metadata(
        "excalidraw",
        Provider::Excalidraw(ExcalidrawProvider::new()),
        command_metadata("excalidraw", "excalidraw", svg_only(), "Excalidraw command provider"),
    );
    registry.register_with_metadata(
        "wavedrom",
        Provider::Wavedrom(WavedromProvider::new()),
        command_metadata("wavedrom", "wavedrom-cli", svg_only(), "Wavedrom command provider"),
    );
    proof {
        assert(registry@.dom() =~= cli_provider_names());
    }
    registry
}

} // verus!
