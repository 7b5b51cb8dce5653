//! Port definitions: output formats, requests, responses and the provider trait.
use crate::error::{DiagramError, DiagramResult};
use crate::text::{join3, lowercase, str_eq, to_lower};
use vstd::prelude::*;
use vstd::string::*;

verus! {

/// Supported output formats for diagram generation.
#[derive(Debug, Clone, Copy, PartialEq, Eq, Structural, Hash)]
pub enum OutputFormat {
    Svg,
    Png,
    WebP,
    Pdf,
}

/// The MIME content type of a format.
pub open spec fn content_type_of(f: OutputFormat) -> Seq<char> {
    match f {
        OutputFormat::Svg => "image/svg+xml"@,
        OutputFormat::Png => "image/png"@,
        OutputFormat::WebP => "image/webp"@,
        OutputFormat::Pdf => "application/pdf"@,
    }
}

/// The file extension of a format.
pub open spec fn extension_of(f: OutputFormat) -> Seq<char> {
    match f {
        OutputFormat::Svg => "svg"@,
        OutputFormat::Png => "png"@,
        OutputFormat::WebP => "webp"@,
        OutputFormat::Pdf => "pdf"@,
    }
}

/// The variant name of a format, as its `Debug` text reads.
pub open spec fn debug_name_of(f: OutputFormat) -> Seq<char> {
    match f {
        OutputFormat::Svg => "Svg"@,
        OutputFormat::Png => "Png"@,
        OutputFormat::WebP => "WebP"@,
        OutputFormat::Pdf => "Pdf"@,
    }
}

/// The format named by an already lowercased text, if any.
pub open spec fn format_named(lower: Seq<char>) -> Option<OutputFormat> {
    if lower == "svg"@ {
        Some(OutputFormat::Svg)
    } else if lower == "png"@ {
        Some(OutputFormat::Png)
    } else if lower == "webp"@ {
        Some(OutputFormat::WebP)
    } else if lower == "pdf"@ {
        Some(OutputFormat::Pdf)
    } else {
        None
    }
}

impl OutputFormat {
    /// Return the MIME content type for this format.
    pub fn content_type(&self) -> (r: &'static str)
        ensures
            r@ == content_type_of(*self),
    {
        match self {
            OutputFormat::Svg => "image/svg+xml",
            OutputFormat::Png => "image/png",
            OutputFormat::WebP => "image/webp",
            OutputFormat::Pdf => "application/pdf",
        }
    }

    /// Return the file extension for this format.
    pub fn extension(&self) -> (r: &'static str)
        ensures
            r@ == extension_of(*self),
    {
        match self {
            OutputFormat::Svg => "svg",
            OutputFormat::Png => "png",
            OutputFormat::WebP => "webp",
            OutputFormat::Pdf => "pdf",
        }
    }

    /// The text that `Display` writes for this format: its extension.
    pub fn display_text(&self) -> (r: String)
        ensures
            r@ == extension_of(*self),
    {
        String::from_str(self.extension())
    }

    /// The variant name of this format, as `{:?}` writes it.
    pub fn debug_name(&self) -> (r: String)
        ensures
            r@ == debug_name_of(*self),
    {
        match self {
            OutputFormat::Svg => String::from_str("Svg"),
            OutputFormat::Png => String::from_str("Png"),
            OutputFormat::WebP => String::from_str("WebP"),
            OutputFormat::Pdf => String::from_str("Pdf"),
        }
    }

    /// Parse a format name, case-insensitively (`FromStr`).
    pub fn parse(s: &str) -> (r: Result<OutputFormat, String>)
        ensures
            format_named(lowercase(s@)) matches Some(f) ==> r == Ok::<OutputFormat, String>(f),
            format_named(lowercase(s@)) is None ==> (r matches Err(msg) && msg@
                == "unsupported output format: '"@ + lowercase(s@) + "'"@),
    {
        let lower = to_lower(s);
        let l = lower.as_str();
        if str_eq(l, "svg") {
            Ok(OutputFormat::Svg)
        } else if str_eq(l, "png") {
            Ok(OutputFormat::Png)
        } else if str_eq(l, "webp") {
            Ok(OutputFormat::WebP)
        } else if str_eq(l, "pdf") {
            Ok(OutputFormat::Pdf)
        } else {
            Err(join3("unsupported output format: '", l, "'"))
        }
    }
}

impl std::str::FromStr for OutputFormat {
    type Err = String;

    fn from_str(s: &str) -> (r: Result<Self, Self::Err>)
        ensures
            format_named(lowercase(s@)) matches Some(f) ==> r == Ok::<OutputFormat, String>(f),
            format_named(lowercase(s@)) is None ==> (r matches Err(msg) && msg@
                == "unsupported output format: '"@ + lowercase(s@) + "'"@),
    {
        OutputFormat::parse(s)
    }
}

/// Optional parameters for diagram generation.
#[derive(Debug, Clone)]
pub struct DiagramOptions {
    pub font_urls: Vec<String>,
    pub timeout_ms: Option<u64>,
}

impl Default for DiagramOptions {
    fn default() -> (r: Self)
        ensures
            r.font_urls@.len() == 0,
            r.timeout_ms is None,
    {
        DiagramOptions { font_urls: Vec::new(), timeout_ms: None }
    }
}

/// Request to generate a diagram.
#[derive(Debug, Clone)]
pub struct DiagramRequest {
    pub source: String,
    pub diagram_type: String,
    pub output_format: OutputFormat,
    pub options: DiagramOptions,
}

/// Response from diagram generation.
#[derive(Debug)]
pub struct DiagramResponse {
    pub data: Vec<u8>,
    pub content_type: String,
    pub duration_ms: u64,
}

/// One argument of a command line that a provider asks to run.
#[derive(Debug, Clone)]
pub enum CommandArg {
    /// A literal argument.
    Text(String),
    /// The path of the input file written for the command.
    InputPath,
    /// The path of the output file the command is expected to write.
    OutputPath,
}

/// A file written, before the command runs, into a fresh temporary directory.
#[derive(Debug, Clone)]
pub struct InputFile {
    pub name: String,
    pub contents: Vec<u8>,
}

/// An external command a provider needs run to make progress.
#[derive(Debug, Clone)]
pub struct CommandInvocation {
    pub program: String,
    pub args: Vec<CommandArg>,
    /// Bytes to write to standard input; `None` leaves standard input unpiped.
    pub stdin: Option<Vec<u8>>,
    pub input_file: Option<InputFile>,
    /// Name, inside the temporary directory, of the file the command writes.
    pub output_file: Option<String>,
    pub timeout_ms: u64,
}

/// What reading the command's output file gave.
#[derive(Debug)]
pub enum OutputRead {
    Read(Vec<u8>),
    Unreadable { path: String, reason: String },
    /// The invocation named no output file.
    NotRequested,
}

/// How a command that was started came to an end.
#[derive(Debug)]
pub struct CommandExit {
    pub success: bool,
    pub stdout: Vec<u8>,
    pub stderr: Vec<u8>,
    pub output: OutputRead,
    /// Milliseconds since generation started.
    pub elapsed_ms: u64,
}

/// The outcome of running a `CommandInvocation`.
#[derive(Debug)]
pub enum CommandOutcome {
    /// The program was not found.
    Missing,
    /// An I/O error: preparing files, starting the program or talking to it.
    Failed(std::io::Error),
    /// The command did not finish within its timeout.
    TimedOut,
    Finished(CommandExit),
}

/// Where generation stands after a step.
#[derive(Debug)]
pub enum RenderStep {
    /// The diagram is ready.
    Done(DiagramResponse),
    /// Run the invocation, then call `advance` with `stage` and its outcome.
    Run { stage: usize, invocation: CommandInvocation },
}

/// The abstract value of an error.
pub enum ErrorView {
    ValidationFailed(Seq<char>),
    ToolNotFound(Seq<char>),
    ExecutionTimeout { tool: Seq<char>, timeout_ms: u64 },
    ProcessFailed(Seq<char>),
    UnsupportedFormat { format: Seq<char>, provider: Seq<char> },
    Io(std::io::Error),
    Internal(Seq<char>),
}

impl View for DiagramError {
    type V = ErrorView;

    open spec fn view(&self) -> ErrorView {
        match self {
            DiagramError::ValidationFailed(m) => ErrorView::ValidationFailed(m@),
            DiagramError::ToolNotFound(m) => ErrorView::ToolNotFound(m@),
            DiagramError::ExecutionTimeout { tool, timeout_ms } => ErrorView::ExecutionTimeout {
                tool: tool@,
                timeout_ms: *timeout_ms,
            },
            DiagramError::ProcessFailed(m) => ErrorView::ProcessFailed(m@),
            DiagramError::UnsupportedFormat { format, provider } => ErrorView::UnsupportedFormat {
                format: format@,
                provider: provider@,
            },
            DiagramError::Io(e) => ErrorView::Io(*e),
            DiagramError::Internal(m) => ErrorView::Internal(m@),
        }
    }
}

/// The abstract value of a request.
pub struct RequestView {
    pub source: Seq<char>,
    pub diagram_type: Seq<char>,
    pub output_format: OutputFormat,
    pub font_urls: Seq<Seq<char>>,
    pub timeout_ms: Option<u64>,
}

impl View for DiagramRequest {
    type V = RequestView;

    open spec fn view(&self) -> RequestView {
        RequestView {
            source: self.source@,
            diagram_type: self.diagram_type@,
            output_format: self.output_format,
            font_urls: self.options.font_urls@.map_values(|u: String| u@),
            timeout_ms: self.options.timeout_ms,
        }
    }
}

/// The abstract value of a response.
pub struct ResponseView {
    pub data: Seq<u8>,
    pub content_type: Seq<char>,
    pub duration_ms: u64,
}

impl View for DiagramResponse {
    type V = ResponseView;

    open spec fn view(&self) -> ResponseView {
        ResponseView { data: self.data@, content_type: self.content_type@, duration_ms: self.duration_ms }
    }
}

/// The abstract value of a command-line argument.
pub enum ArgView {
    Text(Seq<char>),
    InputPath,
    OutputPath,
}

impl View for CommandArg {
    type V = ArgView;

    open spec fn view(&self) -> ArgView {
        match self {
            CommandArg::Text(t) => ArgView::Text(t@),
            CommandArg::InputPath => ArgView::InputPath,
            CommandArg::OutputPath => ArgView::OutputPath,
        }
    }
}

/// The abstract value of an invocation.
pub struct InvocationView {
    pub program: Seq<char>,
    pub args: Seq<ArgView>,
    pub stdin: Option<Seq<u8>>,
    pub input_file: Option<(Seq<char>, Seq<u8>)>,
    pub output_file: Option<Seq<char>>,
    pub timeout_ms: u64,
}

impl View for CommandInvocation {
    type V = InvocationView;

    open spec fn view(&self) -> InvocationView {
        InvocationView {
            program: self.program@,
            args: self.args@.map_values(|a: CommandArg| a@),
            stdin: match &self.stdin {
                Some(b) => Some(b@),
                None => None,
            },
            input_file: match &self.input_file {
                Some(f) => Some((f.name@, f.contents@)),
                None => None,
            },
            output_file: match &self.output_file {
                Some(f) => Some(f@),
                None => None,
            },
            timeout_ms: self.timeout_ms,
        }
    }
}

/// The abstract value of a step.
pub enum StepView {
    Done(ResponseView),
    Run { stage: usize, invocation: InvocationView },
}

impl View for RenderStep {
    type V = StepView;

    open spec fn view(&self) -> StepView {
        match self {
            RenderStep::Done(r) => StepView::Done(r@),
            RenderStep::Run { stage, invocation } => StepView::Run {
                stage: *stage,
                invocation: invocation@,
            },
        }
    }
}

/// A result, with both sides taken by their views.
pub open spec fn result_view<T: View>(r: DiagramResult<T>) -> Result<T::V, ErrorView> {
    match r {
        Ok(v) => Ok(v@),
        Err(e) => Err(e@),
    }
}

/// The central port: every diagram type implements this trait.
///
/// Generation is a sequence of steps: `start` decides the first step, and
/// each external command that a step asks for is run by the caller, whose
/// outcome `advance` turns into the next step.
pub trait DiagramProvider {
    /// Whether the provider accepts a diagram source.
    spec fn accepts(&self, source: Seq<char>) -> bool;

    /// The output formats the provider supports.
    spec fn formats(&self) -> Seq<OutputFormat>;

    /// Validate the diagram source before generation.
    fn validate(&self, source: &str) -> (r: DiagramResult<()>)
        ensures
            r is Ok <==> self.accepts(source@),
    ;

    /// Return the list of output formats this provider supports.
    fn supported_formats(&self) -> (r: Vec<OutputFormat>)
        ensures
            r@ == self.formats(),
    ;

    /// The first step of generating the requested diagram.
    fn start(&self, request: &DiagramRequest) -> (r: DiagramResult<RenderStep>)
        ensures
            !self.accepts(request.source@) ==> r is Err,
    ;

    /// The next step, once the command of step `stage` has ended with `outcome`.
    fn advance(&self, request: &DiagramRequest, stage: usize, outcome: CommandOutcome) -> DiagramResult<RenderStep>;
}

} // verus!
