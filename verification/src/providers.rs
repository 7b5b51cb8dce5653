//! Diagram provider implementations.
//!
//! Provider categories:
//! - Command: wraps CLI tools run as subprocesses (Graphviz, D2, Ditaa, ...)
//! - Browser: browser-evaluated engines (Mermaid, BPMN), disabled in this build
//! - Pipeline: multi-step conversion chains (Vega-Lite -> Vega -> SVG)
use crate::error::{DiagramError, DiagramResult};
use crate::ports::{
    ArgView, CommandArg, CommandExit, CommandInvocation, CommandOutcome, DiagramProvider,
    DiagramRequest, DiagramResponse, ErrorView, InputFile, InvocationView, OutputFormat,
    OutputRead, RenderStep, ResponseView, StepView, content_type_of, debug_name_of, result_view,
};
use crate::text::{blank, is_blank, join2, join3, lossy_text, owned, push_char, trim, trim_seq,
    utf8_bytes, utf8_lossy};
use vstd::prelude::*;
use vstd::string::*;
use vstd::utf8::encode_utf8;

verus! {

// ---------------------------------------------------------------------------
// Shared step logic
// ---------------------------------------------------------------------------

/// The timeout a request asks for, or the provider's default.
pub open spec fn timeout_for(req: crate::ports::RequestView, default_ms: u64) -> u64 {
    match req.timeout_ms {
        Some(t) => t,
        None => default_ms,
    }
}

fn effective_timeout(request: &DiagramRequest, default_ms: u64) -> (t: u64)
    ensures
        t == timeout_for(request@, default_ms),
{
    match request.options.timeout_ms {
        Some(t) => t,
        None => default_ms,
    }
}

/// The error a command's outcome maps to before the command has exited.
pub open spec fn launch_error(tool: Seq<char>, timeout_ms: u64, o: CommandOutcome) -> Option<
    ErrorView,
> {
    match o {
        CommandOutcome::Missing => Some(ErrorView::ToolNotFound(tool)),
        CommandOutcome::Failed(e) => Some(ErrorView::Io(e)),
        CommandOutcome::TimedOut => Some(ErrorView::ExecutionTimeout { tool, timeout_ms }),
        CommandOutcome::Finished(_) => None,
    }
}

/// The text of a failed command's standard error, trimmed.
pub open spec fn stderr_text(x: CommandExit) -> Seq<char> {
    trim_seq(utf8_lossy(x.stderr@))
}

/// The error for a tool that exited successfully but left no readable output.
pub open spec fn unreadable_output(label: Seq<char>, read: OutputRead) -> Seq<char> {
    match read {
        OutputRead::Unreadable { path, reason } => label + " succeeded but output file '"@
            + path@ + "' was unreadable: "@ + reason@,
        _ => label + " succeeded but wrote no output file"@,
    }
}

/// A successful response.
pub open spec fn done(data: Seq<u8>, content_type: Seq<char>, duration_ms: u64) -> Result<
    StepView,
    ErrorView,
> {
    Ok(StepView::Done(ResponseView { data, content_type, duration_ms }))
}

/// The next step of a provider whose tool writes the diagram to standard output.
pub open spec fn stdout_finish(
    tool: Seq<char>,
    timeout_ms: u64,
    content_type: Seq<char>,
    o: CommandOutcome,
) -> Result<StepView, ErrorView> {
    match launch_error(tool, timeout_ms, o) {
        Some(e) => Err(e),
        None => {
            let x = o->Finished_0;
            if !x.success {
                Err(ErrorView::ProcessFailed(stderr_text(x)))
            } else {
                done(x.stdout@, content_type, x.elapsed_ms)
            }
        },
    }
}

/// The next step of a provider whose tool writes the diagram to an output file.
pub open spec fn file_finish(
    tool: Seq<char>,
    timeout_ms: u64,
    content_type: Seq<char>,
    label: Seq<char>,
    o: CommandOutcome,
) -> Result<StepView, ErrorView> {
    match launch_error(tool, timeout_ms, o) {
        Some(e) => Err(e),
        None => {
            let x = o->Finished_0;
            if !x.success {
                Err(ErrorView::ProcessFailed(stderr_text(x)))
            } else {
                match x.output {
                    OutputRead::Read(d) => done(d@, content_type, x.elapsed_ms),
                    _ => Err(ErrorView::Internal(unreadable_output(label, x.output))),
                }
            }
        },
    }
}

/// Maps a command outcome to the exit report, or to the error the launch ended in.
pub fn settle(tool: &String, timeout_ms: u64, outcome: CommandOutcome) -> (r: Result<
    CommandExit,
    DiagramError,
>)
    ensures
        match r {
            Ok(x) => launch_error(tool@, timeout_ms, outcome) is None && outcome
                == CommandOutcome::Finished(x),
            Err(e) => launch_error(tool@, timeout_ms, outcome) == Some(e@),
        },
{
    match outcome {
        CommandOutcome::Missing => Err(DiagramError::ToolNotFound(tool.clone())),
        CommandOutcome::Failed(e) => Err(DiagramError::Io(e)),
        CommandOutcome::TimedOut => Err(
            DiagramError::ExecutionTimeout { tool: tool.clone(), timeout_ms },
        ),
        CommandOutcome::Finished(x) => Ok(x),
    }
}

/// The trimmed standard error of a command.
fn stderr_message(x: &CommandExit) -> (r: String)
    ensures
        r@ == stderr_text(*x),
{
    let text = lossy_text(x.stderr.as_slice());
    trim(text.as_str())
}

fn unreadable_message(label: &str, read: &OutputRead) -> (r: String)
    ensures
        r@ == unreadable_output(label@, *read),
{
    match read {
        OutputRead::Unreadable { path, reason } => {
            let mut m = join3(label, " succeeded but output file '", path.as_str());
            m.append("' was unreadable: ");
            m.append(reason.as_str());
            m
        },
        _ => join2(label, " succeeded but wrote no output file"),
    }
}

fn respond(data: Vec<u8>, content_type: &str, duration_ms: u64) -> (r: DiagramResult<RenderStep>)
    ensures
        result_view(r) == done(data@, content_type@, duration_ms),
{
    Ok(RenderStep::Done(DiagramResponse { data, content_type: owned(content_type), duration_ms }))
}

/// Finishes a provider whose tool writes to standard output.
pub fn finish_from_stdout(
    tool: &String,
    timeout_ms: u64,
    content_type: &str,
    outcome: CommandOutcome,
) -> (r: DiagramResult<RenderStep>)
    ensures
        result_view(r) == stdout_finish(tool@, timeout_ms, content_type@, outcome),
{
    match settle(tool, timeout_ms, outcome) {
        Err(e) => Err(e),
        Ok(x) => {
            if !x.success {
                Err(DiagramError::ProcessFailed(stderr_message(&x)))
            } else {
                respond(x.stdout, content_type, x.elapsed_ms)
            }
        },
    }
}

/// Finishes a provider whose tool writes an output file.
pub fn finish_from_file(
    tool: &String,
    timeout_ms: u64,
    content_type: &str,
    label: &str,
    outcome: CommandOutcome,
) -> (r: DiagramResult<RenderStep>)
    ensures
        result_view(r) == file_finish(tool@, timeout_ms, content_type@, label@, outcome),
{
    match settle(tool, timeout_ms, outcome) {
        Err(e) => Err(e),
        Ok(x) => {
            if !x.success {
                Err(DiagramError::ProcessFailed(stderr_message(&x)))
            } else {
                let msg = unreadable_message(label, &x.output);
                match x.output {
                    OutputRead::Read(d) => respond(d, content_type, x.elapsed_ms),
                    _ => Err(DiagramError::Internal(msg)),
                }
            }
        },
    }
}

/// The error for a step a provider never asked for.
pub open spec fn unexpected_stage() -> ErrorView {
    ErrorView::Internal("unexpected render stage"@)
}

fn unexpected_stage_error() -> (e: DiagramError)
    ensures
        e@ == unexpected_stage(),
{
    DiagramError::Internal(owned("unexpected render stage"))
}

/// The error for a source that is blank.
pub open spec fn empty_source(label: Seq<char>) -> ErrorView {
    ErrorView::ValidationFailed(label + " source must not be empty"@)
}

/// Validation shared by every provider: the source must not be blank.
fn check_source(source: &str, label: &str) -> (r: DiagramResult<()>)
    ensures
        r is Ok <==> !blank(source@),
        r matches Err(e) ==> e@ == empty_source(label@),
{
    if is_blank(source) {
        Err(DiagramError::ValidationFailed(join2(label, " source must not be empty")))
    } else {
        Ok(())
    }
}

/// The error for an output format a provider does not render.
pub open spec fn unsupported(f: OutputFormat, provider: Seq<char>) -> ErrorView {
    ErrorView::UnsupportedFormat { format: debug_name_of(f), provider }
}

fn unsupported_error(f: OutputFormat, provider: &str) -> (e: DiagramError)
    ensures
        e@ == unsupported(f, provider@),
{
    DiagramError::UnsupportedFormat { format: f.debug_name(), provider: owned(provider) }
}

/// A step that runs one invocation.
pub open spec fn run(stage: usize, inv: InvocationView) -> Result<StepView, ErrorView> {
    Ok(StepView::Run { stage, invocation: inv })
}

fn text_arg(s: &str) -> (a: CommandArg)
    ensures
        a@ == ArgView::Text(s@),
{
    CommandArg::Text(owned(s))
}

} // verus!

verus! {

// ---------------------------------------------------------------------------
// Escaped whitespace
// ---------------------------------------------------------------------------

/// `s` with every `\` followed by `letter` replaced by `with`, scanning from
/// the left without overlaps, as `str::replace` does for a two-character pattern.
pub open spec fn replace_escape(s: Seq<char>, letter: char, with: char) -> Seq<char>
    decreases s.len(),
{
    if s.len() == 0 {
        s
    } else if s.len() >= 2 && s[0] == '\\' && s[1] == letter {
        seq![with] + replace_escape(s.subrange(2, s.len() as int), letter, with)
    } else {
        seq![s[0]] + replace_escape(s.drop_first(), letter, with)
    }
}

/// Escaped newlines and tabs (`\n`, `\t` written as two characters) turned
/// into the characters themselves, newlines first.
pub open spec fn normalized(s: Seq<char>) -> Seq<char> {
    replace_escape(replace_escape(s, 'n', '\n'), 't', '\t')
}

fn replace_escaped(s: &str, letter: char, with: char) -> (r: String)
    ensures
        r@ == replace_escape(s@, letter, with),
{
    let v = chars_of_str(s);
    let n = v.len();
    let mut r = String::new();
    let mut i: usize = 0;
    assert(v@.subrange(0, n as int) =~= v@);
    while i < n
        invariant
            i <= n == v@.len(),
            v@ == s@,
            replace_escape(s@, letter, with) == r@ + replace_escape(
                v@.subrange(i as int, n as int),
                letter,
                with,
            ),
        decreases n - i,
    {
        let ghost rest = v@.subrange(i as int, n as int);
        if i + 1 < n && v[i] == '\\' && v[i + 1] == letter {
            assert(rest.subrange(2, rest.len() as int) =~= v@.subrange(i + 2, n as int));
            push_char(&mut r, with);
            i = i + 2;
        } else {
            assert(rest.drop_first() =~= v@.subrange(i + 1, n as int));
            push_char(&mut r, v[i]);
            i = i + 1;
        }
    }
    r
}

fn chars_of_str(s: &str) -> (v: Vec<char>)
    ensures
        v@ == s@,
{
    crate::text::chars_of(s)
}

/// Turns escaped `\n` and `\t` sequences into newlines and tabs.
pub fn normalize_escaped_whitespace(source: &str) -> (r: String)
    ensures
        r@ == normalized(source@),
{
    let first = replace_escaped(source, 'n', '\n');
    replace_escaped(first.as_str(), 't', '\t')
}

} // verus!

verus! {

// ---------------------------------------------------------------------------
// Echo
// ---------------------------------------------------------------------------

/// Minimal bootstrap provider used to validate end-to-end request flow.
///
/// It returns a deterministic text payload and does not execute external tools.
pub struct EchoProvider;

/// The SVG text the echo provider answers with.
pub open spec fn echo_payload(diagram_type: Seq<char>, source: Seq<char>) -> Seq<char> {
    "<svg xmlns=\"http://www.w3.org/2000/svg\" width=\"100\" height=\"100\"><!-- bootstrap-echo:"@
        + diagram_type + ":"@ + source + " --></svg>"@
}

/// The first (and only) step of the echo provider.
pub open spec fn echo_start(req: crate::ports::RequestView) -> Result<StepView, ErrorView> {
    if blank(req.source) {
        Err(empty_source("diagram"@))
    } else if req.output_format != OutputFormat::Svg {
        Err(unsupported(req.output_format, "echo"@))
    } else {
        done(encode_utf8(echo_payload(req.diagram_type, req.source)), "image/svg+xml"@, 0)
    }
}

impl EchoProvider {
    pub fn new() -> (p: Self) {
        EchoProvider
    }
}

impl Default for EchoProvider {
    fn default() -> (p: Self) {
        Self::new()
    }
}

impl DiagramProvider for EchoProvider {
    open spec fn accepts(&self, source: Seq<char>) -> bool {
        !blank(source)
    }

    open spec fn formats(&self) -> Seq<OutputFormat> {
        seq![OutputFormat::Svg]
    }

    fn validate(&self, source: &str) -> (r: DiagramResult<()>)
        ensures
            r matches Err(e) ==> e@ == empty_source("diagram"@),
    {
        check_source(source, "diagram")
    }

    fn supported_formats(&self) -> (r: Vec<OutputFormat>)
        ensures
            r@ == self.formats(),
    {
        vec![OutputFormat::Svg]
    }

    fn start(&self, request: &DiagramRequest) -> (r: DiagramResult<RenderStep>)
        ensures
            result_view(r) == echo_start(request@),
    {
        self.validate(request.source.as_str())?;
        if request.output_format != OutputFormat::Svg {
            return Err(unsupported_error(request.output_format, "echo"));
        }
        let mut payload = String::from_str(
            "<svg xmlns=\"http://www.w3.org/2000/svg\" width=\"100\" height=\"100\"><!-- bootstrap-echo:",
        );
        payload.append(request.diagram_type.as_str());
        payload.append(":");
        payload.append(request.source.as_str());
        payload.append(" --></svg>");
        respond(utf8_bytes(payload.as_str()), "image/svg+xml", 0)
    }

    fn advance(&self, request: &DiagramRequest, stage: usize, outcome: CommandOutcome) -> (r:
        DiagramResult<RenderStep>)
        ensures
            result_view(r) == Err::<StepView, ErrorView>(unexpected_stage()),
    {
        Err(unexpected_stage_error())
    }
}

// ---------------------------------------------------------------------------
// Graphviz
// ---------------------------------------------------------------------------

/// Command-based Graphviz provider: `dot -Tsvg`, source on standard input.
pub struct GraphvizProvider {
    dot_binary: String,
    default_timeout_ms: u64,
}

/// The first step of the Graphviz provider.
pub open spec fn graphviz_start(binary: Seq<char>, default_ms: u64, req: crate::ports::RequestView) -> Result<
    StepView,
    ErrorView,
> {
    if blank(req.source) {
        Err(empty_source("graphviz"@))
    } else if req.output_format != OutputFormat::Svg {
        Err(unsupported(req.output_format, "graphviz"@))
    } else {
        run(
            0,
            InvocationView {
                program: binary,
                args: seq![ArgView::Text("-Tsvg"@)],
                stdin: Some(encode_utf8(normalized(req.source))),
                input_file: None,
                output_file: None,
                timeout_ms: timeout_for(req, default_ms),
            },
        )
    }
}

impl GraphvizProvider {
    /// The program the provider runs.
    pub closed spec fn binary(&self) -> Seq<char> {
        self.dot_binary@
    }

    /// The timeout used when a request names none.
    pub closed spec fn default_timeout(&self) -> u64 {
        self.default_timeout_ms
    }

    pub fn new() -> (p: Self)
        ensures
            p.binary() == "dot"@,
            p.default_timeout() == 5000,
    {
        GraphvizProvider { dot_binary: owned("dot"), default_timeout_ms: 5_000 }
    }

    pub fn with_binary(binary: &str) -> (p: Self)
        ensures
            p.binary() == binary@,
            p.default_timeout() == 5000,
    {
        GraphvizProvider { dot_binary: owned(binary), default_timeout_ms: 5_000 }
    }
}

impl Default for GraphvizProvider {
    fn default() -> (p: Self) {
        Self::new()
    }
}

impl DiagramProvider for GraphvizProvider {
    open spec fn accepts(&self, source: Seq<char>) -> bool {
        !blank(source)
    }

    open spec fn formats(&self) -> Seq<OutputFormat> {
        seq![OutputFormat::Svg]
    }

    fn validate(&self, source: &str) -> (r: DiagramResult<()>)
        ensures
            r matches Err(e) ==> e@ == empty_source("graphviz"@),
    {
        check_source(source, "graphviz")
    }

    fn supported_formats(&self) -> (r: Vec<OutputFormat>)
        ensures
            r@ == self.formats(),
    {
        vec![OutputFormat::Svg]
    }

    fn start(&self, request: &DiagramRequest) -> (r: DiagramResult<RenderStep>)
        ensures
            result_view(r) == graphviz_start(self.binary(), self.default_timeout(), request@),
    {
        self.validate(request.source.as_str())?;
        let source = normalize_escaped_whitespace(request.source.as_str());
        if request.output_format != OutputFormat::Svg {
            return Err(unsupported_error(request.output_format, "graphviz"));
        }
        let timeout_ms = effective_timeout(request, self.default_timeout_ms);
        let invocation = CommandInvocation {
            program: self.dot_binary.clone(),
            args: vec![text_arg("-Tsvg")],
            stdin: Some(utf8_bytes(source.as_str())),
            input_file: None,
            output_file: None,
            timeout_ms,
        };
        assert(invocation@.args =~= seq![ArgView::Text("-Tsvg"@)]);
        Ok(RenderStep::Run { stage: 0, invocation })
    }

    fn advance(&self, request: &DiagramRequest, stage: usize, outcome: CommandOutcome) -> (r:
        DiagramResult<RenderStep>)
        ensures
            stage == 0 ==> result_view(r) == stdout_finish(
                self.binary(),
                timeout_for(request@, self.default_timeout()),
                "image/svg+xml"@,
                outcome,
            ),
            stage != 0 ==> result_view(r) == Err::<StepView, ErrorView>(unexpected_stage()),
    {
        if stage != 0 {
            return Err(unexpected_stage_error());
        }
        let timeout_ms = effective_timeout(request, self.default_timeout_ms);
        finish_from_stdout(&self.dot_binary, timeout_ms, "image/svg+xml", outcome)
    }
}

} // verus!

verus! {

// ---------------------------------------------------------------------------
// D2Provider
// ---------------------------------------------------------------------------

/// Command-based D2 provider: `d2 <input> <output>`.
pub struct D2Provider {
    d2_binary: String,
    default_timeout_ms: u64,
}

impl D2Provider {
    /// The program the provider runs.
    pub closed spec fn binary(&self) -> Seq<char> {
        self.d2_binary@
    }

    /// The timeout used when a request names none.
    pub closed spec fn default_timeout(&self) -> u64 {
        self.default_timeout_ms
    }

    pub fn new() -> (p: Self)
        ensures
            p.binary() == "d2"@,
            p.default_timeout() == 5000,
    {
        D2Provider { d2_binary: owned("d2"), default_timeout_ms: 5000 }
    }

    pub fn with_binary(binary: &str) -> (p: Self)
        ensures
            p.binary() == binary@,
            p.default_timeout() == 5000,
    {
        D2Provider { d2_binary: owned(binary), default_timeout_ms: 5000 }
    }
}

impl Default for D2Provider {
    fn default() -> (p: Self) {
        Self::new()
    }
}

/// The first step of the D2Provider.
pub open spec fn d2_start(binary: Seq<char>, default_ms: u64, req: crate::ports::RequestView) -> Result<
    StepView,
    ErrorView,
> {
    if blank(req.source) {
        Err(empty_source("d2"@))
    } else if req.output_format != OutputFormat::Svg {
        Err(unsupported(req.output_format, "d2"@))
    } else {
        run(
            0,
            InvocationView {
                program: binary,
                args: seq![ArgView::InputPath, ArgView::OutputPath],
                stdin: None,
                input_file: Some(("diagram.d2"@, encode_utf8(req.source))),
                output_file: Some("diagram.svg"@),
                timeout_ms: timeout_for(req, default_ms),
            },
        )
    }
}

impl DiagramProvider for D2Provider {
    open spec fn accepts(&self, source: Seq<char>) -> bool {
        !blank(source)
    }

    open spec fn formats(&self) -> Seq<OutputFormat> {
        seq![OutputFormat::Svg]
    }

    fn validate(&self, source: &str) -> (r: DiagramResult<()>)
        ensures
            r matches Err(e) ==> e@ == empty_source("d2"@),
    {
        check_source(source, "d2")
    }

    fn supported_formats(&self) -> (r: Vec<OutputFormat>)
        ensures
            r@ == self.formats(),
    {
        vec![OutputFormat::Svg]
    }

    fn start(&self, request: &DiagramRequest) -> (r: DiagramResult<RenderStep>)
        ensures
            result_view(r) == d2_start(self.binary(), self.default_timeout(), request@),
    {
        self.validate(request.source.as_str())?;
        if request.output_format != OutputFormat::Svg {
            return Err(unsupported_error(request.output_format, "d2"));
        }
        let timeout_ms = effective_timeout(request, self.default_timeout_ms);
        let invocation = CommandInvocation {
            program: self.d2_binary.clone(),
            args: vec![CommandArg::InputPath, CommandArg::OutputPath],
            stdin: None,
            input_file: Some(InputFile {
                name: owned("diagram.d2"),
                contents: utf8_bytes(request.source.as_str()),
            }),
            output_file: Some(owned("diagram.svg")),
            timeout_ms,
        };
        assert(invocation@.args =~= seq![ArgView::InputPath, ArgView::OutputPath]);
        Ok(RenderStep::Run { stage: 0, invocation })
    }

    fn advance(&self, request: &DiagramRequest, stage: usize, outcome: CommandOutcome) -> (r:
        DiagramResult<RenderStep>)
        ensures
            stage == 0 ==> result_view(r) == file_finish(
                self.binary(),
                timeout_for(request@, self.default_timeout()),
                "image/svg+xml"@,
                "d2"@,
                outcome,
            ),
            stage != 0 ==> result_view(r) == Err::<StepView, ErrorView>(unexpected_stage()),
    {
        if stage != 0 {
            return Err(unexpected_stage_error());
        }
        let timeout_ms = effective_timeout(request, self.default_timeout_ms);
        finish_from_file(&self.d2_binary, timeout_ms, "image/svg+xml", "d2", outcome)
    }
}

// ---------------------------------------------------------------------------
// WavedromProvider
// ---------------------------------------------------------------------------

/// Command-based Wavedrom provider: `wavedrom-cli -i <input> -s <output>`.
pub struct WavedromProvider {
    binary: String,
    default_timeout_ms: u64,
}

impl WavedromProvider {
    /// The program the provider runs.
    pub closed spec fn binary(&self) -> Seq<char> {
        self.binary@
    }

    /// The timeout used when a request names none.
    pub closed spec fn default_timeout(&self) -> u64 {
        self.default_timeout_ms
    }

    pub fn new() -> (p: Self)
        ensures
            p.binary() == "wavedrom-cli"@,
            p.default_timeout() == 5000,
    {
        WavedromProvider { binary: owned("wavedrom-cli"), default_timeout_ms: 5000 }
    }

    pub fn with_binary(binary: &str) -> (p: Self)
        ensures
            p.binary() == binary@,
            p.default_timeout() == 5000,
    {
        WavedromProvider { binary: owned(binary), default_timeout_ms: 5000 }
    }
}

impl Default for WavedromProvider {
    fn default() -> (p: Self) {
        Self::new()
    }
}

/// The first step of the WavedromProvider.
pub open spec fn wavedrom_start(binary: Seq<char>, default_ms: u64, req: crate::ports::RequestView) -> Result<
    StepView,
    ErrorView,
> {
    if blank(req.source) {
        Err(empty_source("wavedrom"@))
    } else if req.output_format != OutputFormat::Svg {
        Err(unsupported(req.output_format, "wavedrom"@))
    } else {
        run(
            0,
            InvocationView {
                program: binary,
                args: seq![ArgView::Text("-i"@), ArgView::InputPath, ArgView::Text("-s"@), ArgView::OutputPath],
                stdin: None,
                input_file: Some(("diagram.json"@, encode_utf8(req.source))),
                output_file: Some("diagram.svg"@),
                timeout_ms: timeout_for(req, default_ms),
            },
        )
    }
}

impl DiagramProvider for WavedromProvider {
    open spec fn accepts(&self, source: Seq<char>) -> bool {
        !blank(source)
    }

    open spec fn formats(&self) -> Seq<OutputFormat> {
        seq![OutputFormat::Svg]
    }

    fn validate(&self, source: &str) -> (r: DiagramResult<()>)
        ensures
            r matches Err(e) ==> e@ == empty_source("wavedrom"@),
    {
        check_source(source, "wavedrom")
    }

    fn supported_formats(&self) -> (r: Vec<OutputFormat>)
        ensures
            r@ == self.formats(),
    {
        vec![OutputFormat::Svg]
    }

    fn start(&self, request: &DiagramRequest) -> (r: DiagramResult<RenderStep>)
        ensures
            result_view(r) == wavedrom_start(self.binary(), self.default_timeout(), request@),
    {
        self.validate(request.source.as_str())?;
        if request.output_format != OutputFormat::Svg {
            return Err(unsupported_error(request.output_format, "wavedrom"));
        }
        let timeout_ms = effective_timeout(request, self.default_timeout_ms);
        let invocation = CommandInvocation {
            program: self.binary.clone(),
            args: vec![text_arg("-i"), CommandArg::InputPath, text_arg("-s"), CommandArg::OutputPath],
            stdin: None,
            input_file: Some(InputFile {
                name: owned("diagram.json"),
                contents: utf8_bytes(request.source.as_str()),
            }),
            output_file: Some(owned("diagram.svg")),
            timeout_ms,
        };
        assert(invocation@.args =~= seq![ArgView::Text("-i"@), ArgView::InputPath, ArgView::Text("-s"@), ArgView::OutputPath]);
        Ok(RenderStep::Run { stage: 0, invocation })
    }

    fn advance(&self, request: &DiagramRequest, stage: usize, outcome: CommandOutcome) -> (r:
        DiagramResult<RenderStep>)
        ensures
            stage == 0 ==> result_view(r) == file_finish(
                self.binary(),
                timeout_for(request@, self.default_timeout()),
                "image/svg+xml"@,
                "wavedrom"@,
                outcome,
            ),
            stage != 0 ==> result_view(r) == Err::<StepView, ErrorView>(unexpected_stage()),
    {
        if stage != 0 {
            return Err(unexpected_stage_error());
        }
        let timeout_ms = effective_timeout(request, self.default_timeout_ms);
        finish_from_file(&self.binary, timeout_ms, "image/svg+xml", "wavedrom", outcome)
    }
}

// ---------------------------------------------------------------------------
// ExcalidrawProvider
// ---------------------------------------------------------------------------

/// Command-based Excalidraw provider: source on standard input.
pub struct ExcalidrawProvider {
    binary: String,
    default_timeout_ms: u64,
}

impl ExcalidrawProvider {
    /// The program the provider runs.
    pub closed spec fn binary(&self) -> Seq<char> {
        self.binary@
    }

    /// The timeout used when a request names none.
    pub closed spec fn default_timeout(&self) -> u64 {
        self.default_timeout_ms
    }

    pub fn new() -> (p: Self)
        ensures
            p.binary() == "excalidraw"@,
            p.default_timeout() == 5000,
    {
        ExcalidrawProvider { binary: owned("excalidraw"), default_timeout_ms: 5000 }
    }

    pub fn with_binary(binary: &str) -> (p: Self)
        ensures
            p.binary() == binary@,
            p.default_timeout() == 5000,
    {
        ExcalidrawProvider { binary: owned(binary), default_timeout_ms: 5000 }
    }
}

impl Default for ExcalidrawProvider {
    fn default() -> (p: Self) {
        Self::new()
    }
}

/// The first step of the ExcalidrawProvider.
pub open spec fn excalidraw_start(binary: Seq<char>, default_ms: u64, req: crate::ports::RequestView) -> Result<
    StepView,
    ErrorView,
> {
    if blank(req.source) {
        Err(empty_source("excalidraw"@))
    } else if req.output_format != OutputFormat::Svg {
        Err(unsupported(req.output_format, "excalidraw"@))
    } else {
        run(
            0,
            InvocationView {
                program: binary,
                args: Seq::empty(),
                stdin: Some(encode_utf8(req.source)),
                input_file: None,
                output_file: None,
                timeout_ms: timeout_for(req, default_ms),
            },
        )
    }
}

impl DiagramProvider for ExcalidrawProvider {
    open spec fn accepts(&self, source: Seq<char>) -> bool {
        !blank(source)
    }

    open spec fn formats(&self) -> Seq<OutputFormat> {
        seq![OutputFormat::Svg]
    }

    fn validate(&self, source: &str) -> (r: DiagramResult<()>)
        ensures
            r matches Err(e) ==> e@ == empty_source("excalidraw"@),
    {
        check_source(source, "excalidraw")
    }

    fn supported_formats(&self) -> (r: Vec<OutputFormat>)
        ensures
            r@ == self.formats(),
    {
        vec![OutputFormat::Svg]
    }

    fn start(&self, request: &DiagramRequest) -> (r: DiagramResult<RenderStep>)
        ensures
            result_view(r) == excalidraw_start(self.binary(), self.default_timeout(), request@),
    {
        self.validate(request.source.as_str())?;
        if request.output_format != OutputFormat::Svg {
            return Err(unsupported_error(request.output_format, "excalidraw"));
        }
        let timeout_ms = effective_timeout(request, self.default_timeout_ms);
        let invocation = CommandInvocation {
            program: self.binary.clone(),
            args: Vec::new(),
            stdin: Some(utf8_bytes(request.source.as_str())),
            input_file: None,
            output_file: None,
            timeout_ms,
        };
        assert(invocation@.args =~= Seq::<ArgView>::empty());
        Ok(RenderStep::Run { stage: 0, invocation })
    }

    fn advance(&self, request: &DiagramRequest, stage: usize, outcome: CommandOutcome) -> (r:
        DiagramResult<RenderStep>)
        ensures
            stage == 0 ==> result_view(r) == stdout_finish(
                self.binary(),
                timeout_for(request@, self.default_timeout()),
                "image/svg+xml"@,
                outcome,
            ),
            stage != 0 ==> result_view(r) == Err::<StepView, ErrorView>(unexpected_stage()),
    {
        if stage != 0 {
            return Err(unexpected_stage_error());
        }
        let timeout_ms = effective_timeout(request, self.default_timeout_ms);
        finish_from_stdout(&self.binary, timeout_ms, "image/svg+xml", outcome)
    }
}

// ---------------------------------------------------------------------------
// VegaProvider
// ---------------------------------------------------------------------------

/// Pipeline-based Vega provider: `vg2svg`, source on standard input.
pub struct VegaProvider {
    binary: String,
    default_timeout_ms: u64,
}

impl VegaProvider {
    /// The program the provider runs.
    pub closed spec fn binary(&self) -> Seq<char> {
        self.binary@
    }

    /// The timeout used when a request names none.
    pub closed spec fn default_timeout(&self) -> u64 {
        self.default_timeout_ms
    }

    pub fn new() -> (p: Self)
        ensures
            p.binary() == "vg2svg"@,
            p.default_timeout() == 10000,
    {
        VegaProvider { binary: owned("vg2svg"), default_timeout_ms: 10000 }
    }

    pub fn with_binary(binary: &str) -> (p: Self)
        ensures
            p.binary() == binary@,
            p.default_timeout() == 10000,
    {
        VegaProvider { binary: owned(binary), default_timeout_ms: 10000 }
    }
}

impl Default for VegaProvider {
    fn default() -> (p: Self) {
        Self::new()
    }
}

/// The first step of the VegaProvider.
pub open spec fn vega_start(binary: Seq<char>, default_ms: u64, req: crate::ports::RequestView) -> Result<
    StepView,
    ErrorView,
> {
    if blank(req.source) {
        Err(empty_source("vega"@))
    } else if req.output_format != OutputFormat::Svg {
        Err(unsupported(req.output_format, "vega"@))
    } else {
        run(
            0,
            InvocationView {
                program: binary,
                args: Seq::empty(),
                stdin: Some(encode_utf8(req.source)),
                input_file: None,
                output_file: None,
                timeout_ms: timeout_for(req, default_ms),
            },
        )
    }
}

impl DiagramProvider for VegaProvider {
    open spec fn accepts(&self, source: Seq<char>) -> bool {
        !blank(source)
    }

    open spec fn formats(&self) -> Seq<OutputFormat> {
        seq![OutputFormat::Svg]
    }

    fn validate(&self, source: &str) -> (r: DiagramResult<()>)
        ensures
            r matches Err(e) ==> e@ == empty_source("vega"@),
    {
        check_source(source, "vega")
    }

    fn supported_formats(&self) -> (r: Vec<OutputFormat>)
        ensures
            r@ == self.formats(),
    {
        vec![OutputFormat::Svg]
    }

    fn start(&self, request: &DiagramRequest) -> (r: DiagramResult<RenderStep>)
        ensures
            result_view(r) == vega_start(self.binary(), self.default_timeout(), request@),
    {
        self.validate(request.source.as_str())?;
        if request.output_format != OutputFormat::Svg {
            return Err(unsupported_error(request.output_format, "vega"));
        }
        let timeout_ms = effective_timeout(request, self.default_timeout_ms);
        let invocation = CommandInvocation {
            program: self.binary.clone(),
            args: Vec::new(),
            stdin: Some(utf8_bytes(request.source.as_str())),
            input_file: None,
            output_file: None,
            timeout_ms,
        };
        assert(invocation@.args =~= Seq::<ArgView>::empty());
        Ok(RenderStep::Run { stage: 0, invocation })
    }

    fn advance(&self, request: &DiagramRequest, stage: usize, outcome: CommandOutcome) -> (r:
        DiagramResult<RenderStep>)
        ensures
            stage == 0 ==> result_view(r) == stdout_finish(
                self.binary(),
                timeout_for(request@, self.default_timeout()),
                content_type_of(request@.output_format),
                outcome,
            ),
            stage != 0 ==> result_view(r) == Err::<StepView, ErrorView>(unexpected_stage()),
    {
        if stage != 0 {
            return Err(unexpected_stage_error());
        }
        let timeout_ms = effective_timeout(request, self.default_timeout_ms);
        finish_from_stdout(&self.binary, timeout_ms, request.output_format.content_type(), outcome)
    }
}

} // verus!

verus! {

// ---------------------------------------------------------------------------
// Ditaa
// ---------------------------------------------------------------------------

/// Command-based Ditaa provider: `ditaa [--svg] <input> <output>`, PNG or SVG.
pub struct DitaaProvider {
    binary: String,
    default_timeout_ms: u64,
}

/// The content type Ditaa output carries for a (supported) format.
pub open spec fn ditaa_content_type(f: OutputFormat) -> Seq<char> {
    if f == OutputFormat::Svg {
        "image/svg+xml"@
    } else {
        "image/png"@
    }
}

/// The first step of the Ditaa provider.
pub open spec fn ditaa_start(binary: Seq<char>, default_ms: u64, req: crate::ports::RequestView) -> Result<
    StepView,
    ErrorView,
> {
    if blank(req.source) {
        Err(empty_source("ditaa"@))
    } else if req.output_format != OutputFormat::Svg && req.output_format != OutputFormat::Png {
        Err(unsupported(req.output_format, "ditaa"@))
    } else {
        let svg = req.output_format == OutputFormat::Svg;
        run(
            0,
            InvocationView {
                program: binary,
                args: if svg {
                    seq![ArgView::Text("--svg"@), ArgView::InputPath, ArgView::OutputPath]
                } else {
                    seq![ArgView::InputPath, ArgView::OutputPath]
                },
                stdin: None,
                input_file: Some(("diagram.ditaa"@, encode_utf8(req.source))),
                output_file: Some(
                    if svg {
                        "diagram.svg"@
                    } else {
                        "diagram.png"@
                    },
                ),
                timeout_ms: timeout_for(req, default_ms),
            },
        )
    }
}

impl DitaaProvider {
    /// The program the provider runs.
    pub closed spec fn binary(&self) -> Seq<char> {
        self.binary@
    }

    /// The timeout used when a request names none.
    pub closed spec fn default_timeout(&self) -> u64 {
        self.default_timeout_ms
    }

    pub fn new() -> (p: Self)
        ensures
            p.binary() == "ditaa"@,
            p.default_timeout() == 5000,
    {
        DitaaProvider { binary: owned("ditaa"), default_timeout_ms: 5000 }
    }

    pub fn with_binary(binary: &str) -> (p: Self)
        ensures
            p.binary() == binary@,
            p.default_timeout() == 5000,
    {
        DitaaProvider { binary: owned(binary), default_timeout_ms: 5000 }
    }
}

impl Default for DitaaProvider {
    fn default() -> (p: Self) {
        Self::new()
    }
}

impl DiagramProvider for DitaaProvider {
    open spec fn accepts(&self, source: Seq<char>) -> bool {
        !blank(source)
    }

    open spec fn formats(&self) -> Seq<OutputFormat> {
        seq![OutputFormat::Png, OutputFormat::Svg]
    }

    fn validate(&self, source: &str) -> (r: DiagramResult<()>)
        ensures
            r matches Err(e) ==> e@ == empty_source("ditaa"@),
    {
        check_source(source, "ditaa")
    }

    fn supported_formats(&self) -> (r: Vec<OutputFormat>)
        ensures
            r@ == self.formats(),
    {
        vec![OutputFormat::Png, OutputFormat::Svg]
    }

    fn start(&self, request: &DiagramRequest) -> (r: DiagramResult<RenderStep>)
        ensures
            result_view(r) == ditaa_start(self.binary(), self.default_timeout(), request@),
    {
        self.validate(request.source.as_str())?;
        if request.output_format != OutputFormat::Svg && request.output_format
            != OutputFormat::Png {
            return Err(unsupported_error(request.output_format, "ditaa"));
        }
        let timeout_ms = effective_timeout(request, self.default_timeout_ms);
        let svg = request.output_format == OutputFormat::Svg;
        let output_name = if svg {
            owned("diagram.svg")
        } else {
            owned("diagram.png")
        };
        let mut args: Vec<CommandArg> = Vec::new();
        if svg {
            args.push(text_arg("--svg"));
        }
        args.push(CommandArg::InputPath);
        args.push(CommandArg::OutputPath);
        let invocation = CommandInvocation {
            program: self.binary.clone(),
            args,
            stdin: None,
            input_file: Some(
                InputFile {
                    name: owned("diagram.ditaa"),
                    contents: utf8_bytes(request.source.as_str()),
                },
            ),
            output_file: Some(output_name),
            timeout_ms,
        };
        if svg {
            assert(invocation@.args =~= seq![
                ArgView::Text("--svg"@),
                ArgView::InputPath,
                ArgView::OutputPath,
            ]);
        } else {
            assert(invocation@.args =~= seq![ArgView::InputPath, ArgView::OutputPath]);
        }
        Ok(RenderStep::Run { stage: 0, invocation })
    }

    fn advance(&self, request: &DiagramRequest, stage: usize, outcome: CommandOutcome) -> (r:
        DiagramResult<RenderStep>)
        ensures
            stage == 0 ==> result_view(r) == file_finish(
                self.binary(),
                timeout_for(request@, self.default_timeout()),
                ditaa_content_type(request@.output_format),
                "ditaa"@,
                outcome,
            ),
            stage != 0 ==> result_view(r) == Err::<StepView, ErrorView>(unexpected_stage()),
    {
        if stage != 0 {
            return Err(unexpected_stage_error());
        }
        let timeout_ms = effective_timeout(request, self.default_timeout_ms);
        let content_type = if request.output_format == OutputFormat::Svg {
            "image/svg+xml"
        } else {
            "image/png"
        };
        finish_from_file(&self.binary, timeout_ms, content_type, "ditaa", outcome)
    }
}

// ---------------------------------------------------------------------------
// Browser-backed providers (browser runtime disabled in this build)
// ---------------------------------------------------------------------------

/// The answer of a browser-backed provider in a build without the browser runtime.
pub open spec fn browser_start(label: Seq<char>, req: crate::ports::RequestView) -> Result<
    StepView,
    ErrorView,
> {
    if blank(req.source) {
        Err(empty_source(label))
    } else if req.output_format != OutputFormat::Svg {
        Err(unsupported(req.output_format, label))
    } else {
        Err(
            ErrorView::ToolNotFound(
                "native-browser feature disabled for "@ + label + " provider"@,
            ),
        )
    }
}

fn browser_disabled(request: &DiagramRequest, label: &str) -> (r: DiagramResult<RenderStep>)
    ensures
        result_view(r) == browser_start(label@, request@),
{
    check_source(request.source.as_str(), label)?;
    if request.output_format != OutputFormat::Svg {
        return Err(unsupported_error(request.output_format, label));
    }
    Err(
        DiagramError::ToolNotFound(
            join3("native-browser feature disabled for ", label, " provider"),
        ),
    )
}

/// Browser-backed Mermaid provider.
///
/// In this build the browser runtime is disabled and rendering reports a
/// feature-gating error; the `mmdc` command path is kept for the browser build.
pub struct MermaidProvider {
    mmdc_binary: String,
    default_timeout_ms: u64,
}

/// What a failed `mmdc` run reports: its standard error, or, when that is
/// empty, its standard output.
pub open spec fn mmdc_failure_text(x: CommandExit) -> Seq<char> {
    if stderr_text(x).len() == 0 {
        trim_seq(utf8_lossy(x.stdout@))
    } else {
        stderr_text(x)
    }
}

/// The rendered bytes, or the error, of an `mmdc` run.
pub open spec fn mmdc_result(tool: Seq<char>, timeout_ms: u64, o: CommandOutcome) -> Result<
    Seq<u8>,
    ErrorView,
> {
    match launch_error(tool, timeout_ms, o) {
        Some(e) => Err(e),
        None => {
            let x = o->Finished_0;
            if !x.success {
                Err(ErrorView::ProcessFailed(mmdc_failure_text(x)))
            } else {
                match x.output {
                    OutputRead::Read(d) => Ok(d@),
                    _ => Err(ErrorView::Internal(unreadable_output("mmdc"@, x.output))),
                }
            }
        },
    }
}

impl MermaidProvider {
    /// The `mmdc` program the provider runs in the browser build.
    pub closed spec fn binary(&self) -> Seq<char> {
        self.mmdc_binary@
    }

    /// The timeout used when a request names none.
    pub closed spec fn default_timeout(&self) -> u64 {
        self.default_timeout_ms
    }

    pub fn new() -> (p: Self)
        ensures
            p.binary() == "mmdc"@,
            p.default_timeout() == 5000,
    {
        MermaidProvider { mmdc_binary: owned("mmdc"), default_timeout_ms: 5000 }
    }

    pub fn with_binary(binary: &str) -> (p: Self)
        ensures
            p.binary() == binary@,
            p.default_timeout() == 5000,
    {
        MermaidProvider { mmdc_binary: owned(binary), default_timeout_ms: 5000 }
    }

    /// The `mmdc -i <input> -o <output>` command for a source.
    pub fn mmdc_invocation(&self, source: &str, timeout_ms: u64) -> (inv: CommandInvocation)
        ensures
            inv@ == (InvocationView {
                program: self.binary(),
                args: seq![
                    ArgView::Text("-i"@),
                    ArgView::InputPath,
                    ArgView::Text("-o"@),
                    ArgView::OutputPath,
                ],
                stdin: None,
                input_file: Some(("diagram.mmd"@, encode_utf8(source@))),
                output_file: Some("diagram.svg"@),
                timeout_ms,
            }),
    {
        let inv = CommandInvocation {
            program: self.mmdc_binary.clone(),
            args: vec![text_arg("-i"), CommandArg::InputPath, text_arg("-o"), CommandArg::OutputPath],
            stdin: None,
            input_file: Some(InputFile { name: owned("diagram.mmd"), contents: utf8_bytes(source) }),
            output_file: Some(owned("diagram.svg")),
            timeout_ms,
        };
        assert(inv@.args =~= seq![
            ArgView::Text("-i"@),
            ArgView::InputPath,
            ArgView::Text("-o"@),
            ArgView::OutputPath,
        ]);
        inv
    }

    /// The rendered SVG bytes of a finished `mmdc` run.
    pub fn mmdc_output(&self, timeout_ms: u64, outcome: CommandOutcome) -> (r: DiagramResult<
        Vec<u8>,
    >)
        ensures
            result_view(r) == mmdc_result(self.binary(), timeout_ms, outcome),
    {
        match settle(&self.mmdc_binary, timeout_ms, outcome) {
            Err(e) => Err(e),
            Ok(x) => {
                if !x.success {
                    let err_text = stderr_message(&x);
                    if err_text.as_str().is_empty() {
                        let out = lossy_text(x.stdout.as_slice());
                        Err(DiagramError::ProcessFailed(trim(out.as_str())))
                    } else {
                        Err(DiagramError::ProcessFailed(err_text))
                    }
                } else {
                    let msg = unreadable_message("mmdc", &x.output);
                    match x.output {
                        OutputRead::Read(d) => Ok(d),
                        _ => Err(DiagramError::Internal(msg)),
                    }
                }
            },
        }
    }
}

impl Default for MermaidProvider {
    fn default() -> (p: Self) {
        Self::new()
    }
}

impl DiagramProvider for MermaidProvider {
    open spec fn accepts(&self, source: Seq<char>) -> bool {
        !blank(source)
    }

    open spec fn formats(&self) -> Seq<OutputFormat> {
        seq![OutputFormat::Svg]
    }

    fn validate(&self, source: &str) -> (r: DiagramResult<()>)
        ensures
            r matches Err(e) ==> e@ == empty_source("mermaid"@),
    {
        check_source(source, "mermaid")
    }

    fn supported_formats(&self) -> (r: Vec<OutputFormat>)
        ensures
            r@ == self.formats(),
    {
        vec![OutputFormat::Svg]
    }

    fn start(&self, request: &DiagramRequest) -> (r: DiagramResult<RenderStep>)
        ensures
            result_view(r) == browser_start("mermaid"@, request@),
    {
        browser_disabled(request, "mermaid")
    }

    fn advance(&self, request: &DiagramRequest, stage: usize, outcome: CommandOutcome) -> (r:
        DiagramResult<RenderStep>)
        ensures
            result_view(r) == Err::<StepView, ErrorView>(unexpected_stage()),
    {
        Err(unexpected_stage_error())
    }
}

/// Browser-backed BPMN provider; its browser runtime is not wired in this build.
pub struct BpmnProvider;

impl BpmnProvider {
    pub fn new() -> (p: Self) {
        BpmnProvider
    }
}

impl Default for BpmnProvider {
    fn default() -> (p: Self) {
        Self::new()
    }
}

impl DiagramProvider for BpmnProvider {
    open spec fn accepts(&self, source: Seq<char>) -> bool {
        !blank(source)
    }

    open spec fn formats(&self) -> Seq<OutputFormat> {
        seq![OutputFormat::Svg]
    }

    fn validate(&self, source: &str) -> (r: DiagramResult<()>)
        ensures
            r matches Err(e) ==> e@ == empty_source("bpmn"@),
    {
        check_source(source, "bpmn")
    }

    fn supported_formats(&self) -> (r: Vec<OutputFormat>)
        ensures
            r@ == self.formats(),
    {
        vec![OutputFormat::Svg]
    }

    fn start(&self, request: &DiagramRequest) -> (r: DiagramResult<RenderStep>)
        ensures
            result_view(r) == browser_start("bpmn"@, request@),
    {
        browser_disabled(request, "bpmn")
    }

    fn advance(&self, request: &DiagramRequest, stage: usize, outcome: CommandOutcome) -> (r:
        DiagramResult<RenderStep>)
        ensures
            result_view(r) == Err::<StepView, ErrorView>(unexpected_stage()),
    {
        Err(unexpected_stage_error())
    }
}

// ---------------------------------------------------------------------------
// Vega-Lite pipeline
// ---------------------------------------------------------------------------

/// Pipeline-based Vega-Lite provider: `vl2vg` piped into `vg2svg`.
pub struct VegaLiteProvider {
    vl_binary: String,
    vg_binary: String,
    default_timeout_ms: u64,
}

/// The first step of the Vega-Lite pipeline: `vl2vg` on the source.
pub open spec fn vegalite_start(
    vl: Seq<char>,
    default_ms: u64,
    req: crate::ports::RequestView,
) -> Result<StepView, ErrorView> {
    if blank(req.source) {
        Err(empty_source("vegalite"@))
    } else if req.output_format != OutputFormat::Svg {
        Err(unsupported(req.output_format, "vegalite"@))
    } else {
        run(
            0,
            InvocationView {
                program: vl,
                args: Seq::empty(),
                stdin: Some(encode_utf8(req.source)),
                input_file: None,
                output_file: None,
                timeout_ms: timeout_for(req, default_ms),
            },
        )
    }
}

/// The step after a pipeline stage: on success of `vl2vg` its output goes to
/// `vg2svg`; on success of `vg2svg` its output is the diagram.
pub open spec fn vegalite_next(
    vl: Seq<char>,
    vg: Seq<char>,
    timeout_ms: u64,
    req: crate::ports::RequestView,
    stage: usize,
    o: CommandOutcome,
) -> Result<StepView, ErrorView> {
    if stage == 0 {
        match launch_error(vl, timeout_ms, o) {
            Some(e) => Err(e),
            None => {
                let x = o->Finished_0;
                if !x.success {
                    Err(ErrorView::ProcessFailed("vl2vg failed: "@ + stderr_text(x)))
                } else {
                    run(
                        1,
                        InvocationView {
                            program: vg,
                            args: Seq::empty(),
                            stdin: Some(x.stdout@),
                            input_file: None,
                            output_file: None,
                            timeout_ms,
                        },
                    )
                }
            },
        }
    } else if stage == 1 {
        match launch_error(vg, timeout_ms, o) {
            Some(e) => Err(e),
            None => {
                let x = o->Finished_0;
                if !x.success {
                    Err(ErrorView::ProcessFailed("vg2svg failed: "@ + stderr_text(x)))
                } else {
                    done(x.stdout@, content_type_of(req.output_format), x.elapsed_ms)
                }
            },
        }
    } else {
        Err(unexpected_stage())
    }
}

impl VegaLiteProvider {
    /// The `vl2vg` program.
    pub closed spec fn vl(&self) -> Seq<char> {
        self.vl_binary@
    }

    /// The `vg2svg` program.
    pub closed spec fn vg(&self) -> Seq<char> {
        self.vg_binary@
    }

    /// The timeout used when a request names none.
    pub closed spec fn default_timeout(&self) -> u64 {
        self.default_timeout_ms
    }

    pub fn new() -> (p: Self)
        ensures
            p.vl() == "vl2vg"@,
            p.vg() == "vg2svg"@,
            p.default_timeout() == 10000,
    {
        VegaLiteProvider {
            vl_binary: owned("vl2vg"),
            vg_binary: owned("vg2svg"),
            default_timeout_ms: 10000,
        }
    }

    pub fn with_binaries(vl_binary: &str, vg_binary: &str) -> (p: Self)
        ensures
            p.vl() == vl_binary@,
            p.vg() == vg_binary@,
            p.default_timeout() == 10000,
    {
        VegaLiteProvider {
            vl_binary: owned(vl_binary),
            vg_binary: owned(vg_binary),
            default_timeout_ms: 10000,
        }
    }
}

impl Default for VegaLiteProvider {
    fn default() -> (p: Self) {
        Self::new()
    }
}

impl DiagramProvider for VegaLiteProvider {
    open spec fn accepts(&self, source: Seq<char>) -> bool {
        !blank(source)
    }

    open spec fn formats(&self) -> Seq<OutputFormat> {
        seq![OutputFormat::Svg]
    }

    fn validate(&self, source: &str) -> (r: DiagramResult<()>)
        ensures
            r matches Err(e) ==> e@ == empty_source("vegalite"@),
    {
        check_source(source, "vegalite")
    }

    fn supported_formats(&self) -> (r: Vec<OutputFormat>)
        ensures
            r@ == self.formats(),
    {
        vec![OutputFormat::Svg]
    }

    fn start(&self, request: &DiagramRequest) -> (r: DiagramResult<RenderStep>)
        ensures
            result_view(r) == vegalite_start(self.vl(), self.default_timeout(), request@),
    {
        self.validate(request.source.as_str())?;
        if request.output_format != OutputFormat::Svg {
            return Err(unsupported_error(request.output_format, "vegalite"));
        }
        let timeout_ms = effective_timeout(request, self.default_timeout_ms);
        let invocation = CommandInvocation {
            program: self.vl_binary.clone(),
            args: Vec::new(),
            stdin: Some(utf8_bytes(request.source.as_str())),
            input_file: None,
            output_file: None,
            timeout_ms,
        };
        assert(invocation@.args =~= Seq::<ArgView>::empty());
        Ok(RenderStep::Run { stage: 0, invocation })
    }

    fn advance(&self, request: &DiagramRequest, stage: usize, outcome: CommandOutcome) -> (r:
        DiagramResult<RenderStep>)
        ensures
            result_view(r) == vegalite_next(
                self.vl(),
                self.vg(),
                timeout_for(request@, self.default_timeout()),
                request@,
                stage,
                outcome,
            ),
    {
        let timeout_ms = effective_timeout(request, self.default_timeout_ms);
        if stage == 0 {
            let x = settle(&self.vl_binary, timeout_ms, outcome)?;
            if !x.success {
                let msg = stderr_message(&x);
                return Err(DiagramError::ProcessFailed(join2("vl2vg failed: ", msg.as_str())));
            }
            let invocation = CommandInvocation {
                program: self.vg_binary.clone(),
                args: Vec::new(),
                stdin: Some(x.stdout),
                input_file: None,
                output_file: None,
                timeout_ms,
            };
            assert(invocation@.args =~= Seq::<ArgView>::empty());
            Ok(RenderStep::Run { stage: 1, invocation })
        } else if stage == 1 {
            let x = settle(&self.vg_binary, timeout_ms, outcome)?;
            if !x.success {
                let msg = stderr_message(&x);
                return Err(DiagramError::ProcessFailed(join2("vg2svg failed: ", msg.as_str())));
            }
            respond(x.stdout, request.output_format.content_type(), x.elapsed_ms)
        } else {
            Err(unexpected_stage_error())
        }
    }
}

} // verus!

verus! {

// ---------------------------------------------------------------------------
// The closed set of providers
// ---------------------------------------------------------------------------

/// Any of the library's providers.
pub enum Provider {
    Echo(EchoProvider),
    Graphviz(GraphvizProvider),
    D2(D2Provider),
    Mermaid(MermaidProvider),
    Bpmn(BpmnProvider),
    Ditaa(DitaaProvider),
    Excalidraw(ExcalidrawProvider),
    Wavedrom(WavedromProvider),
    Vega(VegaProvider),
    VegaLite(VegaLiteProvider),
}

impl Provider {
    /// The name a provider's validation message starts with.
    pub open spec fn label(&self) -> Seq<char> {
        match self {
            Provider::Echo(_) => "diagram"@,
            Provider::Graphviz(_) => "graphviz"@,
            Provider::D2(_) => "d2"@,
            Provider::Mermaid(_) => "mermaid"@,
            Provider::Bpmn(_) => "bpmn"@,
            Provider::Ditaa(_) => "ditaa"@,
            Provider::Excalidraw(_) => "excalidraw"@,
            Provider::Wavedrom(_) => "wavedrom"@,
            Provider::Vega(_) => "vega"@,
            Provider::VegaLite(_) => "vegalite"@,
        }
    }

    /// The first step a provider takes on a request.
    pub open spec fn start_view(&self, req: crate::ports::RequestView) -> Result<StepView, ErrorView> {
        match self {
            Provider::Echo(_) => echo_start(req),
            Provider::Graphviz(p) => graphviz_start(p.binary(), p.default_timeout(), req),
            Provider::D2(p) => d2_start(p.binary(), p.default_timeout(), req),
            Provider::Mermaid(_) => browser_start("mermaid"@, req),
            Provider::Bpmn(_) => browser_start("bpmn"@, req),
            Provider::Ditaa(p) => ditaa_start(p.binary(), p.default_timeout(), req),
            Provider::Excalidraw(p) => excalidraw_start(p.binary(), p.default_timeout(), req),
            Provider::Wavedrom(p) => wavedrom_start(p.binary(), p.default_timeout(), req),
            Provider::Vega(p) => vega_start(p.binary(), p.default_timeout(), req),
            Provider::VegaLite(p) => vegalite_start(p.vl(), p.default_timeout(), req),
        }
    }

    /// The step a provider takes once the command of `stage` ended with `outcome`.
    pub open spec fn advance_view(
        &self,
        req: crate::ports::RequestView,
        stage: usize,
        outcome: CommandOutcome,
    ) -> Result<StepView, ErrorView> {
        match self {
            Provider::Echo(_) => Err(unexpected_stage()),
            Provider::Mermaid(_) => Err(unexpected_stage()),
            Provider::Bpmn(_) => Err(unexpected_stage()),
            Provider::VegaLite(p) => vegalite_next(
                p.vl(),
                p.vg(),
                timeout_for(req, p.default_timeout()),
                req,
                stage,
                outcome,
            ),
            _ => if stage != 0 {
                Err(unexpected_stage())
            } else {
                match self {
                    Provider::Graphviz(p) => stdout_finish(
                        p.binary(),
                        timeout_for(req, p.default_timeout()),
                        "image/svg+xml"@,
                        outcome,
                    ),
                    Provider::D2(p) => file_finish(
                        p.binary(),
                        timeout_for(req, p.default_timeout()),
                        "image/svg+xml"@,
                        "d2"@,
                        outcome,
                    ),
                    Provider::Wavedrom(p) => file_finish(
                        p.binary(),
                        timeout_for(req, p.default_timeout()),
                        "image/svg+xml"@,
                        "wavedrom"@,
                        outcome,
                    ),
                    Provider::Excalidraw(p) => stdout_finish(
                        p.binary(),
                        timeout_for(req, p.default_timeout()),
                        "image/svg+xml"@,
                        outcome,
                    ),
                    Provider::Vega(p) => stdout_finish(
                        p.binary(),
                        timeout_for(req, p.default_timeout()),
                        content_type_of(req.output_format),
                        outcome,
                    ),
                    Provider::Ditaa(p) => file_finish(
                        p.binary(),
                        timeout_for(req, p.default_timeout()),
                        ditaa_content_type(req.output_format),
                        "ditaa"@,
                        outcome,
                    ),
                    _ => Err(unexpected_stage()),
                }
            },
        }
    }
}

impl DiagramProvider for Provider {
    open spec fn accepts(&self, source: Seq<char>) -> bool {
        match self {
            Provider::Echo(p) => p.accepts(source),
            Provider::Graphviz(p) => p.accepts(source),
            Provider::D2(p) => p.accepts(source),
            Provider::Mermaid(p) => p.accepts(source),
            Provider::Bpmn(p) => p.accepts(source),
            Provider::Ditaa(p) => p.accepts(source),
            Provider::Excalidraw(p) => p.accepts(source),
            Provider::Wavedrom(p) => p.accepts(source),
            Provider::Vega(p) => p.accepts(source),
            Provider::VegaLite(p) => p.accepts(source),
        }
    }

    open spec fn formats(&self) -> Seq<OutputFormat> {
        match self {
            Provider::Echo(p) => p.formats(),
            Provider::Graphviz(p) => p.formats(),
            Provider::D2(p) => p.formats(),
            Provider::Mermaid(p) => p.formats(),
            Provider::Bpmn(p) => p.formats(),
            Provider::Ditaa(p) => p.formats(),
            Provider::Excalidraw(p) => p.formats(),
            Provider::Wavedrom(p) => p.formats(),
            Provider::Vega(p) => p.formats(),
            Provider::VegaLite(p) => p.formats(),
        }
    }

    fn validate(&self, source: &str) -> (r: DiagramResult<()>)
        ensures
            r matches Err(e) ==> e@ == empty_source(self.label()),
    {
        match self {
            Provider::Echo(p) => p.validate(source),
            Provider::Graphviz(p) => p.validate(source),
            Provider::D2(p) => p.validate(source),
            Provider::Mermaid(p) => p.validate(source),
            Provider::Bpmn(p) => p.validate(source),
            Provider::Ditaa(p) => p.validate(source),
            Provider::Excalidraw(p) => p.validate(source),
            Provider::Wavedrom(p) => p.validate(source),
            Provider::Vega(p) => p.validate(source),
            Provider::VegaLite(p) => p.validate(source),
        }
    }

    fn supported_formats(&self) -> (r: Vec<OutputFormat>) {
        match self {
            Provider::Echo(p) => p.supported_formats(),
            Provider::Graphviz(p) => p.supported_formats(),
            Provider::D2(p) => p.supported_formats(),
            Provider::Mermaid(p) => p.supported_formats(),
            Provider::Bpmn(p) => p.supported_formats(),
            Provider::Ditaa(p) => p.supported_formats(),
            Provider::Excalidraw(p) => p.supported_formats(),
            Provider::Wavedrom(p) => p.supported_formats(),
            Provider::Vega(p) => p.supported_formats(),
            Provider::VegaLite(p) => p.supported_formats(),
        }
    }

    fn start(&self, request: &DiagramRequest) -> (r: DiagramResult<RenderStep>)
        ensures
            result_view(r) == self.start_view(request@),
    {
        match self {
            Provider::Echo(p) => p.start(request),
            Provider::Graphviz(p) => p.start(request),
            Provider::D2(p) => p.start(request),
            Provider::Mermaid(p) => p.start(request),
            Provider::Bpmn(p) => p.start(request),
            Provider::Ditaa(p) => p.start(request),
            Provider::Excalidraw(p) => p.start(request),
            Provider::Wavedrom(p) => p.start(request),
            Provider::Vega(p) => p.start(request),
            Provider::VegaLite(p) => p.start(request),
        }
    }

    fn advance(&self, request: &DiagramRequest, stage: usize, outcome: CommandOutcome) -> (r:
        DiagramResult<RenderStep>)
        ensures
            result_view(r) == self.advance_view(request@, stage, outcome),
    {
        match self {
            Provider::Echo(p) => p.advance(request, stage, outcome),
            Provider::Graphviz(p) => p.advance(request, stage, outcome),
            Provider::D2(p) => p.advance(request, stage, outcome),
            Provider::Mermaid(p) => p.advance(request, stage, outcome),
            Provider::Bpmn(p) => p.advance(request, stage, outcome),
            Provider::Ditaa(p) => p.advance(request, stage, outcome),
            Provider::Excalidraw(p) => p.advance(request, stage, outcome),
            Provider::Wavedrom(p) => p.advance(request, stage, outcome),
            Provider::Vega(p) => p.advance(request, stage, outcome),
            Provider::VegaLite(p) => p.advance(request, stage, outcome),
        }
    }
}

} // verus!
