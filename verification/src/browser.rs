//! Decisions of the headless-browser rendering backend: when the browser is
//! recycled, how many renders run at once, and which script a render
//! evaluates in the harness page.
//!
//! Driving the browser itself (launching it, opening tabs, evaluating the
//! scripts) is left to the caller, which reports each outcome back.
use crate::error::{DiagramError, DiagramResult};
use crate::parse::{parse_unsigned, parse_unsigned_spec};
use crate::text::{join2, join3, owned};
use vstd::prelude::*;
use vstd::string::*;

verus! {

/// The consecutive failures after which the browser is recycled when no
/// valid setting is given.
pub const DEFAULT_RECYCLE_FAILURES: usize = 3;

/// The failure threshold a setting asks for: a positive number, else 3.
pub open spec fn failure_threshold_spec(raw: Option<Seq<char>>) -> usize {
    match raw {
        Some(s) => match parse_unsigned_spec(s, usize::MAX as nat) {
            Some(n) => if n > 0 {
                n as usize
            } else {
                DEFAULT_RECYCLE_FAILURES
            },
            None => DEFAULT_RECYCLE_FAILURES,
        },
        None => DEFAULT_RECYCLE_FAILURES,
    }
}

/// The consecutive failures after which the browser is recycled, from the
/// `KROKI_BROWSER_ADAPTIVE_RECYCLE_FAILURES` setting as read (`None` when
/// unset).
pub fn recycle_failure_threshold(raw: Option<&str>) -> (r: usize)
    ensures
        r == failure_threshold_spec(
            match raw {
                Some(s) => Some(s@),
                None => None,
            },
        ),
        r >= 1,
{
    match raw {
        Some(s) => match parse_unsigned(s, usize::MAX as u64) {
            Some(n) => if n > 0 {
                n as usize
            } else {
                DEFAULT_RECYCLE_FAILURES
            },
            None => DEFAULT_RECYCLE_FAILURES,
        },
        None => DEFAULT_RECYCLE_FAILURES,
    }
}

/// The number of renders that may run at once for a pool size (at least 1).
pub fn pool_permits(pool_size: usize) -> (r: usize)
    ensures
        r == (if pool_size >= 1 {
            pool_size
        } else {
            1
        }),
{
    if pool_size >= 1 {
        pool_size
    } else {
        1
    }
}

/// The recycle bookkeeping of a browser backend.
#[derive(Debug, Clone, Copy, PartialEq, Eq, Structural)]
pub struct RecyclePolicy {
    /// Requests after which the browser is recycled (at least 1).
    pub context_ttl_requests: usize,
    /// Requests since the last recycle.
    pub request_count: usize,
    /// Failed renders since the last success or recycle.
    pub consecutive_failures: usize,
}

/// A counter advanced by one, wrapping as the backend's atomic counters do.
pub open spec fn bumped(n: usize) -> usize {
    if n == usize::MAX {
        0
    } else {
        (n + 1) as usize
    }
}

/// A fresh policy for a time-to-live in requests (raised to 1).
pub open spec fn fresh_policy(context_ttl_requests: usize) -> RecyclePolicy {
    RecyclePolicy {
        context_ttl_requests: if context_ttl_requests >= 1 {
            context_ttl_requests
        } else {
            1
        },
        request_count: 0,
        consecutive_failures: 0,
    }
}

/// A request arrives: it is counted, and the browser is to be recycled when
/// the count reaches the time-to-live or the failures reach `threshold`.
pub open spec fn request_step(p: RecyclePolicy, threshold: usize) -> (RecyclePolicy, bool) {
    let count = bumped(p.request_count);
    (
        RecyclePolicy { request_count: count, ..p },
        count >= p.context_ttl_requests || p.consecutive_failures >= threshold,
    )
}

/// A render ended: a success clears the failures, a failure adds one.
pub open spec fn outcome_step(p: RecyclePolicy, ok: bool) -> RecyclePolicy {
    RecyclePolicy {
        consecutive_failures: if ok {
            0
        } else {
            bumped(p.consecutive_failures)
        },
        ..p
    }
}

/// The browser was replaced: both counts start over.
pub open spec fn recycled_step(p: RecyclePolicy) -> RecyclePolicy {
    RecyclePolicy { request_count: 0, consecutive_failures: 0, ..p }
}

impl RecyclePolicy {
    pub fn new(context_ttl_requests: usize) -> (p: Self)
        ensures
            p == fresh_policy(context_ttl_requests),
    {
        RecyclePolicy {
            context_ttl_requests: if context_ttl_requests >= 1 {
                context_ttl_requests
            } else {
                1
            },
            request_count: 0,
            consecutive_failures: 0,
        }
    }

    /// Counts a request; answers whether the browser should be recycled first.
    pub fn begin_request(&mut self, threshold: usize) -> (recycle: bool)
        ensures
            (*final(self), recycle) == request_step(*old(self), threshold),
    {
        self.request_count = if self.request_count == usize::MAX {
            0
        } else {
            self.request_count + 1
        };
        self.request_count >= self.context_ttl_requests || self.consecutive_failures >= threshold
    }

    /// Records how a render ended.
    pub fn record_outcome(&mut self, ok: bool)
        ensures
            *final(self) == outcome_step(*old(self), ok),
    {
        if ok {
            self.consecutive_failures = 0;
        } else {
            self.consecutive_failures = if self.consecutive_failures == usize::MAX {
                0
            } else {
                self.consecutive_failures + 1
            };
        }
    }

    /// Records that the browser was replaced.
    pub fn record_recycled(&mut self)
        ensures
            *final(self) == recycled_step(*old(self)),
    {
        self.request_count = 0;
        self.consecutive_failures = 0;
    }
}

/// The lowercase hexadecimal digit of a value below 16.
pub open spec fn hex_lower(d: u32) -> char {
    if d < 10 {
        (d + 48) as char
    } else {
        (d + 87) as char
    }
}

/// How serde_json writes one character inside a JSON string: `"` and `\`
/// and the control characters with a short escape get it, other control
/// characters below U+0020 become `\u00XX`, all else is written as it is.
pub open spec fn json_escape_char(c: char) -> Seq<char> {
    if c == '"' {
        seq!['\\', '"']
    } else if c == '\\' {
        seq!['\\', '\\']
    } else if c == '\u{8}' {
        seq!['\\', 'b']
    } else if c == '\t' {
        seq!['\\', 't']
    } else if c == '\n' {
        seq!['\\', 'n']
    } else if c == '\u{c}' {
        seq!['\\', 'f']
    } else if c == '\r' {
        seq!['\\', 'r']
    } else if (c as u32) < 32 {
        seq!['\\', 'u', '0', '0', hex_lower((c as u32) / 16), hex_lower((c as u32) % 16)]
    } else {
        seq![c]
    }
}

/// The characters of a text, each escaped for a JSON string.
pub open spec fn json_escaped(s: Seq<char>) -> Seq<char>
    decreases s.len(),
{
    if s.len() == 0 {
        Seq::empty()
    } else {
        json_escaped(s.drop_last()) + json_escape_char(s.last())
    }
}

/// The JSON string literal of a text, as `serde_json::to_string` writes it.
pub open spec fn json_quote(s: Seq<char>) -> Seq<char> {
    "\""@ + json_escaped(s) + "\""@
}

/// Calls `serde_json::to_string` on a text. Its string serialiser writes
/// into a `Vec`, which never fails, escaping each character as
/// `json_escape_char` describes, between double quotes.
#[verifier::external_body]
fn json_literal(text: &str) -> (r: Result<String, String>)
    ensures
        r is Ok,
        r matches Ok(s) ==> s@ == json_quote(text@),
{
    serde_json::to_string(text).map_err(|err| err.to_string())
}

/// The script that renders a diagram in the harness page: Mermaid sources
/// go to `window.krokiRenderMermaid` as a JSON string; BPMN is not wired yet; other types are unsupported.
pub fn render_expression(diagram_type: &str, source: &str, format: &str) -> (r: DiagramResult<
    String,
>)
    ensures
        diagram_type@ == "mermaid"@ ==> (r matches Ok(script) && script@
            == "window.krokiRenderMermaid("@ + json_quote(source@) + ")"@),
        diagram_type@ == "bpmn"@ ==> (r matches Err(DiagramError::Internal(m)) && m@
            == "bpmn browser runtime not wired yet"@),
        diagram_type@ != "mermaid"@ && diagram_type@ != "bpmn"@ ==> (r matches Err(
            DiagramError::UnsupportedFormat { format: f, provider },
        ) && f@ == format@ && provider@ == diagram_type@),
{
    proof {
        reveal_strlit("mermaid");
        reveal_strlit("bpmn");
        assert("bpmn"@.len() != "mermaid"@.len());
    }
    if crate::text::str_eq(diagram_type, "mermaid") {
        let literal = match json_literal(source) {
            Ok(lit) => lit,
            Err(_) => owned("\"\""),
        };
        Ok(join3("window.krokiRenderMermaid(", literal.as_str(), ")"))
    } else if crate::text::str_eq(diagram_type, "bpmn") {
        Err(DiagramError::Internal(owned("bpmn browser runtime not wired yet")))
    } else {
        Err(DiagramError::UnsupportedFormat { provider: owned(diagram_type), format: owned(format) })
    }
}

/// What a Mermaid render in the harness page gives back: the page's value
/// as UTF-8 bytes when it is a string (`None` for any other value), else
/// the error that the render returned no text.
pub fn rendered_svg(value: Option<String>) -> (r: DiagramResult<Vec<u8>>)
    ensures
        value matches Some(s) ==> (r matches Ok(b) && b@ == vstd::utf8::encode_utf8(s@)),
        value is None ==> (r matches Err(DiagramError::ProcessFailed(m)) && m@
            == "render returned null or non-string"@),
{
    match value {
        Some(s) => Ok(crate::text::utf8_bytes(s.as_str())),
        None => Err(DiagramError::ProcessFailed(owned("render returned null or non-string"))),
    }
}

/// The script that installs font CSS into the harness page's `kroki-fonts`
/// style element.
pub fn font_injection_script(css: &str) -> (r: DiagramResult<String>)
    ensures
        r matches Ok(script) && script@
            == "const style=document.getElementById('kroki-fonts'); if(style){style.innerHTML="@
            + json_quote(css@) + ";}"@,
{
    match json_literal(css) {
        Ok(lit) => Ok(
            join3(
                "const style=document.getElementById('kroki-fonts'); if(style){style.innerHTML=",
                lit.as_str(),
                ";}",
            ),
        ),
        Err(detail) => {
            let m = join2("font css serialization failed: ", detail.as_str());
            assert(m@.subrange(0, "font css serialization failed: "@.len() as int)
                =~= "font css serialization failed: "@);
            Err(DiagramError::Internal(m))
        },
    }
}

/// The URL of the harness page written to `path`.
pub fn harness_url(path: &str) -> (r: String)
    ensures
        r@ == "file://"@ + path@,
{
    join2("file://", path)
}

/// The text of the harness page.
pub open spec fn harness_page() -> Seq<char> {
    "<!doctype html>
<html>
<head>
  <meta charset=\"utf-8\" />
  <style id=\"kroki-fonts\"></style>
  <script src=\"https://cdn.jsdelivr.net/npm/mermaid@10/dist/mermaid.min.js\"></script>
</head>
<body>
  <div id=\"container\"></div>
  <script>
    window.krokiRenderMermaid = async (source) => {
      if (!window.mermaid) throw new Error(\"Mermaid runtime unavailable\");
      window.mermaid.initialize({ startOnLoad: false, securityLevel: \"loose\" });
      const id = \"kroki\" + Math.floor(Math.random() * 1e9);
      const { svg } = await window.mermaid.render(id, source);
      return svg;
    };
  </script>
</body>
</html>"@
}

/// The harness page the browser loads before rendering.
pub fn harness_html() -> (r: &'static str)
    ensures
        r@ == harness_page(),
{
    "<!doctype html>
<html>
<head>
  <meta charset=\"utf-8\" />
  <style id=\"kroki-fonts\"></style>
  <script src=\"https://cdn.jsdelivr.net/npm/mermaid@10/dist/mermaid.min.js\"></script>
</head>
<body>
  <div id=\"container\"></div>
  <script>
    window.krokiRenderMermaid = async (source) => {
      if (!window.mermaid) throw new Error(\"Mermaid runtime unavailable\");
      window.mermaid.initialize({ startOnLoad: false, securityLevel: \"loose\" });
      const id = \"kroki\" + Math.floor(Math.random() * 1e9);
      const { svg } = await window.mermaid.render(id, source);
      return svg;
    };
  </script>
</body>
</html>"
}

} // verus!
