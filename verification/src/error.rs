//! Typed error hierarchy for diagram operations.
use crate::text::{decimal, join2, join3, push_decimal};
use vstd::prelude::*;
use vstd::string::*;

verus! {

#[verifier::external_type_specification]
#[verifier::external_body]
pub struct ExIoError(std::io::Error);

/// Errors that can occur during diagram generation.
#[derive(Debug)]
pub enum DiagramError {
    ValidationFailed(String),
    ToolNotFound(String),
    ExecutionTimeout { tool: String, timeout_ms: u64 },
    ProcessFailed(String),
    UnsupportedFormat { format: String, provider: String },
    Io(std::io::Error),
    Internal(String),
}

/// Result type for diagram operations.
pub type DiagramResult<T> = Result<T, DiagramError>;

/// Calls `std::io::Error`'s `Display`. Nothing is stated of the text.
#[verifier::external_body]
fn io_error_text(err: &std::io::Error) -> String {
    format!("{err}")
}

/// The human-readable message of an error (its `Display` text), except for
/// `Io`, whose detail comes from the operating system.
pub open spec fn error_message(e: &DiagramError) -> Seq<char> {
    match e {
        DiagramError::ValidationFailed(m) => "Validation failed: "@ + m@,
        DiagramError::ToolNotFound(m) => "Tool not found: "@ + m@,
        DiagramError::ExecutionTimeout { tool, timeout_ms } => "Execution timeout: "@ + tool@
            + " exceeded "@ + decimal(*timeout_ms as nat) + "ms"@,
        DiagramError::ProcessFailed(m) => "Process failed: "@ + m@,
        DiagramError::UnsupportedFormat { format, provider } => "Unsupported format '"@
            + format@ + "' for provider '"@ + provider@ + "'"@,
        DiagramError::Io(_) => "IO error: "@,
        DiagramError::Internal(m) => "Internal error: "@ + m@,
    }
}

impl DiagramError {
    /// The error's message, as its `Display` text reads.
    pub fn message(&self) -> (res: String)
        ensures
            self is Io ==> res@.subrange(0, error_message(self).len() as int) == error_message(
                self,
            ) && res@.len() >= error_message(self).len(),
            !(self is Io) ==> res@ == error_message(self),
    {
        match self {
            DiagramError::ValidationFailed(m) => join2("Validation failed: ", m.as_str()),
            DiagramError::ToolNotFound(m) => join2("Tool not found: ", m.as_str()),
            DiagramError::ExecutionTimeout { tool, timeout_ms } => {
                let mut r = join3("Execution timeout: ", tool.as_str(), " exceeded ");
                push_decimal(&mut r, *timeout_ms);
                r.append("ms");
                r
            },
            DiagramError::ProcessFailed(m) => join2("Process failed: ", m.as_str()),
            DiagramError::UnsupportedFormat { format, provider } => {
                let mut r = join3("Unsupported format '", format.as_str(), "' for provider '");
                r.append(provider.as_str());
                r.append("'");
                r
            },
            DiagramError::Io(e) => {
                let detail = io_error_text(e);
                let r = join2("IO error: ", detail.as_str());
                assert(r@.subrange(0, "IO error: "@.len() as int) =~= "IO error: "@);
                r
            },
            DiagramError::Internal(m) => join2("Internal error: ", m.as_str()),
        }
    }
}

} // verus!
