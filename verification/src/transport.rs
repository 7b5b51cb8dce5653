//! Transport-facing request and response records, and their mapping to and
//! from the core records.
use crate::ports::{DiagramOptions, DiagramRequest, DiagramResponse, OutputFormat};
use crate::text::{lossy_text, utf8_lossy};
use vstd::prelude::*;

verus! {

/// Transport-facing render request.
#[derive(Debug, Clone)]
pub struct RenderRequestDto {
    pub source: String,
    pub diagram_type: String,
    pub output_format: OutputFormat,
}

/// Transport-facing render response: the rendered data as text.
#[derive(Debug, Clone)]
pub struct RenderResponseDto {
    pub data: String,
    pub content_type: String,
    pub duration_ms: u64,
}

/// The output format of a request that names none.
pub fn default_output_format() -> (r: OutputFormat)
    ensures
        r == OutputFormat::Svg,
{
    OutputFormat::Svg
}

impl DiagramRequest {
    /// The core request for a transport request, with default options.
    pub fn from(value: RenderRequestDto) -> (r: DiagramRequest)
        ensures
            r.source == value.source,
            r.diagram_type == value.diagram_type,
            r.output_format == value.output_format,
            r.options.font_urls@.len() == 0,
            r.options.timeout_ms is None,
    {
        DiagramRequest {
            source: value.source,
            diagram_type: value.diagram_type,
            output_format: value.output_format,
            options: DiagramOptions::default(),
        }
    }
}

impl RenderResponseDto {
    /// The transport response for a core response; the data is decoded as
    /// UTF-8, invalid sequences replaced.
    pub fn from(value: DiagramResponse) -> (r: RenderResponseDto)
        ensures
            r.data@ == utf8_lossy(value.data@),
            vstd::utf8::valid_utf8(value.data@) ==> r.data@ == vstd::utf8::decode_utf8(value.data@),
            r.content_type == value.content_type,
            r.duration_ms == value.duration_ms,
    {
        RenderResponseDto {
            data: lossy_text(value.data.as_slice()),
            content_type: value.content_type,
            duration_ms: value.duration_ms,
        }
    }

    /// The rendered data, as text.
    pub fn data_as_string(&self) -> (r: String)
        ensures
            r@ == self.data@,
    {
        self.data.clone()
    }
}

} // verus!
