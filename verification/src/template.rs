//! Document-generation façade: the decisions behind each remote operation.
//!
//! Generation is a single POST of the encoded request to a fixed endpoint;
//! a download validates its deliverable identifier locally, then selects
//! one of two path variants: `pdf` renders to PDF, any other format keeps
//! the source file type.

use vstd::prelude::*;

use crate::errors::ErrorV;
use crate::errors::TurboDocxError;
use crate::http::HttpClientConfig;
use crate::http::spec_unwrap_envelope;
use crate::json::JsonValue;
use crate::json::str_eq;
use crate::template_types::GenerateTemplateRequest;
use crate::template_types::GenerateTemplateResponse;
use crate::template_types::generate_request_json;
use crate::template_types::generate_response_of_json;
use vstd::string::StringExecFns;

verus! {

/// Handle to the document-generation operations, built from one
/// configuration.
#[derive(Debug, Clone)]
pub struct TurboTemplate {
    /// The configuration every call of this handle uses.
    pub config: HttpClientConfig,
}

/// The endpoint and the path variant a download selects: the PDF rendering
/// for the exact format `pdf`, the source file type for anything else; an
/// empty deliverable identifier is rejected before any call.
pub open spec fn spec_download_path(deliverable_id: Seq<char>, format: Seq<char>) -> Result<
    Seq<char>,
    ErrorV,
> {
    if deliverable_id.len() == 0 {
        Err(ErrorV::Validation("deliverable_id is required"@))
    } else if format == "pdf"@ {
        Ok("/v1/deliverable/file/pdf/"@ + deliverable_id)
    } else {
        Ok("/v1/deliverable/file/"@ + deliverable_id)
    }
}

impl TurboTemplate {
    /// A handle using the given configuration.
    pub fn configure(config: HttpClientConfig) -> (r: Result<TurboTemplate, TurboDocxError>)
        ensures
            r matches Ok(t) && t.config.deep_view() == config.deep_view(),
    {
        Ok(TurboTemplate { config })
    }

    /// The endpoint of a generation call.
    pub fn generate_path() -> (r: &'static str)
        ensures
            r@ == "/v1/deliverable"@,
    {
        "/v1/deliverable"
    }

    /// The body of a generation call: the encoded request.
    pub fn generate_body(request: &GenerateTemplateRequest) -> (j: JsonValue)
        ensures
            j@ == generate_request_json(request.deep_view()),
    {
        request.to_json()
    }

    /// The endpoint of a download, or a validation error for an empty
    /// deliverable identifier.
    pub fn download_path(deliverable_id: &str, format: &str) -> (r: Result<String, TurboDocxError>)
        ensures
            match r {
                Ok(p) => spec_download_path(deliverable_id@, format@) == Ok::<Seq<char>, ErrorV>(
                    p@,
                ),
                Err(e) => spec_download_path(deliverable_id@, format@) == Err::<Seq<char>, ErrorV>(
                    e.deep_view(),
                ),
            },
    {
        if deliverable_id.is_empty() {
            return Err(TurboDocxError::Validation("deliverable_id is required".to_owned()));
        }
        if str_eq(format, "pdf") {
            let mut p = "/v1/deliverable/file/pdf/".to_owned();
            p.append(deliverable_id);
            Ok(p)
        } else {
            let mut p = "/v1/deliverable/file/".to_owned();
            p.append(deliverable_id);
            Ok(p)
        }
    }
}

/// Decode a generation response from a response payload, after envelope
/// normalization.
pub fn parse_generate_response(v: &JsonValue) -> (r: Result<
    GenerateTemplateResponse,
    TurboDocxError,
>)
    ensures
        match r {
            Ok(resp) => generate_response_of_json(spec_unwrap_envelope(v@)) == Some(
                resp.deep_view(),
            ),
            Err(e) => generate_response_of_json(spec_unwrap_envelope(v@)) is None && e.deep_view()
                == ErrorV::Serialization("response body does not have the expected shape"@),
        },
{
    let payload = crate::http::unwrap_envelope(v);
    match GenerateTemplateResponse::from_json(&payload) {
        Some(resp) => Ok(resp),
        None => Err(
            TurboDocxError::Serialization(
                "response body does not have the expected shape".to_owned(),
            ),
        ),
    }
}

} // verus!
