//! The request pipeline: from the command-line inputs to a validated,
//! dispatch-ready request, or to the classified error that stops it.

use vstd::prelude::*;

use crate::form::form_map_of;
use crate::form::pairs_map;
use crate::form::parse_form;
use crate::form::unique_keys;
use crate::json::json_parse_ok;
use crate::json::json_reformat;
use crate::method::Method;
use crate::method::resolve_method;
use crate::method::resolved_method;
use crate::url_check::UrlParseKind;
use crate::url_check::check_url_syntax;
use crate::url_check::has_http_prefix;
use crate::url_check::has_supported_protocol;
use crate::url_check::url_parse_outcome;

verus! {

/// The raw command-line inputs: the target URL, the method flag, and the
/// optional form data and JSON payload arguments.
pub struct CliInput {
    pub url: String,
    pub method: String,
    pub data: Option<String>,
    pub json: Option<String>,
}

/// The body a request carries: nothing, form-encoded pairs (kept beside the
/// raw text they came from, for display), or a raw JSON payload passed
/// through unchanged.
pub enum BodyMode {
    Empty,
    Form { raw: String, pairs: Vec<(String, String)> },
    RawJson { text: String },
}

/// A validated request, ready for dispatch.
pub struct RequestSpec {
    pub url: String,
    pub method: Method,
    pub body: BodyMode,
}

/// Why no request was built: the URL lacks a supported scheme, the URL does
/// not parse, or the JSON payload is not well-formed (the one fatal case).
#[derive(Clone, Copy, Debug, PartialEq, Eq, Structural)]
pub enum BuildError {
    InvalidProtocol,
    UrlParse(UrlParseKind),
    InvalidJsonPayload,
}

/// The effective method of the inputs: POST when a JSON payload is present,
/// otherwise what the method flag resolves to.
pub open spec fn effective_method_of(input: CliInput) -> Method {
    resolved_method(input.method@, input.json is Some)
}

impl RequestSpec {
    /// Well-formedness: a body is only carried by a POST, form pairs denote
    /// exactly the mapping of their raw text with no key repeated, and a raw
    /// JSON payload is well-formed.
    pub open spec fn wf(self) -> bool {
        match self.body {
            BodyMode::Empty => true,
            BodyMode::Form { raw, pairs } => {
                &&& self.method is Post
                &&& pairs_map(pairs@) == form_map_of(raw@)
                &&& unique_keys(pairs@)
            },
            BodyMode::RawJson { text } => self.method is Post && json_parse_ok(text@),
        }
    }
}

/// The body that the inputs call for: the JSON payload when one is present,
/// form pairs when the effective method is POST and form data was supplied,
/// and nothing otherwise.
pub open spec fn body_matches(b: BodyMode, input: CliInput) -> bool {
    match b {
        BodyMode::Empty => input.json is None && (effective_method_of(input) is Get
            || input.data is None),
        BodyMode::Form { raw, pairs } => {
            &&& input.json is None
            &&& effective_method_of(input) is Post
            &&& input.data matches Some(d) && raw@ == d@
            &&& pairs_map(pairs@) == form_map_of(raw@)
            &&& unique_keys(pairs@)
        },
        BodyMode::RawJson { text } => input.json matches Some(j) && text@ == j@,
    }
}

/// Build the request that the inputs describe, or say exactly why none can
/// be built. Checks run in pipeline order: the scheme prefix first, then full
/// URL syntax, then the JSON payload; no two errors can be reported for one
/// input.
pub fn build_request(input: &CliInput) -> (r: Result<RequestSpec, BuildError>)
    ensures
        match r {
            Ok(req) => {
                &&& has_http_prefix(input.url@)
                &&& url_parse_outcome(input.url@) is None
                &&& (input.json matches Some(j) ==> json_parse_ok(j@))
                &&& req.url@ == input.url@
                &&& req.method == effective_method_of(*input)
                &&& body_matches(req.body, *input)
                &&& req.wf()
            },
            Err(e) => match e {
                BuildError::InvalidProtocol => !has_http_prefix(input.url@),
                BuildError::UrlParse(k) => has_http_prefix(input.url@) && url_parse_outcome(
                    input.url@,
                ) == Some(k),
                BuildError::InvalidJsonPayload => {
                    &&& has_http_prefix(input.url@)
                    &&& url_parse_outcome(input.url@) is None
                    &&& input.json matches Some(j) && !json_parse_ok(j@)
                },
            },
        },
{
    if !has_supported_protocol(input.url.as_str()) {
        return Err(BuildError::InvalidProtocol);
    }
    if let Some(k) = check_url_syntax(input.url.as_str()) {
        return Err(BuildError::UrlParse(k));
    }
    let method = resolve_method(input.method.as_str(), input.json.is_some());
    let body = match &input.json {
        Some(j) => {
            if json_reformat(j.as_str()).is_none() {
                return Err(BuildError::InvalidJsonPayload);
            }
            BodyMode::RawJson { text: j.clone() }
        },
        None => match method {
            Method::Post => match &input.data {
                Some(d) => BodyMode::Form { raw: d.clone(), pairs: parse_form(d.as_str()) },
                None => BodyMode::Empty,
            },
            Method::Get => BodyMode::Empty,
        },
    };
    Ok(RequestSpec { url: input.url.clone(), method, body })
}

} // verus!
