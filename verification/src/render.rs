//! Rendering: the request echo, every diagnostic this tool prints, and the
//! response report with its JSON-or-verbatim body block.

use vstd::prelude::*;

use crate::digits::dec_numeral;
use crate::digits::u16_numeral;
use crate::json::json_parse_ok;
use crate::json::json_pretty_sorted;
use crate::json::json_reformat;
use crate::method::Method;
use crate::method::method_name;
use crate::method::method_title;
use crate::method::resolve_method;
use crate::request::BodyMode;
use crate::request::BuildError;
use crate::request::CliInput;
use crate::request::RequestSpec;
use crate::request::effective_method_of;
use crate::url_check::UrlParseKind;

verus! {

/// The two leading report lines: the target URL and the effective method.
pub open spec fn request_header(target: Seq<char>, m: Method) -> Seq<char> {
    "Requesting URL: "@ + target + "\nMethod: "@ + method_title(m)
}

/// The diagnostic line of a URL syntax failure, by category.
pub open spec fn url_error_text(k: UrlParseKind) -> Seq<char> {
    match k {
        UrlParseKind::RelativeWithoutBase => "The URL does not have a valid base protocol."@,
        UrlParseKind::InvalidPort => "The URL contains an invalid port number."@,
        UrlParseKind::InvalidIpv4 => "The URL contains an invalid IPv4 address."@,
        UrlParseKind::InvalidIpv6 => "The URL contains an invalid IPv6 address."@,
        UrlParseKind::Other => "Some error occurred while parsing the URL."@,
    }
}

/// The JSON payload argument, or the empty text where none was given.
pub open spec fn json_text_of(input: CliInput) -> Seq<char> {
    match input.json {
        Some(j) => j@,
        None => Seq::<char>::empty(),
    }
}

/// The full diagnostic of a build error: header, then the error line, except
/// for the fatal JSON case, which echoes the offending payload instead.
pub open spec fn diagnostic_text(input: CliInput, e: BuildError) -> Seq<char> {
    let h = request_header(input.url@, effective_method_of(input));
    match e {
        BuildError::InvalidProtocol => h + "\nError: The URL does not have a valid base protocol."@,
        BuildError::UrlParse(k) => h + "\nError: "@ + url_error_text(k),
        BuildError::InvalidJsonPayload => h + "\nJSON: "@ + json_text_of(input),
    }
}

/// The diagnostic line of a transport failure: specific wording for a
/// connection or timeout failure, generic wording for anything else.
pub open spec fn transport_error_text(is_connect: bool, is_timeout: bool) -> Seq<char> {
    if is_connect || is_timeout {
        "Unable to connect to the server. Perhaps the network is offline or the server hostname cannot be resolved."@
    } else {
        "An unexpected error occurred"@
    }
}

/// The request echo that opens every response report: the header, and for a
/// POST also the JSON payload or the raw form data (empty where none was
/// supplied).
pub open spec fn echo_text(req: RequestSpec) -> Seq<char> {
    let h = request_header(req.url@, req.method);
    match req.method {
        Method::Get => h,
        Method::Post => match req.body {
            BodyMode::RawJson { text } => h + "\nJSON: "@ + text@,
            BodyMode::Form { raw, .. } => h + "\nData: "@ + raw@,
            BodyMode::Empty => h + "\nData: "@,
        },
    }
}

/// The body block of a successful response: the sorted-key pretty JSON under
/// its label when the body parses as JSON, else the body verbatim under the
/// plain label.
pub open spec fn body_block(body: Seq<char>) -> Seq<char> {
    if json_parse_ok(body) {
        "Response body (JSON with sorted keys):\n"@ + json_pretty_sorted(body)
    } else {
        "Response body:\n"@ + body
    }
}

/// A success-class (2xx) status.
pub open spec fn is_success_status(status: u16) -> bool {
    200 <= status < 300
}

/// A rendered response report: Success goes to standard output, Failure to
/// the error stream.
pub enum Rendered {
    Success { text: String },
    Failure { text: String },
}

/// The header text of a request, built for display.
fn header_string(target: &str, m: Method) -> (r: String)
    ensures
        r@ == request_header(target@, m),
{
    let mut s = String::from_str("Requesting URL: ");
    s.append(target);
    s.append("\nMethod: ");
    s.append(method_name(m));
    proof {
        assert(s@ =~= request_header(target@, m));
    }
    s
}

/// The diagnostic line of a URL syntax failure, by category.
pub fn url_error_message(k: UrlParseKind) -> (r: &'static str)
    ensures
        r@ == url_error_text(k),
{
    match k {
        UrlParseKind::RelativeWithoutBase => "The URL does not have a valid base protocol.",
        UrlParseKind::InvalidPort => "The URL contains an invalid port number.",
        UrlParseKind::InvalidIpv4 => "The URL contains an invalid IPv4 address.",
        UrlParseKind::InvalidIpv6 => "The URL contains an invalid IPv6 address.",
        UrlParseKind::Other => "Some error occurred while parsing the URL.",
    }
}

/// The full diagnostic of a build error, as printed on the error stream.
pub fn build_error_report(input: &CliInput, e: &BuildError) -> (r: String)
    ensures
        r@ == diagnostic_text(*input, *e),
{
    let m = resolve_method(input.method.as_str(), input.json.is_some());
    let mut s = header_string(input.url.as_str(), m);
    match e {
        BuildError::InvalidProtocol => {
            s.append("\nError: The URL does not have a valid base protocol.");
        },
        BuildError::UrlParse(k) => {
            s.append("\nError: ");
            s.append(url_error_message(*k));
        },
        BuildError::InvalidJsonPayload => {
            s.append("\nJSON: ");
            match &input.json {
                Some(j) => s.append(j.as_str()),
                None => (),
            }
        },
    }
    proof {
        assert(s@ =~= diagnostic_text(*input, *e));
    }
    s
}

/// The message the process aborts with on a malformed JSON payload.
pub fn fatal_json_message(payload: &str) -> (r: String)
    ensures
        r@ == "Invalid JSON format: "@ + payload@,
{
    let mut s = String::from_str("Invalid JSON format: ");
    s.append(payload);
    s
}

/// The full diagnostic of a transport failure, as printed on the error
/// stream: the request header, then wording picked by the failure class.
pub fn transport_error_report(target: &str, m: Method, is_connect: bool, is_timeout: bool) -> (r:
    String)
    ensures
        r@ == request_header(target@, m) + "\nError: "@ + transport_error_text(
            is_connect,
            is_timeout,
        ),
{
    let mut s = header_string(target, m);
    s.append("\nError: ");
    if is_connect || is_timeout {
        s.append(
            "Unable to connect to the server. Perhaps the network is offline or the server hostname cannot be resolved.",
        );
    } else {
        s.append("An unexpected error occurred");
    }
    proof {
        assert(s@ =~= request_header(target@, m) + "\nError: "@ + transport_error_text(
            is_connect,
            is_timeout,
        ));
    }
    s
}

/// Render a response. A 2xx status yields the request echo and the body
/// block, for standard output; any other status suppresses the body and
/// yields the echo plus the literal status code, for the error stream.
pub fn render_response(req: &RequestSpec, status: u16, body: &str) -> (r: Rendered)
    ensures
        r is Success <==> is_success_status(status),
        r matches Rendered::Success { text } ==> text@ == echo_text(*req) + "\n"@ + body_block(
            body@,
        ),
        r matches Rendered::Failure { text } ==> text@ == echo_text(*req)
            + "\nError: Request failed with status code: "@ + dec_numeral(status as nat),
{
    let mut text = header_string(req.url.as_str(), req.method);
    match req.method {
        Method::Get => (),
        Method::Post => match &req.body {
            BodyMode::RawJson { text: payload } => {
                text.append("\nJSON: ");
                text.append(payload.as_str());
            },
            BodyMode::Form { raw, .. } => {
                text.append("\nData: ");
                text.append(raw.as_str());
            },
            BodyMode::Empty => {
                text.append("\nData: ");
            },
        },
    }
    proof {
        assert(text@ =~= echo_text(*req));
    }
    if 200 <= status && status < 300 {
        text.append("\n");
        match json_reformat(body) {
            Some(pretty) => {
                text.append("Response body (JSON with sorted keys):\n");
                text.append(pretty.as_str());
            },
            None => {
                text.append("Response body:\n");
                text.append(body);
            },
        }
        proof {
            assert(text@ =~= echo_text(*req) + "\n"@ + body_block(body@));
        }
        Rendered::Success { text }
    } else {
        text.append("\nError: Request failed with status code: ");
        let num = u16_numeral(status);
        text.append(num.as_str());
        proof {
            assert(text@ =~= echo_text(*req) + "\nError: Request failed with status code: "@
                + dec_numeral(status as nat));
        }
        Rendered::Failure { text }
    }
}

} // verus!
