//! A small HTTP client library: it validates a target URL, resolves the
//! effective HTTP method, encodes a request body (raw JSON or form pairs),
//! classifies transport failures, and renders the response report.

use vstd::prelude::*;

mod digits;
mod form;
mod json;
mod method;
mod render;
mod request;
mod url_check;

pub use digits::dec_digit;
pub use digits::dec_numeral;
pub use digits::u16_numeral;
pub use form::form_map_of;
pub use form::form_pairs;
pub use form::lemma_last_key_wins;
pub use form::lemma_malformed_piece_dropped;
pub use form::pairs_map;
pub use form::parse_form;
pub use form::split_at_first_eq;
pub use form::split_at_sep;
pub use form::unique_keys;
pub use json::json_parse_ok;
pub use json::json_pretty_sorted;
pub use method::Method;
pub use method::lemma_json_forces_post;
pub use method::method_name;
pub use method::method_title;
pub use method::resolve_method;
pub use method::resolved_method;
pub use method::spells_post;
pub use render::Rendered;
pub use render::body_block;
pub use render::build_error_report;
pub use render::diagnostic_text;
pub use render::echo_text;
pub use render::fatal_json_message;
pub use render::is_success_status;
pub use render::render_response;
pub use render::request_header;
pub use render::transport_error_report;
pub use render::transport_error_text;
pub use render::url_error_message;
pub use render::url_error_text;
pub use request::BodyMode;
pub use request::BuildError;
pub use request::CliInput;
pub use request::RequestSpec;
pub use request::body_matches;
pub use request::build_request;
pub use request::effective_method_of;
pub use url_check::UrlParseKind;
pub use url_check::has_http_prefix;
pub use url_check::has_supported_protocol;
pub use url_check::is_char_prefix;
pub use url_check::url_parse_outcome;

verus! {

} // verus!
