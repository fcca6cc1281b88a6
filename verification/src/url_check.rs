//! URL validation: the scheme-prefix check done by this library itself, and
//! the full syntax check delegated to the url crate.

use vstd::prelude::*;

verus! {

/// The category of a URL syntax failure.
#[derive(Clone, Copy, Debug, PartialEq, Eq, Structural)]
pub enum UrlParseKind {
    RelativeWithoutBase,
    InvalidPort,
    InvalidIpv4,
    InvalidIpv6,
    Other,
}

/// What url::Url::parse says of a text: None when it parses as an absolute
/// URL, otherwise the category of its parse error.
pub uninterp spec fn url_parse_outcome(s: Seq<char>) -> Option<UrlParseKind>;

/// Relies on url::Url::parse: a pure parser whose result depends on the text
/// alone. The error variants this library distinguishes are passed on under
/// the matching category; every other variant comes back as Other.
#[verifier::external_body]
pub(crate) fn check_url_syntax(s: &str) -> (r: Option<UrlParseKind>)
    ensures
        r == url_parse_outcome(s@),
{
    match url::Url::parse(s) {
        Ok(_) => None,
        Err(url::ParseError::RelativeUrlWithoutBase) => Some(UrlParseKind::RelativeWithoutBase),
        Err(url::ParseError::InvalidPort) => Some(UrlParseKind::InvalidPort),
        Err(url::ParseError::InvalidIpv4Address) => Some(UrlParseKind::InvalidIpv4),
        Err(url::ParseError::InvalidIpv6Address) => Some(UrlParseKind::InvalidIpv6),
        Err(_) => Some(UrlParseKind::Other),
    }
}

/// `p` is a character-for-character prefix of `s`.
pub open spec fn is_char_prefix(p: Seq<char>, s: Seq<char>) -> bool {
    p.len() <= s.len() && forall|i: int| 0 <= i < p.len() ==> s[i] == p[i]
}

/// The text begins with `http://` or `https://`.
pub open spec fn has_http_prefix(s: Seq<char>) -> bool {
    is_char_prefix("http://"@, s) || is_char_prefix("https://"@, s)
}

/// `p` is a prefix of `s`, compared character by character.
fn str_has_prefix(s: &str, p: &str) -> (r: bool)
    ensures
        r == is_char_prefix(p@, s@),
{
    let n = p.unicode_len();
    let m = s.unicode_len();
    if n > m {
        return false;
    }
    let mut i: usize = 0;
    while i < n
        invariant
            i <= n,
            n == p@.len(),
            n <= m == s@.len(),
            forall|k: int| 0 <= k < i ==> s@[k] == p@[k],
        decreases n - i,
    {
        if s.get_char(i) != p.get_char(i) {
            return false;
        }
        i += 1;
    }
    true
}

/// The URL carries a supported scheme prefix, `http://` or `https://`.
pub fn has_supported_protocol(target: &str) -> (r: bool)
    ensures
        r == has_http_prefix(target@),
{
    str_has_prefix(target, "http://") || str_has_prefix(target, "https://")
}

} // verus!
