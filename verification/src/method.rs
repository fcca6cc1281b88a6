//! The effective HTTP method and how it is resolved from the command line.

use vstd::prelude::*;

verus! {

/// The method actually used for dispatch: POST when a JSON payload is
/// present or the method flag spells "post" in any letter case, GET otherwise.
#[derive(Clone, Copy, Debug, PartialEq, Eq, Structural)]
pub enum Method {
    Get,
    Post,
}

/// The flag names POST, compared without regard to ASCII letter case.
pub open spec fn spells_post(s: Seq<char>) -> bool {
    &&& s.len() == 4
    &&& (s[0] == 'P' || s[0] == 'p')
    &&& (s[1] == 'O' || s[1] == 'o')
    &&& (s[2] == 'S' || s[2] == 's')
    &&& (s[3] == 'T' || s[3] == 't')
}

/// The effective method: a JSON payload forces POST; otherwise the flag
/// decides, and anything but POST dispatches as GET.
pub open spec fn resolved_method(flag: Seq<char>, has_json: bool) -> Method {
    if has_json {
        Method::Post
    } else if spells_post(flag) {
        Method::Post
    } else {
        Method::Get
    }
}

/// The display name of an effective method.
pub open spec fn method_title(m: Method) -> Seq<char> {
    match m {
        Method::Get => "GET"@,
        Method::Post => "POST"@,
    }
}

/// Law: whenever a JSON payload is present the effective method is POST,
/// whatever the method flag says.
pub proof fn lemma_json_forces_post(flag: Seq<char>)
    ensures
        resolved_method(flag, true) == Method::Post,
{
}

/// Resolve the effective method from the method flag and the presence of a
/// JSON payload.
pub fn resolve_method(flag: &str, has_json: bool) -> (m: Method)
    ensures
        m == resolved_method(flag@, has_json),
{
    if has_json {
        Method::Post
    } else if flag_spells_post(flag) {
        Method::Post
    } else {
        Method::Get
    }
}

/// The method flag names POST in any ASCII letter case.
fn flag_spells_post(flag: &str) -> (r: bool)
    ensures
        r == spells_post(flag@),
{
    if flag.unicode_len() != 4 {
        return false;
    }
    let c0 = flag.get_char(0);
    let c1 = flag.get_char(1);
    let c2 = flag.get_char(2);
    let c3 = flag.get_char(3);
    (c0 == 'P' || c0 == 'p') && (c1 == 'O' || c1 == 'o') && (c2 == 'S' || c2 == 's') && (c3 == 'T'
        || c3 == 't')
}

/// The display name of an effective method, as a string slice.
pub fn method_name(m: Method) -> (r: &'static str)
    ensures
        r@ == method_title(m),
{
    match m {
        Method::Get => "GET",
        Method::Post => "POST",
    }
}

} // verus!
