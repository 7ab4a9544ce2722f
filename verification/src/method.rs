//! The method resolver: maps a case-insensitive method name to one of the
//! seven supported HTTP verbs, or reports that the name is unknown.  An
//! unknown method is fatal for the whole run, so the resolver's answer is the
//! one place a suite can fail before its first request.

use vstd::prelude::*;
use vstd::string::StrSliceExecFns;

verus! {

/// The closed set of HTTP verbs the engine can issue.
#[derive(Clone, Copy, Debug, PartialEq, Eq, Structural)]
pub enum HttpMethod {
    Get,
    Post,
    Put,
    Patch,
    Delete,
    Options,
    Head,
}

/// Maps an ASCII capital letter to its lower-case form and leaves every other
/// character unchanged.
pub open spec fn lower_char(c: char) -> char {
    match c {
        'A' => 'a',
        'B' => 'b',
        'C' => 'c',
        'D' => 'd',
        'E' => 'e',
        'F' => 'f',
        'G' => 'g',
        'H' => 'h',
        'I' => 'i',
        'J' => 'j',
        'K' => 'k',
        'L' => 'l',
        'M' => 'm',
        'N' => 'n',
        'O' => 'o',
        'P' => 'p',
        'Q' => 'q',
        'R' => 'r',
        'S' => 's',
        'T' => 't',
        'U' => 'u',
        'V' => 'v',
        'W' => 'w',
        'X' => 'x',
        'Y' => 'y',
        'Z' => 'z',
        _ => c,
    }
}

/// `s` spells `verb` up to ASCII case, where `verb` is already lower case.
pub open spec fn spec_eq_ignore_ascii_case(s: Seq<char>, verb: Seq<char>) -> bool {
    s.len() == verb.len() && (forall|i: int| 0 <= i < s.len() ==> lower_char(s[i]) == verb[i])
}

/// The verb a method name resolves to, if any.  Comparison is
/// case-insensitive against the fixed set
/// {GET, POST, PUT, PATCH, DELETE, OPTIONS, HEAD}.
pub open spec fn spec_resolve_method(s: Seq<char>) -> Option<HttpMethod> {
    if spec_eq_ignore_ascii_case(s, "get"@) {
        Some(HttpMethod::Get)
    } else if spec_eq_ignore_ascii_case(s, "post"@) {
        Some(HttpMethod::Post)
    } else if spec_eq_ignore_ascii_case(s, "put"@) {
        Some(HttpMethod::Put)
    } else if spec_eq_ignore_ascii_case(s, "patch"@) {
        Some(HttpMethod::Patch)
    } else if spec_eq_ignore_ascii_case(s, "delete"@) {
        Some(HttpMethod::Delete)
    } else if spec_eq_ignore_ascii_case(s, "options"@) {
        Some(HttpMethod::Options)
    } else if spec_eq_ignore_ascii_case(s, "head"@) {
        Some(HttpMethod::Head)
    } else {
        None
    }
}

fn lower_char_exec(c: char) -> (r: char)
    ensures
        r == lower_char(c),
{
    match c {
        'A' => 'a',
        'B' => 'b',
        'C' => 'c',
        'D' => 'd',
        'E' => 'e',
        'F' => 'f',
        'G' => 'g',
        'H' => 'h',
        'I' => 'i',
        'J' => 'j',
        'K' => 'k',
        'L' => 'l',
        'M' => 'm',
        'N' => 'n',
        'O' => 'o',
        'P' => 'p',
        'Q' => 'q',
        'R' => 'r',
        'S' => 's',
        'T' => 't',
        'U' => 'u',
        'V' => 'v',
        'W' => 'w',
        'X' => 'x',
        'Y' => 'y',
        'Z' => 'z',
        _ => c,
    }
}

fn eq_ignore_ascii_case(s: &str, verb: &str) -> (r: bool)
    ensures
        r == spec_eq_ignore_ascii_case(s@, verb@),
{
    let sn: usize = s.unicode_len();
    let vn: usize = verb.unicode_len();
    if sn != vn {
        return false;
    }
    let mut i: usize = 0;
    while i < sn
        invariant
            i <= sn,
            sn == s@.len(),
            vn == verb@.len(),
            sn == vn,
            forall|j: int| 0 <= j < i ==> lower_char(s@[j]) == verb@[j],
        decreases sn - i,
    {
        let a = s.get_char(i);
        let b = verb.get_char(i);
        if lower_char_exec(a) != b {
            return false;
        }
        i = i + 1;
    }
    true
}

/// Resolves a method name against the seven supported verbs; `None` means the
/// name is unknown and the run must not proceed.
pub fn validate_http_method(method: &String) -> (r: Option<HttpMethod>)
    ensures
        r == spec_resolve_method(method@),
{
    let s = method.as_str();
    if eq_ignore_ascii_case(s, "get") {
        Some(HttpMethod::Get)
    } else if eq_ignore_ascii_case(s, "post") {
        Some(HttpMethod::Post)
    } else if eq_ignore_ascii_case(s, "put") {
        Some(HttpMethod::Put)
    } else if eq_ignore_ascii_case(s, "patch") {
        Some(HttpMethod::Patch)
    } else if eq_ignore_ascii_case(s, "delete") {
        Some(HttpMethod::Delete)
    } else if eq_ignore_ascii_case(s, "options") {
        Some(HttpMethod::Options)
    } else if eq_ignore_ascii_case(s, "head") {
        Some(HttpMethod::Head)
    } else {
        None
    }
}

} // verus!
