//! Every call that leaves the verified library goes through this module.
//! Each item wraps exactly one outside function; what its contract states is
//! taken from that function's source or documentation, and results that would
//! take pages to state are only given a name.

use vstd::prelude::*;

verus! {

// ----- URL validity (hyper) -----

/// Whether `s` parses as a URI.  The answer depends on the characters of `s`
/// alone.
pub uninterp spec fn uri_ok(s: Seq<char>) -> bool;

/// Relies on `hyper::Uri`'s `FromStr`: parsing is deterministic in the input
/// string, and `parse` returns `Ok` exactly when the string is a well-formed
/// URI.
#[verifier::external_body]
pub(crate) fn check_uri(s: &str) -> (r: bool)
    ensures
        r == uri_ok(s@),
{
    s.parse::<hyper::Uri>().is_ok()
}

// ----- Lossy UTF-8 decoding (std) -----

/// The text `String::from_utf8_lossy` decodes from `b`: UTF-8 with every
/// invalid sequence replaced.  A function of the bytes alone.
pub uninterp spec fn lossy_text(b: Seq<u8>) -> Seq<char>;

/// Relies on `String::from_utf8_lossy`: the decoding is deterministic in the
/// bytes.
#[verifier::external_body]
pub(crate) fn lossy_string(b: &[u8]) -> (r: String)
    ensures
        r@ == lossy_text(b@),
{
    String::from_utf8_lossy(b).into_owned()
}

// ----- JSON documents (serde_json) -----

#[verifier::external_type_specification]
#[verifier::external_body]
pub struct ExJsonValue(serde_json::Value);

/// What `serde_json::from_str::<Value>` reports for document `s`: `None` when
/// the document parses, otherwise the rendering of the parse error.  A
/// function of the text alone.
pub uninterp spec fn json_parse_err(s: Seq<char>) -> Option<Seq<char>>;

/// Relies on `serde_json::from_str::<Value>`: parsing is deterministic in the
/// input text; on failure the error's rendering is handed back.
#[verifier::external_body]
pub(crate) fn parse_json_document(s: &str) -> (r: Result<serde_json::Value, String>)
    ensures
        r is Ok <==> json_parse_err(s@) is None,
        r is Err ==> json_parse_err(s@) == Some(r->Err_0@),
{
    match serde_json::from_str::<serde_json::Value>(s) {
        Ok(v) => Ok(v),
        Err(e) => Err(e.to_string()),
    }
}

/// Relies on serde_json's `Index<&str>` impl for `Value`: looks a field up in
/// an object, yielding JSON null when the value is not an object or has no
/// such field.
#[verifier::external_body]
pub(crate) fn json_field<'a>(doc: &'a serde_json::Value, key: &str) -> (r: &'a serde_json::Value) {
    &doc[key]
}

/// Relies on `serde_json::Value::is_null`.
pub assume_specification[ serde_json::Value::is_null ](v: &serde_json::Value) -> (r: bool);

/// Relies on the `Display` impl of `serde_json::Value`: renders the value as
/// compact JSON (so a JSON string keeps its surrounding double quotes).
#[verifier::external_body]
pub(crate) fn json_value_text(v: &serde_json::Value) -> (r: String) {
    v.to_string()
}

} // verus!
