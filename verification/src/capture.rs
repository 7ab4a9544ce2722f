//! Value capture from a JSON response body.  A body is only treated as JSON
//! when it is non-empty and opens with `{`; a parse failure is logged and
//! skipped, never fatal.  Each capture directive looks one field up — the
//! path is a flat top-level field name, not a nested lookup — and a missing
//! or null field earns a console warning, while anything else is rendered,
//! unwrapped from one pair of surrounding double quotes if it is a JSON
//! string, and stored.

use vstd::prelude::*;
use vstd::string::StrSliceExecFns;
use vstd::string::StringExecFns;

use crate::config::TestCase;
use crate::outside::json_field;
use crate::outside::json_parse_err;
use crate::outside::json_value_text;
use crate::outside::lossy_string;
use crate::outside::lossy_text;
use crate::outside::parse_json_document;
use crate::sink::LogSink;
use crate::store::VarStore;

verus! {

/// Whether a body is even tried as JSON: non-empty and opening with `{`.
pub open spec fn spec_json_guard(b: Seq<u8>) -> bool {
    b.len() > 0 && b[0] == 123u8
}

/// `s` with one pair of enclosing double quotes removed, when it has one;
/// otherwise `s` itself.
pub open spec fn spec_strip_quotes(s: Seq<char>) -> Seq<char> {
    if s.len() >= 2 && s[0] == '"' && s[s.len() - 1] == '"' {
        s.subrange(1, s.len() - 1)
    } else {
        s
    }
}

/// The console warning for a capture directive whose field is missing or
/// null.
pub open spec fn spec_missing_capture_line(field: Seq<char>) -> Seq<char> {
    "Error: Cannot capture nonexistent value '"@ + field + "'"@
}

/// The line logged when a body that looked like JSON fails to parse.
pub open spec fn spec_parse_error_line(err: Seq<char>) -> Seq<char> {
    "Error while parsing response body as json: "@ + err + "\n"@
}

/// Every variable outside `keys` survives unchanged from `pre` to `post`.
pub open spec fn spec_untouched_outside(
    pre: Map<Seq<char>, Seq<char>>,
    post: Map<Seq<char>, Seq<char>>,
    keys: Set<Seq<char>>,
) -> bool {
    forall|k: Seq<char>|
        !keys.contains(k) ==> #[trigger] post.contains_key(k) == pre.contains_key(k) && (
        pre.contains_key(k) ==> post[k] == pre[k])
}

/// Removes one pair of enclosing double quotes, if present.
pub fn strip_quotes(s: &String) -> (r: String)
    ensures
        r@ == spec_strip_quotes(s@),
{
    let st = s.as_str();
    let n: usize = st.unicode_len();
    if n >= 2 && st.get_char(0) == '"' && st.get_char(n - 1) == '"' {
        String::from_str(st.substring_char(1, n - 1))
    } else {
        s.clone()
    }
}

/// Settles one capture directive from whatever the field lookup produced:
/// `Some` stores the unwrapped rendering under `key`, `None` (field missing
/// or null) warns on the console and stores nothing.
pub fn capture_one(
    captures: &mut VarStore,
    sink: &mut LogSink,
    key: &String,
    field: &String,
    looked_up: Option<String>,
)
    ensures
        match looked_up {
            Some(s) => {
                &&& final(captures)@ == old(captures)@.insert(key@, spec_strip_quotes(s@))
                &&& *final(sink) == *old(sink)
            },
            None => {
                &&& *final(captures) == *old(captures)
                &&& final(sink).console_lines() == old(sink).console_lines().push(
                    spec_missing_capture_line(field@),
                )
                &&& final(sink).buffer_text() == old(sink).buffer_text()
            },
        },
{
    match looked_up {
        Some(s) => {
            let v = strip_quotes(&s);
            captures.insert(key.clone(), v);
        },
        None => {
            let mut l = String::from_str("Error: Cannot capture nonexistent value '");
            l.append(field.as_str());
            l.append("'");
            sink.print_line(l);
        },
    }
}

/// Parses the response body and runs the test's capture directives against
/// it.  A body that is empty or does not open with `{` is never parsed and
/// changes nothing.  A parse failure logs one line and captures nothing.
/// Otherwise only the variables the test's directives name are written, the
/// console only grows, and the buffer grows only by what a parse failure
/// would log — per-field warnings stay on the console.
pub fn parse_json_response(
    response_buffer: &Vec<u8>,
    captures: &mut VarStore,
    test: &TestCase,
    sink: &mut LogSink,
)
    ensures
        !spec_json_guard(response_buffer@) ==> {
            &&& *final(captures) == *old(captures)
            &&& *final(sink) == *old(sink)
        },
        (spec_json_guard(response_buffer@) && json_parse_err(
            lossy_text(response_buffer@),
        ) is Some) ==> {
            &&& *final(captures) == *old(captures)
            &&& final(sink).console_lines() == old(sink).console_lines().push(
                spec_parse_error_line(json_parse_err(lossy_text(response_buffer@))->0),
            )
            &&& final(sink).buffer_text() == match old(sink).buffer_text() {
                Some(b) => Some(
                    b + spec_parse_error_line(json_parse_err(lossy_text(response_buffer@))->0),
                ),
                None => None::<Seq<char>>,
            }
        },
        (spec_json_guard(response_buffer@) && json_parse_err(lossy_text(response_buffer@)) is None)
            ==> spec_untouched_outside(
            old(captures)@,
            final(captures)@,
            test.spec_capture_keys(),
        ),
        (spec_json_guard(response_buffer@) && json_parse_err(lossy_text(response_buffer@)) is None)
            ==> old(sink).console_lines().is_prefix_of(final(sink).console_lines()),
        (spec_json_guard(response_buffer@) && json_parse_err(lossy_text(response_buffer@)) is None)
            ==> final(sink).buffer_text() == old(sink).buffer_text(),
{
    if response_buffer.len() == 0 {
        return ;
    }
    if response_buffer[0] != 123u8 {
        return ;
    }
    let text = lossy_string(response_buffer.as_slice());
    let doc = match parse_json_document(text.as_str()) {
        Ok(d) => d,
        Err(e) => {
            let mut l = String::from_str("Error while parsing response body as json: ");
            l.append(e.as_str());
            l.append("\n");
            sink.emit(l, true);
            return ;
        },
    };
    let pairs = match &test.capture {
        Some(p) => p,
        None => {
            return ;
        },
    };
    let ghost store0 = captures@;
    let ghost console0 = sink.console_lines();
    let ghost buffer0 = sink.buffer_text();
    let mut i: usize = 0;
    while i < pairs.len()
        invariant
            i <= pairs.len(),
            test.capture == Some(*pairs),
            spec_untouched_outside(store0, captures@, test.spec_capture_keys()),
            console0.is_prefix_of(sink.console_lines()),
            sink.buffer_text() == buffer0,
        decreases pairs.len() - i,
    {
        let key = &pairs[i].0;
        let field = &pairs[i].1;
        proof {
            assert(pairs@[i as int].0@ == key@);
            assert(test.spec_capture_keys().contains(key@));
        }
        let ghost console_pre = sink.console_lines();
        let f = json_field(&doc, field.as_str());
        if f.is_null() {
            capture_one(captures, sink, key, field, None);
        } else {
            let rendered = json_value_text(f);
            capture_one(captures, sink, key, field, Some(rendered));
        }
        proof {
            assert(console0.is_prefix_of(sink.console_lines())) by {
                assert(forall|j: int|
                    0 <= j < console_pre.len() ==> sink.console_lines()[j] == console_pre[j]);
                assert(sink.console_lines().take(console0.len() as int) =~= console0);
            }
        }
        i = i + 1;
    }
}

} // verus!
