//! The request builder: turns one test case plus the current variable store
//! into a fully formed outbound request description — URL, canonical verb,
//! serialized JSON body and injected authorization/session headers.  The
//! caller only has to put the description on the wire.

use vstd::prelude::*;
use vstd::string::StrSliceExecFns;
use vstd::string::StringExecFns;

use crate::config::TestCase;
use crate::config::TimeBoundaries;
use crate::method::spec_resolve_method;
use crate::method::validate_http_method;
use crate::method::HttpMethod;
use crate::outside::check_uri;
use crate::outside::uri_ok;
use crate::sink::LogSink;
use crate::store::VarStore;

verus! {

/// A fatal configuration error: the run must stop before any further test.
pub enum RunError {
    /// The test names a method outside the supported set.
    UnknownMethod { method: String },
    /// Base address and route do not concatenate to a well-formed URI.
    MalformedUrl { url: String },
}

impl RunError {
    /// The diagnostic the caller must surface before halting.
    pub open spec fn spec_message(&self) -> Seq<char> {
        match self {
            RunError::UnknownMethod { method } => "Unknown or unsupported method "@ + method@,
            RunError::MalformedUrl { url } => "Malformed request URL "@ + url@,
        }
    }

    /// Renders the diagnostic.
    pub fn message(&self) -> (r: String)
        ensures
            r@ == self.spec_message(),
    {
        match self {
            RunError::UnknownMethod { method } => {
                let mut s = String::from_str("Unknown or unsupported method ");
                s.append(method.as_str());
                s
            },
            RunError::MalformedUrl { url } => {
                let mut s = String::from_str("Malformed request URL ");
                s.append(url.as_str());
                s
            },
        }
    }
}

/// Everything the transport needs to issue one request.
pub struct HttpRequestSpec {
    /// The canonical verb.
    pub method: HttpMethod,
    /// Base address and route, already checked to parse as a URI.
    pub url: String,
    /// The serialized JSON body; empty when the test declares none.
    pub body: String,
    /// Full value of the `Authorization` header, when one is injected.
    pub authorization: Option<String>,
    /// Full value of the `Cookie` header, when one is injected.
    pub cookie: Option<String>,
    /// Whether `Content-Type: application/json` accompanies the body.
    pub content_type_json: bool,
    /// How long the transport may wait before giving the request up.
    pub timeout_ms: u128,
    /// The test's effective verbosity, for the transport's own tracing.
    pub verbose: bool,
}

/// One `"key":"value"` member of the serialized body.
pub open spec fn spec_pair_text(p: (Seq<char>, Seq<char>)) -> Seq<char> {
    "\""@ + p.0 + "\":\""@ + p.1 + "\""@
}

/// The members of the serialized body, joined with commas.
pub open spec fn spec_pairs_text(pairs: Seq<(Seq<char>, Seq<char>)>) -> Seq<char>
    decreases pairs.len(),
{
    if pairs.len() == 0 {
        Seq::empty()
    } else if pairs.len() == 1 {
        spec_pair_text(pairs[0])
    } else {
        spec_pairs_text(pairs.drop_last()) + ","@ + spec_pair_text(pairs.last())
    }
}

/// The request body a declared `json_body` serializes to: a single flat JSON
/// object of string pairs, `"{}"` for an empty mapping, and the empty string
/// when no body is declared.
pub open spec fn spec_body_text(json_body: Option<Seq<(Seq<char>, Seq<char>)>>) -> Seq<char> {
    match json_body {
        Some(pairs) => "{"@ + spec_pairs_text(pairs) + "}"@,
        None => Seq::empty(),
    }
}

/// The `Authorization` value a test gets under store `store`: a bearer token
/// exactly when the test names a variable that the store holds; a named but
/// unset variable injects nothing.
pub open spec fn spec_auth_header(
    var: Option<String>,
    store: Map<Seq<char>, Seq<char>>,
) -> Option<Seq<char>> {
    match var {
        Some(k) => if store.contains_key(k@) {
            Some("Bearer "@ + store[k@])
        } else {
            None
        },
        None => None,
    }
}

/// The `Cookie` value a test gets under store `store`, by the same rule as
/// the bearer token.
pub open spec fn spec_cookie_header(
    var: Option<String>,
    store: Map<Seq<char>, Seq<char>>,
) -> Option<Seq<char>> {
    match var {
        Some(k) => if store.contains_key(k@) {
            Some("connect.sid="@ + store[k@])
        } else {
            None
        },
        None => None,
    }
}

/// The lines the builder logs, all gated on the test's effective verbosity:
/// the capture key it will consult, then each injected header both as the
/// bare token and as the composed header value.
pub open spec fn spec_builder_lines(
    test: TestCase,
    store: Map<Seq<char>, Seq<char>>,
    verbose: bool,
) -> Seq<Seq<char>> {
    if !verbose {
        Seq::empty()
    } else {
        seq![spec_capture_key_line(test)] + (match spec_auth_header(test.bearer_token_var, store) {
            Some(a) => seq![
                "Bearer Token: "@ + store[test.bearer_token_var->0@] + "\n"@,
                "Composed token: "@ + a + "\n"@,
            ],
            None => Seq::empty(),
        }) + (match spec_cookie_header(test.session_id_var, store) {
            Some(c) => seq![
                "Session Token: "@ + store[test.session_id_var->0@] + "\n"@,
                "Composed token: "@ + c + "\n"@,
            ],
            None => Seq::empty(),
        })
    }
}

/// The same trace, as the one flat text the log buffer accumulates.
pub open spec fn spec_builder_text(
    test: TestCase,
    store: Map<Seq<char>, Seq<char>>,
    verbose: bool,
) -> Seq<char> {
    if !verbose {
        Seq::empty()
    } else {
        spec_capture_key_line(test) + (match spec_auth_header(test.bearer_token_var, store) {
            Some(a) => "Bearer Token: "@ + store[test.bearer_token_var->0@] + "\n"@
                + "Composed token: "@ + a + "\n"@,
            None => Seq::empty(),
        }) + (match spec_cookie_header(test.session_id_var, store) {
            Some(c) => "Session Token: "@ + store[test.session_id_var->0@] + "\n"@
                + "Composed token: "@ + c + "\n"@,
            None => Seq::empty(),
        })
    }
}

/// The "Capture Key" trace line: the bearer variable the test names, or
/// nothing.
pub open spec fn spec_capture_key_line(test: TestCase) -> Seq<char> {
    "Capture Key: "@ + (match test.bearer_token_var {
        Some(k) => k@,
        None => Seq::empty(),
    })
}

/// Serializes a declared `json_body` mapping.
pub fn build_body(json_body: &Option<Vec<(String, String)>>) -> (r: String)
    ensures
        r@ == spec_body_text(json_body.deep_view()),
{
    match json_body {
        None => String::new(),
        Some(pairs) => {
            let ghost dv = pairs.deep_view();
            let mut s = String::from_str("{");
            let mut i: usize = 0;
            while i < pairs.len()
                invariant
                    i <= pairs.len(),
                    dv == pairs.deep_view(),
                    dv.len() == pairs.len(),
                    s@ == "{"@ + spec_pairs_text(dv.take(i as int)),
                decreases pairs.len() - i,
            {
                if i > 0 {
                    s.append(",");
                }
                s.append("\"");
                s.append(pairs[i].0.as_str());
                s.append("\":\"");
                s.append(pairs[i].1.as_str());
                s.append("\"");
                i = i + 1;
                proof {
                    assert(dv[i - 1] == (pairs@[i - 1].0@, pairs@[i - 1].1@));
                    assert(dv.take(i as int).drop_last() =~= dv.take(i - 1));
                    assert(dv.take(i as int).last() == dv[i - 1]);
                    assert(s@ =~= "{"@ + spec_pairs_text(dv.take(i as int)));
                }
            }
            s.append("}");
            proof {
                assert(dv.take(dv.len() as int) =~= dv);
            }
            s
        },
    }
}

/// Builds the outbound request for one test under the current store and
/// running boundaries.  Resolves the verb (unknown: fatal), checks the
/// composed URL (malformed: fatal), serializes the body and injects captured
/// tokens; nothing is logged on the fatal paths, and on success the trace
/// lines of `spec_builder_lines` are emitted at the test's verbosity.
pub fn build_request(
    test: &TestCase,
    store: &VarStore,
    base_address: &String,
    bounds: &TimeBoundaries,
    verbose: bool,
    sink: &mut LogSink,
) -> (r: Result<HttpRequestSpec, RunError>)
    ensures
        match r {
            Result::Err(e) => {
                &&& *final(sink) == *old(sink)
                &&& match e {
                    RunError::UnknownMethod { method } => {
                        &&& spec_resolve_method(test.method@) is None
                        &&& method@ == test.method@
                    },
                    RunError::MalformedUrl { url } => {
                        &&& spec_resolve_method(test.method@) is Some
                        &&& !uri_ok(base_address@ + test.route@)
                        &&& url@ == base_address@ + test.route@
                    },
                }
            },
            Result::Ok(req) => {
                &&& spec_resolve_method(test.method@) is Some
                &&& req.method == spec_resolve_method(test.method@)->0
                &&& uri_ok(base_address@ + test.route@)
                &&& req.url@ == base_address@ + test.route@
                &&& req.body@ == spec_body_text(test.json_body.deep_view())
                &&& match req.authorization {
                    Some(a) => spec_auth_header(test.bearer_token_var, store@) == Some(a@),
                    None => spec_auth_header(test.bearer_token_var, store@) is None,
                }
                &&& match req.cookie {
                    Some(c) => spec_cookie_header(test.session_id_var, store@) == Some(c@),
                    None => spec_cookie_header(test.session_id_var, store@) is None,
                }
                &&& req.content_type_json == (test.json_body is Some)
                &&& req.timeout_ms == bounds.timeout
                &&& req.verbose == verbose
                &&& final(sink).console_lines() == old(sink).console_lines() + spec_builder_lines(
                    *test,
                    store@,
                    verbose,
                )
                &&& final(sink).buffer_text() == match old(sink).buffer_text() {
                    Some(b) => Some(b + spec_builder_text(*test, store@, verbose)),
                    None => None::<Seq<char>>,
                }
            },
        },
{
    let ghost sink0 = *sink;
    let method = match validate_http_method(&test.method) {
        Some(m) => m,
        None => {
            return Result::Err(RunError::UnknownMethod { method: test.method.clone() });
        },
    };
    let mut url = base_address.clone();
    url.append(test.route.as_str());
    if !check_uri(url.as_str()) {
        return Result::Err(RunError::MalformedUrl { url });
    }
    let body = build_body(&test.json_body);

    let mut ck = String::from_str("Capture Key: ");
    match &test.bearer_token_var {
        Some(k) => ck.append(k.as_str()),
        None => {},
    }
    sink.emit(ck, verbose);

    let authorization = match &test.bearer_token_var {
        Some(k) => match store.get(k) {
            Some(tok) => {
                let mut l1 = String::from_str("Bearer Token: ");
                l1.append(tok.as_str());
                l1.append("\n");
                sink.emit(l1, verbose);
                let mut composed = String::from_str("Bearer ");
                composed.append(tok.as_str());
                let mut l2 = String::from_str("Composed token: ");
                l2.append(composed.as_str());
                l2.append("\n");
                sink.emit(l2, verbose);
                Some(composed)
            },
            None => None,
        },
        None => None,
    };

    let cookie = match &test.session_id_var {
        Some(k) => match store.get(k) {
            Some(tok) => {
                let mut l1 = String::from_str("Session Token: ");
                l1.append(tok.as_str());
                l1.append("\n");
                sink.emit(l1, verbose);
                let mut composed = String::from_str("connect.sid=");
                composed.append(tok.as_str());
                let mut l2 = String::from_str("Composed token: ");
                l2.append(composed.as_str());
                l2.append("\n");
                sink.emit(l2, verbose);
                Some(composed)
            },
            None => None,
        },
        None => None,
    };

    let content_type_json = test.json_body.is_some();

    proof {
        assert(sink.console_lines() =~= sink0.console_lines() + spec_builder_lines(
            *test,
            store@,
            verbose,
        ));
        if sink0.buffer_text() is Some {
            assert(sink.buffer_text() is Some);
            assert(sink.buffer_text()->0 =~= sink0.buffer_text()->0 + spec_builder_text(
                *test,
                store@,
                verbose,
            ));
        }
    }

    Result::Ok(
        HttpRequestSpec {
            method,
            url,
            body,
            authorization,
            cookie,
            content_type_json,
            timeout_ms: bounds.timeout,
            verbose,
        },
    )
}

} // verus!
