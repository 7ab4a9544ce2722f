use rust_rest_test::config::TestCase;
use rust_rest_test::config::TimeBoundaries;
use rust_rest_test::method::HttpMethod;
use rust_rest_test::request::build_body;
use rust_rest_test::request::build_request;
use rust_rest_test::request::RunError;
use rust_rest_test::sink::LogSink;
use rust_rest_test::store::VarStore;

fn plain_test(method: &str, route: &str) -> TestCase {
    TestCase {
        description: None,
        auto_describe: None,
        critical: None,
        route: route.to_string(),
        method: method.to_string(),
        expected_status: 200,
        json_body: None,
        capture: None,
        bearer_token_var: None,
        session_id_var: None,
        time_boundaries: None,
        verbose: None,
    }
}

fn bounds() -> TimeBoundaries {
    TimeBoundaries { low: 500, mid: 1000, timeout: 10000 }
}

#[test]
fn body_of_no_declaration_is_empty() {
    assert_eq!(build_body(&None), "");
}

#[test]
fn body_of_empty_mapping_is_braces() {
    assert_eq!(build_body(&Some(vec![])), "{}");
}

#[test]
fn body_of_one_pair() {
    let pairs = vec![("user".to_string(), "jo".to_string())];
    assert_eq!(build_body(&Some(pairs)), "{\"user\":\"jo\"}");
}

#[test]
fn body_of_two_pairs_keeps_order() {
    let pairs = vec![
        ("user".to_string(), "jo".to_string()),
        ("pass".to_string(), "pw".to_string()),
    ];
    assert_eq!(build_body(&Some(pairs)), "{\"user\":\"jo\",\"pass\":\"pw\"}");
}

#[test]
fn builds_url_and_method() {
    let test = plain_test("GET", "/login");
    let store = VarStore::new();
    let mut sink = LogSink::new(false);
    let req = build_request(
        &test,
        &store,
        &"http://localhost:8080".to_string(),
        &bounds(),
        false,
        &mut sink,
    )
    .ok()
    .unwrap();
    assert_eq!(req.url, "http://localhost:8080/login");
    assert_eq!(req.method, HttpMethod::Get);
    assert_eq!(req.body, "");
    assert!(!req.content_type_json);
    assert_eq!(req.timeout_ms, 10000);
    assert_eq!(req.authorization, None);
    assert_eq!(req.cookie, None);
}

#[test]
fn captured_token_becomes_bearer_header() {
    let mut test = plain_test("get", "/users");
    test.bearer_token_var = Some("uid".to_string());
    let mut store = VarStore::new();
    store.insert("uid".to_string(), "x1".to_string());
    let mut sink = LogSink::new(false);
    let req = build_request(&test, &store, &"http://h".to_string(), &bounds(), false, &mut sink)
        .ok()
        .unwrap();
    assert_eq!(req.authorization, Some("Bearer x1".to_string()));
}

#[test]
fn unset_variable_injects_no_header_at_all() {
    let mut test = plain_test("get", "/users");
    test.bearer_token_var = Some("missing".to_string());
    let store = VarStore::new();
    let mut sink = LogSink::new(false);
    let req = build_request(&test, &store, &"http://h".to_string(), &bounds(), false, &mut sink)
        .ok()
        .unwrap();
    assert_eq!(req.authorization, None);
}

#[test]
fn captured_session_becomes_cookie_header() {
    let mut test = plain_test("get", "/home");
    test.session_id_var = Some("sid".to_string());
    let mut store = VarStore::new();
    store.insert("sid".to_string(), "s0ken".to_string());
    let mut sink = LogSink::new(false);
    let req = build_request(&test, &store, &"http://h".to_string(), &bounds(), false, &mut sink)
        .ok()
        .unwrap();
    assert_eq!(req.cookie, Some("connect.sid=s0ken".to_string()));
}

#[test]
fn json_body_sets_content_type() {
    let mut test = plain_test("post", "/login");
    test.json_body = Some(vec![("user".to_string(), "jo".to_string())]);
    let store = VarStore::new();
    let mut sink = LogSink::new(false);
    let req = build_request(&test, &store, &"http://h".to_string(), &bounds(), false, &mut sink)
        .ok()
        .unwrap();
    assert!(req.content_type_json);
    assert_eq!(req.body, "{\"user\":\"jo\"}");
}

#[test]
fn unknown_method_is_fatal() {
    let test = plain_test("FOOBAR", "/x");
    let store = VarStore::new();
    let mut sink = LogSink::new(false);
    let r = build_request(&test, &store, &"http://h".to_string(), &bounds(), false, &mut sink);
    match r {
        Err(RunError::UnknownMethod { method }) => {
            assert_eq!(method, "FOOBAR");
        }
        _ => panic!("expected an unknown-method error"),
    }
}

#[test]
fn malformed_url_is_fatal() {
    let test = plain_test("get", "/a path with spaces");
    let store = VarStore::new();
    let mut sink = LogSink::new(false);
    let r = build_request(&test, &store, &"http://h".to_string(), &bounds(), false, &mut sink);
    match r {
        Err(RunError::MalformedUrl { url }) => {
            assert_eq!(url, "http://h/a path with spaces");
        }
        _ => panic!("expected a malformed-url error"),
    }
}

#[test]
fn fatal_error_messages() {
    let e = RunError::UnknownMethod { method: "FOOBAR".to_string() };
    assert_eq!(e.message(), "Unknown or unsupported method FOOBAR");
    let u = RunError::MalformedUrl { url: "::".to_string() };
    assert_eq!(u.message(), "Malformed request URL ::");
}

#[test]
fn verbose_builder_logs_token_lines() {
    let mut test = plain_test("get", "/users");
    test.bearer_token_var = Some("uid".to_string());
    let mut store = VarStore::new();
    store.insert("uid".to_string(), "x1".to_string());
    let mut sink = LogSink::new(true);
    let _ = build_request(&test, &store, &"http://h".to_string(), &bounds(), true, &mut sink)
        .ok()
        .unwrap();
    assert_eq!(sink.console_len(), 3);
    assert_eq!(sink.console_at(0), "Capture Key: uid");
    assert_eq!(sink.console_at(1), "Bearer Token: x1\n");
    assert_eq!(sink.console_at(2), "Composed token: Bearer x1\n");
    let buffer = sink.buffer_copy().unwrap();
    assert_eq!(buffer, "Capture Key: uidBearer Token: x1\nComposed token: Bearer x1\n");
}

#[test]
fn quiet_builder_logs_nothing() {
    let mut test = plain_test("get", "/users");
    test.bearer_token_var = Some("uid".to_string());
    let mut store = VarStore::new();
    store.insert("uid".to_string(), "x1".to_string());
    let mut sink = LogSink::new(false);
    let _ = build_request(&test, &store, &"http://h".to_string(), &bounds(), false, &mut sink)
        .ok()
        .unwrap();
    assert_eq!(sink.console_len(), 0);
}
