use rust_rest_test::capture::parse_json_response;
use rust_rest_test::capture::strip_quotes;
use rust_rest_test::config::TestCase;
use rust_rest_test::sink::LogSink;
use rust_rest_test::store::VarStore;

fn capture_test(pairs: Vec<(&str, &str)>) -> TestCase {
    TestCase {
        description: None,
        auto_describe: None,
        critical: None,
        route: "/".to_string(),
        method: "get".to_string(),
        expected_status: 200,
        json_body: None,
        capture: Some(
            pairs.into_iter().map(|(k, v)| (k.to_string(), v.to_string())).collect(),
        ),
        bearer_token_var: None,
        session_id_var: None,
        time_boundaries: None,
        verbose: None,
    }
}

#[test]
fn strips_one_pair_of_quotes() {
    assert_eq!(strip_quotes(&"\"abc123\"".to_string()), "abc123");
    assert_eq!(strip_quotes(&"\"\"x\"\"".to_string()), "\"x\"");
}

#[test]
fn leaves_unquoted_text_alone() {
    assert_eq!(strip_quotes(&"abc".to_string()), "abc");
    assert_eq!(strip_quotes(&"42".to_string()), "42");
    assert_eq!(strip_quotes(&"".to_string()), "");
    assert_eq!(strip_quotes(&"\"".to_string()), "\"");
    assert_eq!(strip_quotes(&"\"\"".to_string()), "");
}

#[test]
fn captures_a_string_field_without_quotes() {
    let body = b"{\"token\":\"abc123\"}".to_vec();
    let test = capture_test(vec![("sess", "token")]);
    let mut store = VarStore::new();
    let mut sink = LogSink::new(false);
    parse_json_response(&body, &mut store, &test, &mut sink);
    assert_eq!(store.get(&"sess".to_string()), Some("abc123".to_string()));
    assert_eq!(sink.console_len(), 0);
}

#[test]
fn captures_a_number_as_its_rendering() {
    let body = b"{\"n\":42}".to_vec();
    let test = capture_test(vec![("num", "n")]);
    let mut store = VarStore::new();
    let mut sink = LogSink::new(false);
    parse_json_response(&body, &mut store, &test, &mut sink);
    assert_eq!(store.get(&"num".to_string()), Some("42".to_string()));
}

#[test]
fn empty_body_is_never_parsed() {
    let body: Vec<u8> = Vec::new();
    let test = capture_test(vec![("sess", "token")]);
    let mut store = VarStore::new();
    let mut sink = LogSink::new(true);
    parse_json_response(&body, &mut store, &test, &mut sink);
    assert_eq!(store.get(&"sess".to_string()), None);
    assert_eq!(sink.console_len(), 0);
    assert_eq!(sink.buffer_copy().unwrap(), "");
}

#[test]
fn body_not_opening_with_brace_is_never_parsed() {
    let body = b"plain text, not json".to_vec();
    let test = capture_test(vec![("sess", "token")]);
    let mut store = VarStore::new();
    let mut sink = LogSink::new(true);
    parse_json_response(&body, &mut store, &test, &mut sink);
    assert_eq!(store.get(&"sess".to_string()), None);
    assert_eq!(sink.console_len(), 0);
    assert_eq!(sink.buffer_copy().unwrap(), "");
}

#[test]
fn parse_failure_logs_one_line_and_captures_nothing() {
    let body = b"{not valid json".to_vec();
    let test = capture_test(vec![("sess", "token")]);
    let mut store = VarStore::new();
    let mut sink = LogSink::new(true);
    parse_json_response(&body, &mut store, &test, &mut sink);
    assert_eq!(store.get(&"sess".to_string()), None);
    assert_eq!(sink.console_len(), 1);
    let line = sink.console_at(0);
    assert!(line.starts_with("Error while parsing response body as json: "));
    assert!(line.ends_with("\n"));
    assert_eq!(sink.buffer_copy().unwrap(), line);
}

#[test]
fn missing_field_warns_on_console_only() {
    let body = b"{\"a\":1}".to_vec();
    let test = capture_test(vec![("v", "b")]);
    let mut store = VarStore::new();
    let mut sink = LogSink::new(true);
    parse_json_response(&body, &mut store, &test, &mut sink);
    assert_eq!(store.get(&"v".to_string()), None);
    assert_eq!(sink.console_len(), 1);
    assert_eq!(sink.console_at(0), "Error: Cannot capture nonexistent value 'b'");
    assert_eq!(sink.buffer_copy().unwrap(), "");
}

#[test]
fn null_field_warns_and_stores_nothing() {
    let body = b"{\"a\":null}".to_vec();
    let test = capture_test(vec![("v", "a")]);
    let mut store = VarStore::new();
    let mut sink = LogSink::new(false);
    parse_json_response(&body, &mut store, &test, &mut sink);
    assert_eq!(store.get(&"v".to_string()), None);
    assert_eq!(sink.console_at(0), "Error: Cannot capture nonexistent value 'a'");
}

#[test]
fn several_captures_from_one_body() {
    let body = b"{\"id\":\"x1\",\"count\":3}".to_vec();
    let test = capture_test(vec![("uid", "id"), ("total", "count")]);
    let mut store = VarStore::new();
    let mut sink = LogSink::new(false);
    parse_json_response(&body, &mut store, &test, &mut sink);
    assert_eq!(store.get(&"uid".to_string()), Some("x1".to_string()));
    assert_eq!(store.get(&"total".to_string()), Some("3".to_string()));
}

#[test]
fn recapture_overwrites_previous_value() {
    let test = capture_test(vec![("sess", "token")]);
    let mut store = VarStore::new();
    let mut sink = LogSink::new(false);
    parse_json_response(&b"{\"token\":\"one\"}".to_vec(), &mut store, &test, &mut sink);
    parse_json_response(&b"{\"token\":\"two\"}".to_vec(), &mut store, &test, &mut sink);
    assert_eq!(store.get(&"sess".to_string()), Some("two".to_string()));
}

#[test]
fn no_capture_directives_changes_nothing() {
    let mut test = capture_test(vec![]);
    test.capture = None;
    let body = b"{\"a\":1}".to_vec();
    let mut store = VarStore::new();
    let mut sink = LogSink::new(false);
    parse_json_response(&body, &mut store, &test, &mut sink);
    assert_eq!(sink.console_len(), 0);
}
