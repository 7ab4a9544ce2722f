use rust_rest_test::classify::classify_response_time;
use rust_rest_test::classify::TimeClass;
use rust_rest_test::method::validate_http_method;
use rust_rest_test::method::HttpMethod;

#[test]
fn one_under_low_is_green() {
    assert_eq!(classify_response_time(99, 100, 500), TimeClass::Green);
    assert_eq!(classify_response_time(499, 500, 1000), TimeClass::Green);
}

#[test]
fn low_itself_is_yellow() {
    assert_eq!(classify_response_time(100, 100, 500), TimeClass::Yellow);
}

#[test]
fn mid_itself_is_red() {
    assert_eq!(classify_response_time(500, 100, 500), TimeClass::Red);
}

#[test]
fn zero_is_green() {
    assert_eq!(classify_response_time(0, 100, 500), TimeClass::Green);
}

#[test]
fn slow_but_under_timeout_is_red() {
    assert_eq!(classify_response_time(4900, 100, 500), TimeClass::Red);
}

#[test]
fn resolves_lowercase_verbs() {
    assert_eq!(validate_http_method(&"get".to_string()), Some(HttpMethod::Get));
    assert_eq!(validate_http_method(&"post".to_string()), Some(HttpMethod::Post));
    assert_eq!(validate_http_method(&"put".to_string()), Some(HttpMethod::Put));
    assert_eq!(validate_http_method(&"patch".to_string()), Some(HttpMethod::Patch));
    assert_eq!(validate_http_method(&"delete".to_string()), Some(HttpMethod::Delete));
    assert_eq!(validate_http_method(&"options".to_string()), Some(HttpMethod::Options));
    assert_eq!(validate_http_method(&"head".to_string()), Some(HttpMethod::Head));
}

#[test]
fn resolves_uppercase_and_mixed_case_verbs() {
    assert_eq!(validate_http_method(&"GET".to_string()), Some(HttpMethod::Get));
    assert_eq!(validate_http_method(&"PoSt".to_string()), Some(HttpMethod::Post));
    assert_eq!(validate_http_method(&"DELETE".to_string()), Some(HttpMethod::Delete));
}

#[test]
fn rejects_unknown_method() {
    assert_eq!(validate_http_method(&"FOOBAR".to_string()), None);
    assert_eq!(validate_http_method(&"".to_string()), None);
    assert_eq!(validate_http_method(&"getx".to_string()), None);
    assert_eq!(validate_http_method(&"ge".to_string()), None);
}
