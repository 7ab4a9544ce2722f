use rust_rest_test::store::VarStore;
use rust_rest_test::text::u128_to_string;
use rust_rest_test::utils::contains_substring;
use rust_rest_test::utils::count_matching;
use rust_rest_test::utils::get_num_digits;
use rust_rest_test::utils::logfile_name;

#[test]
fn empty_store_has_nothing() {
    let store = VarStore::new();
    assert_eq!(store.get(&"token".to_string()), None);
}

#[test]
fn insert_then_get() {
    let mut store = VarStore::new();
    store.insert("sess".to_string(), "abc123".to_string());
    assert_eq!(store.get(&"sess".to_string()), Some("abc123".to_string()));
    assert_eq!(store.get(&"other".to_string()), None);
}

#[test]
fn last_write_wins() {
    let mut store = VarStore::new();
    store.insert("k".to_string(), "first".to_string());
    store.insert("k".to_string(), "second".to_string());
    assert_eq!(store.get(&"k".to_string()), Some("second".to_string()));
}

#[test]
fn distinct_keys_are_independent() {
    let mut store = VarStore::new();
    store.insert("a".to_string(), "1".to_string());
    store.insert("b".to_string(), "2".to_string());
    assert_eq!(store.get(&"a".to_string()), Some("1".to_string()));
    assert_eq!(store.get(&"b".to_string()), Some("2".to_string()));
}

#[test]
fn renders_decimals() {
    assert_eq!(u128_to_string(0), "0");
    assert_eq!(u128_to_string(7), "7");
    assert_eq!(u128_to_string(42), "42");
    assert_eq!(u128_to_string(4900), "4900");
    assert_eq!(u128_to_string(1234567890), "1234567890");
}

#[test]
fn counts_digits() {
    assert_eq!(get_num_digits(0, 10), 1);
    assert_eq!(get_num_digits(9, 10), 1);
    assert_eq!(get_num_digits(10, 10), 2);
    assert_eq!(get_num_digits(12345, 10), 5);
    assert_eq!(get_num_digits(255, 2), 8);
    assert_eq!(get_num_digits(u64::MAX, 10), 20);
}

#[test]
fn finds_substrings() {
    assert!(contains_substring("rrt-23-07-01-00.log", "rrt-23-07-01-"));
    assert!(contains_substring("abc", ""));
    assert!(contains_substring("abc", "abc"));
    assert!(!contains_substring("abc", "abcd"));
    assert!(!contains_substring("rrt-23-07-02-00.log", "rrt-23-07-01-"));
}

#[test]
fn counts_matching_names() {
    let names = vec![
        "rrt-23-07-01-00.log".to_string(),
        "rrt-23-07-01-01.log".to_string(),
        "rrt-23-06-30-00.log".to_string(),
        "notes.txt".to_string(),
    ];
    assert_eq!(count_matching(&names, &"rrt-23-07-01-".to_string()), 2);
    assert_eq!(count_matching(&names, &"rrt-".to_string()), 3);
    assert_eq!(count_matching(&names, &"absent".to_string()), 0);
}

#[test]
fn builds_logfile_names() {
    assert_eq!(logfile_name(2023, 7, 1, 0), "rrt-23-07-01-00.log");
    assert_eq!(logfile_name(2023, 12, 25, 10), "rrt-23-12-25-10.log");
    assert_eq!(logfile_name(2026, 10, 9, 3), "rrt-26-10-09-03.log");
}
