use http_server::query_string::QueryString;
use http_server::query_string::Value;

#[test]
fn query_two_keys_each_single() {
    let qs = QueryString::from("a=1&b=2");
    assert_eq!(qs.len(), 2);
    match qs.get("a") {
        Some(Value::Single(v)) => assert_eq!(*v, "1"),
        _ => panic!("expected a single value for a"),
    }
    match qs.get("b") {
        Some(Value::Single(v)) => assert_eq!(*v, "2"),
        _ => panic!("expected a single value for b"),
    }
    assert!(qs.get("c").is_none());
}

#[test]
fn query_repeated_key_collects_values_in_order() {
    let qs = QueryString::from("a=1&a=2&a=3");
    assert_eq!(qs.len(), 1);
    match qs.get("a") {
        Some(Value::Multiple(vs)) => assert_eq!(vs, &vec!["1", "2", "3"]),
        _ => panic!("expected the three values of a, in order"),
    }
}

#[test]
fn query_key_without_equals_gets_empty_value() {
    let qs = QueryString::from("flag");
    assert_eq!(qs.len(), 1);
    match qs.get("flag") {
        Some(Value::Single(v)) => assert_eq!(*v, ""),
        _ => panic!("expected flag with an empty value"),
    }
}

#[test]
fn query_empty_string_is_the_empty_mapping() {
    let qs = QueryString::from("");
    assert_eq!(qs.len(), 0);
    assert!(qs.get("").is_none());
    assert!(qs.get("a").is_none());
}

#[test]
fn query_mixed_repeats_keep_first_appearance_order() {
    let qs = QueryString::from("a=1&b=2&a=3&c&b=4");
    assert_eq!(qs.len(), 3);
    match qs.get("a") {
        Some(Value::Multiple(vs)) => assert_eq!(vs, &vec!["1", "3"]),
        _ => panic!("expected a promoted to two values"),
    }
    match qs.get("b") {
        Some(Value::Multiple(vs)) => assert_eq!(vs, &vec!["2", "4"]),
        _ => panic!("expected b promoted to two values"),
    }
    match qs.get("c") {
        Some(Value::Single(v)) => assert_eq!(*v, ""),
        _ => panic!("expected c with an empty value"),
    }
}

#[test]
fn query_value_may_hold_further_equals_signs() {
    let qs = QueryString::from("k=a=b");
    match qs.get("k") {
        Some(Value::Single(v)) => assert_eq!(*v, "a=b"),
        _ => panic!("expected the value split only at the first equals sign"),
    }
}
