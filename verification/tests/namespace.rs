use dorea::namespace::{Entry, Namespace};
use dorea::value::{Field, Value};

fn text(s: &str) -> Value {
    Value::String(s.to_string())
}

#[test]
fn set_then_get_returns_the_value() {
    let mut ns = Namespace::new("cache".to_string());
    ns.set("k", text("v"), 5, 100);
    assert_eq!(ns.get("k", 100), Some(text("v")));
    assert!(ns.contains_key("k", 100));
}

#[test]
fn entry_is_there_until_its_last_second() {
    let mut ns = Namespace::new("cache".to_string());
    ns.set("k", text("v"), 5, 100);
    assert_eq!(ns.get("k", 105), Some(text("v")));
    assert_eq!(ns.get("k", 106), None);
}

#[test]
fn zero_ttl_never_expires() {
    let mut ns = Namespace::new("cache".to_string());
    ns.set("k", Value::Number(1f64.to_bits()), 0, 100);
    assert_eq!(ns.get("k", u64::MAX), Some(Value::Number(1f64.to_bits())));
    assert!(ns.contains_key("k", u64::MAX));
}

#[test]
fn expired_entry_is_removed_by_the_read() {
    let mut ns = Namespace::new("cache".to_string());
    ns.set("k", text("v"), 5, 100);
    assert_eq!(ns.get("k", 106), None);
    assert!(ns.is_empty());
    assert!(!ns.delete("k", 100));
}

#[test]
fn expired_entry_is_removed_by_the_test_for_presence() {
    let mut ns = Namespace::new("cache".to_string());
    ns.set("k", text("v"), 5, 100);
    assert!(!ns.contains_key("k", 200));
    assert!(ns.is_empty());
}

#[test]
fn delete_of_an_expired_entry_reports_absent() {
    let mut ns = Namespace::new("cache".to_string());
    ns.set("k", text("v"), 5, 100);
    assert!(!ns.delete("k", 106));
    assert!(ns.is_empty());
}

#[test]
fn delete_reports_whether_the_entry_was_there() {
    let mut ns = Namespace::new("cache".to_string());
    ns.set("k", text("v"), 0, 100);
    assert!(ns.delete("k", 100));
    assert!(!ns.delete("k", 100));
    assert_eq!(ns.get("k", 100), None);
}

#[test]
fn set_overwrites_value_and_time() {
    let mut ns = Namespace::new("cache".to_string());
    ns.set("k", text("old"), 5, 100);
    ns.set("k", text("new"), 0, 101);
    assert_eq!(ns.get("k", 1000), Some(text("new")));
    ns.set("other", Value::Boolean(true), 1, 0);
    assert_eq!(ns.get("other", 1), Some(Value::Boolean(true)));
    assert_eq!(ns.get("other", 2), None);
    assert_eq!(ns.get("k", 1000), Some(text("new")));
}

#[test]
fn time_to_live_does_not_wrap() {
    let mut ns = Namespace::new("cache".to_string());
    ns.set("k", text("v"), u64::MAX, u64::MAX);
    assert_eq!(ns.get("k", u64::MAX), Some(text("v")));
}

#[test]
fn structured_values_are_copied_out_whole() {
    let mut ns = Namespace::new("cache".to_string());
    let value = Value::Dict(vec![
        Field { key: "a".to_string(), value: Value::Number(1f64.to_bits()) },
        Field {
            key: "b".to_string(),
            value: Value::List(vec![Value::Null, Value::Tuple(vec![text("x"), Value::Boolean(false)])]),
        },
    ]);
    ns.set("k", value.clone(), 0, 0);
    assert_eq!(ns.get("k", 0), Some(value));
    assert_eq!(ns.name(), "cache");
}

#[test]
fn entry_expires_ttl_seconds_after_it_was_written() {
    let entry = Entry::new(text("v"), 5, 100);
    assert_eq!(entry.expire_at, Some(105));
    assert!(!entry.is_expired(0));
    assert!(!entry.is_expired(105));
    assert!(entry.is_expired(106));
}

#[test]
fn entry_with_zero_ttl_has_no_time() {
    let entry = Entry::new(text("v"), 0, 100);
    assert_eq!(entry.expire_at, None);
    assert!(!entry.is_expired(u64::MAX));
}

#[test]
fn entry_time_is_the_exact_sum() {
    let entry = Entry::new(text("v"), u64::MAX, u64::MAX);
    assert_eq!(entry.expire_at, Some(2 * (u64::MAX as u128)));
    assert!(!entry.is_expired(u64::MAX));
}

#[test]
fn new_namespace_is_empty_and_named() {
    let mut ns = Namespace::new("fresh".to_string());
    assert!(ns.is_empty());
    assert_eq!(ns.name(), "fresh");
    assert_eq!(ns.get("k", 0), None);
    assert!(!ns.contains_key("k", 0));
    assert!(!ns.delete("k", 0));
    ns.set("k", Value::Null, 0, 0);
    assert!(!ns.is_empty());
    assert_eq!(ns.get("k", 0), Some(Value::Null));
}
