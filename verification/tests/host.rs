use dorea::error::StoreError;
use dorea::host::{HostField, HostValue};
use dorea::value::{Field, Value};

fn number(n: f64) -> Value {
    Value::Number(n.to_bits())
}

fn host_number(n: f64) -> HostValue {
    HostValue::Number(n.to_bits())
}

#[test]
fn each_kind_of_value_has_its_own_host_form() {
    assert_eq!(Value::Null.to_host(), HostValue::Nil);
    assert_eq!(Value::Boolean(true).to_host(), HostValue::Boolean(true));
    assert_eq!(number(1.5).to_host(), host_number(1.5));
    assert_eq!(Value::String("x".to_string()).to_host(), HostValue::Text("x".to_string()));
    assert_eq!(
        Value::List(vec![number(1.0), Value::Null]).to_host(),
        HostValue::List(vec![host_number(1.0), HostValue::Nil])
    );
    assert_eq!(
        Value::Tuple(vec![number(1.0), Value::Boolean(false)]).to_host(),
        HostValue::Tuple(vec![host_number(1.0), HostValue::Boolean(false)])
    );
    assert_eq!(
        Value::Dict(vec![Field { key: "a".to_string(), value: number(1.0) }]).to_host(),
        HostValue::Table(vec![HostField { key: "a".to_string(), value: host_number(1.0) }])
    );
}

#[test]
fn null_round_trips_through_nil() {
    let host = Value::Null.to_host();
    assert_eq!(host, HostValue::Nil);
    assert_eq!(host.to_value(), Ok(Value::Null));
}

#[test]
fn dict_round_trips_with_key_and_number() {
    let value = Value::Dict(vec![Field { key: "a".to_string(), value: number(1.0) }]);
    let back = value.to_host().to_value();
    assert_eq!(back, Ok(Value::Dict(vec![Field { key: "a".to_string(), value: number(1.0) }])));
}

#[test]
fn list_round_trips_in_order_and_by_kind() {
    let value = Value::List(vec![number(1.0), Value::String("x".to_string()), Value::Boolean(true)]);
    let host = value.to_host();
    assert_eq!(
        host,
        HostValue::List(vec![host_number(1.0), HostValue::Text("x".to_string()), HostValue::Boolean(true)])
    );
    assert_eq!(host.to_value(), Ok(value));
}

#[test]
fn tuple_stays_a_tuple() {
    let value = Value::Tuple(vec![Value::List(vec![]), Value::Tuple(vec![Value::Null])]);
    assert_eq!(value.to_host().to_value(), Ok(value));
}

#[test]
fn nested_values_round_trip() {
    let value = Value::Dict(vec![
        Field { key: "list".to_string(), value: Value::List(vec![number(-0.0), number(f64::INFINITY)]) },
        Field {
            key: "inner".to_string(),
            value: Value::Dict(vec![Field { key: "".to_string(), value: Value::String("".to_string()) }]),
        },
    ]);
    assert_eq!(value.to_host().to_value(), Ok(value));
}

#[test]
fn bytes_cannot_be_stored() {
    let host = HostValue::Bytes(vec![1, 2, 3]);
    assert!(!host.is_convertible());
    assert_eq!(host.to_value(), Err(StoreError::ValueConversionFailure));
}

#[test]
fn bytes_anywhere_inside_refuse_the_whole_value() {
    let in_list = HostValue::List(vec![HostValue::Nil, HostValue::Bytes(vec![])]);
    assert!(!in_list.is_convertible());
    assert_eq!(in_list.to_value(), Err(StoreError::ValueConversionFailure));
    let in_table = HostValue::Table(vec![HostField {
        key: "k".to_string(),
        value: HostValue::Tuple(vec![HostValue::Bytes(vec![0])]),
    }]);
    assert!(!in_table.is_convertible());
    assert_eq!(in_table.to_value(), Err(StoreError::ValueConversionFailure));
}

#[test]
fn values_without_bytes_are_convertible() {
    let host = HostValue::Table(vec![HostField {
        key: "k".to_string(),
        value: HostValue::List(vec![HostValue::Text("t".to_string()), host_number(2.0)]),
    }]);
    assert!(host.is_convertible());
    assert_eq!(
        host.to_value(),
        Ok(Value::Dict(vec![Field {
            key: "k".to_string(),
            value: Value::List(vec![Value::String("t".to_string()), number(2.0)]),
        }]))
    );
}

#[test]
fn clone_copies_the_whole_value() {
    let value = Value::List(vec![
        Value::Dict(vec![Field { key: "a".to_string(), value: Value::Tuple(vec![number(3.0)]) }]),
        Value::String("s".to_string()),
    ]);
    assert_eq!(value.clone(), value);
}
