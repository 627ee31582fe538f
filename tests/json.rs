use std::mem;

use get_size::json::{Number, Object, Value};
use get_size::{Buffer, GetSize, NoTracker, StandardTracker};

fn text(s: &str) -> Buffer<u8> {
    Buffer::from_vec(s.as_bytes().to_vec())
}

#[test]
fn test_serde_json_number() {
    let test = Value::Number(Number::PosInt(1));
    assert_eq!(test.get_heap_size(&mut NoTracker), 0);

    let test = Value::Number(Number::Float(1.0f64.to_bits()));
    assert_eq!(test.get_heap_size(&mut NoTracker), 0);
}

#[test]
fn test_serde_json_string() {
    let test = Value::String(text("Hello"));
    assert_eq!(test.get_heap_size(&mut NoTracker), 5);
}

#[test]
fn test_serde_json_array() {
    let test = Value::Array(Buffer::from_vec(vec![
        Value::String(text("Hello")),
        Value::String(text("World")),
    ]));
    assert_eq!(
        test.get_heap_size(&mut NoTracker),
        mem::size_of::<Value>() * 2 + 10
    );
}

#[test]
fn test_serde_json_map() {
    let mut test = Object::new();
    assert_eq!(test.get_heap_size(&mut NoTracker), 0);

    test.insert(text("a"), Value::Number(Number::PosInt(1)));
    assert_eq!(test.get_heap_size(&mut NoTracker), 1);

    test.insert(text("b"), Value::Number(Number::PosInt(2)));
    test.insert(text("c"), Value::Number(Number::PosInt(3)));
    assert_eq!(test.get_heap_size(&mut NoTracker), 3);
}

#[test]
fn json_scalars_own_nothing() {
    assert_eq!(Value::Null.get_heap_size(&mut NoTracker), 0);
    assert_eq!(Value::Bool(true).get_heap_size(&mut NoTracker), 0);
    assert_eq!(
        Value::Number(Number::NegInt(-7)).get_heap_size(&mut StandardTracker::new()),
        0
    );
}

#[test]
fn json_string_counts_capacity() {
    let test = Value::String(Buffer::with_capacity(b"Hi".to_vec(), 16));
    assert_eq!(test.get_heap_size(&mut NoTracker), 16);
}

#[test]
fn json_string_capacity_below_length_is_clamped() {
    let test = Value::String(Buffer::with_capacity(b"Hello".to_vec(), 2));
    assert_eq!(test.get_heap_size(&mut NoTracker), 5);
}

#[test]
fn json_nested_array_with_spare_slots() {
    let inner = Value::Array(Buffer::with_capacity(vec![Value::String(text("abc"))], 3));
    let outer = Value::Array(Buffer::from_vec(vec![inner, Value::Null]));
    let slot = mem::size_of::<Value>();
    assert_eq!(outer.get_heap_size(&mut NoTracker), 2 * slot + 3 * slot + 3);
}

#[test]
fn json_object_insert_replaces_value() {
    let mut test = Object::new();
    assert!(test.insert(text("key"), Value::String(text("long value"))).is_none());
    assert_eq!(test.get_heap_size(&mut NoTracker), 3 + 10);
    let old = test.insert(text("key"), Value::Null);
    assert!(matches!(old, Some(Value::String(_))));
    assert_eq!(test.len(), 1);
    assert_eq!(test.get_heap_size(&mut NoTracker), 3);
    assert_eq!(test.find(&text("key")), Some(0));
    assert_eq!(test.find(&text("other")), None);
}

#[test]
fn json_total_size_adds_stack_size() {
    let test = Value::String(text("Hello"));
    assert_eq!(
        test.get_size(&mut NoTracker),
        mem::size_of::<Value>() + 5
    );
}
