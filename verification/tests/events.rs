use serde_json::Value;
use tremor_core::event::Event;

fn object(members: &[(&str, Value)]) -> Value {
    let mut map = serde_json::Map::new();
    for (key, value) in members {
        map.insert(key.to_string(), value.clone());
    }
    Value::Object(map)
}

#[test]
fn a_new_event_has_its_payload_and_no_variables() {
    let e = Event::new(Value::from("x"));
    assert_eq!(e.payload(), &Value::from("x"));
    assert_eq!(e.var("x"), None);
    assert_eq!(e.var(""), None);
}

#[test]
fn a_bound_variable_can_be_read_back() {
    let e = Event::new(Value::Null).with_var("a", Value::from(1));
    assert_eq!(e.var("a"), Some(&Value::from(1)));
    assert_eq!(e.var("b"), None);
    assert_eq!(e.payload(), &Value::Null);
    let e = e.with_var("b", Value::from("two"));
    assert_eq!(e.var("a"), Some(&Value::from(1)));
    assert_eq!(e.var("b"), Some(&Value::from("two")));
}

#[test]
fn binding_again_replaces_the_value() {
    let e = Event::new(Value::Null)
        .with_var("a", Value::from(1))
        .with_var("a", Value::from(2));
    assert_eq!(e.var("a"), Some(&Value::from(2)));
}

#[test]
fn a_member_is_written_into_an_object() {
    let e = Event::new(object(&[("a", Value::from(1))])).with_var("v", Value::from(true));
    let e = e.with_member("b", Value::from(2)).unwrap();
    assert_eq!(e.payload(), &object(&[("a", Value::from(1)), ("b", Value::from(2))]));
    assert_eq!(e.var("v"), Some(&Value::from(true)));
    let e = e.with_member("a", Value::from("one")).unwrap();
    assert_eq!(e.payload(), &object(&[("a", Value::from("one")), ("b", Value::from(2))]));
}

#[test]
fn nothing_is_written_into_what_is_no_object() {
    for payload in [
        Value::Null,
        Value::from(true),
        Value::from(3),
        Value::from("s"),
        Value::from(vec![1, 2]),
    ] {
        let e = Event::new(payload.clone()).with_var("v", Value::from(1));
        let back = e.with_member("a", Value::from(1)).unwrap_err();
        assert_eq!(back.payload(), &payload);
        assert_eq!(back.var("v"), Some(&Value::from(1)));
    }
}

#[test]
fn a_clone_is_equal_and_independent() {
    let e = Event::new(object(&[("a", Value::from(1))])).with_var("v", Value::from(1));
    let twin = e.clone();
    assert_eq!(e, twin);
    let changed = twin.with_var("v", Value::from(2));
    assert_ne!(e, changed);
    assert_eq!(e.var("v"), Some(&Value::from(1)));
}
