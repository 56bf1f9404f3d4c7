use chrome_storage::error::Error;
use chrome_storage::storage::on_changed::{change_record, change_set, ChangeRecord};
use chrome_storage::storage::{get_one_value, local, set_optional_callback, sync, Namespace, SetRequest};
use chrome_storage::utils::{create_object_with_property, map_to_js_value};
use chrome_storage::value::{Object, Value};

fn num(x: f64) -> Value {
    Value::Number(x.to_bits())
}

fn s(x: &str) -> String {
    x.to_string()
}

fn object(props: Vec<(&str, Value)>) -> Value {
    let mut o = Object::new();
    for (k, v) in props {
        o.set(s(k), v);
    }
    Value::Object(o)
}

#[test]
fn keyed_property_has_exactly_one_own_property() {
    let o = create_object_with_property(s("theme"), s("dark")).unwrap();
    assert_eq!(o.props, vec![(s("theme"), Value::Str(s("dark")))]);
    let o = create_object_with_property(s("on"), true).unwrap();
    assert_eq!(o.props, vec![(s("on"), Value::Bool(true))]);
}

#[test]
fn list_keeps_length_and_order() {
    let keys = vec![s("b"), s("a"), s("b"), s("c")];
    let r = map_to_js_value(keys);
    assert_eq!(
        r,
        vec![Value::Str(s("b")), Value::Str(s("a")), Value::Str(s("b")), Value::Str(s("c"))]
    );
    let empty: Vec<String> = Vec::new();
    assert!(map_to_js_value(empty).is_empty());
}

#[test]
fn object_set_overwrites_in_place_and_appends_new_keys() {
    let mut o = Object::new();
    o.set(s("a"), num(1.0));
    o.set(s("b"), num(2.0));
    o.set(s("a"), num(3.0));
    assert_eq!(o.props, vec![(s("a"), num(3.0)), (s("b"), num(2.0))]);
    assert_eq!(o.find(&s("b")), Some(1));
    assert_eq!(o.find(&s("z")), None);
    assert_eq!(o.take(&s("a")), Some(num(3.0)));
}

#[test]
fn get_one_value_delivers_present_value() {
    let data = object(vec![("k", num(7.0)), ("other", num(1.0))]);
    assert_eq!(get_one_value(data, &s("k")), Some(num(7.0)));
    let data = object(vec![("k", Value::Null)]);
    assert_eq!(get_one_value(data, &s("k")), Some(Value::Null));
}

#[test]
fn get_one_value_missing_or_undefined_is_none() {
    let data = object(vec![("other", num(1.0))]);
    assert_eq!(get_one_value(data, &s("k")), None);
    let data = object(vec![("k", Value::Undefined)]);
    assert_eq!(get_one_value(data, &s("k")), None);
    assert_eq!(get_one_value(Value::Null, &s("k")), None);
    assert_eq!(get_one_value(Value::Undefined, &s("k")), None);
}

#[test]
fn set_without_callback_is_fire_and_forget() {
    let r = local::set_one::<String, u32>(s("k"), s("v"), None).unwrap();
    match r {
        SetRequest::Plain { namespace, data } => {
            assert_eq!(namespace, Namespace::Local);
            assert_eq!(data, object(vec![("k", Value::Str(s("v")))]));
        },
        SetRequest::WithCallback { .. } => panic!("no callback was given"),
    }
    let r = sync::set_multiple::<u32>(object(vec![("a", num(1.0))]), None).unwrap();
    assert_eq!(
        r,
        SetRequest::Plain { namespace: Namespace::Sync, data: object(vec![("a", num(1.0))]) }
    );
}

#[test]
fn set_with_callback_carries_it_once() {
    let r = sync::set_one(s("k"), true, Some(42u32)).unwrap();
    assert_eq!(
        r,
        SetRequest::WithCallback {
            namespace: Namespace::Sync,
            data: object(vec![("k", Value::Bool(true))]),
            on_done: 42,
        }
    );
    let r = local::set_multiple(Value::Null, Some(5u8)).unwrap();
    assert_eq!(
        r,
        SetRequest::WithCallback { namespace: Namespace::Local, data: Value::Null, on_done: 5 }
    );
    let r = set_optional_callback(Namespace::Sync, num(2.0), Some("done"));
    assert!(matches!(r, SetRequest::WithCallback { on_done: "done", .. }));
}

#[test]
fn get_requests_name_the_keys() {
    let r = local::get_one(s("k"), 1u8);
    assert_eq!(r.namespace, Namespace::Local);
    assert_eq!(r.keys, Value::Str(s("k")));
    assert_eq!(r.on_result, 1);
    let r = sync::get_multiple(vec![s("x"), s("y")], 2u8);
    assert_eq!(r.namespace, Namespace::Sync);
    assert_eq!(r.keys, Value::List(vec![Value::Str(s("x")), Value::Str(s("y"))]));
}

#[test]
fn listener_reads_change_event() {
    let event = object(vec![
        ("a", object(vec![("oldValue", num(1.0)), ("newValue", num(2.0))])),
        ("b", object(vec![("oldValue", Value::Null), ("newValue", num(5.0))])),
    ]);
    let r = change_set(event, s("local"));
    assert_eq!(r.namespace, s("local"));
    assert_eq!(r.changes.len(), 2);
    assert_eq!(
        r.changes[0],
        (s("a"), ChangeRecord { old_value: Some(num(1.0)), new_value: Some(num(2.0)) })
    );
    assert_eq!(
        r.changes[1],
        (s("b"), ChangeRecord { old_value: None, new_value: Some(num(5.0)) })
    );
}

#[test]
fn change_record_of_removed_key() {
    let raw = object(vec![("oldValue", Value::Str(s("x")))]);
    assert_eq!(
        change_record(raw),
        ChangeRecord { old_value: Some(Value::Str(s("x"))), new_value: None }
    );
    let raw = object(vec![("newValue", Value::Undefined), ("oldValue", Value::Bool(false))]);
    assert_eq!(
        change_record(raw),
        ChangeRecord { old_value: Some(Value::Bool(false)), new_value: None }
    );
    assert_eq!(change_set(Value::Null, s("sync")).changes.len(), 0);
}

#[test]
fn error_variants_hold_their_cause() {
    let e = Error::SerdeWasmBindgen(s("unsupported type"));
    assert!(matches!(e, Error::SerdeWasmBindgen(ref m) if m == "unsupported type"));
    let e = Error::JsValue(Value::Str(s("QUOTA_BYTES quota exceeded")));
    assert_eq!(e, Error::JsValue(Value::Str(s("QUOTA_BYTES quota exceeded"))));
}

#[test]
fn record_write_and_read_name_the_same_keys() {
    let record = object(vec![("a", num(1.0)), ("b", Value::Str(s("two")))]);
    let w = local::set_multiple::<u8>(record, None).unwrap();
    let names = match &w {
        SetRequest::Plain { data: Value::Object(o), .. } => {
            o.props.iter().map(|(k, _)| k.clone()).collect::<Vec<String>>()
        },
        _ => panic!("the record is written as one object"),
    };
    let r = local::get_multiple(names, 0u8);
    assert_eq!(r.keys, Value::List(vec![Value::Str(s("a")), Value::Str(s("b"))]));
}

#[test]
fn same_single_write_twice_is_the_same_request() {
    let first = local::set_one::<String, u8>(s("k"), s("v"), None).unwrap();
    let second = local::set_one::<String, u8>(s("k"), s("v"), None).unwrap();
    assert_eq!(first, second);
    assert_eq!(
        first,
        SetRequest::Plain { namespace: Namespace::Local, data: object(vec![("k", Value::Str(s("v")))]) }
    );
}
