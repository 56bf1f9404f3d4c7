use vstd::prelude::*;
use crate::error::Error;
use crate::utils::{create_object_with_property, map_to_js_value};
use crate::value::{IntoValue, Value, prop_of, values_of};

pub mod local;
pub mod on_changed;
pub mod sync;

verus! {

/// One of the host's two storage areas.
#[derive(PartialEq, Eq, Structural, Clone, Copy, Debug)]
pub enum Namespace {
    Local,
    Sync,
}

/// A call of the host's `get` on one namespace: `get(keys, on_result)`.
#[derive(Debug, PartialEq)]
pub struct GetRequest<C> {
    pub namespace: Namespace,
    /// One key as a string, or several as a list of strings.
    pub keys: Value,
    /// Receives the object that maps each stored key among `keys` to its value.
    pub on_result: C,
}

/// A call of the host's `set` on one namespace.
#[derive(Debug, PartialEq)]
pub enum SetRequest<C> {
    /// `set(data)`: nothing is told when the write lands.
    Plain { namespace: Namespace, data: Value },
    /// `set(data, on_done)`: `on_done` runs once, when the write has landed.
    WithCallback { namespace: Namespace, data: Value, on_done: C },
}

/// The object that a set request writes.
pub open spec fn write_data<C>(r: SetRequest<C>) -> Value {
    match r {
        SetRequest::Plain { data, .. } => data,
        SetRequest::WithCallback { data, .. } => data,
    }
}

/// `r` writes `data` to `ns`, and carries `callback` as its completion handler
/// exactly when there is one.
pub open spec fn writes<C>(r: SetRequest<C>, ns: Namespace, data: Value, callback: Option<C>) -> bool {
    match callback {
        None => r == SetRequest::<C>::Plain { namespace: ns, data },
        Some(c) => r == SetRequest::WithCallback { namespace: ns, data, on_done: c },
    }
}

/// `data` is an object whose one own property is `key`, holding `value`.
pub open spec fn single_property(data: Value, key: String, value: Value) -> bool {
    &&& data is Object
    &&& data->Object_0@ == seq![(key, value)]
}

/// What a single-key read delivers: the value, unless it is missing or `undefined`.
pub open spec fn normalized(v: Option<Value>) -> Option<Value> {
    match v {
        Some(Value::Undefined) => None,
        _ => v,
    }
}

/// Picks the host call that writes `data`: with a completion handler if one is given.
pub fn set_optional_callback<C>(namespace: Namespace, data: Value, callback: Option<C>) -> (r:
    SetRequest<C>)
    ensures
        writes(r, namespace, data, callback),
{
    match callback {
        None => SetRequest::Plain { namespace, data },
        Some(c) => SetRequest::WithCallback { namespace, data, on_done: c },
    }
}

/// The read of one key.
pub fn get_one<C>(namespace: Namespace, key: String, callback: C) -> (r: GetRequest<C>)
    ensures
        r == (GetRequest { namespace, keys: Value::Str(key), on_result: callback }),
{
    GetRequest { namespace, keys: Value::Str(key), on_result: callback }
}

/// The read of several keys, handed to the host as a list in the given order.
pub fn get_multiple<C>(namespace: Namespace, keys: Vec<String>, callback: C) -> (r: GetRequest<C>)
    ensures
        r.namespace == namespace,
        r.on_result == callback,
        r.keys is List,
        r.keys->List_0@ == values_of(keys@),
{
    let keys = map_to_js_value(keys);
    GetRequest { namespace, keys: Value::List(keys), on_result: callback }
}

/// The write of one key: an object with that one property. On plain data the
/// property write cannot fail, so the result is always `Ok`.
pub fn set_one<T: IntoValue, C>(namespace: Namespace, key: String, value: T, callback: Option<C>) -> (r:
    Result<SetRequest<C>, Error>)
    ensures
        r is Ok,
        writes(r->Ok_0, namespace, write_data(r->Ok_0), callback),
        single_property(write_data(r->Ok_0), key, value.as_value()),
{
    let ghost v = value.as_value();
    let data = create_object_with_property(key, value);
    match data {
        Ok(o) => {
            assert(o@ =~= seq![(key, v)]);
            Ok(set_optional_callback(namespace, Value::Object(o), callback))
        },
        Err(e) => Err(e),
    }
}

/// The write of a whole record, already in host form, in one call, as it is:
/// nothing is written key by key. Always `Ok` once the record is in host form.
pub fn set_multiple<C>(namespace: Namespace, data: Value, callback: Option<C>) -> (r: Result<
    SetRequest<C>,
    Error,
>)
    ensures
        r is Ok,
        writes(r->Ok_0, namespace, data, callback),
{
    Ok(set_optional_callback(namespace, data, callback))
}

/// What a single-key read hands on, from the raw object that the host delivered:
/// the value at `key`, or `None` where it is missing or `undefined`.
pub fn get_one_value(data: Value, key: &String) -> (r: Option<Value>)
    ensures
        r == normalized(prop_of(data, key@)),
{
    let found = match data {
        Value::Object(o) => o.take(key),
        _ => None,
    };
    match found {
        Some(Value::Undefined) => None,
        other => other,
    }
}

} // verus!
