use vstd::prelude::*;
use crate::error::Error;
use crate::value::{IntoValue, Object, Value, values_of};

verus! {

/// Turns each item into a host value, keeping the length and the order.
pub fn map_to_js_value<T: IntoValue>(vec: Vec<T>) -> (r: Vec<Value>)
    ensures
        r@.len() == vec@.len(),
        r@ == values_of(vec@),
{
    let ghost items = vec@;
    let mut rest = vec;
    let mut out: Vec<Value> = Vec::new();
    assert(items.skip(0) =~= items);
    while rest.len() > 0
        invariant
            out@.len() + rest@.len() == items.len(),
            rest@ == items.skip(out@.len() as int),
            out@ == values_of(items.take(out@.len() as int)),
        decreases rest@.len(),
    {
        let ghost n = out@.len() as int;
        let x = rest.remove(0);
        out.push(x.into_value());
        assert(rest@ =~= items.skip(n + 1));
        assert(out@ =~= values_of(items.take(n + 1)));
    }
    assert(items.take(items.len() as int) =~= items);
    out
}

/// A fresh object whose one own property is `key`, holding `value` as a host
/// value. A fresh plain object takes any string-named property, so this is always `Ok`.
pub fn create_object_with_property<T: IntoValue>(key: String, value: T) -> (r: Result<Object, Error>)
    ensures
        r is Ok,
        r->Ok_0@ =~= seq![(key, value.as_value())],
{
    let mut data = Object::new();
    data.set(key, value.into_value());
    Ok(data)
}

} // verus!
