use vstd::prelude::*;
use crate::storage::single_property;
use crate::value::{Object, Value, entries, lemma_lookup_some, names_of, values_of};

verus! {

/// The contents of one storage area after the host's `set(data)`: each own
/// property of `data` is stored under its name, replacing what was there.
pub open spec fn host_write(store: Map<Seq<char>, Value>, data: Value) -> Map<Seq<char>, Value> {
    match data {
        Value::Object(o) => store.union_prefer_right(entries(o@)),
        _ => store,
    }
}

/// The names that a `get` asks for: one string, or the strings of a list.
pub open spec fn requested(keys: Value) -> Set<Seq<char>> {
    match keys {
        Value::Str(k) => set![k@],
        Value::List(ks) => Set::new(
            |k: Seq<char>| exists|i: int| 0 <= i < ks@.len() && ks@[i] is Str && ks@[i]->Str_0@ == k,
        ),
        _ => Set::empty(),
    }
}

/// What the host's `get(keys)` delivers: each requested key that is stored, with its value.
pub open spec fn host_read(store: Map<Seq<char>, Value>, keys: Value) -> Map<Seq<char>, Value> {
    store.restrict(requested(keys))
}

/// Writing a record in one call and then reading the list of its own names
/// gives back exactly the record's properties, whatever the area held before.
pub proof fn lemma_set_multiple_then_get_multiple(
    store: Map<Seq<char>, Value>,
    record: Object,
    keys: Value,
)
    requires
        keys is List,
        keys->List_0@ == values_of(names_of(record@)),
    ensures
        host_read(host_write(store, Value::Object(record)), keys) == entries(record@),
{
    let props = record@;
    let ks = keys->List_0@;
    assert forall|k: Seq<char>| requested(keys).contains(k) <==> entries(props).dom().contains(k) by {
        lemma_lookup_some(props, k);
        if requested(keys).contains(k) {
            let i = choose|i: int| 0 <= i < ks.len() && ks[i] is Str && ks[i]->Str_0@ == k;
            assert(props[i].0@ == k);
        }
        if entries(props).dom().contains(k) {
            let i = choose|i: int| 0 <= i < props.len() && props[i].0@ == k;
            assert(ks[i] == Value::Str(props[i].0));
        }
    }
    assert(host_read(host_write(store, Value::Object(record)), keys) =~= entries(props));
}

/// Writing the same key and value twice leaves the area as one write does, with
/// the value stored once under the key.
pub proof fn lemma_set_one_idempotent(
    store: Map<Seq<char>, Value>,
    data: Value,
    key: String,
    value: Value,
)
    requires
        single_property(data, key, value),
    ensures
        host_write(host_write(store, data), data) == host_write(store, data),
        host_write(store, data).contains_key(key@),
        host_write(store, data)[key@] == value,
{
    let props = data->Object_0@;
    assert(props[0].0@ == key@);
    assert(crate::value::lookup(props, key@) == Some(value));
    assert(host_write(host_write(store, data), data) =~= host_write(store, data));
}

} // verus!
