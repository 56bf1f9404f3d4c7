use vstd::prelude::*;
use crate::error::Error;
use crate::storage::{self, GetRequest, Namespace, SetRequest, single_property, write_data, writes};
use crate::value::{IntoValue, Value, values_of};

verus! {

/// The host's `get` on the sync area for one key.
pub fn get_one<C>(key: String, callback: C) -> (r: GetRequest<C>)
    ensures
        r == (GetRequest { namespace: Namespace::Sync, keys: Value::Str(key), on_result: callback }),
{
    storage::get_one(Namespace::Sync, key, callback)
}

/// The host's `get` on the sync area for several keys.
pub fn get_multiple<C>(keys: Vec<String>, callback: C) -> (r: GetRequest<C>)
    ensures
        r.namespace == Namespace::Sync,
        r.on_result == callback,
        r.keys is List,
        r.keys->List_0@ == values_of(keys@),
{
    storage::get_multiple(Namespace::Sync, keys, callback)
}

/// The host's `set` on the sync area for one key.
pub fn set_one<T: IntoValue, C>(key: String, value: T, callback: Option<C>) -> (r: Result<
    SetRequest<C>,
    Error,
>)
    ensures
        r is Ok,
        writes(r->Ok_0, Namespace::Sync, write_data(r->Ok_0), callback),
        single_property(write_data(r->Ok_0), key, value.as_value()),
{
    storage::set_one(Namespace::Sync, key, value, callback)
}

/// The host's `set` on the sync area for a whole record in host form.
pub fn set_multiple<C>(data: Value, callback: Option<C>) -> (r: Result<SetRequest<C>, Error>)
    ensures
        r is Ok,
        writes(r->Ok_0, Namespace::Sync, data, callback),
{
    storage::set_multiple(Namespace::Sync, data, callback)
}

} // verus!
