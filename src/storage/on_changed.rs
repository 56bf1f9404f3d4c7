use vstd::prelude::*;
use crate::value::{Value, prop_of};

verus! {

/// How one key changed: its value before and after, where there was one.
#[derive(Debug, PartialEq)]
pub struct ChangeRecord {
    /// `None`: the key was newly created.
    pub old_value: Option<Value>,
    /// `None`: the key was removed.
    pub new_value: Option<Value>,
}

/// The keys that one storage event changed, in the order the host reported them,
/// and the name of the area they belong to.
#[derive(Debug, PartialEq)]
pub struct ChangeSet {
    pub changes: Vec<(String, ChangeRecord)>,
    pub namespace: String,
}

/// A side of a change: a missing, `undefined` or `null` value stands for no value.
pub open spec fn stored(v: Option<Value>) -> Option<Value> {
    match v {
        Some(Value::Undefined) => None,
        Some(Value::Null) => None,
        _ => v,
    }
}

/// The record that the host's raw change object `raw` describes.
pub open spec fn record_of(raw: Value) -> ChangeRecord {
    ChangeRecord {
        old_value: stored(prop_of(raw, "oldValue"@)),
        new_value: stored(prop_of(raw, "newValue"@)),
    }
}

/// The own properties of a raw event object; none where it is no object.
pub open spec fn raw_props(v: Value) -> Seq<(String, Value)> {
    match v {
        Value::Object(o) => o@,
        _ => Seq::empty(),
    }
}

fn stored_value(v: Option<Value>) -> (r: Option<Value>)
    ensures
        r == stored(v),
{
    match v {
        Some(Value::Undefined) => None,
        Some(Value::Null) => None,
        other => other,
    }
}

/// Reads one raw change object.
pub fn change_record(raw: Value) -> (r: ChangeRecord)
    ensures
        r == record_of(raw),
{
    let old_key = "oldValue".to_owned();
    let new_key = "newValue".to_owned();
    proof {
        reveal_strlit("oldValue");
        reveal_strlit("newValue");
        assert(old_key@[0] != new_key@[0]);
    }
    match raw {
        Value::Object(o) => {
            let (a, b) = o.take_two(&old_key, &new_key);
            ChangeRecord { old_value: stored_value(a), new_value: stored_value(b) }
        },
        _ => ChangeRecord { old_value: None, new_value: None },
    }
}

/// The change set of one raw event: each changed key with its record, in the
/// order of the event's own properties, and the area's name.
pub fn change_set(changes: Value, namespace: String) -> (r: ChangeSet)
    ensures
        r.namespace == namespace,
        r.changes@.len() == raw_props(changes).len(),
        forall|i: int|
            0 <= i < r.changes@.len() ==> {
                &&& (#[trigger] r.changes@[i]).0 == raw_props(changes)[i].0
                &&& r.changes@[i].1 == record_of(raw_props(changes)[i].1)
            },
{
    let ghost items = raw_props(changes);
    let mut rest: Vec<(String, Value)> = match changes {
        Value::Object(o) => o.props,
        _ => Vec::new(),
    };
    let mut out: Vec<(String, ChangeRecord)> = Vec::new();
    assert(items.skip(0) =~= items);
    while rest.len() > 0
        invariant
            out@.len() + rest@.len() == items.len(),
            rest@ == items.skip(out@.len() as int),
            forall|i: int|
                0 <= i < out@.len() ==> {
                    &&& (#[trigger] out@[i]).0 == items[i].0
                    &&& out@[i].1 == record_of(items[i].1)
                },
        decreases rest@.len(),
    {
        let ghost n = out@.len() as int;
        let (key, raw) = rest.remove(0);
        let record = change_record(raw);
        out.push((key, record));
        assert(rest@ =~= items.skip(n + 1));
    }
    ChangeSet { changes: out, namespace }
}

} // verus!
