use vstd::prelude::*;

verus! {

/// A dynamic value of the host runtime, held as plain data.
#[derive(Debug, PartialEq)]
pub enum Value {
    Undefined,
    Null,
    Bool(bool),
    /// A number, as the bit pattern of its IEEE-754 double.
    Number(u64),
    Str(String),
    List(Vec<Value>),
    Object(Object),
}

/// A plain object: its own properties, in the order in which they were added.
#[derive(Debug, PartialEq)]
pub struct Object {
    pub props: Vec<(String, Value)>,
}

impl View for Object {
    type V = Seq<(String, Value)>;

    open spec fn view(&self) -> Seq<(String, Value)> {
        self.props@
    }
}

/// The value of the first own property named `k`, if there is one.
pub open spec fn lookup(props: Seq<(String, Value)>, k: Seq<char>) -> Option<Value>
    decreases props.len(),
{
    if props.len() == 0 {
        None
    } else if props[0].0@ == k {
        Some(props[0].1)
    } else {
        lookup(props.drop_first(), k)
    }
}

/// The own properties as a map from name to value.
pub open spec fn entries(props: Seq<(String, Value)>) -> Map<Seq<char>, Value> {
    Map::new(|k: Seq<char>| lookup(props, k) is Some, |k: Seq<char>| lookup(props, k)->Some_0)
}

/// What a property read (`value[k]`) gives: `None` where `v` is no object or lacks `k`.
pub open spec fn prop_of(v: Value, k: Seq<char>) -> Option<Value> {
    match v {
        Value::Object(o) => lookup(o@, k),
        _ => None,
    }
}

/// The host values of a sequence of items, in order.
pub open spec fn values_of<T: IntoValue>(items: Seq<T>) -> Seq<Value> {
    items.map_values(|x: T| x.as_value())
}

/// The names of the own properties, in order.
pub open spec fn names_of(props: Seq<(String, Value)>) -> Seq<String> {
    props.map_values(|p: (String, Value)| p.0)
}

/// A name is found by `lookup` exactly when some property carries it.
pub proof fn lemma_lookup_some(props: Seq<(String, Value)>, k: Seq<char>)
    ensures
        lookup(props, k) is Some <==> exists|i: int| 0 <= i < props.len() && props[i].0@ == k,
    decreases props.len(),
{
    if props.len() > 0 {
        lemma_lookup_some(props.drop_first(), k);
        if props[0].0@ != k {
            assert forall|i: int| 0 <= i < props.len() && props[i].0@ == k implies
                0 <= i - 1 < props.drop_first().len() && props.drop_first()[i - 1].0@ == k by {}
            assert forall|i: int| 0 <= i < props.drop_first().len() && props.drop_first()[i].0@ == k
                implies 0 <= i + 1 < props.len() && props[i + 1].0@ == k by {}
        }
    }
}

impl Object {
    /// An object without properties.
    pub fn new() -> (r: Object)
        ensures
            r@ == Seq::<(String, Value)>::empty(),
    {
        Object { props: Vec::new() }
    }

    /// The index of the first own property named `key`.
    pub fn find(&self, key: &String) -> (r: Option<usize>)
        ensures
            match r {
                None => lookup(self@, key@) is None,
                Some(i) => {
                    &&& i < self@.len()
                    &&& self@[i as int].0@ == key@
                    &&& forall|j: int| 0 <= j < i ==> self@[j].0@ != key@
                    &&& lookup(self@, key@) == Some(self@[i as int].1)
                },
            },
    {
        let mut i: usize = 0;
        assert(self@.skip(0) =~= self@);
        while i < self.props.len()
            invariant
                i <= self@.len(),
                forall|j: int| 0 <= j < i ==> self@[j].0@ != key@,
                lookup(self@, key@) == lookup(self@.skip(i as int), key@),
            decreases self@.len() - i,
        {
            assert(self@.skip(i as int).drop_first() =~= self@.skip(i + 1));
            if self.props[i].0 == *key {
                return Some(i);
            }
            i += 1;
        }
        None
    }

    /// Sets the own property `key` to `value`: in place where it exists, else at the end.
    pub fn set(&mut self, key: String, value: Value)
        ensures
            lookup(old(self)@, key@) is None ==> final(self)@ == old(self)@.push((key, value)),
            lookup(old(self)@, key@) is Some ==> exists|i: int|
                {
                    &&& 0 <= i < old(self)@.len()
                    &&& old(self)@[i].0@ == key@
                    &&& forall|j: int| 0 <= j < i ==> old(self)@[j].0@ != key@
                    &&& final(self)@ == old(self)@.update(i, (old(self)@[i].0, value))
                },
    {
        let ghost v = value;
        match self.find(&key) {
            None => {
                self.props.push((key, value));
            },
            Some(i) => {
                let (name, _previous) = self.props.remove(i);
                self.props.insert(i, (name, value));
                assert(self@ =~= old(self)@.update(i as int, (old(self)@[i as int].0, v)));
            },
        }
    }

    /// Gives up the object for the value of its own property `key`.
    pub fn take(self, key: &String) -> (r: Option<Value>)
        ensures
            r == lookup(self@, key@),
    {
        let found = self.find(key);
        let mut props = self.props;
        match found {
            None => None,
            Some(i) => {
                let (_name, v) = props.remove(i);
                Some(v)
            },
        }
    }

    /// Gives up the object for the values of two distinct own properties.
    pub(crate) fn take_two(self, first: &String, second: &String) -> (r: (Option<Value>, Option<Value>))
        requires
            first@ != second@,
        ensures
            r.0 == lookup(self@, first@),
            r.1 == lookup(self@, second@),
    {
        let a = self.find(first);
        let b = self.find(second);
        let mut props = self.props;
        match (a, b) {
            (None, None) => (None, None),
            (Some(i), None) => {
                let (_n, v) = props.remove(i);
                (Some(v), None)
            },
            (None, Some(j)) => {
                let (_n, w) = props.remove(j);
                (None, Some(w))
            },
            (Some(i), Some(j)) => {
                if i < j {
                    let (_n, w) = props.remove(j);
                    let (_m, v) = props.remove(i);
                    (Some(v), Some(w))
                } else {
                    let (_m, v) = props.remove(i);
                    let (_n, w) = props.remove(j);
                    (Some(v), Some(w))
                }
            },
        }
    }
}

/// A value that has a form as a host value.
pub trait IntoValue: Sized {
    /// The host value that `self` becomes.
    spec fn as_value(self) -> Value;

    fn into_value(self) -> (r: Value)
        ensures
            r == self.as_value(),
    ;
}

impl IntoValue for Value {
    open spec fn as_value(self) -> Value {
        self
    }

    fn into_value(self) -> (r: Value) {
        self
    }
}

impl IntoValue for String {
    open spec fn as_value(self) -> Value {
        Value::Str(self)
    }

    fn into_value(self) -> (r: Value) {
        Value::Str(self)
    }
}

impl IntoValue for bool {
    open spec fn as_value(self) -> Value {
        Value::Bool(self)
    }

    fn into_value(self) -> (r: Value) {
        Value::Bool(self)
    }
}

impl IntoValue for Object {
    open spec fn as_value(self) -> Value {
        Value::Object(self)
    }

    fn into_value(self) -> (r: Value) {
        Value::Object(self)
    }
}

} // verus!
