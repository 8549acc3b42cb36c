//! Dynamically typed record values and their mathematical model.
use vstd::prelude::*;

verus! {

/// A dynamically typed record value.
#[derive(Debug, PartialEq)]
pub enum Value {
    Bytes(Vec<u8>),
    Integer(i64),
    Boolean(bool),
    Null,
    Array(Vec<Value>),
    Object(Vec<(String, Value)>),
}

/// The mathematical model of a [`Value`].
pub enum Model {
    Bytes(Seq<u8>),
    Integer(int),
    Boolean(bool),
    Null,
    Array(Seq<Model>),
    Object(Seq<(Seq<char>, Model)>),
}

/// One bit per kind of value; a set of kinds is their union.
pub const KIND_BYTES: u8 = 1;
pub const KIND_INTEGER: u8 = 2;
pub const KIND_BOOLEAN: u8 = 4;
pub const KIND_NULL: u8 = 8;
pub const KIND_ARRAY: u8 = 16;
pub const KIND_OBJECT: u8 = 32;
pub const KIND_ANY: u8 = 63;

impl Value {
    pub open spec fn view(&self) -> Model
        decreases self,
    {
        match self {
            Value::Bytes(b) => Model::Bytes(b@),
            Value::Integer(i) => Model::Integer(*i as int),
            Value::Boolean(b) => Model::Boolean(*b),
            Value::Null => Model::Null,
            Value::Array(items) => Model::Array(
                Seq::new(items.len() as nat, |i: int| {
                    if 0 <= i < items.len() {
                        items[i].view()
                    } else {
                        Model::Null
                    }
                }),
            ),
            Value::Object(entries) => Model::Object(
                Seq::new(entries.len() as nat, |i: int| {
                    if 0 <= i < entries.len() {
                        (entries[i].0@, entries[i].1.view())
                    } else {
                        (Seq::empty(), Model::Null)
                    }
                }),
            ),
        }
    }

    /// A copy of the value with the same model.
    pub fn duplicate(&self) -> (r: Value)
        ensures
            r@ == self@,
        decreases self,
    {
        match self {
            Value::Bytes(b) => Value::Bytes(b.clone()),
            Value::Integer(i) => Value::Integer(*i),
            Value::Boolean(b) => Value::Boolean(*b),
            Value::Null => Value::Null,
            Value::Array(items) => {
                let mut out: Vec<Value> = Vec::new();
                let mut i: usize = 0;
                while i < items.len()
                    invariant
                        i <= items.len(),
                        out.len() == i,
                        forall|j: int| 0 <= j < i ==> (#[trigger] out[j])@ == items[j]@,
                        *self == Value::Array(*items),
                    decreases items.len() - i,
                {
                    proof {
                        vstd::std_specs::vec::axiom_vec_index_decreases(*items, i as int);
                        assert(decreases_to!(*self => (*self)->Array_0));
                    }
                    let item = items[i].duplicate();
                    out.push(item);
                    i = i + 1;
                }
                let r = Value::Array(out);
                assert(r@->Array_0 =~= self@->Array_0);
                r
            },
            Value::Object(entries) => {
                let mut out: Vec<(String, Value)> = Vec::new();
                let mut i: usize = 0;
                while i < entries.len()
                    invariant
                        i <= entries.len(),
                        out.len() == i,
                        forall|j: int| 0 <= j < i ==> (#[trigger] out[j]).0@ == entries[j].0@ && out[j].1@ == entries[j].1@,
                        *self == Value::Object(*entries),
                    decreases entries.len() - i,
                {
                    proof {
                        vstd::std_specs::vec::axiom_vec_index_decreases(*entries, i as int);
                        assert(decreases_to!(*self => (*self)->Object_0));
                        assert(decreases_to!(entries[i as int] => entries[i as int].1));
                    }
                    let item = entries[i].1.duplicate();
                    let key = entries[i].0.clone();
                    out.push((key, item));
                    i = i + 1;
                }
                let r = Value::Object(out);
                assert(r@->Object_0 =~= self@->Object_0);
                r
            },
        }
    }
}

impl Value {
    /// The kind bit of the value.
    pub fn kind(&self) -> (r: u8)
        ensures
            r == self@.kind(),
    {
        match self {
            Value::Bytes(_) => KIND_BYTES,
            Value::Integer(_) => KIND_INTEGER,
            Value::Boolean(_) => KIND_BOOLEAN,
            Value::Null => KIND_NULL,
            Value::Array(_) => KIND_ARRAY,
            Value::Object(_) => KIND_OBJECT,
        }
    }
}

/// The model of an object's entries.
pub open spec fn entries_model(entries: Seq<(String, Value)>) -> Seq<(Seq<char>, Model)> {
    entries.map_values(|e: (String, Value)| (e.0@, e.1@))
}

/// An object's model is the model of its entries.
pub proof fn lemma_object_model(entries: Vec<(String, Value)>)
    ensures
        Value::Object(entries)@ == Model::Object(entries_model(entries@)),
{
    assert(Value::Object(entries)@->Object_0 =~= entries_model(entries@));
}

impl Model {
    /// The kind bit of a value.
    pub open spec fn kind(self) -> u8 {
        match self {
            Model::Bytes(_) => KIND_BYTES,
            Model::Integer(_) => KIND_INTEGER,
            Model::Boolean(_) => KIND_BOOLEAN,
            Model::Null => KIND_NULL,
            Model::Array(_) => KIND_ARRAY,
            Model::Object(_) => KIND_OBJECT,
        }
    }
}

} // verus!
