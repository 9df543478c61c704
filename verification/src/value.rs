//! The structured values that requests, parameters and results are made of:
//! a JSON-like shape of nulls, booleans, integers, strings, arrays and
//! objects, together with its mathematical model.

use vstd::prelude::*;

verus! {

/// The mathematical model of a [`Value`]: what a structured value denotes.
#[verifier::ext_equal]
pub enum ValueSpec {
    Null,
    Bool(bool),
    Int(i64),
    Str(Seq<char>),
    Arr(Seq<ValueSpec>),
    Obj(Seq<(Seq<char>, ValueSpec)>),
}

/// A structured value: the routing envelope, handler parameters and handler
/// results are all of this shape. An object is a sequence of fields; a field
/// lookup takes the first field with the given key.
#[derive(Debug, PartialEq)]
pub enum Value {
    Null,
    Bool(bool),
    Int(i64),
    Str(String),
    Arr(Vec<Value>),
    Obj(Vec<(String, Value)>),
}

impl Value {
    /// The model of this value, element by element and field by field.
    pub open spec fn model(self) -> ValueSpec
        decreases self,
    {
        match self {
            Value::Null => ValueSpec::Null,
            Value::Bool(b) => ValueSpec::Bool(b),
            Value::Int(i) => ValueSpec::Int(i),
            Value::Str(s) => ValueSpec::Str(s@),
            Value::Arr(items) => ValueSpec::Arr(
                Seq::new(
                    items@.len(),
                    |i: int|
                        if 0 <= i < items@.len() {
                            items@[i].model()
                        } else {
                            ValueSpec::Null
                        },
                ),
            ),
            Value::Obj(fields) => ValueSpec::Obj(
                Seq::new(
                    fields@.len(),
                    |i: int|
                        if 0 <= i < fields@.len() {
                            (fields@[i].0@, fields@[i].1.model())
                        } else {
                            (Seq::empty(), ValueSpec::Null)
                        },
                ),
            ),
        }
    }
}

impl View for Value {
    type V = ValueSpec;

    open spec fn view(&self) -> ValueSpec {
        self.model()
    }
}

/// The first field with key `key` in a sequence of object fields.
pub open spec fn assoc_lookup(fields: Seq<(Seq<char>, ValueSpec)>, key: Seq<char>) -> Option<
    ValueSpec,
>
    decreases fields.len(),
{
    if fields.len() == 0 {
        None
    } else if fields.first().0 == key {
        Some(fields.first().1)
    } else {
        assoc_lookup(fields.drop_first(), key)
    }
}

/// The field `key` of a value: `None` on a non-object or a missing key.
pub open spec fn field_lookup(v: ValueSpec, key: Seq<char>) -> Option<ValueSpec> {
    match v {
        ValueSpec::Obj(fields) => assoc_lookup(fields, key),
        _ => None,
    }
}

/// The field `key` of a value, with `Null` standing in for a missing one.
pub open spec fn field_or_null(v: ValueSpec, key: Seq<char>) -> ValueSpec {
    match field_lookup(v, key) {
        Some(f) => f,
        None => ValueSpec::Null,
    }
}

/// The string field `key` of a value, with the empty string standing in for
/// a missing or non-string one.
pub open spec fn str_field(v: ValueSpec, key: Seq<char>) -> Seq<char> {
    match field_lookup(v, key) {
        Some(ValueSpec::Str(s)) => s,
        _ => Seq::empty(),
    }
}

/// The integer field `key` of a value, with `0` standing in for a missing or
/// non-integer one.
pub open spec fn int_field(v: ValueSpec, key: Seq<char>) -> i64 {
    match field_lookup(v, key) {
        Some(ValueSpec::Int(i)) => i,
        _ => 0,
    }
}

/// String equality, decided through `String` comparison.
pub fn str_eq(a: &str, b: &str) -> (r: bool)
    ensures
        r == (a@ == b@),
{
    a.to_owned() == b.to_owned()
}

impl Value {
    /// The field `key` of an object; `None` on a non-object or a missing key.
    pub fn get<'a>(&'a self, key: &str) -> (r: Option<&'a Value>)
        ensures
            match r {
                Some(f) => field_lookup(self@, key@) == Some(f@),
                None => field_lookup(self@, key@) is None,
            },
    {
        match self {
            Value::Obj(fields) => {
                let ghost m = self@->Obj_0;
                let mut i: usize = 0;
                proof {
                    assert(m.skip(0) =~= m);
                }
                while i < fields.len()
                    invariant
                        i <= fields@.len(),
                        m.len() == fields@.len(),
                        forall|j: int|
                            0 <= j < m.len() ==> m[j] == (fields@[j].0@, fields@[j].1@),
                        self@ == ValueSpec::Obj(m),
                        assoc_lookup(m, key@) == assoc_lookup(m.skip(i as int), key@),
                    decreases fields@.len() - i,
                {
                    if str_eq(fields[i].0.as_str(), key) {
                        proof {
                            assert(m.skip(i as int).first() == m[i as int]);
                        }
                        return Some(&fields[i].1);
                    }
                    proof {
                        assert(m.skip(i as int).first() == m[i as int]);
                        assert(m.skip(i as int).drop_first() =~= m.skip(i as int + 1));
                    }
                    i += 1;
                }
                proof {
                    assert(m.skip(i as int).len() == 0);
                }
                None
            },
            _ => None,
        }
    }

    /// The borrowed string under a `Str` value; `None` on any other shape.
    pub fn as_str(&self) -> (r: Option<&String>)
        ensures
            r is Some <==> self@ is Str,
            r is Some ==> self@ == ValueSpec::Str(r.unwrap()@),
    {
        match self {
            Value::Str(s) => Some(s),
            _ => None,
        }
    }

    /// The integer under an `Int` value; `None` on any other shape.
    pub fn as_i64(&self) -> (r: Option<i64>)
        ensures
            r is Some <==> self@ is Int,
            r is Some ==> self@ == ValueSpec::Int(r.unwrap()),
    {
        match self {
            Value::Int(i) => Some(*i),
            _ => None,
        }
    }

    /// The integer field `key`, with `0` for a missing or non-integer field.
    pub fn int_or_zero(&self, key: &str) -> (r: i64)
        ensures
            r == int_field(self@, key@),
    {
        match self.get(key) {
            Some(f) => match f.as_i64() {
                Some(i) => i,
                None => 0,
            },
            None => 0,
        }
    }

    /// The string field `key`, with the empty string for a missing or
    /// non-string field.
    pub fn str_or_empty(&self, key: &str) -> (r: String)
        ensures
            r@ == str_field(self@, key@),
    {
        match self.get(key) {
            Some(f) => match f.as_str() {
                Some(s) => s.clone(),
                None => String::new(),
            },
            None => String::new(),
        }
    }

    /// The field `key` of an object, with a shared `Null` standing in for a
    /// missing key or a non-object value.
    pub fn get_or_null<'a>(&'a self, key: &str, null: &'a Value) -> (r: &'a Value)
        requires
            null@ == ValueSpec::Null,
        ensures
            r@ == field_or_null(self@, key@),
    {
        match self.get(key) {
            Some(f) => f,
            None => null,
        }
    }
}

} // verus!

