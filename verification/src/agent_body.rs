//! A flat JSON object as the library builds it for the server agent: an
//! ordered list of keys with scalar values.

use vstd::prelude::*;

verus! {

/// A scalar JSON value.
#[derive(Debug)]
pub enum JsonScalar {
    Str(String),
    Int(i64),
    Bool(bool),
    Null,
}

/// A scalar JSON value as a mathematical value.
pub enum Scalar {
    Str(Seq<char>),
    Int(i64),
    Bool(bool),
    Null,
}

impl View for JsonScalar {
    type V = Scalar;

    open spec fn view(&self) -> Scalar {
        match self {
            JsonScalar::Str(s) => Scalar::Str(s@),
            JsonScalar::Int(i) => Scalar::Int(*i),
            JsonScalar::Bool(b) => Scalar::Bool(*b),
            JsonScalar::Null => Scalar::Null,
        }
    }
}

/// A JSON object with scalar fields, in the order they were set.
pub struct AgentBody {
    pub fields: Vec<(String, JsonScalar)>,
}

impl View for AgentBody {
    type V = Seq<(Seq<char>, Scalar)>;

    open spec fn view(&self) -> Seq<(Seq<char>, Scalar)> {
        self.fields@.map_values(|f: (String, JsonScalar)| (f.0@, f.1@))
    }
}

/// An optional integer as a JSON value (`null` when absent).
pub open spec fn opt_int(v: Option<i32>) -> Scalar {
    match v {
        Some(i) => Scalar::Int(i as i64),
        None => Scalar::Null,
    }
}

/// An optional text as a JSON value (`null` when absent).
pub open spec fn opt_str(v: Option<Seq<char>>) -> Scalar {
    match v {
        Some(s) => Scalar::Str(s),
        None => Scalar::Null,
    }
}

impl AgentBody {
    pub fn new() -> (b: Self)
        ensures
            b@ == Seq::<(Seq<char>, Scalar)>::empty(),
    {
        let b = AgentBody { fields: Vec::new() };
        assert(b@ =~= Seq::<(Seq<char>, Scalar)>::empty());
        b
    }

    pub fn set(&mut self, key: &str, value: JsonScalar)
        ensures
            final(self)@ == old(self)@.push((key@, value@)),
    {
        let ghost before = self.fields@;
        self.fields.push((String::from_str(key), value));
        assert(self.fields@.map_values(|f: (String, JsonScalar)| (f.0@, f.1@))
            =~= before.map_values(|f: (String, JsonScalar)| (f.0@, f.1@)).push((key@, value@)));
    }

    pub fn set_str(&mut self, key: &str, value: &str)
        ensures
            final(self)@ == old(self)@.push((key@, Scalar::Str(value@))),
    {
        self.set(key, JsonScalar::Str(String::from_str(value)));
    }

    pub fn set_int(&mut self, key: &str, value: i64)
        ensures
            final(self)@ == old(self)@.push((key@, Scalar::Int(value))),
    {
        self.set(key, JsonScalar::Int(value));
    }

    pub fn set_bool(&mut self, key: &str, value: bool)
        ensures
            final(self)@ == old(self)@.push((key@, Scalar::Bool(value))),
    {
        self.set(key, JsonScalar::Bool(value));
    }

    pub fn set_opt_int(&mut self, key: &str, value: Option<i32>)
        ensures
            final(self)@ == old(self)@.push((key@, opt_int(value))),
    {
        match value {
            Some(i) => self.set(key, JsonScalar::Int(i as i64)),
            None => self.set(key, JsonScalar::Null),
        }
    }

    pub fn set_opt_str(&mut self, key: &str, value: &Option<String>)
        ensures
            final(self)@ == old(self)@.push((key@, opt_str(value.deep_view()))),
    {
        match value {
            Some(s) => self.set(key, JsonScalar::Str(String::from_str(s.as_str()))),
            None => self.set(key, JsonScalar::Null),
        }
    }
}

} // verus!
