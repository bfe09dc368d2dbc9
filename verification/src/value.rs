//! The parsed wire document: the tree an external JSON parser hands over.

use vstd::prelude::*;

use crate::text::str_eq;

verus! {

/// One node of a parsed wire document. Numbers are the unsigned
/// integers the upstream API uses for identifiers and amounts.
#[derive(Debug)]
pub enum Value {
    Null,
    Bool(bool),
    Num(u64),
    Str(String),
    Arr(Vec<Value>),
    Obj(Vec<(String, Value)>),
}

/// The wire kinds a document value can take.
#[derive(Clone, Copy, Debug, PartialEq, Eq, Structural)]
pub enum Kind {
    Null,
    Bool,
    Num,
    Str,
    Arr,
    Obj,
}

impl Value {
    /// The kind of this value.
    pub open spec fn kind(self) -> Kind {
        match self {
            Value::Null => Kind::Null,
            Value::Bool(_) => Kind::Bool,
            Value::Num(_) => Kind::Num,
            Value::Str(_) => Kind::Str,
            Value::Arr(_) => Kind::Arr,
            Value::Obj(_) => Kind::Obj,
        }
    }

    /// The kind of this value.
    pub fn kind_x(&self) -> (k: Kind)
        ensures
            k == self.kind(),
    {
        match self {
            Value::Null => Kind::Null,
            Value::Bool(_) => Kind::Bool,
            Value::Num(_) => Kind::Num,
            Value::Str(_) => Kind::Str,
            Value::Arr(_) => Kind::Arr,
            Value::Obj(_) => Kind::Obj,
        }
    }
}

/// The value at the first entry with the given wire name, in document
/// order.
pub open spec fn obj_get(entries: Seq<(String, Value)>, name: Seq<char>) -> Option<Value>
    decreases entries.len(),
{
    if entries.len() == 0 {
        None
    } else if entries[0].0@ == name {
        Some(entries[0].1)
    } else {
        obj_get(entries.drop_first(), name)
    }
}

/// Look a field up by its wire name.
pub fn get_field<'a>(entries: &'a Vec<(String, Value)>, name: &str) -> (r: Option<&'a Value>)
    ensures
        match r {
            Some(v) => obj_get(entries@, name@) == Some(*v),
            None => obj_get(entries@, name@) is None,
        },
{
    let mut i: usize = 0;
    proof {
        assert(entries@.skip(0) =~= entries@);
    }
    while i < entries.len()
        invariant
            i <= entries@.len(),
            obj_get(entries@, name@) == obj_get(entries@.skip(i as int), name@),
        decreases entries@.len() - i,
    {
        proof {
            assert(entries@.skip(i as int)[0] == entries@[i as int]);
        }
        if str_eq(entries[i].0.as_str(), name) {
            return Some(&entries[i].1);
        }
        proof {
            assert(entries@.skip(i as int).drop_first() =~= entries@.skip(i as int + 1));
        }
        i += 1;
    }
    proof {
        assert(entries@.skip(i as int).len() == 0);
    }
    None
}

} // verus!
