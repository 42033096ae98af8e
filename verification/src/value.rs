//! The untyped payload tree carried by a schema node.
//!
//! Numbers are held in fixed-point form: a `Num` stores thousandths of a
//! unit, so the value `2.5` is `Num(2500)` and the integer `7` is
//! `Num(7000)`. This keeps every payload scalar a plain value that
//! contracts can speak about exactly.

use vstd::prelude::*;

use crate::textops::str_eq;

verus! {

/// One node of the key -> value tree that describes a widget's payload.
/// Object entries keep their insertion order; a well-formed object has
/// unique keys.
#[derive(Debug, PartialEq)]
pub enum Value {
    Null,
    Bool(bool),
    /// A number, in thousandths of a unit.
    Num(i64),
    Str(String),
    Arr(Vec<Value>),
    Obj(Vec<(String, Value)>),
}

/// The value bound to `key` by the first matching entry, if any.
pub open spec fn spec_lookup(entries: Seq<(String, Value)>, key: Seq<char>) -> Option<Value>
    decreases entries.len(),
{
    if entries.len() == 0 {
        None
    } else if entries[0].0@ == key {
        Some(entries[0].1)
    } else {
        spec_lookup(entries.drop_first(), key)
    }
}

impl Value {
    /// Field lookup on an object; `None` on any other variant.
    pub open spec fn spec_get(self, key: Seq<char>) -> Option<Value> {
        match self {
            Value::Obj(entries) => spec_lookup(entries@, key),
            _ => None,
        }
    }

    /// Looks up `key` in an object payload; any non-object yields `None`,
    /// never an error.
    pub fn get<'a>(&'a self, key: &str) -> (r: Option<&'a Value>)
        ensures
            match r {
                Some(v) => self.spec_get(key@) == Some(*v),
                None => self.spec_get(key@) is None,
            },
    {
        match self {
            Value::Obj(entries) => {
                let n = entries.len();
                proof {
                    assert(entries@.subrange(0, n as int) =~= entries@);
                }
                let mut i: usize = 0;
                while i < n
                    invariant
                        n == entries@.len(),
                        0 <= i <= n,
                        forall|j: int| 0 <= j < i ==> entries@[j].0@ != key@,
                        spec_lookup(entries@, key@) == spec_lookup(
                            entries@.subrange(i as int, n as int),
                            key@,
                        ),
                    decreases n - i,
                {
                    proof {
                        assert(entries@.subrange(i as int, n as int).drop_first()
                            =~= entries@.subrange(i + 1, n as int));
                    }
                    if str_eq(entries[i].0.as_str(), key) {
                        proof {
                            let sub = entries@.subrange(i as int, n as int);
                            assert(sub[0] == entries@[i as int]);
                            assert(spec_lookup(sub, key@) == Some(entries@[i as int].1));
                        }
                        return Some(&entries[i].1);
                    }
                    i += 1;
                }
                proof {
                    assert(entries@.subrange(n as int, n as int).len() == 0);
                }
                None
            },
            _ => None,
        }
    }

    /// The string payload of a `Str`; `None` on any other variant.
    pub fn as_str(&self) -> (r: Option<&String>)
        ensures
            match self {
                Value::Str(s) => r == Some(s),
                _ => r is None,
            },
    {
        match self {
            Value::Str(s) => Some(s),
            _ => None,
        }
    }

    /// The elements of an `Arr`; `None` on any other variant.
    pub fn as_arr(&self) -> (r: Option<&Vec<Value>>)
        ensures
            match self {
                Value::Arr(items) => r == Some(items),
                _ => r is None,
            },
    {
        match self {
            Value::Arr(items) => Some(items),
            _ => None,
        }
    }

    /// Whether this number is a whole, non-negative count, and its value.
    pub open spec fn spec_as_u64(self) -> Option<u64> {
        match self {
            Value::Num(m) => if m >= 0 && m % 1000 == 0 {
                Some((m / 1000) as u64)
            } else {
                None
            },
            _ => None,
        }
    }

    /// A non-negative whole number; fractional or negative numbers and
    /// every other variant yield `None`.
    pub fn as_u64(&self) -> (r: Option<u64>)
        ensures
            r == self.spec_as_u64(),
    {
        match self {
            Value::Num(m) => {
                let m = *m;
                if m >= 0 && (m as u64) % 1000 == 0 {
                    proof {
                        assert(m % 1000 == (m as u64) % 1000) by (nonlinear_arith)
                            requires m >= 0;
                        assert(m / 1000 == ((m as u64) / 1000) as i64) by (nonlinear_arith)
                            requires m >= 0;
                    }
                    Some((m as u64) / 1000)
                } else {
                    proof {
                        if m >= 0 {
                            assert(m % 1000 == (m as u64) % 1000) by (nonlinear_arith)
                                requires m >= 0;
                        }
                    }
                    None
                }
            },
            _ => None,
        }
    }

    /// Any number, in thousandths of a unit; `None` on every other variant.
    pub fn as_milli(&self) -> (r: Option<i64>)
        ensures
            match self {
                Value::Num(m) => r == Some(*m),
                _ => r is None,
            },
    {
        match self {
            Value::Num(m) => Some(*m),
            _ => None,
        }
    }
}

/// Structural equality of two payload trees: the same shape, with equal
/// scalars and equal key text, entry for entry.
pub open spec fn value_eq(a: Value, b: Value) -> bool
    decreases a,
{
    match (a, b) {
        (Value::Null, Value::Null) => true,
        (Value::Bool(x), Value::Bool(y)) => x == y,
        (Value::Num(x), Value::Num(y)) => x == y,
        (Value::Str(x), Value::Str(y)) => x@ == y@,
        (Value::Arr(x), Value::Arr(y)) => {
            &&& x@.len() == y@.len()
            &&& forall|i: int| 0 <= i < x@.len() ==> value_eq(#[trigger] x@[i], y@[i])
        },
        (Value::Obj(x), Value::Obj(y)) => {
            &&& x@.len() == y@.len()
            &&& forall|i: int|
                0 <= i < x@.len() ==> (#[trigger] x@[i]).0@ == y@[i].0@ && value_eq(
                    x@[i].1,
                    y@[i].1,
                )
        },
        _ => false,
    }
}

/// A deep copy of a payload tree.
pub fn clone_value(v: &Value) -> (r: Value)
    ensures
        value_eq(r, *v),
    decreases *v,
{
    match v {
        Value::Null => Value::Null,
        Value::Bool(b) => Value::Bool(*b),
        Value::Num(m) => Value::Num(*m),
        Value::Str(s) => Value::Str(s.clone()),
        Value::Arr(items) => {
            let n = items.len();
            let mut out: Vec<Value> = Vec::new();
            let mut i: usize = 0;
            while i < n
                invariant
                    0 <= i <= n,
                    out@.len() == i,
                    forall|j: int| 0 <= j < i ==> value_eq(#[trigger] out@[j], items@[j]),
                decreases n - i,
            {
                out.push(clone_value(&items[i]));
                i += 1;
            }
            Value::Arr(out)
        },
        Value::Obj(entries) => {
            let n = entries.len();
            let mut out: Vec<(String, Value)> = Vec::new();
            let mut i: usize = 0;
            while i < n
                invariant
                    0 <= i <= n,
                    out@.len() == i,
                    forall|j: int|
                        0 <= j < i ==> (#[trigger] out@[j]).0@ == entries@[j].0@ && value_eq(
                            out@[j].1,
                            entries@[j].1,
                        ),
                decreases n - i,
            {
                let key = entries[i].0.clone();
                let val = clone_value(&entries[i].1);
                out.push((key, val));
                i += 1;
            }
            Value::Obj(out)
        },
    }
}

} // verus!
