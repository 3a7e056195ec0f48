//! A generic JSON value, modelled with plain data so that every rule of the
//! request-ingestion layer can be stated and proved over it.
//!
//! Object fields keep their insertion order, so re-serialization preserves
//! the order in which fields arrived.

use vstd::prelude::*;

use crate::errors::JsonKind;

verus! {

/// A JSON number, in the three storage classes a generic JSON document
/// distinguishes: an unsigned integer, a negative integer, or a binary64
/// floating-point number carried as its raw bit pattern (kept as bits so
/// that the model stays exact and purely integral).
#[derive(Clone, Copy, Debug, PartialEq, Eq, Structural)]
pub enum JsonNum {
    /// A non-negative integer that fits in 64 bits.
    U64(u64),
    /// A negative integer.
    I64(i64),
    /// The bit pattern of a binary64 floating-point number.
    F64Bits(u64),
}

/// A generic JSON value.
#[derive(Debug, PartialEq, Eq)]
pub enum JsonValue {
    Null,
    Bool(bool),
    Num(JsonNum),
    Str(String),
    Array(Vec<JsonValue>),
    /// An object: fields in insertion order.
    Object(Vec<(String, JsonValue)>),
}

/// The shape of a value, as reported in shape-mismatch errors.
pub open spec fn kind_of(v: JsonValue) -> JsonKind {
    match v {
        JsonValue::Null => JsonKind::Null,
        JsonValue::Bool(_) => JsonKind::Bool,
        JsonValue::Num(_) => JsonKind::Number,
        JsonValue::Str(_) => JsonKind::String,
        JsonValue::Array(_) => JsonKind::Array,
        JsonValue::Object(_) => JsonKind::Object,
    }
}

/// The value of the first field named `key` among `entries`, if any.
pub open spec fn spec_get(entries: Seq<(String, JsonValue)>, key: Seq<char>) -> Option<JsonValue>
    decreases entries.len(),
{
    if entries.len() == 0 {
        None
    } else if entries[0].0@ == key {
        Some(entries[0].1)
    } else {
        spec_get(entries.drop_first(), key)
    }
}

/// The value of the field named `key` of `v`, if `v` is an object holding one.
pub open spec fn spec_lookup(v: JsonValue, key: Seq<char>) -> Option<JsonValue> {
    match v {
        JsonValue::Object(entries) => spec_get(entries@, key),
        _ => None,
    }
}

/// The number `v` holds, if `v` is a number representable as an unsigned
/// 64-bit integer.
pub open spec fn spec_as_u64(v: JsonValue) -> Option<u64> {
    match v {
        JsonValue::Num(JsonNum::U64(u)) => Some(u),
        _ => None,
    }
}

/// When no field among the first `i` entries is named `key` and the field at
/// `i` is, that field's value is the first one found for `key`.
pub proof fn lemma_spec_get_first(entries: Seq<(String, JsonValue)>, key: Seq<char>, i: int)
    requires
        0 <= i < entries.len(),
        forall|j: int| 0 <= j < i ==> (#[trigger] entries[j]).0@ != key,
        entries[i].0@ == key,
    ensures
        spec_get(entries, key) == Some(entries[i].1),
    decreases i,
{
    if i > 0 {
        lemma_spec_get_first(entries.drop_first(), key, i - 1);
    }
}

/// When no field is named `key`, the lookup finds nothing.
pub proof fn lemma_spec_get_none(entries: Seq<(String, JsonValue)>, key: Seq<char>)
    requires
        forall|j: int| 0 <= j < entries.len() ==> (#[trigger] entries[j]).0@ != key,
    ensures
        spec_get(entries, key) is None,
    decreases entries.len(),
{
    if entries.len() > 0 {
        lemma_spec_get_none(entries.drop_first(), key);
    }
}

/// True exactly when the string `a` spells `b`.
pub fn str_eq(a: &String, b: &str) -> (r: bool)
    ensures
        r == (a@ == b@),
{
    *a == b.to_owned()
}

impl JsonValue {
    /// The shape of this value.
    pub fn kind(&self) -> (k: JsonKind)
        ensures
            k == kind_of(*self),
    {
        match self {
            JsonValue::Null => JsonKind::Null,
            JsonValue::Bool(_) => JsonKind::Bool,
            JsonValue::Num(_) => JsonKind::Number,
            JsonValue::Str(_) => JsonKind::String,
            JsonValue::Array(_) => JsonKind::Array,
            JsonValue::Object(_) => JsonKind::Object,
        }
    }

    /// Looks up the first field named `key`, as `spec_lookup` describes.
    pub fn get<'a>(&'a self, key: &str) -> (r: Option<&'a JsonValue>)
        ensures
            match r {
                Some(x) => spec_lookup(*self, key@) == Some(*x),
                None => spec_lookup(*self, key@) is None,
            },
    {
        match self {
            JsonValue::Object(entries) => {
                let n = entries.len();
                let mut i: usize = 0;
                while i < n
                    invariant
                        *self is Object,
                        self->Object_0 == *entries,
                        n == entries@.len(),
                        0 <= i <= n,
                        forall|j: int| 0 <= j < i ==> (#[trigger] entries@[j]).0@ != key@,
                    decreases n - i,
                {
                    if str_eq(&entries[i].0, key) {
                        proof {
                            lemma_spec_get_first(entries@, key@, i as int);
                        }
                        return Some(&entries[i].1);
                    }
                    i = i + 1;
                }
                proof {
                    lemma_spec_get_none(entries@, key@);
                }
                None
            },
            _ => None,
        }
    }

    /// The number this value holds, when it is an unsigned 64-bit one, as
    /// `spec_as_u64` describes.
    pub fn as_u64(&self) -> (r: Option<u64>)
        ensures
            r == spec_as_u64(*self),
    {
        match self {
            JsonValue::Num(JsonNum::U64(u)) => Some(*u),
            _ => None,
        }
    }

    /// The elements of this value, when it is an array.
    pub fn as_array<'a>(&'a self) -> (r: Option<&'a Vec<JsonValue>>)
        ensures
            match r {
                Some(a) => *self == JsonValue::Array(*a),
                None => !(*self is Array),
            },
    {
        match self {
            JsonValue::Array(a) => Some(a),
            _ => None,
        }
    }
}

} // verus!
