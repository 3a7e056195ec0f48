//! The three legal shapes of request parameters, with a strict parse from a
//! generic JSON value and a total, lossless conversion back.

use vstd::prelude::*;

use crate::errors::{DeserializationError, JsonKind};
use crate::value::{kind_of, JsonValue};

verus! {

/// Request parameters: absent, positional, or named.
#[derive(Debug, PartialEq, Eq)]
pub enum Params {
    /// No parameters.
    Absent,
    /// An ordered sequence of positional values.
    Array(Vec<JsonValue>),
    /// Named values, insertion order kept.
    Named(Vec<(String, JsonValue)>),
}

/// The generic value a parameter set re-serializes to: `null`, an array, or
/// an object.
pub open spec fn params_to_value(p: Params) -> JsonValue {
    match p {
        Params::Absent => JsonValue::Null,
        Params::Array(elems) => JsonValue::Array(elems),
        Params::Named(fields) => JsonValue::Object(fields),
    }
}

/// The parameter set a present generic value parses to: `null` gives absent
/// parameters, an array positional ones, an object named ones; any other
/// shape is rejected.
pub open spec fn spec_parse_params(v: JsonValue) -> Option<Params> {
    match v {
        JsonValue::Null => Some(Params::Absent),
        JsonValue::Array(elems) => Some(Params::Array(elems)),
        JsonValue::Object(fields) => Some(Params::Named(fields)),
        _ => None,
    }
}

/// The parameter set an optional "params" document parses to: an absent
/// document gives absent parameters.
pub open spec fn spec_parse_opt_params(doc: Option<JsonValue>) -> Option<Params> {
    match doc {
        Option::None => Some(Params::Absent),
        Option::Some(v) => spec_parse_params(v),
    }
}

/// An absent document reads as `null`; a present one as itself.
pub open spec fn normalize_params_doc(doc: Option<JsonValue>) -> JsonValue {
    match doc {
        Option::None => JsonValue::Null,
        Option::Some(v) => v,
    }
}

impl Params {
    /// Strict parse of a present "params" value: the three legal shapes are
    /// tried as alternatives and anything else is rejected, naming the
    /// offending shape. No scalar is ever coerced into a parameter set.
    pub fn parse(v: JsonValue) -> (r: Result<Params, DeserializationError>)
        ensures
            match r {
                Ok(p) => spec_parse_params(v) == Some(p),
                Err(e) => {
                    &&& spec_parse_params(v) is None
                    &&& e == DeserializationError::InvalidParams(kind_of(v))
                },
            },
            r is Err <==> (v is Bool || v is Num || v is Str),
    {
        match v {
            JsonValue::Null => Ok(Params::Absent),
            JsonValue::Array(elems) => Ok(Params::Array(elems)),
            JsonValue::Object(fields) => Ok(Params::Named(fields)),
            JsonValue::Bool(_) => Err(DeserializationError::InvalidParams(JsonKind::Bool)),
            JsonValue::Num(_) => Err(DeserializationError::InvalidParams(JsonKind::Number)),
            JsonValue::Str(_) => Err(DeserializationError::InvalidParams(JsonKind::String)),
        }
    }
}

impl Default for Params {
    /// Parameters default to absent when the source document omits them.
    fn default() -> (r: Params)
        ensures
            r == Params::Absent,
    {
        Params::Absent
    }
}

impl From<Params> for JsonValue {
    /// Total, lossless re-serialization of a parameter set.
    fn from(p: Params) -> (v: JsonValue) {
        match p {
            Params::Absent => JsonValue::Null,
            Params::Array(elems) => JsonValue::Array(elems),
            Params::Named(fields) => JsonValue::Object(fields),
        }
    }
}

impl vstd::std_specs::convert::FromSpecImpl<Params> for JsonValue {
    open spec fn obeys_from_spec() -> bool {
        true
    }

    open spec fn from_spec(p: Params) -> JsonValue {
        params_to_value(p)
    }
}

/// Parsing a parameter document that is absent, `null`, an array or an
/// object succeeds, and re-serializing the result gives the document back,
/// with an absent document normalizing to `null`.
pub proof fn lemma_params_round_trip(doc: Option<JsonValue>)
    requires
        doc matches Some(v) ==> (v is Null || v is Array || v is Object),
    ensures
        spec_parse_opt_params(doc) is Some,
        params_to_value(spec_parse_opt_params(doc)->Some_0) == normalize_params_doc(doc),
{
}

/// Parsing a parameter document that is a bare string, number or boolean
/// fails.
pub proof fn lemma_params_scalar_rejected(v: JsonValue)
    requires
        v is Bool || v is Num || v is Str,
    ensures
        spec_parse_params(v) is None,
{
}

} // verus!
