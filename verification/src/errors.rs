//! Error types of the request-ingestion layer.
//!
//! Two kinds of failure are distinguished: a document whose shape does not
//! match the wire contract at all (`DeserializationError`), and a
//! structurally valid document that breaks a semantic rule
//! (`ValidationError`, optionally tagged with the offending field by
//! `ValidationErrors`).

use vstd::prelude::*;

verus! {

/// The JSON shape of a value, used to report which shape was rejected.
#[derive(Clone, Copy, Debug, PartialEq, Eq, Structural)]
pub enum JsonKind {
    Null,
    Bool,
    Number,
    String,
    Array,
    Object,
}

/// A document does not match the expected wire shape.
#[derive(Clone, Debug, PartialEq, Eq)]
pub enum DeserializationError {
    /// The top-level document is not a JSON object.
    NotAnObject,
    /// A required top-level field is absent.
    MissingField(String),
    /// A top-level field occurs more than once.
    DuplicateField(String),
    /// A known top-level field holds a value of the wrong shape.
    WrongFieldType(String),
    /// The document holds a top-level field this layer does not know.
    UnknownField(String),
    /// A "params" value is neither absent, `null`, an array nor an object;
    /// the payload names the rejected shape.
    InvalidParams(JsonKind),
}

/// A structurally valid value violates a semantic rule; `code` says which.
#[derive(Clone, Debug, PartialEq, Eq)]
pub struct ValidationError {
    pub code: String,
}

impl ValidationError {
    /// Builds an error carrying the given rule code.
    pub fn new(code: &str) -> (r: ValidationError)
        ensures
            r.code@ == code@,
    {
        ValidationError { code: code.to_owned() }
    }
}

/// A validation failure attributed to one named field of the envelope.
#[derive(Clone, Debug, PartialEq, Eq)]
pub struct ValidationErrors {
    pub field: String,
    pub error: ValidationError,
}

impl ValidationErrors {
    /// True exactly when `r` is a failure attributed to the field `field`.
    pub fn has_error(r: &Result<(), ValidationErrors>, field: &str) -> (b: bool)
        ensures
            b == match r {
                Ok(()) => false,
                Err(e) => e.field@ == field@,
            },
    {
        match r {
            Ok(()) => false,
            Err(e) => e.field == field.to_owned(),
        }
    }
}

} // verus!
