//! Decoding of the "total + peer records" parameter shape out of a generic
//! JSON value.
//!
//! Converting one entry into a verified peer record is the business of the
//! discovery subsystem; this layer consumes that conversion through the
//! [`PeerRecord`] contract and validates the surrounding structure: a
//! "total" count fitting one byte and an "enrs" array whose entries all
//! convert, the first failure aborting the whole decode.

use vstd::prelude::*;

use crate::errors::ValidationError;
use crate::value::{spec_as_u64, spec_lookup, JsonValue};

verus! {

/// The conversion contract the peer-record subsystem supplies: which generic
/// values are valid records, and the error code reported for the others.
pub trait PeerRecord: Sized {
    /// The record a generic value converts to, if it is a valid one.
    spec fn spec_convert(v: JsonValue) -> Option<Self>;

    /// The code of the conversion error for a value that is not valid.
    spec fn spec_convert_err(v: JsonValue) -> Seq<char>;

    /// Converts one generic value into a record, exactly as `spec_convert`
    /// describes.
    fn try_from_value(v: &JsonValue) -> (r: Result<Self, ValidationError>)
        ensures
            match r {
                Ok(rec) => Self::spec_convert(*v) == Some(rec),
                Err(e) => {
                    &&& Self::spec_convert(*v) is None
                    &&& e.code@ == Self::spec_convert_err(*v)
                },
            },
    ;
}

/// A decoded peer-record list parameter: the advertised count and the
/// records themselves, in input order.
#[derive(Debug)]
pub struct NodesParams<R> {
    pub total: u8,
    pub enrs: Vec<R>,
}

/// The "total" field is present and holds an unsigned integer fitting one
/// byte. A larger value is rejected, never truncated: the count paginates
/// the discovery protocol and is defined to fit a single byte.
pub open spec fn total_ok(v: JsonValue) -> bool {
    spec_lookup(v, "total"@) matches Some(t) && spec_as_u64(t) matches Some(u) && u <= 255
}

/// The count the "total" field advertises.
pub open spec fn spec_total(v: JsonValue) -> u64
    recommends
        total_ok(v),
{
    spec_as_u64(spec_lookup(v, "total"@)->Some_0)->Some_0
}

/// The "enrs" field is present and holds an array.
pub open spec fn enrs_ok(v: JsonValue) -> bool {
    spec_lookup(v, "enrs"@) matches Some(e) && e is Array
}

/// The entries of the "enrs" array.
pub open spec fn spec_enr_values(v: JsonValue) -> Seq<JsonValue>
    recommends
        enrs_ok(v),
{
    spec_lookup(v, "enrs"@)->Some_0->Array_0@
}

/// A value decodes to a peer-record list exactly when its "total" and
/// "enrs" fields are well-shaped and every entry converts to a record.
pub open spec fn nodes_wf<R: PeerRecord>(v: JsonValue) -> bool {
    &&& total_ok(v)
    &&& enrs_ok(v)
    &&& (forall|i: int|
        0 <= i < spec_enr_values(v).len() ==> R::spec_convert(
            #[trigger] spec_enr_values(v)[i],
        ) is Some)
}

/// What a successful decode returns: the advertised count and the converted
/// records, one per entry, in input order.
pub open spec fn decode_ok_post<R: PeerRecord>(v: JsonValue, np: NodesParams<R>) -> bool {
    &&& np.total as u64 == spec_total(v)
    &&& np.enrs@.len() == spec_enr_values(v).len()
    &&& (forall|i: int|
        0 <= i < np.enrs@.len() ==> Some(#[trigger] np.enrs@[i]) == R::spec_convert(
            spec_enr_values(v)[i],
        ))
}

/// Which error a failed decode reports: each structural fault has its own
/// code — a non-array "enrs" keeps its historical "Empty enrs param" label —
/// and a failing entry surfaces its own conversion error verbatim, the
/// first failing entry winning.
pub open spec fn decode_err_post<R: PeerRecord>(v: JsonValue, e: ValidationError) -> bool {
    &&& (spec_lookup(v, "total"@) is None ==> e.code@ == "Missing total param"@)
    &&& ((spec_lookup(v, "total"@) matches Some(t) && !(spec_as_u64(t) matches Some(u) && u
        <= 255)) ==> e.code@ == "Invalid total param"@)
    &&& (total_ok(v) && spec_lookup(v, "enrs"@) is None ==> e.code@ == "Missing enrs param"@)
    &&& ((spec_lookup(v, "enrs"@) matches Some(ev) && !(ev is Array) && total_ok(v)) ==> e.code@
        == "Empty enrs param"@)
    &&& (total_ok(v) && enrs_ok(v) ==> exists|i: int|
        #![trigger spec_enr_values(v)[i]]
        {
            &&& 0 <= i < spec_enr_values(v).len()
            &&& R::spec_convert(spec_enr_values(v)[i]) is None
            &&& (forall|j: int|
                0 <= j < i ==> R::spec_convert(#[trigger] spec_enr_values(v)[j]) is Some)
            &&& e.code@ == R::spec_convert_err(spec_enr_values(v)[i])
        })
}

impl<R: PeerRecord> NodesParams<R> {
    /// Decodes a generic value into a peer-record list, validating the
    /// presence and shape of "total" and "enrs" and converting every entry,
    /// with no partial result: the first fault aborts the decode.
    pub fn try_from(value: &JsonValue) -> (r: Result<NodesParams<R>, ValidationError>)
        ensures
            r is Ok <==> nodes_wf::<R>(*value),
            r matches Ok(np) ==> decode_ok_post::<R>(*value, np),
            r matches Err(e) ==> decode_err_post::<R>(*value, e),
    {
        let total_field = match value.get("total") {
            Some(t) => t,
            None => {
                return Err(ValidationError::new("Missing total param"));
            },
        };
        let total_u64 = match total_field.as_u64() {
            Some(u) if u <= 255 => u,
            _ => {
                return Err(ValidationError::new("Invalid total param"));
            },
        };
        let total = total_u64 as u8;
        let enrs_field = match value.get("enrs") {
            Some(e) => e,
            None => {
                return Err(ValidationError::new("Missing enrs param"));
            },
        };
        let arr = match enrs_field.as_array() {
            Some(a) => a,
            None => {
                return Err(ValidationError::new("Empty enrs param"));
            },
        };
        let n = arr.len();
        let mut enrs: Vec<R> = Vec::new();
        let mut i: usize = 0;
        while i < n
            invariant
                total_ok(*value),
                total as u64 == spec_total(*value),
                enrs_ok(*value),
                spec_enr_values(*value) == arr@,
                n == arr@.len(),
                0 <= i <= n,
                enrs@.len() == i,
                forall|j: int|
                    0 <= j < i ==> Some(#[trigger] enrs@[j]) == R::spec_convert(arr@[j]),
            decreases n - i,
        {
            match R::try_from_value(&arr[i]) {
                Ok(rec) => {
                    enrs.push(rec);
                },
                Err(e) => {
                    proof {
                        assert(R::spec_convert(spec_enr_values(*value)[i as int]) is None);
                        assert forall|j: int| 0 <= j < i as int implies R::spec_convert(
                            #[trigger] spec_enr_values(*value)[j],
                        ) is Some by {
                            assert(Some(enrs@[j]) == R::spec_convert(arr@[j]));
                        };
                    }
                    return Err(e);
                },
            }
            i = i + 1;
        }
        proof {
            assert forall|j: int|
                0 <= j < spec_enr_values(*value).len() implies R::spec_convert(
                #[trigger] spec_enr_values(*value)[j],
            ) is Some by {
                assert(Some(enrs@[j]) == R::spec_convert(arr@[j]));
            };
        }
        Ok(NodesParams { total, enrs })
    }
}

/// Decodes the "total + peer records" parameter shape out of a generic
/// value; see [`NodesParams::try_from`].
pub fn decode_nodes_params<R: PeerRecord>(value: &JsonValue) -> (r: Result<
    NodesParams<R>,
    ValidationError,
>)
    ensures
        r is Ok <==> nodes_wf::<R>(*value),
        r matches Ok(np) ==> decode_ok_post::<R>(*value, np),
        r matches Err(e) ==> decode_err_post::<R>(*value, e),
{
    NodesParams::<R>::try_from(value)
}

/// The textual form of a peer record, as it travels inside a JSON document:
/// the encoded record string, not yet decoded or signature-checked. Decoding
/// and verifying the record itself belongs to the discovery subsystem; at
/// this boundary a record entry is valid exactly when it is a JSON string.
#[derive(Debug, PartialEq, Eq)]
pub struct RawEnr {
    pub encoded: String,
}

impl PeerRecord for RawEnr {
    open spec fn spec_convert(v: JsonValue) -> Option<RawEnr> {
        match v {
            JsonValue::Str(s) => Some(RawEnr { encoded: s }),
            _ => None,
        }
    }

    open spec fn spec_convert_err(v: JsonValue) -> Seq<char> {
        "Enr value is not a string"@
    }

    fn try_from_value(v: &JsonValue) -> (r: Result<RawEnr, ValidationError>) {
        match v {
            JsonValue::Str(s) => Ok(RawEnr { encoded: s.clone() }),
            _ => Err(ValidationError::new("Enr value is not a string")),
        }
    }
}

} // verus!
