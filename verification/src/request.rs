//! The request envelope: strict parsing of one inbound call document and the
//! protocol-version validation rule.

use vstd::prelude::*;

use crate::errors::{DeserializationError, ValidationError, ValidationErrors};
use crate::params::{spec_parse_opt_params, spec_parse_params, Params};
use crate::value::{
    kind_of, lemma_spec_get_first, lemma_spec_get_none, spec_as_u64, spec_get, spec_lookup,
    str_eq, JsonValue,
};

verus! {

/// The only protocol version this layer accepts.
pub const JSONRPC_VERSION: &'static str = "2.0";

/// One inbound call: protocol version, method name, correlation id, and
/// parameters (absent when the source document omitted them).
#[derive(Debug, PartialEq, Eq)]
pub struct JsonRequest {
    pub jsonrpc: String,
    pub params: Params,
    pub method: String,
    pub id: u32,
}

/// The four top-level fields a request document may carry.
pub open spec fn known_field(k: Seq<char>) -> bool {
    ||| k == "jsonrpc"@
    ||| k == "method"@
    ||| k == "id"@
    ||| k == "params"@
}

/// What a known field must hold: strings for "jsonrpc" and "method", an
/// unsigned integer fitting 32 bits for "id", a legal parameter shape for
/// "params".
pub open spec fn field_value_ok(k: Seq<char>, v: JsonValue) -> bool {
    &&& k == "jsonrpc"@ ==> v is Str
    &&& k == "method"@ ==> v is Str
    &&& k == "id"@ ==> (spec_as_u64(v) matches Some(u) && u <= u32::MAX)
    &&& k == "params"@ ==> spec_parse_params(v) is Some
}

/// A request document is well-formed when it is an object carrying only the
/// known fields, each at most once, with the value each field requires, and
/// "jsonrpc", "method" and "id" all present.
pub open spec fn envelope_wf(doc: JsonValue) -> bool {
    &&& doc matches JsonValue::Object(fields)
    &&& (forall|i: int| 0 <= i < fields@.len() ==> known_field((#[trigger] fields@[i]).0@))
    &&& (forall|i: int, j: int|
        0 <= i < j < fields@.len() ==> (#[trigger] fields@[i]).0@ != (#[trigger] fields@[j]).0@)
    &&& spec_get(fields@, "jsonrpc"@) matches Some(jv) && jv is Str
    &&& spec_get(fields@, "method"@) matches Some(mv) && mv is Str
    &&& spec_get(fields@, "id"@) matches Some(iv) && spec_as_u64(iv) matches Some(u)
        && u <= u32::MAX
    &&& (spec_get(fields@, "params"@) matches Some(pv) ==> spec_parse_params(pv) is Some)
}

/// The protocol-version string of a well-formed document.
pub open spec fn envelope_jsonrpc(doc: JsonValue) -> String
    recommends
        envelope_wf(doc),
{
    spec_lookup(doc, "jsonrpc"@)->Some_0->Str_0
}

/// The method name of a well-formed document.
pub open spec fn envelope_method(doc: JsonValue) -> String
    recommends
        envelope_wf(doc),
{
    spec_lookup(doc, "method"@)->Some_0->Str_0
}

/// The correlation id of a well-formed document.
pub open spec fn envelope_id(doc: JsonValue) -> u64
    recommends
        envelope_wf(doc),
{
    spec_as_u64(spec_lookup(doc, "id"@)->Some_0)->Some_0
}

/// The field sequence of an object document.
pub open spec fn object_fields(doc: JsonValue) -> Seq<(String, JsonValue)>
    recommends
        doc is Object,
{
    doc->Object_0@
}

/// No field in the suffix of `s` starting at `n` is named `key`.
spec fn key_absent_in_suffix(s: Seq<(String, JsonValue)>, n: int, key: Seq<char>) -> bool {
    forall|i: int| n <= i < s.len() ==> (#[trigger] s[i]).0@ != key
}

/// No field in the suffix of `s` starting at `n` other than the one at `w`
/// is named `key`.
spec fn key_absent_except(s: Seq<(String, JsonValue)>, n: int, key: Seq<char>, w: int) -> bool {
    forall|j: int| n <= j < s.len() && j != w ==> (#[trigger] s[j]).0@ != key
}

/// Within the suffix of `s` starting at `n`, the field at `w` is the only
/// one named `key`.
spec fn found_at(s: Seq<(String, JsonValue)>, n: int, key: Seq<char>, w: int) -> bool {
    &&& n <= w < s.len()
    &&& s[w].0@ == key
    &&& key_absent_except(s, n, key, w)
}

/// A parse error tells the truth about the document: the fault it names is
/// really there.
pub open spec fn error_describes(doc: JsonValue, e: DeserializationError) -> bool {
    match e {
        DeserializationError::NotAnObject => !(doc is Object),
        DeserializationError::MissingField(f) => {
            &&& doc is Object
            &&& (f@ == "jsonrpc"@ || f@ == "method"@ || f@ == "id"@)
            &&& spec_get(object_fields(doc), f@) is None
        },
        DeserializationError::DuplicateField(f) => doc is Object && (exists|i: int, j: int|
            #![trigger object_fields(doc)[i], object_fields(doc)[j]]
            {
                &&& 0 <= i < j < object_fields(doc).len()
                &&& object_fields(doc)[i].0@ == f@
                &&& object_fields(doc)[j].0@ == f@
            }),
        DeserializationError::WrongFieldType(f) => doc is Object && known_field(f@) && (exists|
            i: int,
        |
            #![trigger object_fields(doc)[i]]
            {
                &&& 0 <= i < object_fields(doc).len()
                &&& object_fields(doc)[i].0@ == f@
                &&& !field_value_ok(f@, object_fields(doc)[i].1)
            }),
        DeserializationError::UnknownField(f) => doc is Object && !known_field(f@) && (exists|
            i: int,
        |
            #![trigger object_fields(doc)[i]]
            {
                &&& 0 <= i < object_fields(doc).len()
                &&& object_fields(doc)[i].0@ == f@
            }),
        DeserializationError::InvalidParams(kind) => doc is Object && (exists|i: int|
            #![trigger object_fields(doc)[i]]
            {
                &&& 0 <= i < object_fields(doc).len()
                &&& object_fields(doc)[i].0@ == "params"@
                &&& spec_parse_params(object_fields(doc)[i].1) is None
                &&& kind_of(object_fields(doc)[i].1) == kind
            }),
    }
}

/// The four field names spell four different strings.
proof fn lemma_keys_distinct()
    ensures
        "jsonrpc"@ != "method"@,
        "jsonrpc"@ != "id"@,
        "jsonrpc"@ != "params"@,
        "method"@ != "id"@,
        "method"@ != "params"@,
        "id"@ != "params"@,
{
    reveal_strlit("jsonrpc");
    reveal_strlit("method");
    reveal_strlit("id");
    reveal_strlit("params");
    assert("jsonrpc"@.len() == 7);
    assert("method"@.len() == 6);
    assert("id"@.len() == 2);
    assert("params"@.len() == 6);
    assert("method"@[0] == 'm');
    assert("params"@[0] == 'p');
}

impl JsonRequest {
    /// Checks the one semantic rule of the envelope: the protocol version
    /// must spell the supported literal. Any other version fails, with the
    /// error attributed to the "jsonrpc" field.
    pub fn validate(&self) -> (r: Result<(), ValidationErrors>)
        ensures
            r is Ok <==> self.jsonrpc@ == JSONRPC_VERSION@,
            r matches Err(e) ==> {
                &&& e.field@ == "jsonrpc"@
                &&& e.error.code@ == "Unsupported jsonrpc version"@
            },
    {
        if str_eq(&self.jsonrpc, JSONRPC_VERSION) {
            Ok(())
        } else {
            Err(ValidationErrors {
                field: "jsonrpc".to_owned(),
                error: ValidationError::new("Unsupported jsonrpc version"),
            })
        }
    }
}

/// Strict parse of one inbound document: exactly the four known fields are
/// accepted, "jsonrpc", "method" and "id" are required, parameters default
/// to absent, and an unknown or repeated field rejects the whole document.
pub fn parse_envelope(doc: JsonValue) -> (r: Result<JsonRequest, DeserializationError>)
    ensures
        r is Ok <==> envelope_wf(doc),
        !(doc is Object) ==> r == Err::<JsonRequest, DeserializationError>(
            DeserializationError::NotAnObject,
        ),
        r matches Ok(req) ==> {
            &&& req.jsonrpc == envelope_jsonrpc(doc)
            &&& req.method == envelope_method(doc)
            &&& req.id as u64 == envelope_id(doc)
            &&& Some(req.params) == spec_parse_opt_params(spec_lookup(doc, "params"@))
        },
        r matches Err(e) ==> error_describes(doc, e),
{
    let ghost gdoc = doc;
    let mut fields: Vec<(String, JsonValue)> = match doc {
        JsonValue::Object(fields) => fields,
        _ => {
            return Err(DeserializationError::NotAnObject);
        },
    };
    let ghost s: Seq<(String, JsonValue)> = fields@;

    let mut jsonrpc_val: Option<String> = None;
    let mut method_val: Option<String> = None;
    let mut id_val: Option<u32> = None;
    let mut params_val: Option<Params> = None;

    proof {
        assert(fields@ =~= s.take(fields@.len() as int));
    }

    while fields.len() > 0
        invariant
            gdoc == doc,
            gdoc is Object,
            object_fields(gdoc) == s,
            fields@.len() <= s.len(),
            fields@ == s.take(fields@.len() as int),
            forall|i: int| fields@.len() <= i < s.len() ==> known_field((#[trigger] s[i]).0@),
            match jsonrpc_val {
                Some(v) => exists|w: int|
                    #![trigger s[w]]
                    found_at(s, fields@.len() as int, "jsonrpc"@, w) && s[w].1 == JsonValue::Str(
                        v,
                    ),
                None => key_absent_in_suffix(s, fields@.len() as int, "jsonrpc"@),
            },
            match method_val {
                Some(v) => exists|w: int|
                    #![trigger s[w]]
                    found_at(s, fields@.len() as int, "method"@, w) && s[w].1 == JsonValue::Str(
                        v,
                    ),
                None => key_absent_in_suffix(s, fields@.len() as int, "method"@),
            },
            match id_val {
                Some(u) => exists|w: int|
                    #![trigger s[w]]
                    found_at(s, fields@.len() as int, "id"@, w) && spec_as_u64(s[w].1) == Some(
                        u as u64,
                    ),
                None => key_absent_in_suffix(s, fields@.len() as int, "id"@),
            },
            match params_val {
                Some(p) => exists|w: int|
                    #![trigger s[w]]
                    found_at(s, fields@.len() as int, "params"@, w) && spec_parse_params(s[w].1)
                        == Some(p),
                None => key_absent_in_suffix(s, fields@.len() as int, "params"@),
            },
        decreases fields.len(),
    {
        let ghost n0: int = fields@.len() as int;
        let entry = fields.pop().unwrap();
        let ghost n: int = fields@.len() as int;
        proof {
            lemma_keys_distinct();
            assert(n == n0 - 1);
            assert(fields@ =~= s.take(n));
            assert(entry == s[n]);
        }
        let (k, v) = entry;
        if str_eq(&k, "jsonrpc") {
            if jsonrpc_val.is_some() {
                proof {
                    lemma_not_wf_by_duplicate(gdoc, s, n, "jsonrpc"@);
                }
                return Err(DeserializationError::DuplicateField(k));
            }
            match v {
                JsonValue::Str(sv) => {
                    jsonrpc_val = Some(sv);
                    proof {
                        assert(found_at(s, n, "jsonrpc"@, n));
                    }
                },
                _ => {
                    proof {
                        lemma_not_wf_by_bad_value(gdoc, s, n);
                    }
                    return Err(DeserializationError::WrongFieldType(k));
                },
            }
        } else if str_eq(&k, "method") {
            if method_val.is_some() {
                proof {
                    lemma_not_wf_by_duplicate(gdoc, s, n, "method"@);
                }
                return Err(DeserializationError::DuplicateField(k));
            }
            match v {
                JsonValue::Str(sv) => {
                    method_val = Some(sv);
                    proof {
                        assert(found_at(s, n, "method"@, n));
                    }
                },
                _ => {
                    proof {
                        lemma_not_wf_by_bad_value(gdoc, s, n);
                    }
                    return Err(DeserializationError::WrongFieldType(k));
                },
            }
        } else if str_eq(&k, "id") {
            if id_val.is_some() {
                proof {
                    lemma_not_wf_by_duplicate(gdoc, s, n, "id"@);
                }
                return Err(DeserializationError::DuplicateField(k));
            }
            match v.as_u64() {
                Some(u) if u <= u32::MAX as u64 => {
                    id_val = Some(u as u32);
                    proof {
                        assert(found_at(s, n, "id"@, n));
                    }
                },
                _ => {
                    proof {
                        lemma_not_wf_by_bad_value(gdoc, s, n);
                    }
                    return Err(DeserializationError::WrongFieldType(k));
                },
            }
        } else if str_eq(&k, "params") {
            if params_val.is_some() {
                proof {
                    lemma_not_wf_by_duplicate(gdoc, s, n, "params"@);
                }
                return Err(DeserializationError::DuplicateField(k));
            }
            match Params::parse(v) {
                Ok(p) => {
                    params_val = Some(p);
                    proof {
                        assert(found_at(s, n, "params"@, n));
                    }
                },
                Err(e) => {
                    proof {
                        lemma_not_wf_by_bad_value(gdoc, s, n);
                        assert(object_fields(gdoc)[n] == s[n]);
                    }
                    return Err(e);
                },
            }
        } else {
            proof {
                lemma_not_wf_by_unknown(gdoc, s, n);
            }
            return Err(DeserializationError::UnknownField(k));
        }
    }

    let jsonrpc = match jsonrpc_val {
        Some(v) => v,
        None => {
            proof {
                lemma_not_wf_by_missing(gdoc, s, "jsonrpc"@);
            }
            return Err(DeserializationError::MissingField("jsonrpc".to_owned()));
        },
    };
    let method = match method_val {
        Some(v) => v,
        None => {
            proof {
                lemma_not_wf_by_missing(gdoc, s, "method"@);
            }
            return Err(DeserializationError::MissingField("method".to_owned()));
        },
    };
    let id = match id_val {
        Some(u) => u,
        None => {
            proof {
                lemma_not_wf_by_missing(gdoc, s, "id"@);
            }
            return Err(DeserializationError::MissingField("id".to_owned()));
        },
    };
    let params = match params_val {
        Some(p) => p,
        None => Params::default(),
    };

    proof {
        lemma_wf_at_end(gdoc, s, jsonrpc, method, id, params_val, params);
    }
    Ok(JsonRequest { jsonrpc, params, method, id })
}

/// A repeated field makes a document ill-formed: the entry at `n` and the
/// one a suffix invariant witnesses further on share a name.
proof fn lemma_not_wf_by_duplicate(
    doc: JsonValue,
    s: Seq<(String, JsonValue)>,
    n: int,
    key: Seq<char>,
)
    requires
        doc is Object,
        object_fields(doc) == s,
        0 <= n < s.len(),
        s[n].0@ == key,
        exists|w: int| #![trigger s[w]] n + 1 <= w < s.len() && s[w].0@ == key,
    ensures
        !envelope_wf(doc),
        exists|i: int, j: int|
            #![trigger object_fields(doc)[i], object_fields(doc)[j]]
            {
                &&& 0 <= i < j < object_fields(doc).len()
                &&& object_fields(doc)[i].0@ == key
                &&& object_fields(doc)[j].0@ == key
            },
{
    let w = choose|w: int| n + 1 <= w < s.len() && (#[trigger] s[w]).0@ == key;
    assert(s[n].0@ == s[w].0@);
    assert(object_fields(doc)[n].0@ == key && object_fields(doc)[w].0@ == key);
}

/// A known field whose value has the wrong shape for its name makes a
/// document ill-formed; `n` is the index of that field.
proof fn lemma_not_wf_by_bad_value(doc: JsonValue, s: Seq<(String, JsonValue)>, n: int)
    requires
        doc is Object,
        object_fields(doc) == s,
        0 <= n < s.len(),
        known_field(s[n].0@),
        !field_value_ok(s[n].0@, s[n].1),
    ensures
        !envelope_wf(doc),
        exists|i: int|
            #![trigger object_fields(doc)[i]]
            {
                &&& 0 <= i < object_fields(doc).len()
                &&& object_fields(doc)[i].0@ == s[n].0@
                &&& !field_value_ok(s[n].0@, object_fields(doc)[i].1)
            },
{
    assert(object_fields(doc)[n] == s[n]);
    if envelope_wf(doc) {
        assert forall|j: int| 0 <= j < n implies (#[trigger] s[j]).0@ != s[n].0@ by {}
        lemma_spec_get_first(s, s[n].0@, n);
        assert(field_value_ok(s[n].0@, s[n].1));
    }
}

/// An unrecognized field name makes a document ill-formed.
proof fn lemma_not_wf_by_unknown(doc: JsonValue, s: Seq<(String, JsonValue)>, n: int)
    requires
        doc is Object,
        object_fields(doc) == s,
        0 <= n < s.len(),
        !known_field(s[n].0@),
    ensures
        !envelope_wf(doc),
        exists|i: int|
            #![trigger object_fields(doc)[i]]
            {
                &&& 0 <= i < object_fields(doc).len()
                &&& object_fields(doc)[i].0@ == s[n].0@
            },
{
    assert(object_fields(doc)[n] == s[n]);
}

/// A required field that occurs nowhere makes a document ill-formed.
proof fn lemma_not_wf_by_missing(doc: JsonValue, s: Seq<(String, JsonValue)>, key: Seq<char>)
    requires
        doc is Object,
        object_fields(doc) == s,
        key == "jsonrpc"@ || key == "method"@ || key == "id"@,
        forall|i: int| 0 <= i < s.len() ==> (#[trigger] s[i]).0@ != key,
    ensures
        !envelope_wf(doc),
        spec_get(object_fields(doc), key) is None,
{
    lemma_spec_get_none(s, key);
}

/// At the end of a successful scan the document is well-formed and each
/// extracted field is the one its lookup finds.
proof fn lemma_wf_at_end(
    doc: JsonValue,
    s: Seq<(String, JsonValue)>,
    jsonrpc: String,
    method: String,
    id: u32,
    params_val: Option<Params>,
    params: Params,
)
    requires
        doc is Object,
        object_fields(doc) == s,
        forall|i: int| 0 <= i < s.len() ==> known_field((#[trigger] s[i]).0@),
        exists|w: int| #![trigger s[w]] found_at(s, 0, "jsonrpc"@, w) && s[w].1 == JsonValue::Str(
            jsonrpc,
        ),
        exists|w: int| #![trigger s[w]] found_at(s, 0, "method"@, w) && s[w].1 == JsonValue::Str(
            method,
        ),
        exists|w: int| #![trigger s[w]] found_at(s, 0, "id"@, w) && spec_as_u64(s[w].1) == Some(
            id as u64,
        ),
        match params_val {
            Some(p) => p == params && exists|w: int|
                #![trigger s[w]]
                found_at(s, 0, "params"@, w) && spec_parse_params(s[w].1) == Some(p),
            None => params == Params::Absent && key_absent_in_suffix(s, 0, "params"@),
        },
    ensures
        envelope_wf(doc),
        envelope_jsonrpc(doc) == jsonrpc,
        envelope_method(doc) == method,
        envelope_id(doc) == id as u64,
        Some(params) == spec_parse_opt_params(spec_lookup(doc, "params"@)),
{
    let wj = choose|w: int|
        #![trigger s[w]]
        found_at(s, 0, "jsonrpc"@, w) && s[w].1 == JsonValue::Str(jsonrpc);
    lemma_spec_get_first(s, "jsonrpc"@, wj);
    let wm = choose|w: int|
        #![trigger s[w]]
        found_at(s, 0, "method"@, w) && s[w].1 == JsonValue::Str(method);
    lemma_spec_get_first(s, "method"@, wm);
    let wi = choose|w: int|
        #![trigger s[w]]
        found_at(s, 0, "id"@, w) && spec_as_u64(s[w].1) == Some(id as u64);
    lemma_spec_get_first(s, "id"@, wi);
    match params_val {
        Some(p) => {
            let wp = choose|w: int|
                #![trigger s[w]]
                found_at(s, 0, "params"@, w) && spec_parse_params(s[w].1) == Some(p);
            lemma_spec_get_first(s, "params"@, wp);
        },
        None => {
            lemma_spec_get_none(s, "params"@);
        },
    }
    assert forall|i: int, j: int| 0 <= i < j < s.len() implies (#[trigger] s[i]).0@ != (
    #[trigger] s[j]).0@ by {
        if s[i].0@ == s[j].0@ {
            if s[i].0@ == "jsonrpc"@ {
                assert(i == wj && j == wj);
            } else if s[i].0@ == "method"@ {
                assert(i == wm && j == wm);
            } else if s[i].0@ == "id"@ {
                assert(i == wi && j == wi);
            } else {
                assert(s[i].0@ == "params"@);
                match params_val {
                    Some(p) => {
                        let wp = choose|w: int|
                            #![trigger s[w]]
                            found_at(s, 0, "params"@, w) && spec_parse_params(s[w].1) == Some(p);
                        assert(i == wp && j == wp);
                    },
                    None => {
                        assert(false);
                    },
                }
            }
        }
    }
}

/// A well-formed document without a "params" field parses to an envelope
/// whose parameters are absent.
pub proof fn lemma_missing_params_defaults_to_absent(doc: JsonValue)
    requires
        envelope_wf(doc),
        spec_lookup(doc, "params"@) is None,
    ensures
        spec_parse_opt_params(spec_lookup(doc, "params"@)) == Some(Params::Absent),
{
}

/// A document carrying a top-level field this layer does not know fails to
/// parse; `i` is the position of such a field.
pub proof fn lemma_unknown_field_rejected(doc: JsonValue, i: int)
    requires
        doc is Object,
        0 <= i < object_fields(doc).len(),
        !known_field(object_fields(doc)[i].0@),
    ensures
        !envelope_wf(doc),
{
}

} // verus!
