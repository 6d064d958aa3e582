//! Decoding the feed's response body into players. serde_json parses
//! the text into a JSON document; everything after that parse — which
//! fields are required, which may be null or absent, and what their
//! values must be — is this crate's own verified logic, stated over a
//! mathematical model of the document.

use vstd::prelude::*;
use crate::players::Player;
use crate::schema::{RawPlayer, RawPlayerModel, SchemaError, players_from_raw, raw_codes_valid};

verus! {

/// A mathematical model of a JSON document. Numbers the feed's schema
/// never reads (floats, integers beyond `i64`) are collapsed into
/// `OtherNumber`.
pub enum JsonDoc {
    Null,
    Bool(bool),
    Int(i64),
    OtherNumber,
    Text(Seq<char>),
    Array(Seq<JsonDoc>),
    Object(Map<Seq<char>, JsonDoc>),
}

/// The document that well-formed JSON text denotes, `None` on text that
/// does not parse. Names what `serde_json::from_str` returns, which
/// depends on the text alone.
pub uninterp spec fn spec_json_doc(s: Seq<char>) -> Option<JsonDoc>;

/// The document a `serde_json::Value` holds. Names the contents of the
/// opaque value; the wrapper contracts below all speak over it.
pub uninterp spec fn value_model(v: serde_json::Value) -> JsonDoc;

/// The documents a vector of values holds, element by element.
pub open spec fn seq_models(vs: Seq<serde_json::Value>) -> Seq<JsonDoc> {
    vs.map_values(|e: serde_json::Value| value_model(e))
}

#[verifier::external_type_specification]
#[verifier::external_body]
pub struct ExJsonValue(serde_json::Value);

#[verifier::external_type_specification]
#[verifier::external_body]
pub struct ExJsonError(serde_json::Error);

/// Relies on serde_json::from_str: parses one JSON document from text.
/// The parse depends on the text alone; it succeeds exactly on
/// well-formed text and yields the document the text denotes.
#[verifier::external_body]
fn parse_json_text(s: &str) -> (r: Result<serde_json::Value, serde_json::Error>)
    ensures
        r is Ok <==> spec_json_doc(s@) is Some,
        r matches Ok(v) ==> spec_json_doc(s@) == Some(value_model(v)),
{
    serde_json::from_str(s)
}

/// Relies on serde_json::Value::as_array: the element vector exactly
/// when the value is a JSON array, holding the array's documents.
#[verifier::external_body]
fn value_as_array<'a>(v: &'a serde_json::Value) -> (r: Option<&'a Vec<serde_json::Value>>)
    ensures
        r is Some <==> value_model(*v) is Array,
        r matches Some(a) ==> value_model(*v) == JsonDoc::Array(seq_models(a@)),
{
    v.as_array()
}

/// Relies on serde_json::Value::get with a string index: the value
/// under the key exactly when `v` is an object holding that key.
#[verifier::external_body]
fn value_get<'a>(v: &'a serde_json::Value, key: &str) -> (r: Option<&'a serde_json::Value>)
    ensures
        (match value_model(*v) {
            JsonDoc::Object(m) => {
                &&& (r is Some <==> m.contains_key(key@))
                &&& (r matches Some(f) ==> m.contains_key(key@) && value_model(*f) == m[key@])
            },
            _ => r is None,
        }),
{
    v.get(key)
}

/// Relies on serde_json::Value::as_i64: the number exactly when the
/// value is an integer that fits in an `i64`.
#[verifier::external_body]
fn value_as_i64(v: &serde_json::Value) -> (r: Option<i64>)
    ensures
        r == (match value_model(*v) {
            JsonDoc::Int(n) => Some(n),
            _ => None::<i64>,
        }),
{
    v.as_i64()
}

/// Relies on serde_json::Value::as_str: the text exactly when the value
/// is a JSON string.
#[verifier::external_body]
fn value_as_string(v: &serde_json::Value) -> (r: Option<String>)
    ensures
        r is Some <==> value_model(*v) is Text,
        r matches Some(s) ==> value_model(*v) == JsonDoc::Text(s@),
{
    match v.as_str() {
        Some(s) => Some(s.to_owned()),
        None => None,
    }
}

/// Relies on serde_json::Value::is_null.
#[verifier::external_body]
fn value_is_null(v: &serde_json::Value) -> (r: bool)
    ensures
        r == (value_model(*v) is Null),
{
    v.is_null()
}

/// What a required integer field yields: the number, or why it is rejected.
pub open spec fn spec_req_i64(m: Map<Seq<char>, JsonDoc>, key: Seq<char>) -> Result<
    i64,
    SchemaError,
> {
    if !m.contains_key(key) {
        Err(SchemaError::MissingField)
    } else {
        match m[key] {
            JsonDoc::Int(n) => Ok(n),
            _ => Err(SchemaError::WrongType),
        }
    }
}

/// What a required string field yields.
pub open spec fn spec_req_text(m: Map<Seq<char>, JsonDoc>, key: Seq<char>) -> Result<
    Seq<char>,
    SchemaError,
> {
    if !m.contains_key(key) {
        Err(SchemaError::MissingField)
    } else {
        match m[key] {
            JsonDoc::Text(t) => Ok(t),
            _ => Err(SchemaError::WrongType),
        }
    }
}

/// What an optional integer field yields: absent or null means no value.
pub open spec fn spec_opt_i64(m: Map<Seq<char>, JsonDoc>, key: Seq<char>) -> Result<
    Option<i64>,
    SchemaError,
> {
    if !m.contains_key(key) {
        Ok(None)
    } else {
        match m[key] {
            JsonDoc::Null => Ok(None),
            JsonDoc::Int(n) => Ok(Some(n)),
            _ => Err(SchemaError::WrongType),
        }
    }
}

/// What an optional string field yields: absent or null means no value.
pub open spec fn spec_opt_text(m: Map<Seq<char>, JsonDoc>, key: Seq<char>) -> Result<
    Option<Seq<char>>,
    SchemaError,
> {
    if !m.contains_key(key) {
        Ok(None)
    } else {
        match m[key] {
            JsonDoc::Null => Ok(None),
            JsonDoc::Text(t) => Ok(Some(t)),
            _ => Err(SchemaError::WrongType),
        }
    }
}

/// One required integer field of a player object.
fn req_i64(v: &serde_json::Value, key: &str) -> (r: Result<i64, SchemaError>)
    ensures
        (match value_model(*v) {
            JsonDoc::Object(m) => r == spec_req_i64(m, key@),
            _ => r == Err::<i64, SchemaError>(SchemaError::MissingField),
        }),
{
    match value_get(v, key) {
        Some(f) => match value_as_i64(f) {
            Some(n) => Ok(n),
            None => Err(SchemaError::WrongType),
        },
        None => Err(SchemaError::MissingField),
    }
}

/// One required string field of a player object.
fn req_string(v: &serde_json::Value, key: &str) -> (r: Result<String, SchemaError>)
    ensures
        (match value_model(*v) {
            JsonDoc::Object(m) => {
                &&& (r is Ok <==> spec_req_text(m, key@) is Ok)
                &&& (r matches Ok(s) ==> spec_req_text(m, key@) == Ok::<Seq<char>, SchemaError>(
                    s@,
                ))
                &&& (r matches Err(e) ==> spec_req_text(m, key@) == Err::<Seq<char>, SchemaError>(
                    e,
                ))
            },
            _ => r == Err::<String, SchemaError>(SchemaError::MissingField),
        }),
{
    match value_get(v, key) {
        Some(f) => match value_as_string(f) {
            Some(s) => Ok(s),
            None => Err(SchemaError::WrongType),
        },
        None => Err(SchemaError::MissingField),
    }
}

/// One optional integer field: an absent key or a null value is `None`.
fn opt_i64(v: &serde_json::Value, key: &str) -> (r: Result<Option<i64>, SchemaError>)
    ensures
        (match value_model(*v) {
            JsonDoc::Object(m) => r == spec_opt_i64(m, key@),
            _ => r == Ok::<Option<i64>, SchemaError>(None),
        }),
{
    match value_get(v, key) {
        Some(f) => if value_is_null(f) {
            Ok(None)
        } else {
            match value_as_i64(f) {
                Some(n) => Ok(Some(n)),
                None => Err(SchemaError::WrongType),
            }
        },
        None => Ok(None),
    }
}

/// One optional string field: an absent key or a null value is `None`.
fn opt_string(v: &serde_json::Value, key: &str) -> (r: Result<Option<String>, SchemaError>)
    ensures
        (match value_model(*v) {
            JsonDoc::Object(m) => {
                &&& (r is Ok <==> spec_opt_text(m, key@) is Ok)
                &&& (r matches Ok(o) ==> spec_opt_text(m, key@) == Ok::<
                    Option<Seq<char>>,
                    SchemaError,
                >(
                    match o {
                        Some(s) => Some(s@),
                        None => None,
                    },
                ))
                &&& (r matches Err(e) ==> spec_opt_text(m, key@) == Err::<
                    Option<Seq<char>>,
                    SchemaError,
                >(e))
            },
            _ => r is Ok && (r matches Ok(o) ==> o is None),
        }),
{
    match value_get(v, key) {
        Some(f) => if value_is_null(f) {
            Ok(None)
        } else {
            match value_as_string(f) {
                Some(s) => Ok(Some(s)),
                None => Err(SchemaError::WrongType),
            }
        },
        None => Ok(None),
    }
}

/// The object carries every schema field: the required ones present
/// with the right kind of value, the optional ones absent, null, or of
/// the right kind. Keys outside the schema are not constrained.
pub open spec fn obj_has_schema_fields(m: Map<Seq<char>, JsonDoc>) -> bool {
    &&& spec_req_i64(m, "PlayerID"@) is Ok
    &&& spec_req_text(m, "FirstName"@) is Ok
    &&& spec_req_text(m, "LastName"@) is Ok
    &&& spec_req_text(m, "Status"@) is Ok
    &&& spec_req_text(m, "Team"@) is Ok
    &&& spec_req_text(m, "Position"@) is Ok
    &&& spec_opt_i64(m, "Jersey"@) is Ok
    &&& spec_opt_text(m, "Catches"@) is Ok
    &&& spec_opt_text(m, "Shoots"@) is Ok
    &&& spec_req_i64(m, "Height"@) is Ok
    &&& spec_req_i64(m, "Weight"@) is Ok
    &&& spec_req_text(m, "BirthDate"@) is Ok
    &&& spec_req_text(m, "BirthCity"@) is Ok
    &&& spec_req_text(m, "InjuryStatus"@) is Ok
}

/// The raw record a schema-conforming object denotes.
pub open spec fn spec_raw_of_obj(m: Map<Seq<char>, JsonDoc>) -> RawPlayerModel {
    RawPlayerModel {
        player_id: spec_req_i64(m, "PlayerID"@)->Ok_0,
        first_name: spec_req_text(m, "FirstName"@)->Ok_0,
        last_name: spec_req_text(m, "LastName"@)->Ok_0,
        status: spec_req_text(m, "Status"@)->Ok_0,
        team: spec_req_text(m, "Team"@)->Ok_0,
        position: spec_req_text(m, "Position"@)->Ok_0,
        jersey: spec_opt_i64(m, "Jersey"@)->Ok_0,
        catches: spec_opt_text(m, "Catches"@)->Ok_0,
        shoots: spec_opt_text(m, "Shoots"@)->Ok_0,
        height: spec_req_i64(m, "Height"@)->Ok_0,
        weight: spec_req_i64(m, "Weight"@)->Ok_0,
        birth_date: spec_req_text(m, "BirthDate"@)->Ok_0,
        birth_city: spec_req_text(m, "BirthCity"@)->Ok_0,
        injury_status: spec_req_text(m, "InjuryStatus"@)->Ok_0,
    }
}

/// Pull the schema's fields out of one player object. Keys outside the
/// schema are ignored; a missing or mistyped required field, or a
/// mistyped optional one, rejects the object.
fn raw_from_value(v: &serde_json::Value) -> (r: Result<RawPlayer, SchemaError>)
    ensures
        (match value_model(*v) {
            JsonDoc::Object(m) => {
                &&& (r is Ok <==> obj_has_schema_fields(m))
                &&& (r matches Ok(raw) ==> raw@ == spec_raw_of_obj(m))
            },
            _ => r == Err::<RawPlayer, SchemaError>(SchemaError::MissingField),
        }),
        r matches Err(e) ==> e == SchemaError::MissingField || e == SchemaError::WrongType,
{
    let player_id = match req_i64(v, "PlayerID") {
        Ok(n) => n,
        Err(e) => {
            return Err(e);
        },
    };
    let first_name = match req_string(v, "FirstName") {
        Ok(s) => s,
        Err(e) => {
            return Err(e);
        },
    };
    let last_name = match req_string(v, "LastName") {
        Ok(s) => s,
        Err(e) => {
            return Err(e);
        },
    };
    let status = match req_string(v, "Status") {
        Ok(s) => s,
        Err(e) => {
            return Err(e);
        },
    };
    let team = match req_string(v, "Team") {
        Ok(s) => s,
        Err(e) => {
            return Err(e);
        },
    };
    let position = match req_string(v, "Position") {
        Ok(s) => s,
        Err(e) => {
            return Err(e);
        },
    };
    let jersey = match opt_i64(v, "Jersey") {
        Ok(j) => j,
        Err(e) => {
            return Err(e);
        },
    };
    let catches = match opt_string(v, "Catches") {
        Ok(c) => c,
        Err(e) => {
            return Err(e);
        },
    };
    let shoots = match opt_string(v, "Shoots") {
        Ok(s) => s,
        Err(e) => {
            return Err(e);
        },
    };
    let height = match req_i64(v, "Height") {
        Ok(n) => n,
        Err(e) => {
            return Err(e);
        },
    };
    let weight = match req_i64(v, "Weight") {
        Ok(n) => n,
        Err(e) => {
            return Err(e);
        },
    };
    let birth_date = match req_string(v, "BirthDate") {
        Ok(s) => s,
        Err(e) => {
            return Err(e);
        },
    };
    let birth_city = match req_string(v, "BirthCity") {
        Ok(s) => s,
        Err(e) => {
            return Err(e);
        },
    };
    let injury_status = match req_string(v, "InjuryStatus") {
        Ok(s) => s,
        Err(e) => {
            return Err(e);
        },
    };
    let raw = RawPlayer {
        player_id,
        first_name,
        last_name,
        status,
        team,
        position,
        jersey,
        catches,
        shoots,
        height,
        weight,
        birth_date,
        birth_city,
        injury_status,
    };
    proof {
        match value_model(*v) {
            JsonDoc::Object(m) => {
                assert(raw@ =~= spec_raw_of_obj(m));
            },
            _ => {},
        }
    }
    Ok(raw)
}

/// Every element of the array is an object carrying the schema's fields.
pub open spec fn elems_have_schema(elems: Seq<JsonDoc>) -> bool {
    forall|i: int|
        0 <= i < elems.len() ==> (#[trigger] elems[i]) is Object && obj_has_schema_fields(
            elems[i]->Object_0,
        )
}

/// The raw record one array element denotes.
pub open spec fn elem_raw(d: JsonDoc) -> RawPlayerModel {
    spec_raw_of_obj(d->Object_0)
}

/// Every element's code strings belong to their closed sets.
pub open spec fn elems_codes_valid(elems: Seq<JsonDoc>) -> bool {
    forall|i: int| 0 <= i < elems.len() ==> raw_codes_valid(elem_raw(#[trigger] elems[i]))
}

/// Decode a whole response body. The text must denote a JSON array of
/// player objects, each carrying the schema's fields with valid codes;
/// the players carry the objects' values one for one, in order. The
/// first offence rejects the document: `Syntax` on malformed text,
/// `NotAnArray` on any other document shape, and the field errors
/// otherwise.
pub fn players_from_json(text: &str) -> (r: Result<Vec<Player>, SchemaError>)
    ensures
        (r matches Err(e) && e == SchemaError::Syntax) <==> spec_json_doc(text@) is None,
        (spec_json_doc(text@) matches Some(doc) ==> ((r matches Err(e) && e
            == SchemaError::NotAnArray) <==> !(doc is Array))),
        (spec_json_doc(text@) matches Some(doc) ==> (doc matches JsonDoc::Array(elems) ==> {
            &&& (r is Ok <==> elems_have_schema(elems) && elems_codes_valid(elems))
            &&& (r matches Ok(ps) ==> {
                &&& ps@.len() == elems.len()
                &&& (forall|i: int|
                    0 <= i < elems.len() ==> crate::schema::player_matches_raw(
                        #[trigger] ps@[i],
                        elem_raw(elems[i]),
                    ))
            })
        })),
{
    let doc = match parse_json_text(text) {
        Ok(v) => v,
        Err(_) => {
            return Err(SchemaError::Syntax);
        },
    };
    let arr = match value_as_array(&doc) {
        Some(a) => a,
        None => {
            return Err(SchemaError::NotAnArray);
        },
    };
    let mut raws: Vec<RawPlayer> = Vec::new();
    let mut k: usize = 0;
    while k < arr.len()
        invariant
            k <= arr@.len(),
            raws@.len() == k,
            spec_json_doc(text@) == Some(JsonDoc::Array(seq_models(arr@))),
            forall|i: int|
                0 <= i < k ==> (#[trigger] seq_models(arr@)[i]) is Object && obj_has_schema_fields(
                    seq_models(arr@)[i]->Object_0,
                ),
            forall|i: int| 0 <= i < k ==> #[trigger] raws@[i]@ == elem_raw(seq_models(arr@)[i]),
        decreases arr@.len() - k,
    {
        proof {
            assert(seq_models(arr@)[k as int] == value_model(arr@[k as int]));
        }
        match raw_from_value(&arr[k]) {
            Ok(raw) => raws.push(raw),
            Err(e) => {
                proof {
                    assert(!(elems_have_schema(seq_models(arr@)))) by {
                        if elems_have_schema(seq_models(arr@)) {
                            assert(seq_models(arr@)[k as int] is Object && obj_has_schema_fields(
                                seq_models(arr@)[k as int]->Object_0,
                            ));
                        }
                    }
                }
                return Err(e);
            },
        }
        k = k + 1;
    }
    let r = players_from_raw(&raws);
    proof {
        let elems = seq_models(arr@);
        assert(elems.len() == arr@.len());
        if r is Ok {
            assert forall|i: int| 0 <= i < elems.len() implies raw_codes_valid(
                elem_raw(#[trigger] elems[i]),
            ) by {
                assert(raws@[i]@ == elem_raw(elems[i]));
                assert(raw_codes_valid(raws@[i]@));
            }
        } else {
            assert(!(forall|i: int| 0 <= i < raws@.len() ==> raw_codes_valid(raws@[i]@)));
            let j = choose|i: int| 0 <= i < raws@.len() && !raw_codes_valid(raws@[i]@);
            assert(!raw_codes_valid(elem_raw(elems[j])));
            assert(!elems_codes_valid(elems));
        }
    }
    r
}

} // verus!
