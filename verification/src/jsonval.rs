//! Trusted access to `serde_json` for reading the cache file, the proxy
//! settings file and the usage endpoint's response body.
//!
//! A parsed document is carried as an opaque `serde_json::Value`. Its
//! mathematical shape is the `JsonModel` datatype below, tied to the opaque
//! value by the names `json_model_of` and `json_model_of_text`; every access
//! wrapper states its result against that model, so the schema logic in the
//! callers — which fields are read, what shape they must have, what happens
//! when one is missing — carries exact, verified contracts.
use crate::numtext::spec_parse_centi;
use vstd::prelude::*;

verus! {

/// The mathematical shape of a JSON document: a number is carried as the
/// decimal text its `Display` form writes, an object as a map from member
/// names to members.
pub enum JsonModel {
    Null,
    Bool(bool),
    Num(Seq<char>),
    Text(Seq<char>),
    Arr(Seq<JsonModel>),
    Obj(Map<Seq<char>, JsonModel>),
}

/// The model of an opaque `serde_json::Value`: what its accessors below
/// report of it.
pub uninterp spec fn json_model_of(v: serde_json::Value) -> JsonModel;

/// The model of a JSON text: what `serde_json::from_str::<Value>` yields for
/// it, `None` where that parse fails (ill-formed text, or nesting past the
/// parser's recursion limit). A function of the text alone.
pub uninterp spec fn json_model_of_text(s: Seq<char>) -> Option<JsonModel>;

#[verifier::external_type_specification]
#[verifier::external_body]
pub struct ExValue(serde_json::Value);

/// Relies on `serde_json::from_str::<Value>`: yields the value whose model
/// is the text's model, exactly when the text has one.
#[verifier::external_body]
pub fn json_parse(s: &str) -> (r: Option<serde_json::Value>)
    ensures
        match r {
            Some(v) => json_model_of_text(s@) == Some(json_model_of(v)),
            None => json_model_of_text(s@) is None,
        },
{
    serde_json::from_str(s).ok()
}

/// Relies on `serde_json::Value::get` with a string index: the member of an
/// object under that key; `None` on a missing key or any non-object shape.
#[verifier::external_body]
pub fn json_get<'a>(v: &'a serde_json::Value, key: &str) -> (r: Option<&'a serde_json::Value>)
    ensures
        json_model_of(*v) matches JsonModel::Obj(o) ==> (match r {
            Some(f) => o.contains_key(key@) && json_model_of(*f) == o[key@],
            None => !o.contains_key(key@),
        }),
        !(json_model_of(*v) is Obj) ==> r is None,
{
    v.get(key)
}

/// Relies on `serde_json::Value::as_str`: the text of a JSON string, `None`
/// on any other shape.
#[verifier::external_body]
pub fn json_as_str(v: &serde_json::Value) -> (r: Option<String>)
    ensures
        match r {
            Some(s) => json_model_of(*v) == JsonModel::Text(s@),
            None => !(json_model_of(*v) is Text),
        },
{
    v.as_str().map(|s| s.to_owned())
}

/// Relies on `serde_json::Value::is_null`.
#[verifier::external_body]
pub fn json_is_null(v: &serde_json::Value) -> (r: bool)
    ensures
        r == (json_model_of(*v) is Null),
{
    v.is_null()
}

/// Relies on `serde_json::Value::as_number` and the `Display` form of
/// `serde_json::Number`: the decimal text of a JSON number, `None` on any
/// other shape.
#[verifier::external_body]
pub fn json_number_text(v: &serde_json::Value) -> (r: Option<String>)
    ensures
        match r {
            Some(t) => json_model_of(*v) == JsonModel::Num(t@),
            None => !(json_model_of(*v) is Num),
        },
{
    v.as_number().map(|n| n.to_string())
}

// --- how this library reads fields of an object model ---
/// A required string member: its text, or `None` when absent or of another
/// shape.
pub open spec fn text_entry(o: Map<Seq<char>, JsonModel>, key: Seq<char>) -> Option<Seq<char>> {
    if o.contains_key(key) {
        match o[key] {
            JsonModel::Text(s) => Some(s),
            _ => None,
        }
    } else {
        None
    }
}

/// An optional string member: absent or null reads as `Some(None)`, a string
/// as `Some(Some(..))`, any other shape poisons the read.
pub open spec fn opt_text_entry(o: Map<Seq<char>, JsonModel>, key: Seq<char>) -> Option<
    Option<Seq<char>>,
> {
    if o.contains_key(key) {
        match o[key] {
            JsonModel::Null => Some(None),
            JsonModel::Text(s) => Some(Some(s)),
            _ => None,
        }
    } else {
        Some(None)
    }
}

/// A required utilization member: the centi-percent value of a number whose
/// text the utilization grammar accepts, `None` otherwise.
pub open spec fn centi_entry(o: Map<Seq<char>, JsonModel>, key: Seq<char>) -> Option<int> {
    if o.contains_key(key) {
        match o[key] {
            JsonModel::Num(t) => spec_parse_centi(t),
            _ => None,
        }
    } else {
        None
    }
}

/// Reads an optional string field, matching `opt_text_entry` on an object;
/// any non-object yields the absent reading, as `Value::get` does.
pub(crate) fn read_opt_string_field(v: &serde_json::Value, key: &str) -> (r: Result<
    Option<String>,
    (),
>)
    ensures
        json_model_of(*v) matches JsonModel::Obj(o) ==> (match r {
            Ok(f) => opt_text_entry(o, key@) == Some(crate::cache::opt_view(f)),
            Err(_) => opt_text_entry(o, key@) is None,
        }),
        !(json_model_of(*v) is Obj) ==> r == Ok::<Option<String>, ()>(None),
{
    match json_get(v, key) {
        None => Ok(None),
        Some(f) => {
            if json_is_null(f) {
                Ok(None)
            } else {
                match json_as_str(f) {
                    Some(s) => Ok(Some(s)),
                    None => Err(()),
                }
            }
        },
    }
}

/// Reads a required utilization field, matching `centi_entry` on an object.
pub(crate) fn read_centi_field(v: &serde_json::Value, key: &str) -> (r: Option<u64>)
    ensures
        json_model_of(*v) matches JsonModel::Obj(o) ==> (match r {
            Some(c) => centi_entry(o, key@) == Some(c as int),
            None => centi_entry(o, key@) is None,
        }),
        !(json_model_of(*v) is Obj) ==> r is None,
{
    match json_get(v, key) {
        None => None,
        Some(f) => {
            match json_number_text(f) {
                None => None,
                Some(t) => crate::numtext::parse_decimal_centi(t.as_str()),
            }
        },
    }
}

} // verus!
