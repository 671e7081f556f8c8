//! The bridge from input text to rows of named fields.
//!
//! Input data arrives as JSON whose top level must be an array of objects.
//! The one outside call of the library parses such text into rows: one row
//! per object, the object's fields sorted by key, each value classified as
//! a string, a list of non-negative integers, or anything else. Everything
//! after that call — shape validation and record construction — is the
//! library's own verified logic.

use vstd::prelude::*;

verus! {

/// One field value as the loader sees it: a string, a list of
/// non-negative integers, or some other JSON value.
pub enum FieldValue {
    Str(String),
    Ints(Vec<u64>),
    Other,
}

/// The mathematical shape of one field value.
pub enum JsonField {
    Str(Seq<char>),
    Ints(Seq<u64>),
    Other,
}

impl FieldValue {
    /// The mathematical shape of this value.
    pub open spec fn model(self) -> JsonField {
        match self {
            FieldValue::Str(t) => JsonField::Str(t@),
            FieldValue::Ints(xs) => JsonField::Ints(xs@),
            FieldValue::Other => JsonField::Other,
        }
    }
}

/// The mathematical shape of one row: its fields in key order.
pub open spec fn row_model(r: Seq<(String, FieldValue)>) -> Seq<(Seq<char>, JsonField)> {
    r.map_values(|p: (String, FieldValue)| (p.0@, p.1.model()))
}

/// The mathematical shape of a parsed row set.
pub open spec fn rows_model(rs: Seq<Vec<(String, FieldValue)>>) -> Seq<
    Seq<(Seq<char>, JsonField)>,
> {
    rs.map_values(|r: Vec<(String, FieldValue)>| row_model(r@))
}

/// What parsing a text as a JSON array of objects yields: `Some` rows
/// exactly on well-formed text of that top-level shape, `None` otherwise.
/// The result depends on the text alone.
pub uninterp spec fn json_rows(s: Seq<char>) -> Option<Seq<Seq<(Seq<char>, JsonField)>>>;

/// Relies on serde_json::from_str, deserializing into a vector of ordered
/// string-keyed maps: it returns `Ok` exactly on JSON text whose top level
/// is an array of objects. Each row carries one object's fields sorted by
/// key; a string value becomes `Str`, an array of numbers that all fit in
/// u64 (serde_json::Value::as_u64) becomes `Ints`, and any other value
/// becomes `Other`.
#[verifier::external_body]
pub(crate) fn parse_rows(s: &str) -> (r: Option<Vec<Vec<(String, FieldValue)>>>)
    ensures
        match r {
            Some(rows) => json_rows(s@) == Some(rows_model(rows@)),
            None => json_rows(s@) is None,
        },
{
    let rows: Vec<std::collections::BTreeMap<String, serde_json::Value>> =
        match serde_json::from_str(s) {
            Ok(v) => v,
            Err(_) => return None,
        };
    Some(rows.into_iter().map(|m| m.into_iter().map(|(k, v)| (k, match v {
        serde_json::Value::String(t) => FieldValue::Str(t),
        serde_json::Value::Array(a) => match a.iter().map(|e| e.as_u64()).collect() {
            Some(xs) => FieldValue::Ints(xs),
            None => FieldValue::Other,
        },
        _ => FieldValue::Other,
    })).collect()).collect())
}

} // verus!
