//! What the library relies on from serde_json, and names for the results
//! that serde_json computes from a document.

use vstd::prelude::*;

verus! {

#[verifier::external_type_specification]
#[verifier::external_body]
pub struct ExJsonValue(serde_json::Value);

#[verifier::external_type_specification]
#[verifier::external_body]
pub struct ExJsonError(serde_json::Error);

/// The value that serde_json decodes from a text, or `None` where the text
/// is not a well-formed JSON document.
pub uninterp spec fn json_document(s: Seq<char>) -> Option<serde_json::Value>;

/// The text of a JSON string value, `None` for any other kind of value.
pub uninterp spec fn json_text(v: serde_json::Value) -> Option<Seq<char>>;

/// The elements of a JSON array, `None` for any other kind of value.
pub uninterp spec fn json_items(v: serde_json::Value) -> Option<Seq<serde_json::Value>>;

/// The entries of a JSON object in the order its map walks them, `None`
/// for any other kind of value.
pub uninterp spec fn json_fields(v: serde_json::Value) -> Option<Seq<(Seq<char>, serde_json::Value)>>;

/// The keys of a list of entries are pairwise distinct.
pub open spec fn distinct_keys<V>(fs: Seq<(Seq<char>, V)>) -> bool {
    forall|i: int, j: int| 0 <= i < fs.len() && 0 <= j < fs.len() && i != j ==> fs[i].0 != fs[j].0
}

pub open spec fn entries_view(f: Seq<(String, serde_json::Value)>) -> Seq<(Seq<char>, serde_json::Value)> {
    f.map_values(|e: (String, serde_json::Value)| (e.0@, e.1))
}

/// Relies on serde_json::from_str: decodes a document, or fails where the
/// text is not well-formed JSON.
#[verifier::external_body]
pub(crate) fn decode_document(s: &str) -> (r: Result<serde_json::Value, serde_json::Error>)
    ensures
        match r {
            Ok(v) => json_document(s@) == Some(v),
            Err(_) => json_document(s@) is None,
        },
{
    serde_json::from_str(s)
}

/// Relies on serde_json::Value::as_str: the text of a string value.
pub assume_specification<'a>[ serde_json::Value::as_str ](v: &'a serde_json::Value) -> (r: Option<&'a str>)
    ensures
        match r {
            Some(t) => json_text(*v) == Some(t@),
            None => json_text(*v) is None,
        },
;

/// Relies on serde_json::Value::as_array: the elements of an array value.
pub assume_specification<'a>[ serde_json::Value::as_array ](v: &'a serde_json::Value) -> (r: Option<&'a Vec<serde_json::Value>>)
    ensures
        match r {
            Some(a) => json_items(*v) == Some(a@),
            None => json_items(*v) is None,
        },
;

/// Relies on serde_json::Value::as_object and serde_json::Map::iter: the
/// entries of an object value. The map holds each key once.
#[verifier::external_body]
pub(crate) fn object_entries(v: &serde_json::Value) -> (r: Option<Vec<(String, serde_json::Value)>>)
    ensures
        match r {
            Some(f) => json_fields(*v) == Some(entries_view(f@)) && distinct_keys(entries_view(f@)),
            None => json_fields(*v) is None,
        },
{
    v.as_object().map(|m| m.iter().map(|(k, x)| (k.clone(), x.clone())).collect())
}

} // verus!
