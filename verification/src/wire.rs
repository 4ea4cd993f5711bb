//! The boundary to the structured-text serializer.
//!
//! The protocol carries one JSON object per text frame.  Reading and
//! writing that object form is delegated to `serde_json`; everything the
//! rest of the crate needs to know about it is stated here, over two
//! named functions: `obj_text`, the text the serializer produces for a
//! string-to-string object, and `parsed_obj`, the fields the parser
//! recovers from a piece of text.

use vstd::prelude::*;

verus! {

/// The wire text that the serializer produces for a JSON object whose
/// fields are exactly the given string-to-string map.
pub uninterp spec fn obj_text(fields: Map<Seq<char>, Seq<char>>) -> Seq<char>;

/// What the parser recovers from a piece of wire text: `None` when the
/// text is not a JSON object, otherwise the object's fields, each
/// string-valued field carried as `Some` and every other field as `None`.
pub uninterp spec fn parsed_obj(text: Seq<char>) -> Option<Map<Seq<char>, Option<Seq<char>>>>;

/// The string-to-string map that a sequence of key/value pairs denotes,
/// a later pair overriding an earlier one with the same key.
pub open spec fn pairs_map(fields: Seq<(Seq<char>, Seq<char>)>) -> Map<Seq<char>, Seq<char>>
    decreases fields.len(),
{
    if fields.len() == 0 {
        Map::empty()
    } else {
        pairs_map(fields.drop_last()).insert(fields.last().0, fields.last().1)
    }
}

/// Relies on `serde_json`: serializing a `serde_json::Map` holding these
/// entries as string values yields the object text for them, and
/// `serde_json::from_str` recovers exactly these entries from that text.
#[verifier::external_body]
pub(crate) fn to_obj_text(fields: &Vec<(String, String)>) -> (r: String)
    ensures
        r@ == obj_text(pairs_map(fields.deep_view())),
        parsed_obj(r@) == Some(pairs_map(fields.deep_view()).map_values(|v: Seq<char>| Some(v))),
{
    let mut map = serde_json::Map::new();
    for (key, value) in fields.iter() {
        map.insert(key.clone(), serde_json::Value::String(value.clone()));
    }
    serde_json::Value::Object(map).to_string()
}

/// Relies on `serde_json::from_str`: deserializing to a
/// `serde_json::Map` succeeds exactly when the text is a JSON object,
/// and yields the object's fields, each key appearing once.
#[verifier::external_body]
pub(crate) fn from_obj_text(text: &str) -> (r: Option<Vec<(String, Option<String>)>>)
    ensures
        r is Some <==> parsed_obj(text@) is Some,
        r matches Some(v) ==> {
            let m = parsed_obj(text@)->0;
            &&& forall|i: int|
                0 <= i < v.deep_view().len() ==> m.contains_key((#[trigger] v.deep_view()[i]).0)
                    && m[v.deep_view()[i].0] == v.deep_view()[i].1
            &&& forall|k: Seq<char>|
                m.contains_key(k) ==> exists|i: int|
                    0 <= i < v.deep_view().len() && (#[trigger] v.deep_view()[i]).0 == k
            &&& forall|i: int, j: int|
                0 <= i < j < v.deep_view().len() ==> (#[trigger] v.deep_view()[i]).0 != (
                #[trigger] v.deep_view()[j]).0
        },
{
    match serde_json::from_str::<serde_json::Map<String, serde_json::Value>>(text) {
        Ok(m) => Some(
            m.into_iter()
                .map(|(key, value)| match value {
                    serde_json::Value::String(s) => (key, Some(s)),
                    _ => (key, None),
                })
                .collect(),
        ),
        Err(_) => None,
    }
}

/// Relies on `str`'s `PartialEq`: two slices are equal exactly when
/// their characters are.
#[verifier::external_body]
pub(crate) fn str_eq(a: &str, b: &str) -> (r: bool)
    ensures
        r == (a@ == b@),
{
    a == b
}

} // verus!
