//! What this library assumes of `serde_json`.
//!
//! Nothing in this file is proved. Each item names the function of
//! `serde_json` that it stands for and says what is assumed of it.

use vstd::prelude::*;
use crate::json::JsonTree;

verus! {

/// `serde_json::Error`, carried as the cause of a failed parse or decode.
#[verifier::external_type_specification]
#[verifier::external_body]
pub struct ExParseCause(serde_json::Error);

/// `serde_json::Value`, a parsed document as the parser hands it out.
#[verifier::external_type_specification]
#[verifier::external_body]
pub struct ExDocument(serde_json::Value);

/// `serde_json::Number`, carried through unread.
#[verifier::external_type_specification]
#[verifier::external_body]
pub struct ExNumber(serde_json::Number);

/// The tree that a `serde_json::Value` holds: its variant, and below an
/// array or an object its children, in the order in which the value hands
/// them out.
pub uninterp spec fn tree_of(document: serde_json::Value) -> JsonTree;

/// `Value::is_null`: true for the variant `Null` and for no other.
pub assume_specification[ serde_json::Value::is_null ](document: &serde_json::Value) -> (r: bool)
    ensures
        r == (tree_of(*document) is Null),
;

/// `Value::as_bool`: the boolean of the variant `Bool`, `None` for the
/// other variants.
pub assume_specification[ serde_json::Value::as_bool ](document: &serde_json::Value) -> (r:
    Option<bool>)
    ensures
        r == (match tree_of(*document) {
            JsonTree::Bool(b) => Some(b),
            _ => None,
        }),
;

/// `Value::as_number`: the number of the variant `Number`, `None` for the
/// other variants.
pub assume_specification[ serde_json::Value::as_number ](document: &serde_json::Value) -> (r:
    Option<&serde_json::Number>)
    ensures
        match tree_of(*document) {
            JsonTree::Number(n) => r == Some(&n),
            _ => r is None,
        },
;

/// `Value::as_str`: the text of the variant `String`, `None` for the other
/// variants.
pub assume_specification[ serde_json::Value::as_str ](document: &serde_json::Value) -> (r:
    Option<&str>)
    ensures
        match tree_of(*document) {
            JsonTree::String(text) => r matches Some(s) && s@ == text,
            _ => r is None,
        },
;

/// `Value::as_array`: the elements of the variant `Array`, in order,
/// `None` for the other variants.
pub assume_specification[ serde_json::Value::as_array ](document: &serde_json::Value) -> (r:
    Option<&Vec<serde_json::Value>>)
    ensures
        match tree_of(*document) {
            JsonTree::Array(items) => r matches Some(elements) && elements@.len() == items.len()
                && forall|i: int|
                0 <= i < items.len() ==> tree_of(#[trigger] elements@[i]) == items[i],
            _ => r is None,
        },
;

/// `<Number as Clone>::clone`: an equal number.
pub assume_specification[ <serde_json::Number as Clone>::clone ](
    number: &serde_json::Number,
) -> (r: serde_json::Number)
    ensures
        r == *number,
;

/// `Value::as_object` followed by `Map::iter`: the members of the variant
/// `Object`, key and value, in the order in which the map hands them out;
/// `None` for the other variants.
#[verifier::external_body]
pub(crate) fn members<'a>(document: &'a serde_json::Value) -> (r: Option<
    Vec<(&'a String, &'a serde_json::Value)>,
>)
    ensures
        match tree_of(*document) {
            JsonTree::Object(entries) => r matches Some(pairs) && pairs@.len() == entries.len()
                && forall|i: int|
                0 <= i < entries.len() ==> (#[trigger] pairs@[i]).0@ == entries[i].0 && tree_of(
                    *pairs@[i].1,
                ) == entries[i].1,
            _ => r is None,
        },
{
    match document.as_object() {
        Some(map) => Some(map.iter().collect()),
        None => None,
    }
}

/// What `serde_json::from_reader` makes of a body: the tree of the
/// document that it reads, or `None` where it reports an error.
pub uninterp spec fn parsed(body: Seq<u8>) -> Option<JsonTree>;

/// `serde_json::from_reader` on a byte slice, for a `serde_json::Value`.
/// The outcome depends on the bytes alone: it is the one that `parsed`
/// names.
#[verifier::external_body]
pub(crate) fn parse(body: &[u8]) -> (r: Result<serde_json::Value, serde_json::Error>)
    ensures
        match r {
            Ok(document) => parsed(body@) == Some(tree_of(document)),
            Err(_) => parsed(body@) is None,
        },
{
    serde_json::from_reader(body)
}

/// `serde_json::from_value`. The target type decides the outcome, so
/// nothing is assumed of it.
#[verifier::external_body]
pub(crate) fn decode<O: serde::de::DeserializeOwned>(document: serde_json::Value) -> Result<
    O,
    serde_json::Error,
> {
    serde_json::from_value(document)
}

} // verus!
