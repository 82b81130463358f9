//! Rejecting documents that hold a NUL code point.

use vstd::prelude::*;
use crate::error::JsonError;
use crate::json::{Json, JsonTree};
use crate::serde_specs::tree_of;

verus! {

/// Whether a text holds the NUL code point, U+0000.
pub open spec fn text_has_nul(text: Seq<char>) -> bool {
    text.contains('\0')
}

/// Whether some string of the tree, a value or the key of a member, at any
/// depth, holds the NUL code point.
pub open spec fn has_nul(tree: JsonTree) -> bool
    decreases tree,
{
    match tree {
        JsonTree::String(text) => text_has_nul(text),
        JsonTree::Array(items) => exists|i: int|
            0 <= i < items.len() && has_nul(#[trigger] items[i]),
        JsonTree::Object(entries) => exists|i: int|
            0 <= i < entries.len() && member_has_nul(#[trigger] entries[i]),
        _ => false,
    }
}

/// Whether the key of a member holds the NUL code point, or a string of
/// its value does.
pub open spec fn member_has_nul(member: (Seq<char>, JsonTree)) -> bool
    decreases member,
{
    text_has_nul(member.0) || has_nul(member.1)
}

/// Tells whether a text holds the NUL code point. The text is walked by
/// code points, so a NUL is found however it was written in the source.
pub fn contains_nul(text: &str) -> (r: bool)
    ensures
        r == text_has_nul(text@),
{
    for c in it: text.chars()
        invariant
            it.seq() == text@,
            forall|j: int| 0 <= j < it.index() ==> text@[j] != '\0',
    {
        if c == '\0' {
            return true;
        }
    }
    false
}

/// Walks the document depth first and fails with `NullPresent` at the
/// first string that holds a NUL code point; hands the document back
/// unchanged where there is none.
pub fn check_null(value: &Json) -> (r: Result<&Json, JsonError>)
    ensures
        has_nul(value@) ==> r matches Err(JsonError::NullPresent),
        !has_nul(value@) ==> r == Ok::<&Json, JsonError>(value),
    decreases value,
{
    match value {
        Json::String(text) => {
            if contains_nul(text.as_str()) {
                return Err(JsonError::NullPresent);
            }
        },
        Json::Array(items) => {
            let mut i: usize = 0;
            while i < items.len()
                invariant
                    i <= items@.len(),
                    value == Json::Array(*items),
                    forall|k: int| 0 <= k < i ==> !has_nul(#[trigger] value@->Array_0[k]),
                decreases items@.len() - i,
            {
                assert(value@->Array_0[i as int] == items@[i as int]@);
                match check_null(&items[i]) {
                    Ok(_) => {},
                    Err(e) => {
                        return Err(e);
                    },
                }
                i += 1;
            }
        },
        Json::Object(entries) => {
            let mut i: usize = 0;
            while i < entries.len()
                invariant
                    i <= entries@.len(),
                    value == Json::Object(*entries),
                    forall|k: int| 0 <= k < i ==> !member_has_nul(#[trigger] value@->Object_0[k]),
                decreases entries@.len() - i,
            {
                let ghost member = value@->Object_0[i as int];
                assert(member == (entries@[i as int].0@, entries@[i as int].1@));
                if contains_nul(entries[i].0.as_str()) {
                    assert(member_has_nul(member));
                    return Err(JsonError::NullPresent);
                }
                match check_null(&entries[i].1) {
                    Ok(_) => {},
                    Err(e) => {
                        assert(member_has_nul(member));
                        return Err(e);
                    },
                }
                i += 1;
            }
        },
        _ => {},
    }
    Ok(value)
}

/// Validates a document as the parser hands it out: fails with
/// `NullPresent` where a string of it holds a NUL code point, and hands
/// the document back unchanged where there is none.
pub fn check_document(document: &serde_json::Value) -> (r: Result<&serde_json::Value, JsonError>)
    ensures
        has_nul(tree_of(*document)) ==> r matches Err(JsonError::NullPresent),
        !has_nul(tree_of(*document)) ==> r == Ok::<&serde_json::Value, JsonError>(document),
{
    let tree = Json::from_document(document);
    match check_null(&tree) {
        Ok(_) => Ok(document),
        Err(e) => Err(e),
    }
}

} // verus!
