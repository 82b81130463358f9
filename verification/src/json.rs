//! A JSON document as a tree of plain values.

use vstd::prelude::*;
use crate::serde_specs::{members, tree_of};

verus! {

/// A JSON value: what validation reads of a parsed document.
///
/// The members of an object are held in the order in which the parser
/// hands them out.
#[derive(Debug, PartialEq)]
pub enum Json {
    Null,
    Bool(bool),
    Number(serde_json::Number),
    String(String),
    Array(Vec<Json>),
    Object(Vec<(String, Json)>),
}

/// The mathematical tree of a JSON value.
pub enum JsonTree {
    Null,
    Bool(bool),
    Number(serde_json::Number),
    String(Seq<char>),
    Array(Seq<JsonTree>),
    Object(Seq<(Seq<char>, JsonTree)>),
}

impl View for Json {
    type V = JsonTree;

    open spec fn view(&self) -> JsonTree
        decreases self,
    {
        match self {
            Json::Null => JsonTree::Null,
            Json::Bool(b) => JsonTree::Bool(*b),
            Json::Number(n) => JsonTree::Number(*n),
            Json::String(s) => JsonTree::String(s@),
            Json::Array(items) => JsonTree::Array(
                Seq::new(
                    items@.len(),
                    |i: int|
                        if 0 <= i < items@.len() {
                            items@[i]@
                        } else {
                            JsonTree::Null
                        },
                ),
            ),
            Json::Object(entries) => JsonTree::Object(
                Seq::new(
                    entries@.len(),
                    |i: int|
                        (
                            entries@[i].0@,
                            if 0 <= i < entries@.len() {
                                entries@[i].1@
                            } else {
                                JsonTree::Null
                            },
                        ),
                ),
            ),
        }
    }
}

impl Json {
    /// Copies a parsed document into a tree of plain values.
    pub fn from_document(document: &serde_json::Value) -> (r: Json)
        ensures
            r@ == tree_of(*document),
        decreases tree_of(*document),
    {
        if document.is_null() {
            return Json::Null;
        }
        if let Some(b) = document.as_bool() {
            return Json::Bool(b);
        }
        if let Some(n) = document.as_number() {
            return Json::Number(n.clone());
        }
        if let Some(s) = document.as_str() {
            return Json::String(s.to_owned());
        }
        if let Some(elements) = document.as_array() {
            let ghost items = tree_of(*document)->Array_0;
            let mut copied: Vec<Json> = Vec::new();
            let mut i: usize = 0;
            while i < elements.len()
                invariant
                    i <= elements@.len(),
                    tree_of(*document) == JsonTree::Array(items),
                    elements@.len() == items.len(),
                    forall|k: int|
                        0 <= k < items.len() ==> tree_of(#[trigger] elements@[k]) == items[k],
                    copied@.len() == i,
                    forall|k: int| 0 <= k < i ==> (#[trigger] copied@[k])@ == items[k],
                decreases elements@.len() - i,
            {
                proof {
                    assert(tree_of(elements@[i as int]) == items[i as int]);
                    assert(decreases_to!(tree_of(*document)
                        => tree_of(*document)->Array_0[i as int]));
                }
                let item = Json::from_document(&elements[i]);
                copied.push(item);
                i += 1;
            }
            let r = Json::Array(copied);
            assert(r@->Array_0 =~= items);
            return r;
        }
        match members(document) {
            Some(pairs) => {
                let ghost entries = tree_of(*document)->Object_0;
                let mut copied: Vec<(String, Json)> = Vec::new();
                let mut i: usize = 0;
                while i < pairs.len()
                    invariant
                        i <= pairs@.len(),
                        tree_of(*document) == JsonTree::Object(entries),
                        pairs@.len() == entries.len(),
                        forall|k: int|
                            0 <= k < entries.len() ==> (#[trigger] pairs@[k]).0@ == entries[k].0
                                && tree_of(*pairs@[k].1) == entries[k].1,
                        copied@.len() == i,
                        forall|k: int|
                            0 <= k < i ==> (#[trigger] copied@[k]).0@ == entries[k].0
                                && copied@[k].1@ == entries[k].1,
                    decreases pairs@.len() - i,
                {
                    let key: String = pairs[i].0.clone();
                    proof {
                        assert(tree_of(*pairs@[i as int].1) == entries[i as int].1);
                        assert(decreases_to!(tree_of(*document)
                            => tree_of(*document)->Object_0[i as int].1));
                    }
                    let member = Json::from_document(pairs[i].1);
                    copied.push((key, member));
                    i += 1;
                }
                let r = Json::Object(copied);
                assert(r@->Object_0 =~= entries);
                r
            },
            None => {
                proof {
                    assert(false);
                }
                Json::Null
            },
        }
    }
}

} // verus!
