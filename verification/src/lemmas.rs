//! What holds of validation whatever the document, and of an attempt on a
//! request whatever the request.

use vstd::prelude::*;
use crate::error::ErrorKind;
use crate::input::{after_input, declares_json, screened};
use crate::json::JsonTree;
use crate::request::{field_value, RequestView};
use crate::text::eq_ignore_ascii_case;
use crate::validate::{has_nul, member_has_nul, text_has_nul};

verus! {

/// Whether `text` stands in the tree as a string value, at any depth.
pub open spec fn occurs_as_value(tree: JsonTree, text: Seq<char>) -> bool
    decreases tree,
{
    match tree {
        JsonTree::String(s) => s == text,
        JsonTree::Array(items) => exists|i: int|
            0 <= i < items.len() && occurs_as_value(#[trigger] items[i], text),
        JsonTree::Object(entries) => exists|i: int|
            0 <= i < entries.len() && occurs_as_value((#[trigger] entries[i]).1, text),
        _ => false,
    }
}

/// Whether `text` stands in the tree as the key of a member, at any depth.
pub open spec fn occurs_as_key(tree: JsonTree, text: Seq<char>) -> bool
    decreases tree,
{
    match tree {
        JsonTree::Array(items) => exists|i: int|
            0 <= i < items.len() && occurs_as_key(#[trigger] items[i], text),
        JsonTree::Object(entries) => exists|i: int|
            0 <= i < entries.len() && ((#[trigger] entries[i]).0 == text || occurs_as_key(
                entries[i].1,
                text,
            )),
        _ => false,
    }
}

/// Whether `text` is one of the strings of the tree, a value or a key.
pub open spec fn occurs(tree: JsonTree, text: Seq<char>) -> bool {
    occurs_as_value(tree, text) || occurs_as_key(tree, text)
}

/// A document with a NUL code point in a string value, at whatever depth,
/// is one that validation rejects.
pub proof fn lemma_value_with_nul(tree: JsonTree, text: Seq<char>)
    requires
        occurs_as_value(tree, text),
        text_has_nul(text),
    ensures
        has_nul(tree),
    decreases tree,
{
    match tree {
        JsonTree::Array(items) => {
            let i = choose|i: int|
                0 <= i < items.len() && occurs_as_value(#[trigger] items[i], text);
            lemma_value_with_nul(items[i], text);
        },
        JsonTree::Object(entries) => {
            let i = choose|i: int|
                0 <= i < entries.len() && occurs_as_value((#[trigger] entries[i]).1, text);
            lemma_value_with_nul(entries[i].1, text);
            assert(member_has_nul(entries[i]));
        },
        _ => {},
    }
}

/// A document with a NUL code point in the key of a member, at whatever
/// depth, is one that validation rejects, whatever the member's value.
pub proof fn lemma_key_with_nul(tree: JsonTree, text: Seq<char>)
    requires
        occurs_as_key(tree, text),
        text_has_nul(text),
    ensures
        has_nul(tree),
    decreases tree,
{
    match tree {
        JsonTree::Array(items) => {
            let i = choose|i: int| 0 <= i < items.len() && occurs_as_key(#[trigger] items[i], text);
            lemma_key_with_nul(items[i], text);
        },
        JsonTree::Object(entries) => {
            let i = choose|i: int|
                0 <= i < entries.len() && ((#[trigger] entries[i]).0 == text || occurs_as_key(
                    entries[i].1,
                    text,
                ));
            if entries[i].0 != text {
                lemma_key_with_nul(entries[i].1, text);
            }
            assert(member_has_nul(entries[i]));
        },
        _ => {},
    }
}

/// A document with a NUL code point in one of its strings, value or key,
/// is one that validation rejects.
pub proof fn lemma_text_with_nul(tree: JsonTree, text: Seq<char>)
    requires
        occurs(tree, text),
        text_has_nul(text),
    ensures
        has_nul(tree),
{
    if occurs_as_value(tree, text) {
        lemma_value_with_nul(tree, text);
    } else {
        lemma_key_with_nul(tree, text);
    }
}

/// A document that validation rejects has a string, value or key, with a
/// NUL code point in it: the one that this function returns.
pub proof fn lemma_rejected_has_culprit(tree: JsonTree) -> (text: Seq<char>)
    requires
        has_nul(tree),
    ensures
        occurs(tree, text),
        text_has_nul(text),
    decreases tree,
{
    match tree {
        JsonTree::String(s) => s,
        JsonTree::Array(items) => {
            let i = choose|i: int| 0 <= i < items.len() && has_nul(#[trigger] items[i]);
            lemma_rejected_has_culprit(items[i])
        },
        JsonTree::Object(entries) => {
            let i = choose|i: int| 0 <= i < entries.len() && member_has_nul(#[trigger] entries[i]);
            if text_has_nul(entries[i].0) {
                entries[i].0
            } else {
                lemma_rejected_has_culprit(entries[i].1)
            }
        },
        _ => Seq::empty(),
    }
}

/// Validation rejects a document if and only if one of its strings, a
/// value or a key at any depth, holds a NUL code point. Where the string
/// stands, and what stands before it, plays no part.
pub proof fn lemma_rejected_iff_nul_anywhere(tree: JsonTree)
    ensures
        has_nul(tree) <==> exists|text: Seq<char>|
            #[trigger] occurs(tree, text) && text_has_nul(text),
{
    if has_nul(tree) {
        let text = lemma_rejected_has_culprit(tree);
        assert(occurs(tree, text) && text_has_nul(text));
    }
    if exists|text: Seq<char>| #[trigger] occurs(tree, text) && text_has_nul(text) {
        let text = choose|text: Seq<char>| #[trigger] occurs(tree, text) && text_has_nul(text);
        lemma_text_with_nul(tree, text);
    }
}

/// A document none of whose strings holds a NUL code point passes
/// validation.
pub proof fn lemma_clean_document_passes(tree: JsonTree)
    requires
        forall|text: Seq<char>| #[trigger] occurs(tree, text) ==> !text_has_nul(text),
    ensures
        !has_nul(tree),
{
    lemma_rejected_iff_nul_anywhere(tree);
}

/// Two documents with the same strings fare alike, however the strings
/// are arranged in them.
pub proof fn lemma_outcome_depends_on_strings_alone(first: JsonTree, second: JsonTree)
    requires
        forall|text: Seq<char>| #[trigger] occurs(first, text) <==> #[trigger] occurs(second, text),
    ensures
        has_nul(first) == has_nul(second),
{
    if has_nul(first) {
        let text = lemma_rejected_has_culprit(first);
        lemma_text_with_nul(second, text);
    }
    if has_nul(second) {
        let text = lemma_rejected_has_culprit(second);
        lemma_text_with_nul(first, text);
    }
}

/// The order of the elements of an array does not change the outcome.
pub proof fn lemma_array_order_is_immaterial(first: Seq<JsonTree>, second: Seq<JsonTree>)
    requires
        first.to_multiset() == second.to_multiset(),
    ensures
        has_nul(JsonTree::Array(first)) == has_nul(JsonTree::Array(second)),
{
    lemma_array_one_way(first, second);
    lemma_array_one_way(second, first);
}

proof fn lemma_array_one_way(first: Seq<JsonTree>, second: Seq<JsonTree>)
    requires
        first.to_multiset() == second.to_multiset(),
    ensures
        has_nul(JsonTree::Array(first)) ==> has_nul(JsonTree::Array(second)),
{
    if has_nul(JsonTree::Array(first)) {
        let i = choose|i: int| 0 <= i < first.len() && has_nul(#[trigger] first[i]);
        first.to_multiset_ensures();
        second.to_multiset_ensures();
        assert(first.contains(first[i]));
        assert(second.to_multiset().count(first[i]) > 0);
        assert(second.contains(first[i]));
        let j = choose|j: int| 0 <= j < second.len() && second[j] == first[i];
        assert(JsonTree::Array(second)->Array_0 == second);
        assert(has_nul(second[j]));
    }
}

/// The order of the members of an object does not change the outcome.
pub proof fn lemma_member_order_is_immaterial(
    first: Seq<(Seq<char>, JsonTree)>,
    second: Seq<(Seq<char>, JsonTree)>,
)
    requires
        first.to_multiset() == second.to_multiset(),
    ensures
        has_nul(JsonTree::Object(first)) == has_nul(JsonTree::Object(second)),
{
    lemma_object_one_way(first, second);
    lemma_object_one_way(second, first);
}

proof fn lemma_object_one_way(
    first: Seq<(Seq<char>, JsonTree)>,
    second: Seq<(Seq<char>, JsonTree)>,
)
    requires
        first.to_multiset() == second.to_multiset(),
    ensures
        has_nul(JsonTree::Object(first)) ==> has_nul(JsonTree::Object(second)),
{
    if has_nul(JsonTree::Object(first)) {
        let i = choose|i: int| 0 <= i < first.len() && member_has_nul(#[trigger] first[i]);
        first.to_multiset_ensures();
        second.to_multiset_ensures();
        assert(first.contains(first[i]));
        assert(second.to_multiset().count(first[i]) > 0);
        assert(second.contains(first[i]));
        let j = choose|j: int| 0 <= j < second.len() && second[j] == first[i];
        assert(JsonTree::Object(second)->Object_0 == second);
        assert(member_has_nul(second[j]));
    }
}

/// The body of a request is there to be taken once: what is left after
/// it was taken has no body, and taking again changes nothing.
pub proof fn lemma_body_is_taken_once(request: RequestView)
    ensures
        request.without_body().body is None,
        request.without_body().without_body() == request.without_body(),
{
}

/// A second attempt on a request that declares a JSON body fails with
/// `BodyAlreadyExtracted`, whatever the first attempt came to.
pub proof fn lemma_second_attempt_finds_no_body(request: RequestView)
    requires
        declares_json(request),
    ensures
        screened(after_input(request)) == Err::<JsonTree, ErrorKind>(
            ErrorKind::BodyAlreadyExtracted,
        ),
        after_input(after_input(request)) == after_input(request),
{
}

/// A request without a `Content-Type` header is refused for its content
/// type.
pub proof fn lemma_missing_content_type_is_refused(request: RequestView)
    requires
        request.header("Content-Type"@) is None,
    ensures
        screened(request) == Err::<JsonTree, ErrorKind>(ErrorKind::WrongContentType),
{
}

/// A request that does not declare a JSON body is refused for that and
/// keeps its body, however often it is tried.
pub proof fn lemma_refused_request_is_left_alone(request: RequestView)
    requires
        !declares_json(request),
    ensures
        screened(request) == Err::<JsonTree, ErrorKind>(ErrorKind::WrongContentType),
        after_input(request) == request,
{
}

/// The value that a lookup finds is that of the first field with the
/// name, and it finds none only where no field has the name.
pub proof fn lemma_lookup_finds_first(fields: Seq<(Seq<char>, Seq<char>)>, name: Seq<char>)
    ensures
        match field_value(fields, name) {
            Some(value) => exists|i: int|
                0 <= i < fields.len() && eq_ignore_ascii_case((#[trigger] fields[i]).0, name)
                    && fields[i].1 == value && forall|j: int|
                    0 <= j < i ==> !eq_ignore_ascii_case((#[trigger] fields[j]).0, name),
            None => forall|i: int|
                0 <= i < fields.len() ==> !eq_ignore_ascii_case((#[trigger] fields[i]).0, name),
        },
    decreases fields.len(),
{
    if fields.len() == 0 {
    } else if eq_ignore_ascii_case(fields[0].0, name) {
        assert(eq_ignore_ascii_case(fields[0].0, name) && fields[0].1 == field_value(
            fields,
            name,
        )->0);
    } else {
        let rest = fields.drop_first();
        lemma_lookup_finds_first(rest, name);
        assert(forall|k: int| 0 <= k < rest.len() ==> rest[k] == fields[k + 1]);
        match field_value(rest, name) {
            Some(value) => {
                let i = choose|i: int|
                    0 <= i < rest.len() && eq_ignore_ascii_case((#[trigger] rest[i]).0, name)
                        && rest[i].1 == value && forall|j: int|
                        0 <= j < i ==> !eq_ignore_ascii_case((#[trigger] rest[j]).0, name);
                assert forall|j: int| 0 <= j < i + 1 implies !eq_ignore_ascii_case(
                    (#[trigger] fields[j]).0,
                    name,
                ) by {
                    if j > 0 {
                        assert(rest[j - 1] == fields[j]);
                    }
                }
                assert(eq_ignore_ascii_case(fields[i + 1].0, name) && fields[i + 1].1 == value);
            },
            None => {
                assert forall|i: int| 0 <= i < fields.len() implies !eq_ignore_ascii_case(
                    (#[trigger] fields[i]).0,
                    name,
                ) by {
                    if i > 0 {
                        assert(rest[i - 1] == fields[i]);
                    }
                }
            },
        }
    }
}

} // verus!
