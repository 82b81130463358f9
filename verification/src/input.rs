//! The pipeline from a request to a decoded value.

use vstd::prelude::*;
use vstd::utf8::valid_utf8;
use crate::error::{ErrorKind, JsonError};
use crate::json::JsonTree;
use crate::request::{Request, RequestView};
use crate::serde_specs::{decode, parse, parsed, tree_of};
use crate::std_specs::invalid_data;
use crate::text::{chars_of, starts_with};
use crate::validate::{check_document, has_nul};

verus! {

/// Whether a request declares a JSON body: it has a `Content-Type` header
/// whose value begins with `application/json`. The name is looked up
/// without regard to case; the value is compared as it stands.
pub open spec fn declares_json(request: RequestView) -> bool {
    match request.header("Content-Type"@) {
        Some(value) => "application/json"@.is_prefix_of(value),
        None => false,
    }
}

/// What becomes of a body: the tree of its document, or the kind of the
/// first check that it fails. The checks are, in this order: the bytes are
/// UTF-8, they make a JSON document, and no string of the document holds a
/// NUL code point.
pub open spec fn screened_body(body: Seq<u8>) -> Result<JsonTree, ErrorKind> {
    if !valid_utf8(body) {
        Err(ErrorKind::IoError)
    } else {
        match parsed(body) {
            None => Err(ErrorKind::ParseError),
            Some(tree) => if has_nul(tree) {
                Err(ErrorKind::NullPresent)
            } else {
                Ok(tree)
            },
        }
    }
}

/// What becomes of a request: the tree of the document in its body, or
/// the kind of the first check that it fails. The content type comes
/// first, then the presence of the body, then the checks on the body.
pub open spec fn screened(request: RequestView) -> Result<JsonTree, ErrorKind> {
    if !declares_json(request) {
        Err(ErrorKind::WrongContentType)
    } else {
        match request.body {
            None => Err(ErrorKind::BodyAlreadyExtracted),
            Some(body) => screened_body(body),
        }
    }
}

/// The request after an attempt to decode it: the body is taken as soon
/// as the content type is accepted, and left alone otherwise.
pub open spec fn after_input(request: RequestView) -> RequestView {
    if declares_json(request) {
        request.without_body()
    } else {
        request
    }
}

/// Accepts a request that declares a JSON body and fails with
/// `WrongContentType` on every other.
pub fn negotiate(request: &Request) -> (r: Result<(), JsonError>)
    ensures
        declares_json(request@) ==> r is Ok,
        !declares_json(request@) ==> r matches Err(JsonError::WrongContentType),
{
    match request.header("Content-Type") {
        Some(value) => {
            let wanted = chars_of("application/json");
            if starts_with(value, &wanted) {
                Ok(())
            } else {
                Err(JsonError::WrongContentType)
            }
        },
        None => Err(JsonError::WrongContentType),
    }
}

/// Parses a body into a JSON document and validates it.
///
/// Fails with `IoError` where the bytes are not UTF-8, with `ParseError`
/// where they are no JSON document, and with `NullPresent` where a string
/// of the document holds a NUL code point.
pub fn parse_body(body: &[u8]) -> (r: Result<serde_json::Value, JsonError>)
    ensures
        match screened_body(body@) {
            Ok(tree) => r matches Ok(document) && tree_of(document) == tree,
            Err(kind) => r matches Err(e) && e.kind() == kind,
        },
{
    match core::str::from_utf8(body) {
        Ok(_) => {},
        Err(cause) => {
            return Err(JsonError::from(invalid_data(cause)));
        },
    }
    let document = match parse(body) {
        Ok(document) => document,
        Err(cause) => {
            return Err(JsonError::from(cause));
        },
    };
    match check_document(&document) {
        Ok(_) => Ok(document),
        Err(e) => Err(e),
    }
}

/// The result of decoding, with the decoder's own error wrapped as a
/// `ParseError`.
pub fn decoded<O>(outcome: Result<O, serde_json::Error>) -> (r: Result<O, JsonError>)
    ensures
        match outcome {
            Ok(value) => r == Ok::<O, JsonError>(value),
            Err(cause) => r == Err::<O, JsonError>(JsonError::ParseError(cause)),
        },
{
    match outcome {
        Ok(value) => Ok(value),
        Err(cause) => Err(JsonError::from(cause)),
    }
}

/// Parses a body into a JSON document, validates it and decodes it into
/// the target type.
///
/// A body that fails a check gives the error of that check. For a body
/// that passes them all the target type decides: the call succeeds, or
/// fails with `ParseError`.
pub fn decode_body<O: serde::de::DeserializeOwned>(body: &[u8]) -> (r: Result<O, JsonError>)
    ensures
        match screened_body(body@) {
            Ok(_) => r is Ok || r matches Err(JsonError::ParseError(_)),
            Err(kind) => r matches Err(e) && e.kind() == kind,
        },
{
    match parse_body(body) {
        Ok(document) => decoded(decode::<O>(document)),
        Err(e) => Err(e),
    }
}

/// Decodes the JSON body of a request into the target type.
///
/// Fails with `WrongContentType` unless the request declares a JSON body,
/// and then leaves the body where it is. Otherwise the body is taken:
/// `BodyAlreadyExtracted` where it was taken before, else as `decode_body`
/// says.
pub fn json_input<O: serde::de::DeserializeOwned>(request: &mut Request) -> (r: Result<
    O,
    JsonError,
>)
    ensures
        final(request)@ == after_input(old(request)@),
        match screened(old(request)@) {
            Ok(_) => r is Ok || r matches Err(JsonError::ParseError(_)),
            Err(kind) => r matches Err(e) && e.kind() == kind,
        },
{
    match negotiate(request) {
        Ok(_) => {},
        Err(e) => {
            return Err(e);
        },
    }
    match request.data() {
        Some(body) => decode_body::<O>(body.as_slice()),
        None => Err(JsonError::BodyAlreadyExtracted),
    }
}

} // verus!
