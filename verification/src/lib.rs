//! Decoding the JSON body of an HTTP request.
//!
//! A request is accepted when it declares a JSON content type, its body is
//! a well-formed JSON document, and no string of that document, key or
//! value, holds a NUL code point. What is accepted is decoded into a type
//! of the caller's choice.

pub mod error;
pub mod input;
pub mod json;
pub mod lemmas;
pub mod request;
pub mod serde_specs;
pub mod std_specs;
pub mod text;
pub mod validate;

pub use error::{ErrorKind, JsonError};
pub use input::{decode_body, decoded, json_input, negotiate, parse_body};
pub use json::Json;
pub use request::Request;
pub use validate::{check_document, check_null};
