//! Items of the standard library that the verifier has no specification
//! for.
//!
//! Nothing in this file is proved. Each item names the function of `std`
//! that it stands for and says what is assumed of it.

use vstd::prelude::*;
use vstd::utf8::{decode_utf8, valid_utf8};

verus! {

/// `std::io::Error`, carried as the cause of a failed read.
#[verifier::external_type_specification]
#[verifier::external_body]
pub struct ExIoError(std::io::Error);

/// `std::str::Utf8Error`, the reason why bytes are no UTF-8 text.
#[verifier::external_type_specification]
#[verifier::external_body]
pub struct ExUtf8Error(core::str::Utf8Error);

/// `std::str::from_utf8`: succeeds on the byte sequences that are valid
/// UTF-8 and on no others, and then hands back the text that they encode.
pub assume_specification[ core::str::from_utf8 ](bytes: &[u8]) -> (r: Result<
    &str,
    core::str::Utf8Error,
>)
    ensures
        r is Ok <==> valid_utf8(bytes@),
        r matches Ok(text) ==> text@ == decode_utf8(bytes@),
;

/// `std::io::Error::new` with the kind `InvalidData` and the given cause.
/// Nothing is assumed of the error that it makes.
#[verifier::external_body]
pub(crate) fn invalid_data(cause: core::str::Utf8Error) -> std::io::Error {
    std::io::Error::new(std::io::ErrorKind::InvalidData, cause)
}

} // verus!
