//! The one error type of the library.

use vstd::prelude::*;

verus! {

/// Why a request body could not be decoded.
#[derive(Debug)]
pub enum JsonError {
    /// The body of the request was taken before.
    BodyAlreadyExtracted,
    /// The request does not declare a JSON content type.
    WrongContentType,
    /// A string of the document holds a NUL code point.
    NullPresent,
    /// The body could not be read, or is not valid UTF-8.
    IoError(std::io::Error),
    /// The body is not a JSON document, or does not fit the target type.
    ParseError(serde_json::Error),
}

/// The five kinds of failure, without their causes.
#[derive(Debug, Clone, Copy, PartialEq, Eq, Structural)]
pub enum ErrorKind {
    BodyAlreadyExtracted,
    WrongContentType,
    NullPresent,
    IoError,
    ParseError,
}

/// The sentence that describes a kind of failure.
pub open spec fn description_of(kind: ErrorKind) -> Seq<char> {
    match kind {
        ErrorKind::BodyAlreadyExtracted => "the body of the request was already extracted"@,
        ErrorKind::WrongContentType => "the request didn't have a JSON content type"@,
        ErrorKind::NullPresent => "the JSON body contained an escaped null byte"@,
        ErrorKind::IoError =>
            "could not read the body from the request, or could not execute the CGI program"@,
        ErrorKind::ParseError => "error while parsing the JSON body"@,
    }
}

impl ErrorKind {
    /// The sentence that describes this kind of failure.
    pub fn description(self) -> (r: &'static str)
        ensures
            r@ == description_of(self),
    {
        match self {
            ErrorKind::BodyAlreadyExtracted => "the body of the request was already extracted",
            ErrorKind::WrongContentType => "the request didn't have a JSON content type",
            ErrorKind::NullPresent => "the JSON body contained an escaped null byte",
            ErrorKind::IoError => {
                "could not read the body from the request, or could not execute the CGI program"
            },
            ErrorKind::ParseError => "error while parsing the JSON body",
        }
    }
}

impl JsonError {
    /// The kind of this error.
    pub open spec fn spec_kind(&self) -> ErrorKind {
        match self {
            JsonError::BodyAlreadyExtracted => ErrorKind::BodyAlreadyExtracted,
            JsonError::WrongContentType => ErrorKind::WrongContentType,
            JsonError::NullPresent => ErrorKind::NullPresent,
            JsonError::IoError(_) => ErrorKind::IoError,
            JsonError::ParseError(_) => ErrorKind::ParseError,
        }
    }

    /// The kind of this error.
    #[verifier::when_used_as_spec(spec_kind)]
    pub fn kind(&self) -> (k: ErrorKind)
        ensures
            k == self.spec_kind(),
    {
        match self {
            JsonError::BodyAlreadyExtracted => ErrorKind::BodyAlreadyExtracted,
            JsonError::WrongContentType => ErrorKind::WrongContentType,
            JsonError::NullPresent => ErrorKind::NullPresent,
            JsonError::IoError(_) => ErrorKind::IoError,
            JsonError::ParseError(_) => ErrorKind::ParseError,
        }
    }

    /// The sentence that describes this error. It depends on the kind
    /// alone and says nothing of the cause.
    pub fn description(&self) -> (r: &'static str)
        ensures
            r@ == description_of(self.kind()),
    {
        self.kind().description()
    }

    /// The failed read that this error carries: there is one for the kind
    /// `IoError` and for no other.
    pub fn io_cause(&self) -> (r: Option<&std::io::Error>)
        ensures
            match self {
                JsonError::IoError(cause) => r == Some(cause),
                _ => r is None,
            },
    {
        match self {
            JsonError::IoError(cause) => Some(cause),
            _ => None,
        }
    }

    /// The failed parse or decode that this error carries: there is one
    /// for the kind `ParseError` and for no other.
    pub fn parse_cause(&self) -> (r: Option<&serde_json::Error>)
        ensures
            match self {
                JsonError::ParseError(cause) => r == Some(cause),
                _ => r is None,
            },
    {
        match self {
            JsonError::ParseError(cause) => Some(cause),
            _ => None,
        }
    }
}

impl From<std::io::Error> for JsonError {
    fn from(err: std::io::Error) -> (r: JsonError) {
        JsonError::IoError(err)
    }
}

impl vstd::std_specs::convert::FromSpecImpl<std::io::Error> for JsonError {
    open spec fn obeys_from_spec() -> bool {
        true
    }

    open spec fn from_spec(err: std::io::Error) -> JsonError {
        JsonError::IoError(err)
    }
}

impl From<serde_json::Error> for JsonError {
    fn from(err: serde_json::Error) -> (r: JsonError) {
        JsonError::ParseError(err)
    }
}

impl vstd::std_specs::convert::FromSpecImpl<serde_json::Error> for JsonError {
    open spec fn obeys_from_spec() -> bool {
        true
    }

    open spec fn from_spec(err: serde_json::Error) -> JsonError {
        JsonError::ParseError(err)
    }
}

} // verus!
