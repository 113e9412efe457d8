//! Errors used throughout the crate.
use crate::json::{required, required_accepts, required_read, FromJson, Json};
use vstd::prelude::*;

verus! {

/// The kind of failure behind an [`Error`].
#[derive(Clone, Copy, Debug, PartialEq, Eq, Structural)]
pub enum ErrorKind {
    /// The request could not be sent or its body could not be read.
    Transport,
    /// The body was the API's error envelope; the message is the envelope's.
    Api,
    /// The body matched neither the expected shape nor the error envelope;
    /// the message is the one from reading the expected shape.
    Malformed,
}

/// An error from a request to the WMATA API.
#[derive(Clone, Debug)]
pub struct Error {
    pub kind: ErrorKind,
    pub message: String,
}

impl Error {
    pub fn new(kind: ErrorKind, message: String) -> (r: Error)
        ensures
            r.kind == kind,
            r.message == message,
    {
        Error { kind, message }
    }
}

/// The API's error envelope: an object whose `Message` field holds a string.
#[derive(Clone, Debug)]
pub struct ErrorResponse {
    pub message: String,
}

impl FromJson for ErrorResponse {
    open spec fn accepts(j: Json) -> bool {
        required_accepts::<String>(j, "Message"@)
    }

    open spec fn read_from(self, j: Json) -> bool {
        required_read(self.message, j, "Message"@)
    }

    fn from_json(j: &Json) -> (r: Result<ErrorResponse, String>) {
        let message = required::<String>(j, "Message")?;
        Ok(ErrorResponse { message })
    }
}

/// The given string is not a MetroRail line code.
#[derive(Clone, Copy, Debug, PartialEq, Eq, Structural)]
pub struct StringIsNotLineError;

/// The given string is not one of the six original line codes.
#[derive(Clone, Copy, Debug, PartialEq, Eq, Structural)]
pub struct StringIsNotLineCodeError;

/// The given string is not a MetroRail station code.
#[derive(Clone, Copy, Debug, PartialEq, Eq, Structural)]
pub struct StringIsNotStationError;

/// An open identifier (a bus route or a bus stop) was given as the empty string.
#[derive(Clone, Copy, Debug, PartialEq, Eq, Structural)]
pub struct EmptyIdentifierError;

} // verus!
