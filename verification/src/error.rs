//! What can go wrong before a request is sent and after its answer has come.

use url::ParseError;
use vstd::prelude::*;

verus! {

/// Why a response body is not the record that was asked for.
#[derive(Clone, Copy, Debug, PartialEq, Eq, Structural)]
pub enum DecodeError {
    /// The body, or a nested record, is not a JSON object.
    NotAnObject,
    /// The body is not a JSON array.
    NotAnArray,
    /// A member that the record cannot do without is absent.
    MissingField,
    /// A member is present and holds a value of another kind than the record's field.
    WrongType,
}

/// Why a request could not be built.
#[derive(Debug, PartialEq, Eq)]
pub enum Error {
    /// The base URL is no absolute URL, or an endpoint cannot be resolved against it.
    InvalidUrl(ParseError),
    /// The request's URL would be longer than a URL can be.
    TooLong,
    /// The identification holds a character that no header can carry.
    InvalidHeader,
}

} // verus!
