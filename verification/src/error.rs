//! The error type returned by the public API.

use vstd::prelude::*;

use crate::signatures::Signature;

verus! {

/// The top-level error type returned by most public API functions in this crate.
#[derive(Debug, Clone, PartialEq)]
#[non_exhaustive]
pub enum Error {
    /// A field of the 128-byte ICC header could not be parsed; the message names it.
    HeaderParseError(HeaderParseError),
    /// A general string-parsing error.
    ParseError(ParseError),
    /// The CMM signature field holds a value that this crate does not know.
    InvalidCmmError(InvalidCmmError),
    /// A CMM value was rejected for the reason given.
    InvalidCmm(&'static str),
    /// The Profile Connection Space signature is not one of `XYZ `, `Lab ` or `spec`.
    InvalidPcsTag(Signature),
    /// A profile of another device class was given where this class was asked for.
    IsNotA(&'static str),
    /// The bytes do not carry the `acsp` file signature, or are too short for the
    /// header, the tag table or the tag data that the table points to.
    InvalidICCProfile,
    /// The creation date/time fields of the header hold no valid date and time;
    /// the text is the raw date as read from the header.
    InvalidDate(String),
    /// A parametric curve was given a parameter count other than 1, 3, 4, 5 or 7.
    UnsupportedParameterCount(usize),
    /// The serialised profile would exceed what the 32-bit size and offset
    /// fields of an ICC profile can hold.
    ProfileTooLarge(usize),
}

/// Error while parsing the ICC header; carries a description.
#[derive(Debug, Clone, PartialEq)]
pub struct HeaderParseError(pub String);

/// General string-parsing error; carries a description.
#[derive(Debug, Clone, PartialEq)]
pub struct ParseError(pub String);

/// Unknown CMM signature; carries a description.
#[derive(Debug, Clone, PartialEq)]
pub struct InvalidCmmError(pub String);

impl HeaderParseError {
    /// Wraps a message.
    pub fn new(msg: String) -> (e: Self)
        ensures
            e.0@ == msg@,
    {
        HeaderParseError(msg)
    }
}

impl ParseError {
    /// Wraps a message.
    pub fn new(msg: String) -> (e: Self)
        ensures
            e.0@ == msg@,
    {
        ParseError(msg)
    }
}

impl InvalidCmmError {
    /// Wraps a message.
    pub fn new(msg: String) -> (e: Self)
        ensures
            e.0@ == msg@,
    {
        InvalidCmmError(msg)
    }
}

} // verus!
