//! Errors that can happen when parsing message data.

use vstd::prelude::*;

use crate::decimal::{decimal_int, push_i64};

verus! {

/// Errors that can happen when working with message table data
///
/// The parser errors hold the text that describes what the parser reported.
#[derive(Debug, PartialEq, Eq)]
pub enum MessageError {
    /// Required data is missing from the message
    MissingData,
    /// Message has no text content
    NoText,
    /// Error occurred when parsing with the StreamTyped parser
    StreamTypedParseError(String),
    /// Error occurred when parsing with the TypedStream parser
    TypedStreamParseError(String),
    /// Error occurred when parsing Plist data
    PlistParseError(String),
    /// Timestamp value is invalid or out of range
    InvalidTimestamp(i64),
}

impl MessageError {
    /// The message that describes this error, as `Display` renders it.
    pub open spec fn spec_message(&self) -> Seq<char> {
        match self {
            MessageError::MissingData => "No attributedBody found!"@,
            MessageError::NoText => "Message has no text!"@,
            MessageError::StreamTypedParseError(why) =>
                "Failed to parse attributedBody with legacy parser: "@ + why@,
            MessageError::TypedStreamParseError(why) => "Failed to parse attributedBody: "@ + why@,
            MessageError::PlistParseError(why) => "Failed to parse plist data: "@ + why@,
            MessageError::InvalidTimestamp(when) => "Timestamp is invalid: "@ + decimal_int(
                *when as int,
            ),
        }
    }

    /// The message that describes this error.
    pub fn message(&self) -> (res: String)
        ensures
            res@ == self.spec_message(),
    {
        match self {
            MessageError::MissingData => String::from_str("No attributedBody found!"),
            MessageError::NoText => String::from_str("Message has no text!"),
            MessageError::StreamTypedParseError(why) => {
                let mut s = String::from_str("Failed to parse attributedBody with legacy parser: ");
                s.append(why.as_str());
                s
            },
            MessageError::TypedStreamParseError(why) => {
                let mut s = String::from_str("Failed to parse attributedBody: ");
                s.append(why.as_str());
                s
            },
            MessageError::PlistParseError(why) => {
                let mut s = String::from_str("Failed to parse plist data: ");
                s.append(why.as_str());
                s
            },
            MessageError::InvalidTimestamp(when) => {
                let mut s = String::from_str("Timestamp is invalid: ");
                push_i64(&mut s, *when);
                s
            },
        }
    }
}

} // verus!
