//! The ways in which a line can fail to decode.

use vstd::prelude::*;
use vstd::string::StringExecFns;

verus! {

/// Errors that can occur when parsing EFP protocol messages.
#[derive(Debug)]
pub enum ParseError {
    /// The input message string is empty.
    EmptyMessage,
    /// The message has no zone at all.
    InvalidFormat,
    /// A required field is missing from the message; holds the field's name.
    MissingField(&'static str),
    /// The command field holds an unrecognized command; holds the text found.
    InvalidCommand(String),
    /// The protocol version is not supported; holds the text found.
    InvalidProtocol(String),
    /// A field holds a value outside its set; holds the field's name and the
    /// text found.
    InvalidValue { field: &'static str, value: String },
}

/// What a `ParseError` says, with each text as a sequence of characters.
pub enum ParseErrorView {
    EmptyMessage,
    InvalidFormat,
    MissingField(Seq<char>),
    InvalidCommand(Seq<char>),
    InvalidProtocol(Seq<char>),
    InvalidValue { field: Seq<char>, value: Seq<char> },
}

impl View for ParseError {
    type V = ParseErrorView;

    open spec fn view(&self) -> ParseErrorView {
        match *self {
            ParseError::EmptyMessage => ParseErrorView::EmptyMessage,
            ParseError::InvalidFormat => ParseErrorView::InvalidFormat,
            ParseError::MissingField(name) => ParseErrorView::MissingField(name@),
            ParseError::InvalidCommand(text) => ParseErrorView::InvalidCommand(text@),
            ParseError::InvalidProtocol(text) => ParseErrorView::InvalidProtocol(text@),
            ParseError::InvalidValue { field, value } => ParseErrorView::InvalidValue {
                field: field@,
                value: value@,
            },
        }
    }
}

impl ParseErrorView {
    /// The sentence that describes the error to a reader.
    pub open spec fn message(self) -> Seq<char> {
        match self {
            ParseErrorView::EmptyMessage => "Empty message"@,
            ParseErrorView::InvalidFormat => "Invalid CSV format"@,
            ParseErrorView::MissingField(name) => "Required field missing: "@ + name,
            ParseErrorView::InvalidCommand(text) => "Invalid command: "@ + text,
            ParseErrorView::InvalidProtocol(text) => "Invalid protocol: "@ + text,
            ParseErrorView::InvalidValue { field, value } => "Invalid value for "@ + field + ": "@
                + value,
        }
    }
}

impl ParseError {
    /// Describes the error in a sentence.
    pub fn to_string(&self) -> (r: String)
        ensures
            r@ == self@.message(),
    {
        match self {
            ParseError::EmptyMessage => String::from_str("Empty message"),
            ParseError::InvalidFormat => String::from_str("Invalid CSV format"),
            ParseError::MissingField(name) => {
                String::from_str("Required field missing: ").concat(name)
            },
            ParseError::InvalidCommand(text) => {
                String::from_str("Invalid command: ").concat(text.as_str())
            },
            ParseError::InvalidProtocol(text) => {
                String::from_str("Invalid protocol: ").concat(text.as_str())
            },
            ParseError::InvalidValue { field, value } => {
                String::from_str("Invalid value for ").concat(field).concat(": ").concat(
                    value.as_str(),
                )
            },
        }
    }
}

} // verus!
