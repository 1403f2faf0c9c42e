//! The error surface shared by the route compiler and the decoder.

use vstd::prelude::*;
use vstd::string::*;

verus! {

/// A named failure from decoding a response or compiling a route.
///
/// Required fields gate correctness, so a required key that is absent and a
/// required key of the wrong JSON type are distinct, named failures; a
/// caller never receives a partially populated record.
#[derive(Debug, Clone, PartialEq, Eq)]
pub enum ErrorKind {
    /// A required key was absent from a JSON object.
    MissingField { msg: String },
    /// A required key was present but held the wrong JSON type.
    InvalidTypeName { name: String },
    /// A value that had to be a JSON object (or array) was something else.
    InvalidMessageType { name: String },
    /// A pagination-parameter string failed to parse back into a typed
    /// control value.
    InvalidResultControl { error: String },
}

/// Whether `e` reports the required field `name` as absent.
pub open spec fn missing_field_err(e: ErrorKind, name: Seq<char>) -> bool {
    &&& e matches ErrorKind::MissingField { msg }
    &&& msg@ == name
}

/// Whether `e` reports the required field `name` as wrongly typed.
pub open spec fn type_err(e: ErrorKind, name: Seq<char>) -> bool {
    &&& e matches ErrorKind::InvalidTypeName { name: n }
    &&& n@ == name
}

/// Whether `e` reports a value that was not the JSON shape a decoder
/// demands of its whole input.
pub open spec fn message_type_err(e: ErrorKind, desc: Seq<char>) -> bool {
    &&& e matches ErrorKind::InvalidMessageType { name }
    &&& name@ == desc
}

/// Whether `e` reports an unparsable result-control string.
pub open spec fn result_control_err(e: ErrorKind, desc: Seq<char>) -> bool {
    &&& e matches ErrorKind::InvalidResultControl { error }
    &&& error@ == desc
}

/// Builds the absent-required-field error for `name`.
pub fn missing_field(name: &str) -> (e: ErrorKind)
    ensures
        missing_field_err(e, name@),
{
    ErrorKind::MissingField { msg: name.to_owned() }
}

/// Builds the wrongly-typed-required-field error for `name`.
pub fn invalid_type(name: &str) -> (e: ErrorKind)
    ensures
        type_err(e, name@),
{
    ErrorKind::InvalidTypeName { name: name.to_owned() }
}

/// Builds the wrong-message-shape error with the given description.
pub fn invalid_message(desc: &str) -> (e: ErrorKind)
    ensures
        message_type_err(e, desc@),
{
    ErrorKind::InvalidMessageType { name: desc.to_owned() }
}

/// The readable description of a failure, as `ErrorKind::text` renders
/// it.
pub open spec fn error_text_spec(e: ErrorKind) -> Seq<char> {
    match e {
        ErrorKind::MissingField { msg } => "missing field: "@ + msg@,
        ErrorKind::InvalidTypeName { name } => "invalid type for field: "@ + name@,
        ErrorKind::InvalidMessageType { name } => "invalid message type: "@ + name@,
        ErrorKind::InvalidResultControl { error } => "invalid result control: "@ + error@,
    }
}

impl ErrorKind {
    /// A short readable description of the failure.
    pub fn text(&self) -> (r: String)
        ensures
            r@ == error_text_spec(*self),
    {
        match self {
            ErrorKind::MissingField { msg } => {
                let mut s = String::from_str("missing field: ");
                s.append(msg.as_str());
                s
            },
            ErrorKind::InvalidTypeName { name } => {
                let mut s = String::from_str("invalid type for field: ");
                s.append(name.as_str());
                s
            },
            ErrorKind::InvalidMessageType { name } => {
                let mut s = String::from_str("invalid message type: ");
                s.append(name.as_str());
                s
            },
            ErrorKind::InvalidResultControl { error } => {
                let mut s = String::from_str("invalid result control: ");
                s.append(error.as_str());
                s
            },
        }
    }
}

} // verus!
