//! Error taxonomy of the execution engine.
//!
//! Binding errors (`ParameterCountMismatch`, `ParameterConversion`) are
//! detected before any message is sent; `Serialization` is a buffer-level
//! encode failure; `Server` carries a structured error response from the
//! backend; `ProtocolViolation` marks a reply that does not fit the
//! expected sequence.

use vstd::prelude::*;

verus! {

/// Mathematical value of a [`DbError`].
pub ghost struct DbErrorV {
    pub severity: Seq<char>,
    pub code: Seq<char>,
    pub message: Seq<char>,
}

/// A structured error response reported by the server.
#[derive(Debug)]
pub struct DbError {
    pub severity: String,
    pub code: String,
    pub message: String,
}

impl View for DbError {
    type V = DbErrorV;

    open spec fn view(&self) -> DbErrorV {
        DbErrorV { severity: self.severity@, code: self.code@, message: self.message@ }
    }
}

/// Mathematical value of an [`Error`].
pub ghost enum ErrorV {
    ParameterCountMismatch { expected: usize, actual: usize },
    ParameterConversion { index: usize, message: Seq<char> },
    Serialization { message: Seq<char> },
    MessageParse { message: Seq<char> },
    Server { error: DbErrorV },
    ProtocolViolation,
}

/// A failure of one engine operation.
#[derive(Debug)]
pub enum Error {
    /// The parameter list's length differs from the statement's declared
    /// parameter-type count.
    ParameterCountMismatch { expected: usize, actual: usize },
    /// Conversion of the parameter at `index` (zero-based) failed.
    ParameterConversion { index: usize, message: String },
    /// The encoder itself could not emit bytes, independent of any value
    /// conversion.
    Serialization { message: String },
    /// A malformed field inside an otherwise well-formed reply message.
    /// Produced by the framing layer that parses raw messages into
    /// [`Message`](crate::message::Message) values, outside this crate.
    MessageParse { message: String },
    /// The server reported an error for the operation.
    Server { error: DbError },
    /// A reply did not match the expected next message for the current
    /// state.
    ProtocolViolation,
}

impl View for Error {
    type V = ErrorV;

    open spec fn view(&self) -> ErrorV {
        match self {
            Error::ParameterCountMismatch { expected, actual } => ErrorV::ParameterCountMismatch {
                expected: *expected,
                actual: *actual,
            },
            Error::ParameterConversion { index, message } => ErrorV::ParameterConversion {
                index: *index,
                message: message@,
            },
            Error::Serialization { message } => ErrorV::Serialization { message: message@ },
            Error::MessageParse { message } => ErrorV::MessageParse { message: message@ },
            Error::Server { error } => ErrorV::Server { error: error@ },
            Error::ProtocolViolation => ErrorV::ProtocolViolation,
        }
    }
}

} // verus!
