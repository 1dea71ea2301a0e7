//! Decoder for short-range wireless advertisement payloads.
//!
//! A payload is a byte buffer whose first two bytes form an
//! `{opcode, length}` envelope; the opcode selects one of five message
//! kinds, and the remaining bytes carry kind-specific fields. Decoding
//! is one-directional: this crate never re-encodes a message. Semantic
//! derivations turn the raw bitfields of a decoded record into
//! domain values (accessory state, printer descriptors).

use vstd::prelude::*;

pub mod airprint;
pub mod messages;
pub mod proximity;

verus! {

/// The single failure kind: every fallible operation in this crate
/// reports a decode failure, never a panic.
#[derive(Debug)]
pub enum ErrorKind {
    DecodeError,
}

/// A decode failure, carrying an optional human-readable diagnostic.
#[derive(Debug)]
pub struct Error {
    pub kind: ErrorKind,
    pub message: Option<String>,
}

impl Error {
    /// Builds an error of the given kind carrying the given diagnostic text.
    pub fn new(kind: ErrorKind, message: &str) -> (e: Error)
        ensures
            e.kind == kind,
            e.message matches Some(m) && m@ == message@,
    {
        Error { kind, message: Some(message.to_owned()) }
    }
}

impl From<ErrorKind> for Error {
    fn from(value: ErrorKind) -> (e: Error)
        ensures
            e.kind == value,
            e.message is None,
    {
        Error { kind: value, message: None }
    }
}

impl vstd::std_specs::convert::FromSpecImpl<ErrorKind> for Error {
    open spec fn obeys_from_spec() -> bool {
        true
    }

    open spec fn from_spec(value: ErrorKind) -> Self {
        Error { kind: value, message: None }
    }
}

} // verus!
