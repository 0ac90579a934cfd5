//! Errors of agent-backend communication.

use crate::text::{append_decimal, spec_decimal};
use vstd::prelude::*;

verus! {

#[derive(Debug)]
pub enum ProtoError {
    Serialization(String),
    Deserialization(String),
    InvalidMessage(String),
    VersionMismatch(u32, u32),
    TaskNotFound(String),
    InvalidPayload(String),
}

/// The text shown for a protocol error.
pub open spec fn spec_proto_error_text(e: ProtoError) -> Seq<char> {
    match e {
        ProtoError::Serialization(m) => "Serialization error: "@ + m@,
        ProtoError::Deserialization(m) => "Deserialization error: "@ + m@,
        ProtoError::InvalidMessage(m) => "Invalid message: "@ + m@,
        ProtoError::VersionMismatch(a, b) => "Protocol version mismatch: agent="@ + spec_decimal(a as nat) + ", backend="@
            + spec_decimal(b as nat),
        ProtoError::TaskNotFound(m) => "Task not found: "@ + m@,
        ProtoError::InvalidPayload(m) => "Invalid task payload: "@ + m@,
    }
}

impl ProtoError {
    /// The text shown for the error.
    pub fn to_string(&self) -> (s: String)
        ensures
            s@ == spec_proto_error_text(*self),
    {
        match self {
            ProtoError::Serialization(m) => String::from_str("Serialization error: ").concat(m.as_str()),
            ProtoError::Deserialization(m) => String::from_str("Deserialization error: ").concat(m.as_str()),
            ProtoError::InvalidMessage(m) => String::from_str("Invalid message: ").concat(m.as_str()),
            ProtoError::VersionMismatch(a, b) => {
                let mut s = String::from_str("Protocol version mismatch: agent=");
                append_decimal(&mut s, *a as u64);
                s.append(", backend=");
                append_decimal(&mut s, *b as u64);
                s
            },
            ProtoError::TaskNotFound(m) => String::from_str("Task not found: ").concat(m.as_str()),
            ProtoError::InvalidPayload(m) => String::from_str("Invalid task payload: ").concat(m.as_str()),
        }
    }
}

} // verus!
