//! The error taxonomy shared by every component.

use vstd::prelude::*;

verus! {

/// Errors of the library, one variant per kind of failure, each with a
/// human-readable message.
#[derive(Debug, Clone, PartialEq, Eq)]
pub enum FleetNetError {
    /// Connection or transport failures.
    NetworkError(String),
    /// Audio device or codec failures.
    AudioError(String),
    /// Framing, length, HMAC or payload decoding failures.
    PacketError(String),
    /// Structured payload (de)serialization failures.
    JsonError(String),
    /// Authentication failures.
    AuthError(String),
    /// Access-control violations.
    PermissionError(String),
    /// Structural data invariants that do not hold.
    ValidationError(String),
    /// Certificate or key file input/output failures.
    FileSystemError(String),
    /// TLS configuration, key parsing or MAC setup failures.
    EncryptionError(String),
}

impl FleetNetError {
    /// The message carried by the error.
    pub fn message(&self) -> (r: &String)
        ensures
            match self {
                FleetNetError::NetworkError(m) => r == m,
                FleetNetError::AudioError(m) => r == m,
                FleetNetError::PacketError(m) => r == m,
                FleetNetError::JsonError(m) => r == m,
                FleetNetError::AuthError(m) => r == m,
                FleetNetError::PermissionError(m) => r == m,
                FleetNetError::ValidationError(m) => r == m,
                FleetNetError::FileSystemError(m) => r == m,
                FleetNetError::EncryptionError(m) => r == m,
            },
    {
        match self {
            FleetNetError::NetworkError(m) => m,
            FleetNetError::AudioError(m) => m,
            FleetNetError::PacketError(m) => m,
            FleetNetError::JsonError(m) => m,
            FleetNetError::AuthError(m) => m,
            FleetNetError::PermissionError(m) => m,
            FleetNetError::ValidationError(m) => m,
            FleetNetError::FileSystemError(m) => m,
            FleetNetError::EncryptionError(m) => m,
        }
    }
}

/// Whether `r` is the outcome of a validation that finds `problem`: success
/// when there is none, else a validation error carrying its message.
pub open spec fn validation_outcome(r: Result<(), FleetNetError>, problem: Option<Seq<char>>) -> bool {
    match problem {
        None => r is Ok,
        Some(m) => r is Err && r->Err_0 is ValidationError && r->Err_0->ValidationError_0@ == m,
    }
}

/// A validation error with the given message.
pub fn validation_error(msg: &str) -> (r: FleetNetError)
    ensures
        r is ValidationError,
        r->ValidationError_0@ == msg@,
{
    FleetNetError::ValidationError(msg.to_owned())
}

/// A packet error with the given message.
pub fn packet_error(msg: &str) -> (r: FleetNetError)
    ensures
        r is PacketError,
        r->PacketError_0@ == msg@,
{
    FleetNetError::PacketError(msg.to_owned())
}

/// An encryption error with the given message.
pub fn encryption_error(msg: &str) -> (r: FleetNetError)
    ensures
        r is EncryptionError,
        r->EncryptionError_0@ == msg@,
{
    FleetNetError::EncryptionError(msg.to_owned())
}

} // verus!
