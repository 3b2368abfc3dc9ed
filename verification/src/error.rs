//! Error envelopes.
//!
//! Every failure is returned to the caller as a value, never as a fault.  A
//! `PlatypusError` classifies the failure and carries a human-readable
//! message; a `TMFError` is the wire-level envelope handed to API callers.

use vstd::prelude::*;
use vstd::string::StringExecFns;

verus! {

/// The failure taxonomy.
///
/// `Configuration` and `Connection` are fatal at startup; the rest travel
/// back through the gateway to the calling controller.
#[derive(Clone, Copy, Debug, PartialEq, Eq, Structural)]
pub enum ErrorKind {
    /// A required setting is missing.
    Configuration,
    /// The store cannot be reached or refuses the credentials.
    Connection,
    /// No record exists for the given key.
    NotFound,
    /// The store rejected an insert for a key that already exists.
    Conflict,
    /// The input is malformed.
    Validation,
    /// An unclassified store or driver failure.
    Internal,
}

/// A classified failure with a human-readable message.
#[derive(Clone, Debug)]
pub struct PlatypusError {
    /// What went wrong, by kind.
    pub kind: ErrorKind,
    /// A human-readable reason.
    pub message: String,
}

impl PlatypusError {
    /// An unclassified failure carrying the given message.
    pub fn from(value: &str) -> (r: PlatypusError)
        ensures
            r.kind == ErrorKind::Internal,
            r.message@ == value@,
    {
        PlatypusError { kind: ErrorKind::Internal, message: value.to_owned() }
    }

    /// A failure of the given kind carrying the given message.
    pub fn with_kind(kind: ErrorKind, value: &str) -> (r: PlatypusError)
        ensures
            r.kind == kind,
            r.message@ == value@,
    {
        PlatypusError { kind, message: value.to_owned() }
    }

    /// The message, for display.
    pub fn to_text(&self) -> (r: String)
        ensures
            r@ == self.message@,
    {
        self.message.clone()
    }
}

/// The error envelope returned to API callers as data.
#[derive(Clone, Debug)]
pub struct TMFError {
    /// A stable error code.
    pub code: String,
    /// The reason for the failure.
    pub reason: String,
    /// An optional longer message.
    pub message: Option<String>,
    /// An optional HTTP status, as text.
    pub status: Option<String>,
    /// An optional reference to a fuller error description.
    pub reference_error: Option<String>,
}

impl TMFError {
    /// Folds a gateway failure into the wire envelope: code `PLAT001`, the
    /// reason taken from the failure, and the message prefixed by the code.
    pub fn from(value: PlatypusError) -> (r: TMFError)
        ensures
            r.code@ == "PLAT001"@,
            r.reason@ == value.message@,
            r.message matches Some(m) && m@ == "PLAT001: "@ + value.message@,
            r.status is None,
            r.reference_error is None,
    {
        let message = String::from_str("PLAT001: ").concat(value.message.as_str());
        TMFError {
            code: String::from_str("PLAT001"),
            reason: value.message.clone(),
            message: Some(message),
            status: None,
            reference_error: None,
        }
    }
}

} // verus!
