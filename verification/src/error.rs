//! The errors of the library.

use vstd::prelude::*;
use vstd::std_specs::convert::FromSpecImpl;

verus! {

/// `std::io::Error`, the error of an operation on a stream. The library
/// carries such a value from where it arose to the caller and never looks
/// inside.
#[verifier::external_type_specification]
#[verifier::external_body]
pub struct ExIoError(std::io::Error);

/// All errors that can occur in the library.
#[derive(Debug)]
pub enum ErrorKind {
    /// The batched actions could not be flushed.
    FlushingBatchFailed,
    /// Attempt to lock the terminal failed.
    AttemptToAcquireLock(String),
    /// Action is not supported by the current backend.
    ActionNotSupported(String),
    /// Attribute is not supported by the current backend.
    AttributeNotSupported(String),
    /// IO error occurred.
    IoError(std::io::Error),
}

impl ErrorKind {
    /// What the error says to a reader.
    pub open spec fn spec_message(self) -> Seq<char> {
        match self {
            ErrorKind::FlushingBatchFailed => "An error occurred with an attempt to flush the buffer"@,
            ErrorKind::AttemptToAcquireLock(reason) => {
                "Attempted to acquire lock mutably more than once. "@ + reason@
            },
            ErrorKind::ActionNotSupported(name) => {
                "Action '"@ + name@ + "' is not supported by backend."@
            },
            ErrorKind::AttributeNotSupported(name) => {
                "Attribute '"@ + name@ + "' is not supported by backend."@
            },
            ErrorKind::IoError(_) => "Some error has occurred"@,
        }
    }

    /// What the error says to a reader.
    pub fn message(&self) -> (message: String)
        ensures
            message@ == self.spec_message(),
    {
        match self {
            ErrorKind::FlushingBatchFailed => String::from_str(
                "An error occurred with an attempt to flush the buffer",
            ),
            ErrorKind::AttemptToAcquireLock(reason) => String::from_str(
                "Attempted to acquire lock mutably more than once. ",
            ).concat(reason.as_str()),
            ErrorKind::ActionNotSupported(name) => String::from_str("Action '").concat(
                name.as_str(),
            ).concat("' is not supported by backend."),
            ErrorKind::AttributeNotSupported(name) => String::from_str("Attribute '").concat(
                name.as_str(),
            ).concat("' is not supported by backend."),
            ErrorKind::IoError(_) => String::from_str("Some error has occurred"),
        }
    }
}

impl From<std::io::Error> for ErrorKind {
    fn from(error: std::io::Error) -> (kind: ErrorKind) {
        ErrorKind::IoError(error)
    }
}

impl FromSpecImpl<std::io::Error> for ErrorKind {
    open spec fn obeys_from_spec() -> bool {
        true
    }

    open spec fn from_spec(error: std::io::Error) -> ErrorKind {
        ErrorKind::IoError(error)
    }
}

} // verus!
