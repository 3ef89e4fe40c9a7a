//! Result kinds shared by every capability operation.
use vstd::prelude::*;
use vstd::string::*;

verus! {

/// The one error type of the library. No operation panics on the lengths or
/// contents of its inputs: every failure resolves to one of these kinds.
#[derive(Debug, Clone, Copy)]
pub enum OqsError {
    /// The capability is not available in this configuration.
    NotImplemented,
    /// An input buffer's length does not match what the algorithm requires.
    InvalidLength,
    /// The verification routine ran and reported the signature invalid.
    VerifyFail,
    /// A backend step failed; the tag names the step.
    Internal(&'static str),
}

/// The human-readable text of each kind.
pub open spec fn error_message(e: OqsError) -> Seq<char> {
    match e {
        OqsError::NotImplemented => "not implemented (enable `liboqs`)"@,
        OqsError::InvalidLength => "invalid length"@,
        OqsError::VerifyFail => "verification failed"@,
        OqsError::Internal(m) => "internal error: "@ + m@,
    }
}

impl OqsError {
    /// The message of this error, as a user would see it.
    pub fn message(&self) -> (r: String)
        ensures
            r@ == error_message(*self),
    {
        match self {
            OqsError::NotImplemented => String::from_str("not implemented (enable `liboqs`)"),
            OqsError::InvalidLength => String::from_str("invalid length"),
            OqsError::VerifyFail => String::from_str("verification failed"),
            OqsError::Internal(m) => String::from_str("internal error: ").concat(m),
        }
    }
}

} // verus!
