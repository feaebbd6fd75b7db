//! The ways a command can fail.

use vstd::prelude::*;

verus! {

/// What went wrong.
#[derive(Clone, Copy, Debug, PartialEq, Eq, Structural)]
pub enum ErrorKind {
    /// The request could not be carried out.
    Transport,
    /// The body is not JSON, or lacks the array that lists the results.
    Parse,
    /// The response is well formed and lists nothing to pick from.
    NoResults,
    /// One entry lacks a field it must have; only that entry is dropped.
    MissingField,
}

impl ErrorKind {
    /// Whether the failure concerns one entry only, so that the rest of the
    /// batch goes on.
    pub open spec fn spec_is_recoverable(self) -> bool {
        self == ErrorKind::MissingField
    }

    /// Whether the failure concerns one entry only.
    #[verifier::when_used_as_spec(spec_is_recoverable)]
    pub fn is_recoverable(self) -> (r: bool)
        ensures
            r == self.spec_is_recoverable(),
    {
        match self {
            ErrorKind::MissingField => true,
            _ => false,
        }
    }
}

/// The exit code of a command: 0 on success, 1 on any failure that ends it.
pub open spec fn spec_exit_code(outcome: Option<ErrorKind>) -> i32 {
    match outcome {
        None => 0i32,
        Some(e) => if e.spec_is_recoverable() {
            0i32
        } else {
            1i32
        },
    }
}

/// The exit code of a command that ended with `outcome`.
pub fn exit_code(outcome: Option<ErrorKind>) -> (r: i32)
    ensures
        r == spec_exit_code(outcome),
{
    match outcome {
        None => 0,
        Some(e) => if e.is_recoverable() {
            0
        } else {
            1
        },
    }
}

} // verus!
