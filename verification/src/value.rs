//! Boundary values and the errors that cross the native/managed boundary.
//!
//! A host-managed argument or result is represented as a tagged variant that
//! an adapter matches exhaustively; an unrecognized or mismatched tag is a
//! conversion error, never a crash.

use vstd::prelude::*;
use vstd::string::StringExecFns;

verus! {

/// A host-owned value handle as seen at the native boundary: text, numeric or
/// boolean. The native side borrows such values for the duration of one call
/// and never retains them.
#[derive(Debug, Clone, PartialEq)]
pub enum Value {
    Text(String),
    Number(i64),
    Bool(bool),
}

/// An error raised while a single call crosses the boundary. Both variants
/// carry a human-readable message and surface to the host as catchable error
/// values; neither may abort the host process.
#[derive(Debug, Clone, PartialEq)]
pub enum CallError {
    /// An argument did not match the type category the adapter expects.
    Conversion(String),
    /// The wrapped native computation failed its own preconditions.
    Native(String),
}

impl CallError {
    /// The human-readable message this error carries.
    pub open spec fn spec_message(self) -> Seq<char> {
        match self {
            CallError::Conversion(m) => m@,
            CallError::Native(m) => m@,
        }
    }

    /// The human-readable message this error carries.
    pub fn message(&self) -> (m: &String)
        ensures
            m@ == self.spec_message(),
    {
        match self {
            CallError::Conversion(m) => m,
            CallError::Native(m) => m,
        }
    }
}

/// An error raised during the one-time registration phase. Fatal to module
/// load: the host must treat the module as unusable.
#[derive(Debug, Clone, PartialEq)]
pub enum SetupError {
    /// An entry could not be attached because its name is already taken.
    DuplicateName(String),
    /// The registry is not in a state from which initialization may run
    /// (a re-entrant call, or a registration that already failed).
    Unavailable,
}

impl SetupError {
    /// The human-readable message this error carries.
    pub open spec fn spec_message(self) -> Seq<char> {
        match self {
            SetupError::DuplicateName(n) => "duplicate export name: "@ + n@,
            SetupError::Unavailable => "module registry is not available for initialization"@,
        }
    }

    /// The human-readable message this error carries.
    pub fn message(&self) -> (m: String)
        ensures
            m@ == self.spec_message(),
    {
        match self {
            SetupError::DuplicateName(n) => {
                let mut m = String::from_str("duplicate export name: ");
                m.append(n.as_str());
                m
            },
            SetupError::Unavailable => String::from_str(
                "module registry is not available for initialization",
            ),
        }
    }
}

} // verus!
