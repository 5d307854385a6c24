//! The fatal conditions the engine can surface. Each variant carries a
//! human-readable detail string; `message` hands it out for display.

use vstd::prelude::*;

verus! {

/// A fatal condition of one resolution or acquisition operation.
#[derive(Debug)]
pub enum LauncherError {
    /// A profile document is structurally unusable: it inherits from an
    /// incompatible profile, or required data is missing.
    InvalidVersionProfile(String),
    /// A downloaded artifact's checksum does not match the expected one.
    ChecksumMismatch(String),
    /// A remote document could not be parsed at all.
    MalformedDocument(String),
}

impl LauncherError {
    /// The detail string the error was raised with.
    pub open spec fn detail(&self) -> Seq<char> {
        match *self {
            LauncherError::InvalidVersionProfile(s) => s@,
            LauncherError::ChecksumMismatch(s) => s@,
            LauncherError::MalformedDocument(s) => s@,
        }
    }

    /// A copy of the detail string, for reporting.
    pub fn message(&self) -> (m: String)
        ensures
            m@ == self.detail(),
    {
        match self {
            LauncherError::InvalidVersionProfile(s) => s.clone(),
            LauncherError::ChecksumMismatch(s) => s.clone(),
            LauncherError::MalformedDocument(s) => s.clone(),
        }
    }
}

} // verus!
