//! The error taxonomy shared by the registrar and the logger.
//!
//! Every failure carries a human-readable message; callers do not branch on
//! the message text, only on the variant.

use vstd::prelude::*;

verus! {

/// The mathematical shape of a `ShimError`: the same variants over
/// character sequences.
pub enum ShimErrorModel {
    Environment(Seq<char>),
    Filesystem(Seq<char>),
    Resolution(Seq<char>),
    Clock(Seq<char>),
}

/// A failure of one of the fallible steps of the registrar or the logger.
#[derive(Debug, Clone, PartialEq, Eq)]
pub enum ShimError {
    /// A required environment variable was absent.
    Environment(String),
    /// A directory or file could not be created, opened or written.
    Filesystem(String),
    /// A host-provided path lookup failed.
    Resolution(String),
    /// The system clock reported a time before the Unix epoch.
    Clock(String),
}

impl View for ShimError {
    type V = ShimErrorModel;

    open spec fn view(&self) -> ShimErrorModel {
        match self {
            ShimError::Environment(m) => ShimErrorModel::Environment(m@),
            ShimError::Filesystem(m) => ShimErrorModel::Filesystem(m@),
            ShimError::Resolution(m) => ShimErrorModel::Resolution(m@),
            ShimError::Clock(m) => ShimErrorModel::Clock(m@),
        }
    }
}

impl ShimError {
    /// The message carried by the error, whichever variant it is.
    pub fn message(&self) -> (r: &String)
        ensures
            r@ == self.message_spec(),
    {
        match self {
            ShimError::Environment(m) => m,
            ShimError::Filesystem(m) => m,
            ShimError::Resolution(m) => m,
            ShimError::Clock(m) => m,
        }
    }

    /// The message carried by the error, as a sequence of characters.
    pub open spec fn message_spec(self) -> Seq<char> {
        match self {
            ShimError::Environment(m) => m@,
            ShimError::Filesystem(m) => m@,
            ShimError::Resolution(m) => m@,
            ShimError::Clock(m) => m@,
        }
    }

    /// Whether the error reports an absent environment variable.
    pub fn is_environment(&self) -> (r: bool)
        ensures
            r == (self is Environment),
    {
        matches!(self, ShimError::Environment(_))
    }

    /// Whether the error reports a filesystem failure.
    pub fn is_filesystem(&self) -> (r: bool)
        ensures
            r == (self is Filesystem),
    {
        matches!(self, ShimError::Filesystem(_))
    }

    /// Whether the error reports a failed host path lookup.
    pub fn is_resolution(&self) -> (r: bool)
        ensures
            r == (self is Resolution),
    {
        matches!(self, ShimError::Resolution(_))
    }

    /// Whether the error reports a clock set before the epoch.
    pub fn is_clock(&self) -> (r: bool)
        ensures
            r == (self is Clock),
    {
        matches!(self, ShimError::Clock(_))
    }
}

} // verus!
