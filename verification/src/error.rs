//! Errors of the orchestration layer.
use vstd::prelude::*;
use crate::text::{owned, push_str};

verus! {

/// A semverguard error.
#[derive(Debug)]
pub enum SemverguardError {
    /// Error from workspace provider.
    Workspace(String),
    /// Error from git provider.
    Git(String),
    /// Error from engine.
    Engine(String),
    /// Configuration is invalid or incomplete.
    InvalidConfig(String),
    /// IO error (its message).
    Io(String),
    /// UTF-8 decoding error (its message).
    Utf8(String),
    /// A path we expected to exist did not.
    MissingPath(String),
}

impl SemverguardError {
    /// The text that the error displays.
    pub open spec fn spec_message(&self) -> Seq<char> {
        match self {
            SemverguardError::Workspace(m) => "workspace error: "@ + m@,
            SemverguardError::Git(m) => "git error: "@ + m@,
            SemverguardError::Engine(m) => "engine error: "@ + m@,
            SemverguardError::InvalidConfig(m) => "invalid config: "@ + m@,
            SemverguardError::Io(m) => "io error: "@ + m@,
            SemverguardError::Utf8(m) => "utf-8 error: "@ + m@,
            SemverguardError::MissingPath(m) => "missing path: "@ + m@,
        }
    }

    /// The text that the error displays.
    pub fn message(&self) -> (r: String)
        ensures
            r@ == self.spec_message(),
    {
        let (prefix, m) = match self {
            SemverguardError::Workspace(m) => ("workspace error: ", m),
            SemverguardError::Git(m) => ("git error: ", m),
            SemverguardError::Engine(m) => ("engine error: ", m),
            SemverguardError::InvalidConfig(m) => ("invalid config: ", m),
            SemverguardError::Io(m) => ("io error: ", m),
            SemverguardError::Utf8(m) => ("utf-8 error: ", m),
            SemverguardError::MissingPath(m) => ("missing path: ", m),
        };
        let mut s = owned(prefix);
        push_str(&mut s, m.as_str());
        s
    }

    /// Whether the error wraps an underlying error value (I/O and UTF-8 errors do).
    pub fn has_source(&self) -> (r: bool)
        ensures
            r == (self is Io || self is Utf8),
    {
        matches!(self, SemverguardError::Io(_) | SemverguardError::Utf8(_))
    }
}

impl Clone for SemverguardError {
    fn clone(&self) -> (r: Self)
        ensures
            r == *self,
    {
        match self {
            SemverguardError::Workspace(m) => SemverguardError::Workspace(m.clone()),
            SemverguardError::Git(m) => SemverguardError::Git(m.clone()),
            SemverguardError::Engine(m) => SemverguardError::Engine(m.clone()),
            SemverguardError::InvalidConfig(m) => SemverguardError::InvalidConfig(m.clone()),
            SemverguardError::Io(m) => SemverguardError::Io(m.clone()),
            SemverguardError::Utf8(m) => SemverguardError::Utf8(m.clone()),
            SemverguardError::MissingPath(m) => SemverguardError::MissingPath(m.clone()),
        }
    }
}

} // verus!
