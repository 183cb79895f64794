//! The marker file whose presence keeps a run going.

use super::paths::path_exists;
use vstd::prelude::*;
use vstd::string::StringExecFns;

verus! {

/// Why the marker could not be written or removed.
#[derive(Debug, Clone)]
pub enum LockError {
    /// The file system refused; the message is the system's.
    IoFailed(String),
}

impl LockError {
    /// The printed form of the error: its name and the quoted message.
    pub open spec fn text(&self) -> Seq<char> {
        match self {
            LockError::IoFailed(m) => "IoFailed"@ + "("@ + crate::text::debug_text(m@) + ")"@,
        }
    }

    /// Prints the error.
    pub fn to_text(&self) -> (r: String)
        ensures
            r@ == self.text(),
    {
        match self {
            LockError::IoFailed(m) => crate::text::labelled("IoFailed", m.as_str()),
        }
    }
}

/// Tracks an external file: while the file is there the lock is held, and
/// whoever removes the file releases it.
pub struct LockFile {
    path: String,
}

impl LockFile {
    /// The path of the marker file.
    pub closed spec fn location(&self) -> Seq<char> {
        self.path@
    }

    /// The lock on the marker file at `path`.
    pub fn new(path: &str) -> (r: LockFile)
        ensures
            r.location() == path@,
    {
        LockFile { path: String::from_str(path) }
    }

    /// The path of the marker file.
    pub fn path(&self) -> (r: &str)
        ensures
            r@ == self.location(),
    {
        self.path.as_str()
    }

    /// Whether the marker file is there right now.
    pub fn is_locked(&self) -> bool {
        path_exists(self.path.as_str())
    }

    /// The result of taking the lock, given how writing the marker went where
    /// it was missing.
    pub fn lock(&self, written: Result<(), String>) -> (r: Result<(), LockError>)
        ensures
            match written {
                Ok(_) => r is Ok,
                Err(message) => r matches Err(LockError::IoFailed(m)) && m@ == message@,
            },
    {
        match written {
            Ok(_) => Ok(()),
            Err(message) => Err(LockError::IoFailed(message)),
        }
    }

    /// The result of releasing the lock, given how removing the marker went
    /// where it was there.
    pub fn unlock(&self, removed: Result<(), String>) -> (r: Result<(), LockError>)
        ensures
            match removed {
                Ok(_) => r is Ok,
                Err(message) => r matches Err(LockError::IoFailed(m)) && m@ == message@,
            },
    {
        match removed {
            Ok(_) => Ok(()),
            Err(message) => Err(LockError::IoFailed(message)),
        }
    }
}

} // verus!
