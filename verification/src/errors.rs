//! The recoverable failures that the navigation core can surface to the user.

use vstd::prelude::*;

verus! {

/// What went wrong, for the five conditions the browser recovers from by
/// showing a dismissible overlay instead of terminating.
#[derive(Clone, Copy, Debug, Eq, Hash, Ord, PartialEq, PartialOrd, Structural)]
pub enum ErrorKind {
    BinaryFileError,
    BlobReferenceError,
    SubprocessError,
    TemporaryFileError,
    TerminalInitError,
}

impl ErrorKind {
    /// The one-line description shown in the error overlay.
    pub open spec fn spec_str(self) -> Seq<char> {
        match self {
            ErrorKind::BinaryFileError => "Unable to load and display binary files"@,
            ErrorKind::BlobReferenceError => "Unable to load blob from repository"@,
            ErrorKind::SubprocessError => "Failed to execute subprocess"@,
            ErrorKind::TemporaryFileError => "Failed to write temporary file"@,
            ErrorKind::TerminalInitError => "Failed to reinitialize terminal"@,
        }
    }

    pub fn as_str(&self) -> (r: &str)
        ensures
            r@ == self.spec_str(),
    {
        match *self {
            ErrorKind::BinaryFileError => "Unable to load and display binary files",
            ErrorKind::BlobReferenceError => "Unable to load blob from repository",
            ErrorKind::SubprocessError => "Failed to execute subprocess",
            ErrorKind::TemporaryFileError => "Failed to write temporary file",
            ErrorKind::TerminalInitError => "Failed to reinitialize terminal",
        }
    }
}

/// A recoverable browser error; dismissed with Back.
#[derive(Clone, Copy, Debug, Eq, PartialEq, Structural)]
pub enum GitBrowserError {
    Error(ErrorKind),
}

impl GitBrowserError {
    pub open spec fn spec_str(self) -> Seq<char> {
        match self {
            GitBrowserError::Error(err) => err.spec_str(),
        }
    }

    pub fn as_str(&self) -> (r: &str)
        ensures
            r@ == self.spec_str(),
    {
        match &self {
            GitBrowserError::Error(err) => err.as_str(),
        }
    }
}

} // verus!
