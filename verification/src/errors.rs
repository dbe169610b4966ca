//! The error taxonomy of a run, and the message each error carries.

use vstd::prelude::*;

verus! {

/// Every way a run can fail. All errors are terminal: the tool stops at the
/// first one and reports its message on the error stream.
#[derive(Debug, Clone, PartialEq, Eq)]
pub enum RunError {
    /// No positional filepath argument was supplied.
    MissingFilepath,
    /// The supplied path does not name an existing regular file.
    InvalidFilepath,
    /// The file could not be opened for writing for a reason other than
    /// non-existence.
    OpenFailure,
    /// Any other underlying I/O failure, carrying the description that the
    /// platform's I/O layer gave.
    Io(String),
}

impl RunError {
    /// The single-line message reported for this failure.
    pub open spec fn spec_message(&self) -> Seq<char> {
        match self {
            RunError::MissingFilepath => "Filepath required"@,
            RunError::InvalidFilepath => "Filepath arg must be a file"@,
            RunError::OpenFailure => "Could not open file"@,
            RunError::Io(description) => description@,
        }
    }

    /// Renders the message for this failure.
    pub fn message(&self) -> (r: String)
        ensures
            r@ == self.spec_message(),
    {
        match self {
            RunError::MissingFilepath => "Filepath required".to_owned(),
            RunError::InvalidFilepath => "Filepath arg must be a file".to_owned(),
            RunError::OpenFailure => "Could not open file".to_owned(),
            RunError::Io(description) => description.clone(),
        }
    }
}

} // verus!
