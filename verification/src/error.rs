//! The errors of a search.

use vstd::prelude::*;

verus! {

/// Why a search could not be carried out.
#[derive(Debug)]
pub enum SearchError {
    /// A directory or a file could not be read; the text is the host's reason.
    Io(String),
    /// The search expression is not a valid regular expression.
    Pattern(String),
    /// The name filter is not a valid glob.
    Glob(String),
}

impl SearchError {
    /// The human-readable reason carried by the error.
    pub fn message(&self) -> (text: String)
        ensures
            text@ == self.reason(),
    {
        match self {
            SearchError::Io(reason) => reason.clone(),
            SearchError::Pattern(reason) => reason.clone(),
            SearchError::Glob(reason) => reason.clone(),
        }
    }

    /// The reason as a sequence of characters.
    pub open spec fn reason(&self) -> Seq<char> {
        match self {
            SearchError::Io(reason) => reason@,
            SearchError::Pattern(reason) => reason@,
            SearchError::Glob(reason) => reason@,
        }
    }
}

} // verus!
