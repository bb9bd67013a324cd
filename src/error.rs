//! Errors of a search run.

use vstd::prelude::*;

verus! {

/// Why a search run stopped.
#[derive(Debug, PartialEq, Eq)]
pub enum SearchError {
    /// The request could not be sent or its response not received.
    Transport(String),
    /// The server answered with a status other than 200.
    UnexpectedStatus(u16),
    /// The response body did not have the expected shape.
    Decode(String),
    /// A result came without the text matches that rendering needs.
    MissingTextMatches,
    /// The terms gave a pattern that the regex engine refused.
    InvalidPattern,
}

} // verus!
