//! Error values of the library. Every unrecoverable condition becomes an
//! explicit error value propagated to the command boundary; verified code
//! never panics.

use vstd::prelude::*;

verus! {

/// The failure conditions the pipeline can report.
#[derive(Clone, Debug, PartialEq, Eq)]
pub enum AteamError {
    /// A user-supplied regular expression was rejected by the regex engine.
    InvalidRegex { pattern: String },
    /// A transport response carried no usable data for the given page.
    MissingResponseData { page: usize },
    /// A review request that names nobody the token can read, which the
    /// platform only does when the token lacks the needed scope.
    MissingReviewerData,
}

impl AteamError {
    /// A short diagnostic label for this error, for the command boundary.
    pub fn message(&self) -> (m: &'static str)
        ensures
            (match self {
                AteamError::InvalidRegex { .. } => m@ == "invalid regular expression"@,
                AteamError::MissingResponseData { .. } => m@ == "missing response data"@,
                AteamError::MissingReviewerData => m@
                    == "review request without a readable user"@,
            }),
    {
        match self {
            AteamError::InvalidRegex { .. } => "invalid regular expression",
            AteamError::MissingResponseData { .. } => "missing response data",
            AteamError::MissingReviewerData => "review request without a readable user",
        }
    }
}

} // verus!
