//! The ways a run can fail.
use vstd::prelude::*;

verus! {

#[verifier::external_type_specification]
#[verifier::external_body]
pub struct ExChronoParseError(chrono::format::ParseError);

#[verifier::external_type_specification]
#[verifier::external_body]
pub struct ExRegexError(regex::Error);

/// Every failure aborts the whole run.
#[derive(Debug)]
pub enum GitLabError {
    /// The request could not be sent or its body not read; holds the transport's message.
    ReqwestError(String),
    /// A timestamp is not a time-zone-aware instant.
    ChronoParseError(chrono::format::ParseError),
    /// The API answered with a status outside the success range.
    ApiError(u16),
    /// A change request has no commits, so it has no origin commit.
    EmptyCommitList,
    /// The merge pattern, built from the branch name as given, is not a valid regular expression.
    RegexError(regex::Error),
}

} // verus!
