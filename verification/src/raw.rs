//! The explicit model of one raw search-result node: what the transport's
//! response graph carries, flattened into plain values with every optional
//! layer given a documented default. The normalizer consumes these and
//! nothing else pattern-matches nested nullables.

use vstd::prelude::*;

verus! {

/// The platform's merge-state verdict on a pull request.
#[derive(Clone, Copy, Debug, PartialEq, Eq, Structural)]
pub enum MergeableState {
    Mergeable,
    Conflicting,
    Unknown,
}

/// The state of one CI status or check context as the platform reports it.
#[derive(Clone, Copy, Debug, PartialEq, Eq, Structural)]
pub enum RawStatusState {
    Success,
    Pending,
    Expected,
    Failure,
    Error,
    Other,
}

/// One node of a commit's check-context list. Only classic status contexts
/// carry a name and a state; everything else (check runs and the like) is
/// ignored by the CI filter.
#[derive(Clone, Debug)]
pub enum RawContextNode {
    StatusContext { name: String, state: RawStatusState },
    Other,
}

/// A commit's aggregate CI rollup: the combined state and the individual
/// contexts behind it.
#[derive(Clone, Debug)]
pub struct RawRollup {
    pub state: RawStatusState,
    pub contexts: Vec<RawContextNode>,
}

/// The most recent commit of a pull request: when it was pushed, and its
/// CI rollup if the platform reported one.
#[derive(Clone, Debug)]
pub struct RawCommit {
    pub pushed_date: Option<String>,
    pub status_check_rollup: Option<RawRollup>,
}

/// One review on a pull request: who gave it (absent when the account is
/// gone) and its state.
#[derive(Clone, Debug)]
pub struct RawReview {
    pub author_login: Option<String>,
    pub state: RawReviewState,
}

/// The state of a review as the platform reports it.
#[derive(Clone, Copy, Debug, PartialEq, Eq, Structural)]
pub enum RawReviewState {
    Approved,
    ChangesRequested,
    Commented,
    Dismissed,
    Pending,
    Other,
}

/// One review thread: whether it was resolved, and whether the diff under
/// it has changed since.
#[derive(Clone, Copy, Debug, PartialEq, Eq, Structural)]
pub struct RawThread {
    pub is_resolved: bool,
    pub is_outdated: bool,
}

/// Whom a review request points at.
#[derive(Clone, Debug)]
pub enum RawRequestedReviewer {
    User { login: String },
    Team { member_logins: Vec<String> },
    Mannequin,
}

/// One review request. Whom it points at is absent only when the token
/// lacks the scope to read it, which the pipeline reports as an error.
#[derive(Clone, Debug)]
pub struct RawReviewRequest {
    pub as_code_owner: bool,
    pub requested_reviewer: Option<RawRequestedReviewer>,
}

/// A label as the platform reports it.
#[derive(Clone, Debug)]
pub struct RawLabel {
    pub name: String,
    pub color: String,
}

/// One raw pull request node of a search page, flattened to plain values.
/// A missing author reads as no author; missing lists read as empty.
#[derive(Clone, Debug)]
pub struct RawPullRequest {
    pub title: String,
    pub url: String,
    pub author_login: Option<String>,
    pub additions: i64,
    pub deletions: i64,
    pub base_ref_name: String,
    pub mergeable: MergeableState,
    pub last_commit: Option<RawCommit>,
    pub reviews: Vec<RawReview>,
    pub review_threads: Vec<RawThread>,
    pub review_requests: Vec<RawReviewRequest>,
    pub labels: Vec<RawLabel>,
    pub files: Vec<String>,
}

/// What one search edge's node turned out to be.
#[derive(Clone, Debug)]
pub enum SearchNode {
    PullRequest(RawPullRequest),
    Other,
}

/// One edge of a search page: its pagination cursor and its node, if any.
#[derive(Clone, Debug)]
pub struct SearchItem {
    pub cursor: String,
    pub node: Option<SearchNode>,
}

} // verus!
