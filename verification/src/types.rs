//! Core data types: the normalized pull request record, its score breakdown,
//! and the follow-up review record.

use vstd::prelude::*;

verus! {

/// Aggregate CI state of a pull request's most recent commit.
/// `Absent` means the commit has no CI information at all.
#[derive(Clone, Copy, Debug, PartialEq, Eq, Structural)]
pub enum TestsState {
    Pending,
    Success,
    Failure,
    Absent,
}

/// Whether the acting user was asked to review a pull request,
/// and in which role.
#[derive(Clone, Copy, Debug, PartialEq, Eq, Structural)]
pub enum ReviewRequested {
    RequestedAsCodeOwner,
    RequestedNotAsCodeOwner,
    NotRequested,
}

/// Changed file paths of a pull request.
#[derive(Clone, Debug, PartialEq, Eq)]
pub struct Files(pub Vec<String>);

/// A label attached to a pull request.
#[derive(Clone, Debug, PartialEq, Eq)]
pub struct Label {
    pub name: String,
    pub color: String,
}

/// The labels attached to a pull request.
#[derive(Clone, Debug, PartialEq, Eq)]
pub struct Labels(pub Vec<Label>);

/// A normalized pull request: the projection of one raw search-result node
/// plus derived fields, created once and never mutated.
#[derive(Clone, Debug)]
pub struct Pr {
    pub title: String,
    pub url: String,
    /// Seconds since the Unix epoch of the last commit's push, if known.
    pub last_commit_pushed_date: Option<i64>,
    /// Whole minutes between that push and the moment of the query.
    pub last_commit_age_min: Option<i64>,
    pub tests_result: TestsState,
    pub open_conversations: i64,
    pub num_approvals: i64,
    pub num_reviewers: i64,
    pub additions: i64,
    pub deletions: i64,
    pub based_on_main_branch: bool,
    pub files: Files,
    pub blame: bool,
    pub labels: Labels,
    pub requested: bool,
    pub codeowner: bool,
}

/// The named score breakdown of one pull request.
///
/// Every field is an exact fixed-point value in units of 1/3000 of a score
/// point (`SCORE_SCALE`); the rank key `total * 1000` is then `total / 3`
/// of these units, computed without any rounding error.
#[derive(Clone, Copy, Debug, PartialEq, Eq, Structural)]
pub struct Score {
    pub age: i128,
    pub tests_result: i128,
    pub open_conversations: i128,
    pub num_approvals: i128,
    pub num_reviewers: i128,
    pub additions: i128,
    pub deletions: i128,
    pub based_on_main_branch: i128,
    pub blame: i128,
    pub requested: i128,
    pub codeowner: i128,
}

/// One pull request together with its score: the unit of ranking.
#[derive(Clone, Debug)]
pub struct ScoredPr {
    pub pr: Pr,
    pub score: Score,
}

/// A previously given review that deserves renewed attention.
#[derive(Clone, Debug, PartialEq, Eq)]
pub struct Review {
    pub state: ReviewState,
    pub url: String,
    pub pr_title: String,
}

/// Why a past review needs another look: it was dismissed, or every
/// conversation it opened has since been answered.
#[derive(Clone, Copy, Debug, PartialEq, Eq, Structural)]
pub enum ReviewState {
    Dismissed,
    WithAddressedConversations,
}

/// Environment-derived configuration handed to the command layer.
#[derive(Clone, Debug)]
pub struct Config {
    pub github_api_token: String,
}

/// The mathematical view of a label.
pub struct LabelView {
    pub name: Seq<char>,
    pub color: Seq<char>,
}

impl View for Label {
    type V = LabelView;

    open spec fn view(&self) -> LabelView {
        LabelView { name: self.name@, color: self.color@ }
    }
}

/// The mathematical view of a normalized pull request: strings and lists
/// become sequences, everything else is carried as is.
pub struct PrView {
    pub title: Seq<char>,
    pub url: Seq<char>,
    pub last_commit_pushed_date: Option<i64>,
    pub last_commit_age_min: Option<i64>,
    pub tests_result: TestsState,
    pub open_conversations: i64,
    pub num_approvals: i64,
    pub num_reviewers: i64,
    pub additions: i64,
    pub deletions: i64,
    pub based_on_main_branch: bool,
    pub files: Seq<Seq<char>>,
    pub blame: bool,
    pub labels: Seq<LabelView>,
    pub requested: bool,
    pub codeowner: bool,
}

impl View for Pr {
    type V = PrView;

    open spec fn view(&self) -> PrView {
        PrView {
            title: self.title@,
            url: self.url@,
            last_commit_pushed_date: self.last_commit_pushed_date,
            last_commit_age_min: self.last_commit_age_min,
            tests_result: self.tests_result,
            open_conversations: self.open_conversations,
            num_approvals: self.num_approvals,
            num_reviewers: self.num_reviewers,
            additions: self.additions,
            deletions: self.deletions,
            based_on_main_branch: self.based_on_main_branch,
            files: self.files.0@.map_values(|s: String| s@),
            blame: self.blame,
            labels: self.labels.0@.map_values(|l: Label| l@),
            requested: self.requested,
            codeowner: self.codeowner,
        }
    }
}

/// The mathematical view of one scored pull request.
pub struct ScoredPrView {
    pub pr: PrView,
    pub score: Score,
}

impl View for ScoredPr {
    type V = ScoredPrView;

    open spec fn view(&self) -> ScoredPrView {
        ScoredPrView { pr: self.pr@, score: self.score }
    }
}

} // verus!
