//! The user-facing option records. The command-line layer parses arguments
//! into these plain values; everything the pipeline decides is a function
//! of them.

use vstd::prelude::*;

verus! {

/// The whole invocation: exactly one subcommand.
#[derive(Clone, Debug)]
pub struct Ateam {
    pub cmd: Command,
}

/// The two subcommands: rank open pull requests, or list reviews that need
/// a second look.
#[derive(Clone, Debug)]
pub enum Command {
    Pr(PrArgs),
    Followup(FollowupArgs),
}

/// Options of the ranking subcommand.
#[derive(Clone, Debug)]
pub struct PrArgs {
    /// Repositories to search; may name several.
    pub repo: Vec<String>,
    /// Search all repositories of one organization.
    pub org: Option<String>,
    /// Free-form query fragments appended to the search query.
    pub query: Vec<String>,
    /// How many pull requests to display.
    pub num: Option<usize>,
    /// Short one-line-per-entry output.
    pub short: bool,
    /// JSON output.
    pub json: bool,
    /// Required labels.
    pub label: Vec<String>,
    /// Labels that exclude a pull request.
    pub exclude_label: Vec<String>,
    /// Keep only titles matching this pattern.
    pub regex: Option<String>,
    /// Drop titles matching this pattern.
    pub regex_not: Option<String>,
    /// Keep pull requests the user has already reviewed.
    pub include_reviewed_by_me: bool,
    /// Keep the user's own pull requests.
    pub include_mine: bool,
    /// Keep only the user's own pull requests.
    pub only_mine: bool,
    /// Keep only pull requests whose review was requested of the user.
    pub requested: bool,
    /// Keep draft pull requests.
    pub include_drafts: bool,
    /// Keep pull requests whose tests are still pending.
    pub include_tests_pending: bool,
    /// Keep pull requests whose tests failed.
    pub include_tests_failure: bool,
    /// Drop pull requests without any tests.
    pub exclude_tests_none: bool,
    /// Drop pull requests whose tests succeeded.
    pub exclude_tests_success: bool,
    /// Consider only CI contexts whose name matches this pattern.
    pub tests_regex: Option<String>,
    /// How many approvals a pull request needs.
    pub required_approvals: u8,
    /// Check whether the user historically authored the changed files.
    pub blame: bool,
    /// Act as this user instead of the token's owner.
    pub user: Option<String>,
    /// Pull requests requested per search page.
    pub batch_size: u8,
    /// Emit debug information.
    pub debug: bool,
}

/// Options of the follow-up subcommand.
#[derive(Clone, Debug)]
pub struct FollowupArgs {
    /// JSON output.
    pub json: bool,
    /// Act as this user instead of the token's owner.
    pub user: Option<String>,
}

} // verus!
