//! The scorer: a deterministic pure function from a normalized pull request
//! and the required-approval count to a named score breakdown.
//!
//! The reference formula is stated over real numbers:
//! ```text
//! age               = (lastCommitAgeMinutes / 60) * 2
//! testsResult       = (testsResultRank - 1) * -200
//! openConversations = openConversations * -30
//! numApprovals      = (numApprovals - requiredApprovals) * -80
//! numReviewers      = (numReviewers - requiredApprovals) * -50
//! additions         = additions * -0.5
//! deletions         = deletions * -0.1
//! basedOnMainBranch = 200 if based on main, else 0
//! blame             = 400 if blamed, else 0
//! requested         = 800 if requested, else 0
//! codeowner         = 400 if code owner, else 0
//! ```
//! Every denominator divides `SCORE_SCALE` (3000), so each component is held
//! as an exact integer count of 1/3000ths of a point and no rounding happens
//! anywhere in scoring or ranking.

use vstd::prelude::*;
use crate::types::{Pr, Score, TestsState};

verus! {

/// Fixed-point units per score point.
pub const SCORE_SCALE: i128 = 3000;

/// Rank of a CI state in the scoring formula: Success = 0, Pending = 1,
/// Failure = 2; a pull request without CI counts as successful.
pub open spec fn spec_tests_rank(t: TestsState) -> int {
    match t {
        TestsState::Success => 0,
        TestsState::Pending => 1,
        TestsState::Failure => 2,
        TestsState::Absent => 0,
    }
}

/// Minutes of age that enter the formula: the known age, or 0 if unknown.
pub open spec fn spec_age_min(pr: crate::types::PrView) -> int {
    match pr.last_commit_age_min {
        Option::Some(m) => m as int,
        Option::None => 0,
    }
}

/// The score breakdown of a pull request view, in units of 1/3000 of a
/// point. `(m / 60) * 2` points is exactly `m * 100` units, `a * -0.5`
/// points is exactly `a * -1500` units, and `d * -0.1` points is exactly
/// `d * -300` units.
pub open spec fn spec_score_view(required_approvals: u8, pr: crate::types::PrView) -> Score {
    Score {
        age: (spec_age_min(pr) * 100) as i128,
        tests_result: ((spec_tests_rank(pr.tests_result) - 1) * -600000) as i128,
        open_conversations: (pr.open_conversations * -90000) as i128,
        num_approvals: ((pr.num_approvals - required_approvals) * -240000) as i128,
        num_reviewers: ((pr.num_reviewers - required_approvals) * -150000) as i128,
        additions: (pr.additions * -1500) as i128,
        deletions: (pr.deletions * -300) as i128,
        based_on_main_branch: if pr.based_on_main_branch { 600000 } else { 0 },
        blame: if pr.blame { 1200000 } else { 0 },
        requested: if pr.requested { 2400000 } else { 0 },
        codeowner: if pr.codeowner { 1200000 } else { 0 },
    }
}

/// The score breakdown of `pr`.
pub open spec fn spec_score(required_approvals: u8, pr: Pr) -> Score {
    spec_score_view(required_approvals, pr@)
}

/// The sum of the breakdown's components, in units of 1/3000 of a point.
pub open spec fn spec_total(s: Score) -> int {
    s.age + s.tests_result + s.open_conversations + s.num_approvals + s.num_reviewers
        + s.additions + s.deletions + s.based_on_main_branch + s.blame + s.requested
        + s.codeowner
}

/// Every component a score built by `spec_score` can hold fits comfortably
/// below this bound, which keeps sums and negations inside `i128`.
pub open spec fn score_component_bound() -> int {
    0x1000_0000_0000_0000_0000_0000
}

/// A score whose components are small enough that their sum cannot overflow.
pub open spec fn score_wf(s: Score) -> bool {
    &&& -score_component_bound() <= s.age <= score_component_bound()
    &&& -score_component_bound() <= s.tests_result <= score_component_bound()
    &&& -score_component_bound() <= s.open_conversations <= score_component_bound()
    &&& -score_component_bound() <= s.num_approvals <= score_component_bound()
    &&& -score_component_bound() <= s.num_reviewers <= score_component_bound()
    &&& -score_component_bound() <= s.additions <= score_component_bound()
    &&& -score_component_bound() <= s.deletions <= score_component_bound()
    &&& -score_component_bound() <= s.based_on_main_branch <= score_component_bound()
    &&& -score_component_bound() <= s.blame <= score_component_bound()
    &&& -score_component_bound() <= s.requested <= score_component_bound()
    &&& -score_component_bound() <= s.codeowner <= score_component_bound()
}

impl Score {
    /// Builds the score breakdown of `pr`. Deterministic: the result is a
    /// function of `pr` and `required_approvals` alone.
    #[verifier::nonlinear]
    pub fn from_pr(required_approvals: u8, pr: &Pr) -> (s: Score)
        ensures
            s == spec_score(required_approvals, *pr),
            score_wf(s),
    {
        let tests_result_i: i128 = match pr.tests_result {
            TestsState::Success => 0,
            TestsState::Pending => 1,
            TestsState::Failure => 2,
            TestsState::Absent => 0,
        };
        let age_min: i64 = match pr.last_commit_age_min {
            Option::Some(m) => m,
            Option::None => 0,
        };
        Score {
            age: (age_min as i128) * 100,
            tests_result: (tests_result_i - 1) * -600000,
            open_conversations: (pr.open_conversations as i128) * -90000,
            num_approvals: ((pr.num_approvals as i128) - (required_approvals as i128)) * -240000,
            num_reviewers: ((pr.num_reviewers as i128) - (required_approvals as i128)) * -150000,
            additions: (pr.additions as i128) * -1500,
            deletions: (pr.deletions as i128) * -300,
            based_on_main_branch: if pr.based_on_main_branch { 600000 } else { 0 },
            blame: if pr.blame { 1200000 } else { 0 },
            requested: if pr.requested { 2400000 } else { 0 },
            codeowner: if pr.codeowner { 1200000 } else { 0 },
        }
    }

    /// The total score: the sum of all components, in units of 1/3000 of a
    /// point.
    pub fn total(&self) -> (t: i128)
        requires
            score_wf(*self),
        ensures
            t == spec_total(*self),
    {
        self.age + self.tests_result + self.open_conversations + self.num_approvals
            + self.num_reviewers + self.additions + self.deletions + self.based_on_main_branch
            + self.blame + self.requested + self.codeowner
    }
}

/// Truncation of `t / 3` toward zero, on mathematical integers.
pub open spec fn spec_trunc_div3(t: int) -> int {
    if t >= 0 {
        t / 3
    } else {
        -((-t) / 3)
    }
}

/// The ranking key of a score: the total in points scaled by 1000 and
/// truncated to an integer. One unit is 1/3000 of a point, so the key is the
/// total in units divided by 3, truncated toward zero.
pub open spec fn spec_rank_key(s: Score) -> int {
    spec_trunc_div3(spec_total(s))
}

impl Score {
    /// The ranking key: the total score in points, scaled by 1000 and
    /// truncated to an integer.
    pub fn rank_key(&self) -> (k: i128)
        requires
            score_wf(*self),
        ensures
            k == spec_rank_key(*self),
    {
        let t = self.total();
        if t >= 0 {
            ((t as u128) / 3) as i128
        } else {
            -((((-t) as u128) / 3) as i128)
        }
    }
}

/// Increasing `open_conversations` by one, with every other field unchanged,
/// lowers the total score by exactly 30 points (90000 units).
pub proof fn lemma_open_conversation_penalty(required_approvals: u8, pr: Pr, pr2: Pr)
    requires
        (pr2 == Pr { open_conversations: pr2.open_conversations, ..pr }),
        pr2.open_conversations == pr.open_conversations + 1,
    ensures
        spec_total(spec_score(required_approvals, pr2)) == spec_total(
            spec_score(required_approvals, pr),
        ) - 30 * SCORE_SCALE,
{
}

/// Setting `blame` to true, with every other field unchanged, raises the
/// total score by exactly 400 points (1200000 units).
pub proof fn lemma_blame_bonus(required_approvals: u8, pr: Pr, pr2: Pr)
    requires
        (pr2 == Pr { blame: true, ..pr }),
        !pr.blame,
    ensures
        spec_total(spec_score(required_approvals, pr2)) == spec_total(
            spec_score(required_approvals, pr),
        ) + 400 * SCORE_SCALE,
{
}

} // verus!
