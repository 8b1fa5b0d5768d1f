use ateam::types::Score;
use ateam::types::{Files, Labels, Pr, TestsState};

fn base_pr() -> Pr {
    Pr {
        title: "t".to_string(),
        url: "u".to_string(),
        last_commit_pushed_date: None,
        last_commit_age_min: Some(120),
        tests_result: TestsState::Success,
        open_conversations: 3,
        num_approvals: 1,
        num_reviewers: 2,
        additions: 10,
        deletions: 20,
        based_on_main_branch: true,
        files: Files(vec![]),
        blame: false,
        labels: Labels(vec![]),
        requested: false,
        codeowner: false,
    }
}

// One score point is 3000 units, so a component of `x` points is
// `x * 3000` units.
const UNIT: i128 = 3000;

#[test]
fn score_components_match_the_formula() {
    let s = Score::from_pr(2, &base_pr());
    // (120 / 60) * 2 = 4 points
    assert_eq!(s.age, 4 * UNIT);
    // (0 - 1) * -200 = 200 points
    assert_eq!(s.tests_result, 200 * UNIT);
    // 3 * -30 = -90 points
    assert_eq!(s.open_conversations, -90 * UNIT);
    // (1 - 2) * -80 = 80 points
    assert_eq!(s.num_approvals, 80 * UNIT);
    // (2 - 2) * -50 = 0 points
    assert_eq!(s.num_reviewers, 0);
    // 10 * -0.5 = -5 points
    assert_eq!(s.additions, -5 * UNIT);
    // 20 * -0.1 = -2 points
    assert_eq!(s.deletions, -2 * UNIT);
    assert_eq!(s.based_on_main_branch, 200 * UNIT);
    assert_eq!(s.blame, 0);
    assert_eq!(s.requested, 0);
    assert_eq!(s.codeowner, 0);
    // 4 + 200 - 90 + 80 + 0 - 5 - 2 + 200 = 387 points
    assert_eq!(s.total(), 387 * UNIT);
    // rank key: total * 1000 = total_units / 3
    assert_eq!(s.rank_key(), 387_000);
}

#[test]
fn fractional_age_keeps_exact_units() {
    let mut pr = base_pr();
    pr.last_commit_age_min = Some(1);
    let s = Score::from_pr(2, &pr);
    // (1 / 60) * 2 points is exactly 100 units of 1/3000.
    assert_eq!(s.age, 100);
}

#[test]
fn tests_state_ranks() {
    let mut pr = base_pr();
    pr.tests_result = TestsState::Pending;
    assert_eq!(Score::from_pr(2, &pr).tests_result, 0);
    pr.tests_result = TestsState::Failure;
    assert_eq!(Score::from_pr(2, &pr).tests_result, -200 * UNIT);
    pr.tests_result = TestsState::Absent;
    assert_eq!(Score::from_pr(2, &pr).tests_result, 200 * UNIT);
}

#[test]
fn one_more_open_conversation_costs_thirty_points() {
    let pr = base_pr();
    let mut pr2 = base_pr();
    pr2.open_conversations += 1;
    let t1 = Score::from_pr(2, &pr).total();
    let t2 = Score::from_pr(2, &pr2).total();
    assert_eq!(t2, t1 - 30 * UNIT);
}

#[test]
fn blame_adds_four_hundred_points() {
    let pr = base_pr();
    let mut pr2 = base_pr();
    pr2.blame = true;
    let t1 = Score::from_pr(2, &pr).total();
    let t2 = Score::from_pr(2, &pr2).total();
    assert_eq!(t2, t1 + 400 * UNIT);
}

#[test]
fn monotonicity_holds_for_other_field_values() {
    let mut pr = base_pr();
    pr.additions = 123456;
    pr.deletions = 7;
    pr.requested = true;
    pr.codeowner = true;
    pr.tests_result = TestsState::Failure;
    pr.last_commit_age_min = Some(999_999);
    let mut pr2 = pr.clone();
    pr2.open_conversations += 1;
    let t1 = Score::from_pr(5, &pr).total();
    let t2 = Score::from_pr(5, &pr2).total();
    assert_eq!(t2, t1 - 30 * UNIT);

    let mut pr3 = pr.clone();
    pr3.blame = true;
    let t3 = Score::from_pr(5, &pr3).total();
    assert_eq!(t3, t1 + 400 * UNIT);
}

#[test]
fn negative_rank_key_truncates_toward_zero() {
    let mut pr = base_pr();
    pr.last_commit_age_min = Some(0);
    pr.tests_result = TestsState::Pending;
    pr.open_conversations = 0;
    pr.num_approvals = 2;
    pr.num_reviewers = 2;
    pr.additions = 1;
    pr.deletions = 0;
    pr.based_on_main_branch = false;
    // total = -0.5 points = -1500 units; key = -500
    let s = Score::from_pr(2, &pr);
    assert_eq!(s.total(), -1500);
    assert_eq!(s.rank_key(), -500);
}
