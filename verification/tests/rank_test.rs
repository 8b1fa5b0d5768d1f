use ateam::rank::sorted_ranked_prs;
use ateam::types::Score;
use ateam::types::{Files, Labels, Pr, ScoredPr, TestsState};

fn pr_with(title: &str, additions: i64) -> Pr {
    Pr {
        title: title.to_string(),
        url: "u".to_string(),
        last_commit_pushed_date: None,
        last_commit_age_min: None,
        tests_result: TestsState::Success,
        open_conversations: 0,
        num_approvals: 2,
        num_reviewers: 2,
        additions,
        deletions: 0,
        based_on_main_branch: false,
        files: Files(vec![]),
        blame: false,
        labels: Labels(vec![]),
        requested: false,
        codeowner: false,
    }
}

fn scored(title: &str, additions: i64) -> ScoredPr {
    let pr = pr_with(title, additions);
    let score = Score::from_pr(2, &pr);
    ScoredPr { pr, score }
}

#[test]
fn sorts_descending_by_score() {
    let input = vec![scored("low", 100), scored("high", 1), scored("mid", 10)];
    let out = sorted_ranked_prs(input);
    let titles: Vec<&str> = out.iter().map(|s| s.pr.title.as_str()).collect();
    assert_eq!(titles, vec!["high", "mid", "low"]);
}

#[test]
fn equal_scores_keep_input_order() {
    let input = vec![
        scored("first", 10),
        scored("second", 10),
        scored("third", 10),
        scored("fourth", 1),
    ];
    let out = sorted_ranked_prs(input);
    let titles: Vec<&str> = out.iter().map(|s| s.pr.title.as_str()).collect();
    assert_eq!(titles, vec!["fourth", "first", "second", "third"]);
}

#[test]
fn empty_and_singleton_are_unchanged() {
    let out = sorted_ranked_prs(vec![]);
    assert_eq!(out.len(), 0);
    let out = sorted_ranked_prs(vec![scored("only", 5)]);
    assert_eq!(out.len(), 1);
    assert_eq!(out[0].pr.title, "only");
}

#[test]
fn keys_closer_than_a_thousandth_tie() {
    // 1 addition unit apart: totals differ by 1500 units, keys by 500.
    let a = scored("a", 2);
    let b = scored("b", 1);
    assert_ne!(a.score.rank_key(), b.score.rank_key());
    let out = sorted_ranked_prs(vec![a, b]);
    assert_eq!(out[0].pr.title, "b");
}
