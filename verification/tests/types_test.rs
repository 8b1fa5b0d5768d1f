use ateam::types::{Files, Labels, Label, Pr, Review, ReviewState, TestsState};

fn sample_pr() -> Pr {
    Pr {
        title: "Some important changes".to_string(),
        url: "https://github.com/frisoft/ateam/pull/1".to_string(),
        last_commit_pushed_date: None,
        last_commit_age_min: None,
        tests_result: TestsState::Success,
        open_conversations: 0,
        num_approvals: 1,
        num_reviewers: 2,
        additions: 1000,
        deletions: 999,
        based_on_main_branch: true,
        files: Files(vec![]),
        blame: false,
        labels: Labels(vec![]),
        requested: true,
        codeowner: false,
    }
}

#[test]
fn pr_fmt_method() {
    let pr = sample_pr();

    assert_eq!(
        pr.display_string(),
        "https://github.com/frisoft/ateam/pull/1 - Some important changes ",
    );
}

#[test]
fn pr_display_with_labels() {
    let mut pr = sample_pr();
    pr.labels = Labels(vec![
        Label { name: "bug".to_string(), color: "red".to_string() },
        Label { name: "urgent".to_string(), color: "blue".to_string() },
    ]);
    assert_eq!(
        pr.display_string(),
        "https://github.com/frisoft/ateam/pull/1 - Some important changes (bug) (urgent)",
    );
}

#[test]
fn review_state_display() {
    assert_eq!(ReviewState::Dismissed.display_string(), "Dismissed");
    assert_eq!(
        ReviewState::WithAddressedConversations.display_string(),
        "With addressed conversations"
    );
    let r = Review {
        state: ReviewState::Dismissed,
        url: "u".to_string(),
        pr_title: "t".to_string(),
    };
    assert_eq!(r.state, ReviewState::Dismissed);
}
