use ateam::cli::PrArgs;
use ateam::error::AteamError;
use ateam::normalize::{
    author, commit_tests_state_from_contexts, has_conflicts, include_by_tests_state, include_pr,
    is_empty, normalize_node, pr_based_on_main_branch, pr_num_approvals, pr_open_conversations,
    review_requested, review_states,
};
use ateam::pattern::{compile_regex, CompiledRegex};
use ateam::raw::{
    MergeableState, RawCommit, RawContextNode, RawLabel, RawPullRequest, RawRequestedReviewer,
    RawReview, RawReviewRequest, RawReviewState, RawRollup, RawStatusState, RawThread,
};
use ateam::types::{ReviewRequested, TestsState};

fn base_node() -> RawPullRequest {
    RawPullRequest {
        title: "Fix the frobnicator".to_string(),
        url: "https://example.test/pr/1".to_string(),
        author_login: Some("alice".to_string()),
        additions: 5,
        deletions: 3,
        base_ref_name: "main".to_string(),
        mergeable: MergeableState::Mergeable,
        last_commit: None,
        reviews: vec![],
        review_threads: vec![],
        review_requests: vec![],
        labels: vec![],
        files: vec![],
    }
}

fn default_args() -> PrArgs {
    PrArgs {
        repo: vec![],
        org: None,
        query: vec![],
        num: None,
        short: false,
        json: false,
        label: vec![],
        exclude_label: vec![],
        regex: None,
        regex_not: None,
        include_reviewed_by_me: false,
        include_mine: false,
        only_mine: false,
        requested: false,
        include_drafts: false,
        include_tests_pending: false,
        include_tests_failure: false,
        exclude_tests_none: false,
        exclude_tests_success: false,
        tests_regex: None,
        required_approvals: 2,
        blame: false,
        user: None,
        batch_size: 30,
        debug: false,
    }
}

fn review(login: &str, state: RawReviewState) -> RawReview {
    RawReview { author_login: Some(login.to_string()), state }
}

fn any_regex() -> CompiledRegex {
    match compile_regex(&Some(".*".to_string())) {
        Ok(Some(c)) => c,
        _ => panic!("pattern should compile"),
    }
}

fn context(name: &str, state: RawStatusState) -> RawContextNode {
    RawContextNode::StatusContext { name: name.to_string(), state }
}

#[test]
fn zero_diff_is_always_excluded() {
    let mut node = base_node();
    node.additions = 0;
    node.deletions = 0;
    assert!(is_empty(&node));
    let u = "bob".to_string();
    assert!(!include_pr(&node, &None, &None, &u, true, true, true));
}

#[test]
fn conflicts_are_excluded_from_ranking() {
    let mut node = base_node();
    node.mergeable = MergeableState::Conflicting;
    assert!(has_conflicts(&node));
    let u = "bob".to_string();
    assert!(!include_pr(&node, &None, &None, &u, true, true, true));
}

#[test]
fn title_regexes_filter_both_ways() {
    let node = base_node();
    let u = "bob".to_string();
    let frob = compile_regex(&Some("frobnicator".to_string())).unwrap();
    let zork = compile_regex(&Some("zork".to_string())).unwrap();
    assert!(include_pr(&node, &frob, &None, &u, false, false, false));
    assert!(!include_pr(&node, &zork, &None, &u, false, false, false));
    assert!(!include_pr(&node, &None, &frob, &u, false, false, false));
    assert!(include_pr(&node, &None, &zork, &u, false, false, false));
}

#[test]
fn own_prs_are_excluded_unless_asked_for() {
    let node = base_node();
    let alice = "alice".to_string();
    assert!(!include_pr(&node, &None, &None, &alice, false, false, false));
    assert!(include_pr(&node, &None, &None, &alice, true, false, false));
    assert!(include_pr(&node, &None, &None, &alice, false, true, false));
}

#[test]
fn reviewed_by_me_excluded_unless_asked_for() {
    let mut node = base_node();
    node.reviews = vec![review("bob", RawReviewState::Commented)];
    let bob = "bob".to_string();
    assert!(!include_pr(&node, &None, &None, &bob, false, false, false));
    assert!(include_pr(&node, &None, &None, &bob, false, false, true));
}

#[test]
fn ci_aggregation_follows_the_priority() {
    let re = any_regex();
    let both = vec![
        context("build", RawStatusState::Success),
        context("test", RawStatusState::Pending),
    ];
    assert_eq!(commit_tests_state_from_contexts(&both, &re), TestsState::Pending);
    let failing = vec![
        context("build", RawStatusState::Success),
        context("test", RawStatusState::Failure),
    ];
    assert_eq!(commit_tests_state_from_contexts(&failing, &re), TestsState::Failure);
    let green = vec![
        context("build", RawStatusState::Success),
        context("test", RawStatusState::Success),
    ];
    assert_eq!(commit_tests_state_from_contexts(&green, &re), TestsState::Success);
    let none: Vec<RawContextNode> = vec![];
    assert_eq!(commit_tests_state_from_contexts(&none, &re), TestsState::Absent);
}

#[test]
fn ci_aggregation_only_counts_matching_contexts() {
    let re = match compile_regex(&Some("^unit".to_string())) {
        Ok(Some(c)) => c,
        _ => panic!("pattern should compile"),
    };
    let contexts = vec![
        context("lint", RawStatusState::Failure),
        context("unit-tests", RawStatusState::Success),
    ];
    assert_eq!(commit_tests_state_from_contexts(&contexts, &re), TestsState::Success);
    let contexts = vec![context("lint", RawStatusState::Failure)];
    assert_eq!(commit_tests_state_from_contexts(&contexts, &re), TestsState::Absent);
}

#[test]
fn tests_state_flags_decide_inclusion() {
    let mut args = default_args();
    assert!(include_by_tests_state(&TestsState::Success, &args));
    assert!(!include_by_tests_state(&TestsState::Failure, &args));
    assert!(!include_by_tests_state(&TestsState::Pending, &args));
    assert!(include_by_tests_state(&TestsState::Absent, &args));
    args.exclude_tests_success = true;
    args.include_tests_failure = true;
    args.include_tests_pending = true;
    args.exclude_tests_none = true;
    assert!(!include_by_tests_state(&TestsState::Success, &args));
    assert!(include_by_tests_state(&TestsState::Failure, &args));
    assert!(include_by_tests_state(&TestsState::Pending, &args));
    assert!(!include_by_tests_state(&TestsState::Absent, &args));
}

#[test]
fn review_states_deduplicates_newest_first() {
    let reviews = vec![
        review("carol", RawReviewState::ChangesRequested),
        review("dan", RawReviewState::Approved),
        review("carol", RawReviewState::Approved),
        RawReview { author_login: None, state: RawReviewState::Approved },
        review("alice", RawReviewState::Approved),
    ];
    let author = "alice".to_string();
    let states = review_states(&reviews, &author, false);
    // newest first: carol's latest (Approved), then dan; alice is the
    // author and the authorless review is skipped.
    assert_eq!(states, vec![RawReviewState::Approved, RawReviewState::Approved]);
    assert_eq!(pr_num_approvals(&states), 2);

    let own = review_states(&reviews, &author, true);
    assert_eq!(own, vec![RawReviewState::Approved]);
}

#[test]
fn open_conversations_counts_unresolved_current_threads() {
    let threads = vec![
        RawThread { is_resolved: false, is_outdated: false },
        RawThread { is_resolved: true, is_outdated: false },
        RawThread { is_resolved: false, is_outdated: true },
    ];
    assert_eq!(pr_open_conversations(&threads), 1);
}

#[test]
fn main_and_master_count_as_main_branch() {
    assert!(pr_based_on_main_branch(&"main".to_string()));
    assert!(pr_based_on_main_branch(&"master".to_string()));
    assert!(!pr_based_on_main_branch(&"develop".to_string()));
}

#[test]
fn review_requested_roles() {
    let bob = "bob".to_string();
    let direct = vec![RawReviewRequest {
        as_code_owner: false,
        requested_reviewer: Some(RawRequestedReviewer::User { login: "bob".to_string() }),
    }];
    assert_eq!(review_requested(&direct, &bob), Ok(ReviewRequested::RequestedNotAsCodeOwner));

    let owner = vec![RawReviewRequest {
        as_code_owner: true,
        requested_reviewer: Some(RawRequestedReviewer::Team {
            member_logins: vec!["eve".to_string(), "bob".to_string()],
        }),
    }];
    assert_eq!(review_requested(&owner, &bob), Ok(ReviewRequested::RequestedAsCodeOwner));

    let other = vec![
        RawReviewRequest {
            as_code_owner: true,
            requested_reviewer: Some(RawRequestedReviewer::Mannequin),
        },
        RawReviewRequest {
            as_code_owner: true,
            requested_reviewer: Some(RawRequestedReviewer::User { login: "eve".to_string() }),
        },
    ];
    assert_eq!(review_requested(&other, &bob), Ok(ReviewRequested::NotRequested));

    let broken = vec![RawReviewRequest { as_code_owner: false, requested_reviewer: None }];
    assert_eq!(review_requested(&broken, &bob), Err(AteamError::MissingReviewerData));
}

#[test]
fn normalize_builds_the_record() {
    let mut node = base_node();
    node.reviews = vec![review("bob", RawReviewState::Approved)];
    node.review_threads = vec![RawThread { is_resolved: false, is_outdated: false }];
    node.labels = vec![RawLabel { name: "bug".to_string(), color: "red".to_string() }];
    node.last_commit = Some(RawCommit {
        pushed_date: Some("2015-05-15T00:00:00Z".to_string()),
        status_check_rollup: Some(RawRollup {
            state: RawStatusState::Success,
            contexts: vec![],
        }),
    });
    let args = default_args();
    let carol = "carol".to_string();
    // one hour after the push
    let now_s = 1431648000 + 3600;
    let r = normalize_node(&node, &args, &carol, &None, now_s, false);
    let p = r.expect("no error").expect("not filtered");
    assert_eq!(p.title, "Fix the frobnicator");
    assert_eq!(p.last_commit_pushed_date, Some(1431648000));
    assert_eq!(p.last_commit_age_min, Some(60));
    assert_eq!(p.tests_result, TestsState::Success);
    assert_eq!(p.open_conversations, 1);
    assert_eq!(p.num_approvals, 1);
    assert_eq!(p.num_reviewers, 1);
    assert_eq!(p.additions, 5);
    assert_eq!(p.deletions, 3);
    assert!(p.based_on_main_branch);
    assert_eq!(p.files.0.len(), 0);
    assert!(!p.blame);
    assert_eq!(p.labels.0.len(), 1);
    assert_eq!(p.labels.0[0].name, "bug");
    assert!(!p.requested);
    assert!(!p.codeowner);
}

#[test]
fn normalize_filters_by_tests_state() {
    let mut node = base_node();
    node.last_commit = Some(RawCommit {
        pushed_date: None,
        status_check_rollup: Some(RawRollup {
            state: RawStatusState::Failure,
            contexts: vec![],
        }),
    });
    let args = default_args();
    let carol = "carol".to_string();
    let r = normalize_node(&node, &args, &carol, &None, 0, false);
    assert!(matches!(r, Ok(None)));
}

#[test]
fn normalize_reports_unreadable_reviewer() {
    let mut node = base_node();
    node.review_requests = vec![RawReviewRequest {
        as_code_owner: false,
        requested_reviewer: None,
    }];
    let args = default_args();
    let carol = "carol".to_string();
    let r = normalize_node(&node, &args, &carol, &None, 0, false);
    assert!(matches!(r, Err(AteamError::MissingReviewerData)));
}

#[test]
fn author_defaults_to_empty() {
    let mut node = base_node();
    node.author_login = None;
    assert_eq!(author(&node), "");
}
