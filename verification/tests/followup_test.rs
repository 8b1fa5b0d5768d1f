use ateam::followup::{
    parse, parse_pr, FollowupComment, FollowupNode, FollowupPr, FollowupReview, FollowupThread,
};
use ateam::raw::{MergeableState, RawReviewState};
use ateam::types::{Review, ReviewState};

fn comment(login: &str) -> FollowupComment {
    FollowupComment { author_login: Some(login.to_string()) }
}

fn thread(outdated: bool, first: &str, last: &str) -> FollowupThread {
    FollowupThread { is_outdated: outdated, comments: vec![comment(first), comment(last)] }
}

fn freview(login: &str, state: RawReviewState) -> FollowupReview {
    FollowupReview {
        author_login: Some(login.to_string()),
        state,
        url: "https://example.test/review/1".to_string(),
    }
}

fn base_followup_pr() -> FollowupPr {
    FollowupPr {
        title: "A change".to_string(),
        author_login: Some("alice".to_string()),
        mergeable: MergeableState::Mergeable,
        reviews: vec![],
        review_threads: vec![],
    }
}

#[test]
fn commented_with_open_conversation_waits() {
    let mut pr = base_followup_pr();
    pr.reviews = vec![freview("bob", RawReviewState::Commented)];
    pr.review_threads = vec![thread(false, "bob", "bob")];
    let bob = "bob".to_string();
    assert_eq!(parse_pr(&pr, &bob), None);
}

#[test]
fn commented_with_answered_conversation_follows_up() {
    let mut pr = base_followup_pr();
    pr.reviews = vec![freview("bob", RawReviewState::Commented)];
    // someone else spoke last: the conversation was answered
    pr.review_threads = vec![thread(false, "bob", "alice")];
    let bob = "bob".to_string();
    assert_eq!(
        parse_pr(&pr, &bob),
        Some(Review {
            state: ReviewState::WithAddressedConversations,
            url: "https://example.test/review/1".to_string(),
            pr_title: "A change".to_string(),
        })
    );
}

#[test]
fn outdated_thread_does_not_block_followup() {
    let mut pr = base_followup_pr();
    pr.reviews = vec![freview("bob", RawReviewState::Commented)];
    pr.review_threads = vec![thread(true, "bob", "bob")];
    let bob = "bob".to_string();
    assert!(parse_pr(&pr, &bob).is_some());
}

#[test]
fn dismissed_always_follows_up() {
    let mut pr = base_followup_pr();
    pr.reviews = vec![freview("bob", RawReviewState::Dismissed)];
    pr.review_threads = vec![thread(false, "bob", "bob")];
    let bob = "bob".to_string();
    assert_eq!(
        parse_pr(&pr, &bob),
        Some(Review {
            state: ReviewState::Dismissed,
            url: "https://example.test/review/1".to_string(),
            pr_title: "A change".to_string(),
        })
    );
}

#[test]
fn conflicts_are_excluded_from_followup() {
    let mut pr = base_followup_pr();
    pr.reviews = vec![freview("bob", RawReviewState::Dismissed)];
    pr.mergeable = MergeableState::Conflicting;
    let bob = "bob".to_string();
    assert_eq!(parse_pr(&pr, &bob), None);
}

#[test]
fn only_the_most_recent_review_counts() {
    let mut pr = base_followup_pr();
    // chronological order: the dismissal is older than the approval
    pr.reviews = vec![
        freview("bob", RawReviewState::Dismissed),
        freview("bob", RawReviewState::Approved),
    ];
    let bob = "bob".to_string();
    assert_eq!(parse_pr(&pr, &bob), None);
}

#[test]
fn reviews_by_the_pr_author_do_not_count() {
    let mut pr = base_followup_pr();
    pr.reviews = vec![
        freview("bob", RawReviewState::Dismissed),
        freview("alice", RawReviewState::Approved),
    ];
    let bob = "bob".to_string();
    assert!(parse_pr(&pr, &bob).is_some());
}

#[test]
fn parse_walks_the_whole_result() {
    let mut with_followup = base_followup_pr();
    with_followup.reviews = vec![freview("bob", RawReviewState::Dismissed)];
    let mut without = base_followup_pr();
    without.reviews = vec![freview("bob", RawReviewState::Approved)];
    let nodes = vec![
        FollowupNode::Other,
        FollowupNode::PullRequest(with_followup),
        FollowupNode::PullRequest(without),
    ];
    let bob = "bob".to_string();
    let out = parse(&nodes, &bob);
    assert_eq!(out.len(), 1);
    assert_eq!(out[0].state, ReviewState::Dismissed);
}

#[test]
fn empty_thread_blocks_only_for_empty_login() {
    let mut pr = base_followup_pr();
    pr.reviews = vec![freview("bob", RawReviewState::Commented)];
    pr.review_threads = vec![FollowupThread { is_outdated: false, comments: vec![] }];
    let bob = "bob".to_string();
    // an empty thread has no first or last author, so it cannot be bob's
    assert!(parse_pr(&pr, &bob).is_some());
}
