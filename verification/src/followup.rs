//! The conversation analyzer: decides, from a pull request's reviews and
//! review threads, whether a review the user already gave deserves renewed
//! attention — because it was dismissed, or because every conversation the
//! user opened has since been answered.

use vstd::prelude::*;
use crate::raw::{MergeableState, RawReviewState};
use crate::types::{Review, ReviewState};

verus! {

/// One comment of a review thread; the author is absent when the account
/// is gone.
#[derive(Clone, Debug)]
pub struct FollowupComment {
    pub author_login: Option<String>,
}

/// One review thread of the follow-up query: whether the diff under it has
/// changed since, and its comments in order.
#[derive(Clone, Debug)]
pub struct FollowupThread {
    pub is_outdated: bool,
    pub comments: Vec<FollowupComment>,
}

/// One review of the follow-up query.
#[derive(Clone, Debug)]
pub struct FollowupReview {
    pub author_login: Option<String>,
    pub state: RawReviewState,
    pub url: String,
}

/// One pull request of the follow-up query, oldest review first.
#[derive(Clone, Debug)]
pub struct FollowupPr {
    pub title: String,
    pub author_login: Option<String>,
    pub mergeable: MergeableState,
    pub reviews: Vec<FollowupReview>,
    pub review_threads: Vec<FollowupThread>,
}

/// One node of the follow-up search result.
#[derive(Clone, Debug)]
pub enum FollowupNode {
    PullRequest(FollowupPr),
    Other,
}

/// A comment's author login, or the empty string when absent.
pub open spec fn spec_comment_author(c: FollowupComment) -> Seq<char> {
    match c.author_login {
        Option::Some(l) => l@,
        Option::None => Seq::empty(),
    }
}

/// The author of a thread's first comment; empty when there is none.
pub open spec fn spec_first_author(cs: Seq<FollowupComment>) -> Seq<char> {
    if cs.len() == 0 {
        Seq::empty()
    } else {
        spec_comment_author(cs[0])
    }
}

/// The author of a thread's last comment; empty when there is none.
pub open spec fn spec_last_author(cs: Seq<FollowupComment>) -> Seq<char> {
    if cs.len() == 0 {
        Seq::empty()
    } else {
        spec_comment_author(cs.last())
    }
}

/// A thread still waiting on another party: it is not outdated, and the
/// acting user spoke both first and last in it.
pub open spec fn spec_is_unaddressed_thread(t: FollowupThread, login: Seq<char>) -> bool {
    &&& !t.is_outdated
    &&& spec_first_author(t.comments@) == login
    &&& spec_last_author(t.comments@) == login
}

/// Returns a comment's author login, defaulting to the empty string.
fn comment_author(c: Option<&FollowupComment>) -> (r: String)
    ensures
        r@ == (match c {
            Option::Some(cc) => spec_comment_author(*cc),
            Option::None => Seq::<char>::empty(),
        }),
{
    match c {
        Option::Some(cc) => match &cc.author_login {
            Option::Some(l) => l.clone(),
            Option::None => String::new(),
        },
        Option::None => String::new(),
    }
}

/// Decides whether one review thread is still waiting on another party.
pub fn is_unaddressed_review_thread(review_thread: &FollowupThread, login: &String) -> (r: bool)
    ensures
        r == spec_is_unaddressed_thread(*review_thread, login@),
{
    if review_thread.is_outdated {
        return false;
    }
    let n = review_thread.comments.len();
    let first = if n == 0 {
        comment_author(Option::None)
    } else {
        comment_author(Option::Some(&review_thread.comments[0]))
    };
    let last = if n == 0 {
        comment_author(Option::None)
    } else {
        comment_author(Option::Some(&review_thread.comments[n - 1]))
    };
    first.eq(login) && last.eq(login)
}

/// Whether any review thread is still waiting on another party.
pub open spec fn spec_has_unaddressed_threads(ts: Seq<FollowupThread>, login: Seq<char>) -> bool {
    exists|i: int| 0 <= i < ts.len() && spec_is_unaddressed_thread(#[trigger] ts[i], login)
}

/// Scans the review threads for one still waiting on another party.
pub fn has_unaddressed_review_threads(review_threads: &Vec<FollowupThread>, login: &String) -> (r:
    bool)
    ensures
        r == spec_has_unaddressed_threads(review_threads@, login@),
{
    let mut i: usize = 0;
    while i < review_threads.len()
        invariant
            i <= review_threads@.len(),
            forall|k: int|
                0 <= k < i ==> !spec_is_unaddressed_thread(#[trigger] review_threads@[k], login@),
        decreases review_threads@.len() - i,
    {
        if is_unaddressed_review_thread(&review_threads[i], login) {
            return true;
        }
        i += 1;
    }
    false
}

/// What one review yields: a dismissed review always asks for renewed
/// attention; a commented review only once every conversation the user
/// opened has been answered; any other state yields nothing.
pub open spec fn spec_parse_review(
    r: FollowupReview,
    has_unaddressed: bool,
    pr_title: String,
) -> Option<Review> {
    match r.state {
        RawReviewState::Dismissed => Option::Some(
            Review { state: ReviewState::Dismissed, url: r.url, pr_title },
        ),
        RawReviewState::Commented => if !has_unaddressed {
            Option::Some(
                Review { state: ReviewState::WithAddressedConversations, url: r.url, pr_title },
            )
        } else {
            Option::None
        },
        _ => Option::None,
    }
}

/// Classifies one review against the thread verdict.
pub fn parse_review(review: &FollowupReview, has_unaddressed_review_threads: bool, pr_title: &String)
    -> (r: Option<Review>)
    ensures
        r == spec_parse_review(*review, has_unaddressed_review_threads, *pr_title),
{
    match review.state {
        RawReviewState::Dismissed => Option::Some(
            Review {
                state: ReviewState::Dismissed,
                url: review.url.clone(),
                pr_title: pr_title.clone(),
            },
        ),
        RawReviewState::Commented => if !has_unaddressed_review_threads {
            Option::Some(
                Review {
                    state: ReviewState::WithAddressedConversations,
                    url: review.url.clone(),
                    pr_title: pr_title.clone(),
                },
            )
        } else {
            Option::None
        },
        _ => Option::None,
    }
}

/// The pull request's author login, or the empty string when absent.
pub open spec fn spec_followup_author(pr: FollowupPr) -> Seq<char> {
    match pr.author_login {
        Option::Some(l) => l@,
        Option::None => Seq::empty(),
    }
}

/// The most recent review that counts: reviews are read newest to oldest,
/// skipping reviews without an author and reviews by the pull request's
/// own author. Deduplicating per review author keeps each author's most
/// recent review, so the overall most recent entry survives unchanged and
/// the scan needs only the newest review that counts.
pub open spec fn spec_latest_relevant_review(
    rs: Seq<FollowupReview>,
    pr_author: Seq<char>,
) -> Option<FollowupReview>
    decreases rs.len(),
{
    if rs.len() == 0 {
        Option::None
    } else {
        let r = rs.last();
        match r.author_login {
            Option::Some(l) => if l@ != pr_author {
                Option::Some(r)
            } else {
                spec_latest_relevant_review(rs.drop_last(), pr_author)
            },
            Option::None => spec_latest_relevant_review(rs.drop_last(), pr_author),
        }
    }
}

/// Finds the most recent review not authored by the pull request's author.
fn latest_relevant_review<'a>(reviews: &'a Vec<FollowupReview>, pr_author: &String) -> (r: Option<
    &'a FollowupReview,
>)
    ensures
        (match r {
            Option::Some(rr) => spec_latest_relevant_review(reviews@, pr_author@)
                == Option::Some(*rr),
            Option::None => spec_latest_relevant_review(reviews@, pr_author@) is None,
        }),
{
    let ghost full = reviews@;
    let mut i: usize = reviews.len();
    proof {
        assert(full.subrange(0, full.len() as int) =~= full);
    }
    while i > 0
        invariant
            i <= full.len(),
            reviews@ == full,
            spec_latest_relevant_review(full, pr_author@) == spec_latest_relevant_review(
                full.subrange(0, i as int),
                pr_author@,
            ),
        decreases i,
    {
        let ghost pre_window = full.subrange(0, i as int);
        i -= 1;
        proof {
            assert(pre_window.last() == full[i as int]);
            assert(pre_window.drop_last() =~= full.subrange(0, i as int));
        }
        let r = &reviews[i];
        match &r.author_login {
            Option::Some(l) => {
                if !l.eq(pr_author) {
                    return Option::Some(r);
                }
            },
            Option::None => {},
        }
    }
    proof {
        assert(full.subrange(0, 0) =~= Seq::<FollowupReview>::empty());
    }
    Option::None
}

/// What one pull request of the follow-up query yields: nothing when it
/// has merge conflicts or no review counts; otherwise the classification
/// of its most recent counting review against the thread verdict.
pub open spec fn spec_parse_pr(pr: FollowupPr, login: Seq<char>) -> Option<Review> {
    if pr.mergeable is Conflicting {
        Option::None
    } else {
        match spec_latest_relevant_review(pr.reviews@, spec_followup_author(pr)) {
            Option::Some(r) => spec_parse_review(
                r,
                spec_has_unaddressed_threads(pr.review_threads@, login),
                pr.title,
            ),
            Option::None => Option::None,
        }
    }
}

/// Analyzes one pull request of the follow-up query.
pub fn parse_pr(pr: &FollowupPr, login: &String) -> (r: Option<Review>)
    ensures
        r == spec_parse_pr(*pr, login@),
{
    if matches!(pr.mergeable, MergeableState::Conflicting) {
        return Option::None;
    }
    let pr_author = match &pr.author_login {
        Option::Some(l) => l.clone(),
        Option::None => String::new(),
    };
    match latest_relevant_review(&pr.reviews, &pr_author) {
        Option::Some(r) => {
            let has_unaddressed = has_unaddressed_review_threads(&pr.review_threads, login);
            parse_review(r, has_unaddressed, &pr.title)
        },
        Option::None => Option::None,
    }
}

/// The follow-up records of a whole search result, in result order.
pub open spec fn spec_parse(nodes: Seq<FollowupNode>, login: Seq<char>) -> Seq<Review>
    decreases nodes.len(),
{
    if nodes.len() == 0 {
        Seq::empty()
    } else {
        spec_parse(nodes.drop_last(), login) + (match nodes.last() {
            FollowupNode::PullRequest(pr) => match spec_parse_pr(pr, login) {
                Option::Some(rv) => seq![rv],
                Option::None => Seq::empty(),
            },
            FollowupNode::Other => Seq::empty(),
        })
    }
}

/// Analyzes every pull request of a follow-up search result.
pub fn parse(nodes: &Vec<FollowupNode>, login: &String) -> (out: Vec<Review>)
    ensures
        out@ == spec_parse(nodes@, login@),
{
    let mut out: Vec<Review> = Vec::new();
    let mut i: usize = 0;
    proof {
        assert(nodes@.subrange(0, 0) =~= Seq::<FollowupNode>::empty());
    }
    while i < nodes.len()
        invariant
            i <= nodes@.len(),
            out@ == spec_parse(nodes@.subrange(0, i as int), login@),
        decreases nodes@.len() - i,
    {
        let ghost pre = out@;
        proof {
            assert(nodes@.subrange(0, i as int + 1).drop_last() =~= nodes@.subrange(0, i as int));
            assert(nodes@.subrange(0, i as int + 1).last() == nodes@[i as int]);
        }
        match &nodes[i] {
            FollowupNode::PullRequest(pr) => {
                match parse_pr(pr, login) {
                    Option::Some(rv) => {
                        out.push(rv);
                        proof {
                            assert(out@ =~= pre + seq![out@.last()]);
                        }
                    },
                    Option::None => {
                        proof {
                            assert(out@ =~= pre + Seq::<Review>::empty());
                        }
                    },
                }
            },
            FollowupNode::Other => {
                proof {
                    assert(out@ =~= pre + Seq::<Review>::empty());
                }
            },
        }
        i += 1;
    }
    proof {
        assert(nodes@.subrange(0, nodes@.len() as int) =~= nodes@);
    }
    out
}

/// A pull request with merge conflicts never yields a follow-up, whatever
/// its reviews and threads hold.
pub proof fn lemma_conflicts_excluded_from_followup(pr: FollowupPr, login: Seq<char>)
    requires
        pr.mergeable is Conflicting,
    ensures
        spec_parse_pr(pr, login) is None,
{
}

/// A dismissed most recent review always yields a follow-up, whatever the
/// thread state.
pub proof fn lemma_dismissed_always_followed_up(pr: FollowupPr, login: Seq<char>, r: FollowupReview)
    requires
        !(pr.mergeable is Conflicting),
        spec_latest_relevant_review(pr.reviews@, spec_followup_author(pr)) == Option::Some(r),
        r.state is Dismissed,
    ensures
        spec_parse_pr(pr, login) == Option::Some(
            Review { state: ReviewState::Dismissed, url: r.url, pr_title: pr.title },
        ),
{
}

/// A commented most recent review yields no follow-up while some thread
/// the user opened is still unanswered.
pub proof fn lemma_commented_still_waiting(pr: FollowupPr, login: Seq<char>, r: FollowupReview)
    requires
        !(pr.mergeable is Conflicting),
        spec_latest_relevant_review(pr.reviews@, spec_followup_author(pr)) == Option::Some(r),
        r.state is Commented,
        spec_has_unaddressed_threads(pr.review_threads@, login),
    ensures
        spec_parse_pr(pr, login) is None,
{
}

/// A commented most recent review yields a follow-up once every thread the
/// user opened has been answered.
pub proof fn lemma_commented_addressed(pr: FollowupPr, login: Seq<char>, r: FollowupReview)
    requires
        !(pr.mergeable is Conflicting),
        spec_latest_relevant_review(pr.reviews@, spec_followup_author(pr)) == Option::Some(r),
        r.state is Commented,
        !spec_has_unaddressed_threads(pr.review_threads@, login),
    ensures
        spec_parse_pr(pr, login) == Option::Some(
            Review {
                state: ReviewState::WithAddressedConversations,
                url: r.url,
                pr_title: pr.title,
            },
        ),
{
}

} // verus!
