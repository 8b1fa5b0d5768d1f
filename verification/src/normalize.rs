//! The filter and normalizer: turns one raw search node into a normalized
//! `Pr` record, applying the inclusion and exclusion rules in their fixed
//! order. Each rule is a pure predicate with an exact contract.

use vstd::prelude::*;
use crate::error::AteamError;
use crate::pattern::{regex_is_match, CompiledRegex};
use crate::raw::{
    MergeableState, RawContextNode, RawPullRequest, RawRequestedReviewer, RawReview,
    RawReviewRequest, RawReviewState, RawRollup, RawStatusState, RawThread,
};
use crate::types::{ReviewRequested, TestsState};

verus! {

/// A pull request with no changed lines at all.
pub open spec fn spec_is_empty(pr: RawPullRequest) -> bool {
    pr.additions == 0 && pr.deletions == 0
}

/// Whether `pr` touches no lines: such a pull request is never ranked.
pub fn is_empty(pr: &RawPullRequest) -> (r: bool)
    ensures
        r == spec_is_empty(*pr),
{
    pr.additions == 0 && pr.deletions == 0
}

/// A pull request the platform marks as conflicting with its base.
pub open spec fn spec_has_conflicts(pr: RawPullRequest) -> bool {
    pr.mergeable is Conflicting
}

/// Whether `pr` has merge conflicts: such a pull request is never ranked.
pub fn has_conflicts(pr: &RawPullRequest) -> (r: bool)
    ensures
        r == spec_has_conflicts(*pr),
{
    matches!(pr.mergeable, MergeableState::Conflicting)
}

/// The author's login, or the empty string when the account is gone.
pub open spec fn spec_author(pr: RawPullRequest) -> Seq<char> {
    match pr.author_login {
        Option::Some(l) => l@,
        Option::None => Seq::empty(),
    }
}

/// Returns the pull request's author login, defaulting to the empty string.
pub fn author(pr: &RawPullRequest) -> (r: String)
    ensures
        r@ == spec_author(*pr),
{
    match &pr.author_login {
        Option::Some(l) => l.clone(),
        Option::None => {
            let s = String::new();
            s
        },
    }
}

/// What an optional title filter says about `title`: the verdict of the
/// compiled pattern, or `or` when no pattern was supplied.
pub open spec fn spec_regex_match(re: Option<CompiledRegex>, or: bool, title: Seq<char>) -> bool {
    match re {
        Option::Some(c) => regex_is_match(c.pattern_view(), title),
        Option::None => or,
    }
}

/// Applies an optional title filter to the pull request's title.
pub fn regex_match(re: &Option<CompiledRegex>, or: bool, pr: &RawPullRequest) -> (r: bool)
    ensures
        r == spec_regex_match(*re, or, pr.title@),
{
    match re {
        Option::Some(c) => c.is_match(pr.title.as_str()),
        Option::None => or,
    }
}

/// The review history, newest first: reviews are read newest to oldest,
/// reviews without an author are skipped, only reviews whose author-match
/// against `author` equals `by_author` are kept, and each author counts
/// once, at their most recent review. `seen` carries the logins already
/// counted.
pub open spec fn spec_review_states_rec(
    rs: Seq<RawReview>,
    author: Seq<char>,
    by_author: bool,
    seen: Set<Seq<char>>,
) -> Seq<RawReviewState>
    decreases rs.len(),
{
    if rs.len() == 0 {
        Seq::empty()
    } else {
        let r = rs.last();
        let rest = rs.drop_last();
        match r.author_login {
            Option::Some(l) => if ((l@ == author) == by_author) && !seen.contains(l@) {
                seq![r.state] + spec_review_states_rec(rest, author, by_author, seen.insert(l@))
            } else {
                spec_review_states_rec(rest, author, by_author, seen)
            },
            Option::None => spec_review_states_rec(rest, author, by_author, seen),
        }
    }
}

/// The review states that count for `author`, newest first, one per
/// distinct login. With `by_author` false these are the states given by
/// everyone but `author`; with `by_author` true, only `author`'s own.
pub open spec fn spec_review_states(
    rs: Seq<RawReview>,
    author: Seq<char>,
    by_author: bool,
) -> Seq<RawReviewState> {
    spec_review_states_rec(rs, author, by_author, Set::empty())
}

/// The logins already counted, as a set.
pub open spec fn spec_logins(seen: Seq<String>) -> Set<Seq<char>> {
    Set::new(|l: Seq<char>| exists|k: int| 0 <= k < seen.len() && seen[k]@ == l)
}

/// Pushing a login onto the seen list adds exactly that login to the set.
proof fn lemma_logins_push(seen: Seq<String>, l: String)
    ensures
        spec_logins(seen.push(l)) == spec_logins(seen).insert(l@),
{
    assert forall|e: Seq<char>| #[trigger] spec_logins(seen.push(l)).contains(e) implies
        spec_logins(seen).insert(l@).contains(e) by {
        let k = choose|k: int| 0 <= k < seen.push(l).len() && seen.push(l)[k]@ == e;
        if k < seen.len() {
            assert(seen[k]@ == e);
        } else {
            assert(e == l@);
        }
    }
    assert forall|e: Seq<char>| spec_logins(seen).insert(l@).contains(e) implies #[trigger]
        spec_logins(seen.push(l)).contains(e) by {
        if e == l@ {
            assert(seen.push(l)[seen.len() as int]@ == e);
        } else {
            let k = choose|k: int| 0 <= k < seen.len() && seen[k]@ == e;
            assert(seen.push(l)[k]@ == e);
        }
    }
    assert(spec_logins(seen.push(l)) =~= spec_logins(seen).insert(l@));
}

/// Whether `login` was already counted.
fn contains_login(seen: &Vec<String>, login: &String) -> (r: bool)
    ensures
        r == spec_logins(seen@).contains(login@),
{
    let mut k: usize = 0;
    while k < seen.len()
        invariant
            k <= seen@.len(),
            forall|j: int| 0 <= j < k ==> seen@[j]@ != login@,
        decreases seen@.len() - k,
    {
        if seen[k].eq(login) {
            return true;
        }
        k += 1;
    }
    false
}

/// Collects the review states that count, newest first, deduplicated by
/// login: the executable counterpart of `spec_review_states`.
pub fn review_states(reviews: &Vec<RawReview>, author: &String, reviewed_by_author: bool) -> (out:
    Vec<RawReviewState>)
    ensures
        out@ == spec_review_states(reviews@, author@, reviewed_by_author),
{
    let mut out: Vec<RawReviewState> = Vec::new();
    let mut seen: Vec<String> = Vec::new();
    let mut i: usize = reviews.len();
    proof {
        assert(reviews@.subrange(0, reviews@.len() as int) =~= reviews@);
        assert(spec_logins(seen@) =~= Set::<Seq<char>>::empty());
        assert(out@ + spec_review_states_rec(
            reviews@,
            author@,
            reviewed_by_author,
            Set::empty(),
        ) =~= spec_review_states_rec(reviews@, author@, reviewed_by_author, Set::empty()));
    }
    while i > 0
        invariant
            i <= reviews@.len(),
            spec_review_states(reviews@, author@, reviewed_by_author) == out@
                + spec_review_states_rec(
                reviews@.subrange(0, i as int),
                author@,
                reviewed_by_author,
                spec_logins(seen@),
            ),
        decreases i,
    {
        let ghost pre_window = reviews@.subrange(0, i as int);
        let ghost pre_seen = seen@;
        let ghost pre_out = out@;
        i -= 1;
        let r = &reviews[i];
        proof {
            assert(pre_window.last() == reviews@[i as int]);
            assert(pre_window.drop_last() =~= reviews@.subrange(0, i as int));
        }
        let ghost window = reviews@.subrange(0, i as int);
        match &r.author_login {
            Option::Some(l) => {
                let matches_author = l.eq(author);
                if matches_author == reviewed_by_author && !contains_login(&seen, l) {
                    out.push(r.state);
                    seen.push(l.clone());
                    proof {
                        lemma_logins_push(pre_seen, seen@.last());
                        assert(seen@.drop_last() =~= pre_seen);
                        assert(seen@ =~= pre_seen.push(seen@.last()));
                        assert(seen@.last()@ == l@);
                        let tail = spec_review_states_rec(
                            window,
                            author@,
                            reviewed_by_author,
                            spec_logins(pre_seen).insert(l@),
                        );
                        assert(spec_review_states_rec(
                            pre_window,
                            author@,
                            reviewed_by_author,
                            spec_logins(pre_seen),
                        ) == seq![r.state] + tail);
                        assert(pre_out + (seq![r.state] + tail) =~= pre_out.push(r.state) + tail);
                        assert(out@ =~= pre_out.push(r.state));
                        assert(spec_logins(seen@) == spec_logins(pre_seen).insert(l@));
                    }
                } else {
                    proof {
                        assert(spec_review_states_rec(
                            pre_window,
                            author@,
                            reviewed_by_author,
                            spec_logins(pre_seen),
                        ) == spec_review_states_rec(
                            window,
                            author@,
                            reviewed_by_author,
                            spec_logins(pre_seen),
                        ));
                    }
                }
            },
            Option::None => {
                proof {
                    assert(spec_review_states_rec(
                        pre_window,
                        author@,
                        reviewed_by_author,
                        spec_logins(pre_seen),
                    ) == spec_review_states_rec(
                        window,
                        author@,
                        reviewed_by_author,
                        spec_logins(pre_seen),
                    ));
                }
            },
        }
    }
    proof {
        assert(reviews@.subrange(0, 0) =~= Seq::<RawReview>::empty());
        assert(out@ + Seq::<RawReviewState>::empty() =~= out@);
    }
    out
}

/// How many of the counted reviews approved.
pub open spec fn spec_count_approved(states: Seq<RawReviewState>) -> nat {
    states.filter(|st: RawReviewState| st is Approved).len()
}

/// Counts the approving review states.
pub fn pr_num_approvals(states: &Vec<RawReviewState>) -> (n: usize)
    ensures
        n == spec_count_approved(states@),
        n <= states@.len(),
{
    let mut n: usize = 0;
    let mut i: usize = 0;
    proof {
        reveal(Seq::filter);
        assert(states@.subrange(0, 0) =~= Seq::<RawReviewState>::empty());
    }
    while i < states.len()
        invariant
            i <= states@.len(),
            n <= i,
            n == states@.subrange(0, i as int).filter(|st: RawReviewState| st is Approved).len(),
        decreases states@.len() - i,
    {
        proof {
            reveal(Seq::filter);
            assert(states@.subrange(0, i as int + 1).drop_last() =~= states@.subrange(
                0,
                i as int,
            ));
            assert(states@.subrange(0, i as int + 1).last() == states@[i as int]);
        }
        if matches!(states[i], RawReviewState::Approved) {
            n += 1;
        }
        i += 1;
    }
    proof {
        assert(states@.subrange(0, states@.len() as int) =~= states@);
    }
    n
}

/// How many unresolved, still-current review threads a pull request has.
pub open spec fn spec_open_conversations(threads: Seq<RawThread>) -> nat {
    threads.filter(|t: RawThread| !t.is_resolved && !t.is_outdated).len()
}

/// Counts the review threads that are neither resolved nor outdated.
pub fn pr_open_conversations(threads: &Vec<RawThread>) -> (n: usize)
    ensures
        n == spec_open_conversations(threads@),
        n <= threads@.len(),
{
    let mut n: usize = 0;
    let mut i: usize = 0;
    proof {
        reveal(Seq::filter);
        assert(threads@.subrange(0, 0) =~= Seq::<RawThread>::empty());
    }
    while i < threads.len()
        invariant
            i <= threads@.len(),
            n <= i,
            n == threads@.subrange(0, i as int).filter(
                |t: RawThread| !t.is_resolved && !t.is_outdated,
            ).len(),
        decreases threads@.len() - i,
    {
        proof {
            reveal(Seq::filter);
            assert(threads@.subrange(0, i as int + 1).drop_last() =~= threads@.subrange(
                0,
                i as int,
            ));
            assert(threads@.subrange(0, i as int + 1).last() == threads@[i as int]);
        }
        if !threads[i].is_resolved && !threads[i].is_outdated {
            n += 1;
        }
        i += 1;
    }
    proof {
        assert(threads@.subrange(0, threads@.len() as int) =~= threads@);
    }
    n
}

/// Whether the pull request targets a default branch.
pub open spec fn spec_based_on_main_branch(base: Seq<char>) -> bool {
    base == "main"@ || base == "master"@
}

/// Whether the base branch is `main` or `master`.
pub fn pr_based_on_main_branch(base_branch_name: &String) -> (r: bool)
    ensures
        r == spec_based_on_main_branch(base_branch_name@),
{
    let main = String::from_str("main");
    let master = String::from_str("master");
    base_branch_name.eq(&main) || base_branch_name.eq(&master)
}

/// The CI state of one platform status: `EXPECTED` counts as pending,
/// `ERROR` as failure, anything unrecognized as no CI.
pub open spec fn spec_tests_state(s: RawStatusState) -> TestsState {
    match s {
        RawStatusState::Success => TestsState::Success,
        RawStatusState::Pending => TestsState::Pending,
        RawStatusState::Expected => TestsState::Pending,
        RawStatusState::Failure => TestsState::Failure,
        RawStatusState::Error => TestsState::Failure,
        RawStatusState::Other => TestsState::Absent,
    }
}

/// Maps one platform status state to the library's CI state.
pub fn tests_state(state: &RawStatusState) -> (t: TestsState)
    ensures
        t == spec_tests_state(*state),
{
    match state {
        RawStatusState::Success => TestsState::Success,
        RawStatusState::Pending => TestsState::Pending,
        RawStatusState::Expected => TestsState::Pending,
        RawStatusState::Failure => TestsState::Failure,
        RawStatusState::Error => TestsState::Failure,
        RawStatusState::Other => TestsState::Absent,
    }
}

/// The CI states of the status contexts whose name matches the test-name
/// pattern, in context order. Check runs and other nodes do not count.
pub open spec fn spec_matching_states(cs: Seq<RawContextNode>, pat: Seq<char>) -> Seq<TestsState>
    decreases cs.len(),
{
    if cs.len() == 0 {
        Seq::empty()
    } else {
        spec_matching_states(cs.drop_last(), pat) + (match cs.last() {
            RawContextNode::StatusContext { name, state } => if regex_is_match(pat, name@) {
                seq![spec_tests_state(state)]
            } else {
                Seq::empty()
            },
            RawContextNode::Other => Seq::empty(),
        })
    }
}

/// The combination rule of CI states: any failure makes the whole state a
/// failure; otherwise any pending makes it pending; otherwise all-success
/// makes it a success; with no states at all there is no CI.
pub open spec fn spec_combine_states(states: Seq<TestsState>) -> TestsState {
    if exists|i: int| 0 <= i < states.len() && #[trigger] states[i] is Failure {
        TestsState::Failure
    } else if exists|i: int| 0 <= i < states.len() && #[trigger] states[i] is Pending {
        TestsState::Pending
    } else if states.len() > 0 && (forall|i: int|
        0 <= i < states.len() ==> #[trigger] states[i] is Success) {
        TestsState::Success
    } else {
        TestsState::Absent
    }
}

/// Combines a list of CI states under the priority
/// failure > pending > success > none.
fn combine_states(states: &Vec<TestsState>) -> (t: TestsState)
    ensures
        t == spec_combine_states(states@),
{
    let mut any_failure = false;
    let mut any_pending = false;
    let mut all_success = true;
    let mut i: usize = 0;
    while i < states.len()
        invariant
            i <= states@.len(),
            any_failure == exists|k: int| 0 <= k < i && #[trigger] states@[k] is Failure,
            any_pending == exists|k: int| 0 <= k < i && #[trigger] states@[k] is Pending,
            all_success == forall|k: int| 0 <= k < i ==> #[trigger] states@[k] is Success,
        decreases states@.len() - i,
    {
        match states[i] {
            TestsState::Failure => {
                any_failure = true;
                all_success = false;
            },
            TestsState::Pending => {
                any_pending = true;
                all_success = false;
            },
            TestsState::Success => {
            },
            TestsState::Absent => {
                all_success = false;
            },
        }
        i += 1;
    }
    if any_failure {
        TestsState::Failure
    } else if any_pending {
        TestsState::Pending
    } else if states.len() > 0 && all_success {
        TestsState::Success
    } else {
        TestsState::Absent
    }
}

/// Derives the CI state from the check contexts that match the test-name
/// pattern, combined under failure > pending > success > none.
pub fn commit_tests_state_from_contexts(contexts: &Vec<RawContextNode>, tests_re: &CompiledRegex)
    -> (t: TestsState)
    ensures
        t == spec_combine_states(spec_matching_states(contexts@, tests_re.pattern_view())),
{
    let ghost pat = tests_re.pattern_view();
    let mut states: Vec<TestsState> = Vec::new();
    let mut i: usize = 0;
    proof {
        assert(contexts@.subrange(0, 0) =~= Seq::<RawContextNode>::empty());
    }
    while i < contexts.len()
        invariant
            i <= contexts@.len(),
            tests_re.pattern_view() == pat,
            states@ == spec_matching_states(contexts@.subrange(0, i as int), pat),
        decreases contexts@.len() - i,
    {
        let ghost pre = states@;
        proof {
            assert(contexts@.subrange(0, i as int + 1).drop_last() =~= contexts@.subrange(
                0,
                i as int,
            ));
            assert(contexts@.subrange(0, i as int + 1).last() == contexts@[i as int]);
        }
        match &contexts[i] {
            RawContextNode::StatusContext { name, state } => {
                if tests_re.is_match(name.as_str()) {
                    let s = tests_state(state);
                    states.push(s);
                    proof {
                        assert(states@ =~= pre + seq![spec_tests_state(*state)]);
                    }
                } else {
                    proof {
                        assert(states@ =~= pre + Seq::<TestsState>::empty());
                    }
                }
            },
            RawContextNode::Other => {
                proof {
                    assert(states@ =~= pre + Seq::<TestsState>::empty());
                }
            },
        }
        i += 1;
    }
    proof {
        assert(contexts@.subrange(0, contexts@.len() as int) =~= contexts@);
    }
    combine_states(&states)
}

/// The CI state a rollup yields: with a test-name pattern, the combination
/// of the matching contexts; without one, the platform's own aggregate.
pub open spec fn spec_commit_status_state(r: RawRollup, re: Option<CompiledRegex>) -> TestsState {
    match re {
        Option::Some(c) => spec_combine_states(spec_matching_states(r.contexts@, c.pattern_view())),
        Option::None => spec_tests_state(r.state),
    }
}

/// Derives the CI state of one rollup, honoring an optional test-name
/// pattern.
pub fn commit_status_state(status: &RawRollup, tests_re: &Option<CompiledRegex>) -> (t: TestsState)
    ensures
        t == spec_commit_status_state(*status, *tests_re),
{
    match tests_re {
        Option::Some(c) => commit_tests_state_from_contexts(&status.contexts, c),
        Option::None => tests_state(&status.state),
    }
}

/// When the most recent commit was pushed, as parsed epoch seconds; absent
/// when there is no commit, no push date, or an unparsable one.
pub open spec fn spec_last_commit_date(pr: RawPullRequest) -> Option<i64> {
    match pr.last_commit {
        Option::Some(c) => match c.pushed_date {
            Option::Some(ds) => crate::timeutil::date_epoch_seconds(ds@),
            Option::None => Option::None,
        },
        Option::None => Option::None,
    }
}

/// The CI state of the most recent commit; no commit or no rollup means no
/// CI.
pub open spec fn spec_last_commit_state(pr: RawPullRequest, re: Option<CompiledRegex>) -> TestsState {
    match pr.last_commit {
        Option::Some(c) => match c.status_check_rollup {
            Option::Some(r) => spec_commit_status_state(r, re),
            Option::None => TestsState::Absent,
        },
        Option::None => TestsState::Absent,
    }
}

/// Reads the most recent commit: its push date in epoch seconds and its CI
/// state under the optional test-name pattern.
pub fn last_commit(pr: &RawPullRequest, tests_re: &Option<CompiledRegex>) -> (r: (
    Option<i64>,
    TestsState,
))
    ensures
        r.0 == spec_last_commit_date(*pr),
        r.1 == spec_last_commit_state(*pr, *tests_re),
        r.0 matches Option::Some(t) ==> -crate::timeutil::MAX_EPOCH_SECONDS < t
            < crate::timeutil::MAX_EPOCH_SECONDS,
{
    match &pr.last_commit {
        Option::Some(c) => {
            let date_s = match &c.pushed_date {
                Option::Some(ds) => crate::timeutil::parse_date_seconds(ds.as_str()),
                Option::None => Option::None,
            };
            let state = match &c.status_check_rollup {
                Option::Some(st) => commit_status_state(st, tests_re),
                Option::None => TestsState::Absent,
            };
            (date_s, state)
        },
        Option::None => (Option::None, TestsState::Absent),
    }
}

/// Whether a CI state passes the user's inclusion flags. A pull request
/// with no CI at all is included unless explicitly excluded.
pub open spec fn spec_include_by_tests_state(state: TestsState, options: crate::cli::PrArgs) -> bool {
    match state {
        TestsState::Success => !options.exclude_tests_success,
        TestsState::Failure => options.include_tests_failure,
        TestsState::Pending => options.include_tests_pending,
        TestsState::Absent => !options.exclude_tests_none,
    }
}

/// Applies the user's CI inclusion flags to a derived CI state.
pub fn include_by_tests_state(state: &TestsState, options: &crate::cli::PrArgs) -> (r: bool)
    ensures
        r == spec_include_by_tests_state(*state, *options),
{
    match state {
        TestsState::Success => !options.exclude_tests_success,
        TestsState::Failure => options.include_tests_failure,
        TestsState::Pending => options.include_tests_pending,
        TestsState::Absent => !options.exclude_tests_none,
    }
}

/// The cheap inclusion rules, in their fixed order: no zero-diff pull
/// requests, no conflicts, title must match the inclusion pattern and must
/// not match the exclusion pattern, the user's own pull requests only when
/// asked for, and already-reviewed ones only when asked for.
pub open spec fn spec_include_pr(
    pr: RawPullRequest,
    re: Option<CompiledRegex>,
    re_not: Option<CompiledRegex>,
    username: Seq<char>,
    include_mine: bool,
    only_mine: bool,
    include_reviewed_by_me: bool,
) -> bool {
    &&& !spec_is_empty(pr)
    &&& !spec_has_conflicts(pr)
    &&& spec_regex_match(re, true, pr.title@)
    &&& !spec_regex_match(re_not, false, pr.title@)
    &&& (include_mine || only_mine || spec_author(pr) != username)
    &&& (include_reviewed_by_me || only_mine || spec_review_states(
        pr.reviews@,
        username,
        true,
    ).len() == 0)
}

/// Applies the cheap inclusion rules to one raw node, short-circuiting on
/// the first failure.
pub fn include_pr(
    pr: &RawPullRequest,
    re: &Option<CompiledRegex>,
    re_not: &Option<CompiledRegex>,
    username: &String,
    include_mine: bool,
    only_mine: bool,
    include_reviewed_by_me: bool,
) -> (r: bool)
    ensures
        r == spec_include_pr(
            *pr,
            *re,
            *re_not,
            username@,
            include_mine,
            only_mine,
            include_reviewed_by_me,
        ),
{
    !is_empty(pr) && !has_conflicts(pr) && regex_match(re, true, pr) && !regex_match(
        re_not,
        false,
        pr,
    ) && (include_mine || only_mine || !author(pr).eq(username)) && (include_reviewed_by_me
        || only_mine || review_states(&pr.reviews, username, true).len() == 0)
}

/// A pull request that changes no lines is never included, whatever the
/// other rules say.
pub proof fn lemma_zero_diff_excluded(
    pr: RawPullRequest,
    re: Option<CompiledRegex>,
    re_not: Option<CompiledRegex>,
    username: Seq<char>,
    include_mine: bool,
    only_mine: bool,
    include_reviewed_by_me: bool,
)
    requires
        pr.additions == 0 && pr.deletions == 0,
    ensures
        !spec_include_pr(
            pr,
            re,
            re_not,
            username,
            include_mine,
            only_mine,
            include_reviewed_by_me,
        ),
{
}

/// A pull request with merge conflicts is never included in the ranking,
/// whatever the other rules say.
pub proof fn lemma_conflicts_excluded_from_ranking(
    pr: RawPullRequest,
    re: Option<CompiledRegex>,
    re_not: Option<CompiledRegex>,
    username: Seq<char>,
    include_mine: bool,
    only_mine: bool,
    include_reviewed_by_me: bool,
)
    requires
        pr.mergeable is Conflicting,
    ensures
        !spec_include_pr(
            pr,
            re,
            re_not,
            username,
            include_mine,
            only_mine,
            include_reviewed_by_me,
        ),
{
}

/// Whether `username` is one of the team's member logins.
pub open spec fn spec_team_has_member(members: Seq<String>, username: Seq<char>) -> bool {
    exists|k: int| 0 <= k < members.len() && #[trigger] members[k]@ == username
}

/// Checks whether `username` appears among the team's members.
fn team_has_member(members: &Vec<String>, username: &String) -> (r: bool)
    ensures
        r == spec_team_has_member(members@, username@),
{
    let mut k: usize = 0;
    while k < members.len()
        invariant
            k <= members@.len(),
            forall|j: int| 0 <= j < k ==> #[trigger] members@[j]@ != username@,
        decreases members@.len() - k,
    {
        if members[k].eq(username) {
            return true;
        }
        k += 1;
    }
    false
}

/// Whether review was requested of `username`, and in which role: the
/// first request naming the user directly or through a team decides.
/// Mannequin entries are skipped; a request that names nobody the token
/// can read is an error, as only a token without the needed scope
/// produces one.
pub open spec fn spec_review_requested(
    reqs: Seq<RawReviewRequest>,
    username: Seq<char>,
) -> Result<ReviewRequested, AteamError>
    decreases reqs.len(),
{
    if reqs.len() == 0 {
        Result::Ok(ReviewRequested::NotRequested)
    } else {
        let r = reqs[0];
        let role = if r.as_code_owner {
            ReviewRequested::RequestedAsCodeOwner
        } else {
            ReviewRequested::RequestedNotAsCodeOwner
        };
        match r.requested_reviewer {
            Option::None => Result::Err(AteamError::MissingReviewerData),
            Option::Some(RawRequestedReviewer::User { login }) => if login@ == username {
                Result::Ok(role)
            } else {
                spec_review_requested(reqs.drop_first(), username)
            },
            Option::Some(RawRequestedReviewer::Team { member_logins }) => if spec_team_has_member(
                member_logins@,
                username,
            ) {
                Result::Ok(role)
            } else {
                spec_review_requested(reqs.drop_first(), username)
            },
            Option::Some(RawRequestedReviewer::Mannequin) => spec_review_requested(
                reqs.drop_first(),
                username,
            ),
        }
    }
}

/// Scans the review requests for one naming `username`.
pub fn review_requested(requests: &Vec<RawReviewRequest>, username: &String) -> (r: Result<
    ReviewRequested,
    AteamError,
>)
    ensures
        r == spec_review_requested(requests@, username@),
{
    let ghost full = requests@;
    let mut i: usize = 0;
    proof {
        assert(full.subrange(0, full.len() as int) =~= full);
    }
    while i < requests.len()
        invariant
            i <= full.len(),
            requests@ == full,
            spec_review_requested(full, username@) == spec_review_requested(
                full.subrange(i as int, full.len() as int),
                username@,
            ),
        decreases full.len() - i,
    {
        let ghost window = full.subrange(i as int, full.len() as int);
        proof {
            assert(window[0] == full[i as int]);
            assert(window.drop_first() =~= full.subrange(i as int + 1, full.len() as int));
        }
        let req = &requests[i];
        let role = if req.as_code_owner {
            ReviewRequested::RequestedAsCodeOwner
        } else {
            ReviewRequested::RequestedNotAsCodeOwner
        };
        match &req.requested_reviewer {
            Option::None => {
                return Result::Err(AteamError::MissingReviewerData);
            },
            Option::Some(RawRequestedReviewer::User { login }) => {
                if login.eq(username) {
                    return Result::Ok(role);
                }
            },
            Option::Some(RawRequestedReviewer::Team { member_logins }) => {
                if team_has_member(member_logins, username) {
                    return Result::Ok(role);
                }
            },
            Option::Some(RawRequestedReviewer::Mannequin) => {},
        }
        i += 1;
    }
    proof {
        assert(full.subrange(full.len() as int, full.len() as int) =~= Seq::<
            RawReviewRequest,
        >::empty());
    }
    Result::Ok(ReviewRequested::NotRequested)
}

/// The deduplicated review history never outgrows the review list.
proof fn lemma_review_states_rec_len(
    rs: Seq<RawReview>,
    author: Seq<char>,
    by_author: bool,
    seen: Set<Seq<char>>,
)
    ensures
        spec_review_states_rec(rs, author, by_author, seen).len() <= rs.len(),
    decreases rs.len(),
{
    if rs.len() > 0 {
        let r = rs.last();
        match r.author_login {
            Option::Some(l) => {
                if ((l@ == author) == by_author) && !seen.contains(l@) {
                    lemma_review_states_rec_len(rs.drop_last(), author, by_author, seen.insert(l@));
                } else {
                    lemma_review_states_rec_len(rs.drop_last(), author, by_author, seen);
                }
            },
            Option::None => {
                lemma_review_states_rec_len(rs.drop_last(), author, by_author, seen);
            },
        }
    }
}

/// The labels of a normalized record: each raw label carried over.
pub open spec fn spec_labels(raw: Seq<crate::raw::RawLabel>) -> Seq<crate::types::Label> {
    raw.map_values(
        |l: crate::raw::RawLabel| crate::types::Label { name: l.name, color: l.color },
    )
}

/// Copies the raw labels into the normalized label list.
pub fn pr_labels(raw: &Vec<crate::raw::RawLabel>) -> (out: crate::types::Labels)
    ensures
        out.0@ == spec_labels(raw@),
{
    let mut v: Vec<crate::types::Label> = Vec::new();
    let mut i: usize = 0;
    while i < raw.len()
        invariant
            i <= raw@.len(),
            v@.len() == i,
            forall|k: int| 0 <= k < i ==> #[trigger] v@[k] == (crate::types::Label {
                name: raw@[k].name,
                color: raw@[k].color,
            }),
        decreases raw@.len() - i,
    {
        v.push(crate::types::Label { name: raw[i].name.clone(), color: raw[i].color.clone() });
        i += 1;
    }
    proof {
        assert(v@ =~= spec_labels(raw@));
    }
    crate::types::Labels(v)
}

/// Copies a list of strings.
fn clone_strings(v: &Vec<String>) -> (out: Vec<String>)
    ensures
        out@ == v@,
{
    let mut out: Vec<String> = Vec::new();
    let mut i: usize = 0;
    while i < v.len()
        invariant
            i <= v@.len(),
            out@.len() == i,
            forall|k: int| 0 <= k < i ==> #[trigger] out@[k] == v@[k],
        decreases v@.len() - i,
    {
        out.push(v[i].clone());
        i += 1;
    }
    proof {
        assert(out@ =~= v@);
    }
    out
}

/// Machine limits the normalizer needs: the list lengths fit the record's
/// signed 64-bit count fields.
pub open spec fn raw_node_wf(pr: RawPullRequest) -> bool {
    &&& pr.reviews@.len() <= 0x7fff_ffff_ffff_ffff
    &&& pr.review_threads@.len() <= 0x7fff_ffff_ffff_ffff
}

/// The label views of a normalized record.
pub open spec fn spec_labels_view(raw: Seq<crate::raw::RawLabel>) -> Seq<crate::types::LabelView> {
    raw.map_values(
        |l: crate::raw::RawLabel| crate::types::LabelView { name: l.name@, color: l.color@ },
    )
}

/// The one normalization map: what the view of the record built from a raw
/// node must be, given the options, the acting user, the optional
/// test-name pattern, the current time, the blame verdict and the user's
/// review-request role.
pub open spec fn spec_normalized_pr(
    pr: RawPullRequest,
    options: crate::cli::PrArgs,
    username: Seq<char>,
    tests_re: Option<CompiledRegex>,
    now_s: i64,
    blame: bool,
    role: ReviewRequested,
) -> crate::types::PrView {
    let date = spec_last_commit_date(pr);
    let states = spec_review_states(pr.reviews@, spec_author(pr), false);
    crate::types::PrView {
        title: pr.title@,
        url: pr.url@,
        last_commit_pushed_date: date,
        last_commit_age_min: match date {
            Option::Some(d) => Option::Some(crate::timeutil::spec_minutes_between(d, now_s) as i64),
            Option::None => Option::<i64>::None,
        },
        tests_result: spec_last_commit_state(pr, tests_re),
        open_conversations: spec_open_conversations(pr.review_threads@) as i64,
        num_approvals: spec_count_approved(states) as i64,
        num_reviewers: states.len() as i64,
        additions: pr.additions,
        deletions: pr.deletions,
        based_on_main_branch: spec_based_on_main_branch(pr.base_ref_name@),
        files: if options.blame {
            pr.files@.map_values(|s: String| s@)
        } else {
            Seq::empty()
        },
        blame,
        labels: spec_labels_view(pr.labels@),
        requested: role is RequestedNotAsCodeOwner,
        codeowner: role is RequestedAsCodeOwner,
    }
}

/// Normalizes one raw node that already passed the cheap filters: derives
/// the CI state and applies the CI inclusion flags (`Ok(None)` when they
/// exclude the node), then builds the `Pr` record. The blame verdict is
/// supplied by the caller, which looks it up only for surviving nodes.
pub fn normalize_node(
    pr: &RawPullRequest,
    options: &crate::cli::PrArgs,
    username: &String,
    tests_re: &Option<CompiledRegex>,
    now_s: i64,
    blame: bool,
) -> (r: Result<Option<crate::types::Pr>, AteamError>)
    requires
        raw_node_wf(*pr),
        -crate::timeutil::MAX_EPOCH_SECONDS < now_s < crate::timeutil::MAX_EPOCH_SECONDS,
    ensures
        r == Result::<Option<crate::types::Pr>, AteamError>::Ok(Option::None)
            <==> !spec_include_by_tests_state(spec_last_commit_state(*pr, *tests_re), *options),
        r is Err ==> spec_include_by_tests_state(spec_last_commit_state(*pr, *tests_re), *options)
            && r == Result::<Option<crate::types::Pr>, AteamError>::Err(
            spec_review_requested(pr.review_requests@, username@)->Err_0,
        ) && spec_review_requested(pr.review_requests@, username@) is Err,
        r matches Result::Ok(Option::Some(p)) ==> (spec_review_requested(
            pr.review_requests@,
            username@,
        ) matches Result::Ok(role) && p@ == spec_normalized_pr(
            *pr,
            *options,
            username@,
            *tests_re,
            now_s,
            blame,
            role,
        )),
{
    let (date_s, state) = last_commit(pr, tests_re);
    if !include_by_tests_state(&state, options) {
        return Result::Ok(Option::None);
    }
    let files = if options.blame {
        crate::types::Files(clone_strings(&pr.files))
    } else {
        crate::types::Files(Vec::new())
    };
    let pr_author = author(pr);
    let states = review_states(&pr.reviews, &pr_author, false);
    proof {
        lemma_review_states_rec_len(pr.reviews@, pr_author@, false, Set::empty());
    }
    let role = match review_requested(&pr.review_requests, username) {
        Result::Ok(role) => role,
        Result::Err(e) => {
            return Result::Err(e);
        },
    };
    let num_approvals = pr_num_approvals(&states);
    let open_conversations = pr_open_conversations(&pr.review_threads);
    let age_min: Option<i64> = match date_s {
        Option::Some(d) => Option::Some(crate::timeutil::minutes_between(d, now_s)),
        Option::None => Option::None,
    };
    let p = crate::types::Pr {
        title: pr.title.clone(),
        url: pr.url.clone(),
        last_commit_pushed_date: date_s,
        last_commit_age_min: age_min,
        tests_result: state,
        open_conversations: open_conversations as i64,
        num_approvals: num_approvals as i64,
        num_reviewers: states.len() as i64,
        additions: pr.additions,
        deletions: pr.deletions,
        based_on_main_branch: pr_based_on_main_branch(&pr.base_ref_name),
        files,
        blame,
        labels: pr_labels(&pr.labels),
        requested: matches!(role, ReviewRequested::RequestedNotAsCodeOwner),
        codeowner: matches!(role, ReviewRequested::RequestedAsCodeOwner),
    };
    proof {
        let expect = spec_normalized_pr(*pr, *options, username@, *tests_re, now_s, blame, role);
        assert(p@.labels =~= expect.labels);
        assert(p@.files =~= expect.files);
        assert(p@ == expect);
    }
    Result::Ok(Option::Some(p))
}

} // verus!
