//! The paginated fetch/score pipeline: the page-size cap, the cursor rule
//! that ends pagination, the scoring of one fetched page, and the state
//! machine that accumulates pages and ranks the result. The network fetch
//! itself is the command layer's job; every decision about what a page
//! yields and when to stop is made here.

use vstd::prelude::*;
use crate::cli::PrArgs;
use crate::error::AteamError;
use crate::normalize::{
    include_pr, normalize_node, raw_node_wf, spec_include_by_tests_state, spec_include_pr,
    spec_last_commit_state, spec_normalized_pr, spec_review_requested,
};
use crate::pattern::{compile_regex, regex_valid, CompiledRegex};
use crate::rank::{sorted_ranked_prs, spec_sort_desc};
use crate::raw::{SearchItem, SearchNode};
use crate::score::{score_wf, spec_score_view};
use crate::types::{Score, ScoredPr, ScoredPrView};

verus! {

/// The platform caps one search page at 100 items.
pub const MAX_BATCH_SIZE: u8 = 100;

/// The page size actually requested: the user's batch size, capped.
pub open spec fn spec_limited_batch_size(batch_size: u8) -> int {
    if batch_size <= MAX_BATCH_SIZE {
        batch_size as int
    } else {
        MAX_BATCH_SIZE as int
    }
}

/// Caps the user's batch size at the platform's page maximum.
pub fn limited_batch_size(batch_size: u8) -> (r: i64)
    ensures
        r == spec_limited_batch_size(batch_size),
{
    (if batch_size <= MAX_BATCH_SIZE {
        batch_size
    } else {
        MAX_BATCH_SIZE
    }) as i64
}

/// The cursor a fetched page yields: none when the page came back shorter
/// than requested (pagination ends), otherwise the last item's cursor.
pub open spec fn spec_last_item_cursor(items: Seq<Option<SearchItem>>, batch_size: int) -> Option<
    String,
> {
    if items.len() < batch_size {
        Option::None
    } else if items.len() == 0 {
        Option::None
    } else {
        match items.last() {
            Option::Some(item) => Option::Some(item.cursor),
            Option::None => Option::None,
        }
    }
}

/// Reads the next-page cursor off a fetched page.
pub fn last_item_cursor(items: &Vec<Option<SearchItem>>, batch_size: i64) -> (r: Option<String>)
    ensures
        r == spec_last_item_cursor(items@, batch_size as int),
        items@.len() < batch_size ==> r is None,
{
    if batch_size >= 0 && (items.len() as u64) < (batch_size as u64) {
        return Option::None;
    }
    if items.len() == 0 {
        return Option::None;
    }
    match &items[items.len() - 1] {
        Option::Some(item) => Option::Some(item.cursor.clone()),
        Option::None => Option::None,
    }
}

/// What one search item contributes: nothing for an absent edge, an
/// absent node, a non-pull-request node, or a node one of the filters
/// rejects; the scored record for a surviving node; and the error of a
/// surviving node whose review requests cannot be read.
pub open spec fn spec_item_scored(
    item: Option<SearchItem>,
    blame: bool,
    options: PrArgs,
    username: Seq<char>,
    re: Option<CompiledRegex>,
    re_not: Option<CompiledRegex>,
    tests_re: Option<CompiledRegex>,
    now_s: i64,
) -> Result<Seq<ScoredPrView>, AteamError> {
    match item {
        Option::None => Result::Ok(Seq::empty()),
        Option::Some(it) => match it.node {
            Option::None => Result::Ok(Seq::empty()),
            Option::Some(SearchNode::Other) => Result::Ok(Seq::empty()),
            Option::Some(SearchNode::PullRequest(pr)) => {
                if !spec_include_pr(
                    pr,
                    re,
                    re_not,
                    username,
                    options.include_mine,
                    options.only_mine,
                    options.include_reviewed_by_me,
                ) {
                    Result::Ok(Seq::empty())
                } else if !spec_include_by_tests_state(
                    spec_last_commit_state(pr, tests_re),
                    options,
                ) {
                    Result::Ok(Seq::empty())
                } else {
                    match spec_review_requested(pr.review_requests@, username) {
                        Result::Err(e) => Result::Err(e),
                        Result::Ok(role) => {
                            let pv = spec_normalized_pr(
                                pr,
                                options,
                                username,
                                tests_re,
                                now_s,
                                blame,
                                role,
                            );
                            Result::Ok(
                                seq![
                                    ScoredPrView {
                                        pr: pv,
                                        score: spec_score_view(options.required_approvals, pv),
                                    },
                                ],
                            )
                        },
                    }
                }
            },
        },
    }
}

/// What a whole page yields: the contributions of its items in page
/// order, or the first error among them.
pub open spec fn spec_process_page(
    items: Seq<Option<SearchItem>>,
    blames: Seq<bool>,
    options: PrArgs,
    username: Seq<char>,
    re: Option<CompiledRegex>,
    re_not: Option<CompiledRegex>,
    tests_re: Option<CompiledRegex>,
    now_s: i64,
) -> Result<Seq<ScoredPrView>, AteamError>
    decreases items.len(),
{
    if items.len() == 0 {
        Result::Ok(Seq::empty())
    } else {
        match spec_item_scored(items[0], blames[0], options, username, re, re_not, tests_re, now_s) {
            Result::Err(e) => Result::Err(e),
            Result::Ok(head) => match spec_process_page(
                items.drop_first(),
                blames.drop_first(),
                options,
                username,
                re,
                re_not,
                tests_re,
                now_s,
            ) {
                Result::Err(e) => Result::Err(e),
                Result::Ok(rest) => Result::Ok(head + rest),
            },
        }
    }
}

/// Every pull-request node of a page is within the normalizer's machine
/// limits.
pub open spec fn page_nodes_wf(items: Seq<Option<SearchItem>>) -> bool {
    forall|i: int|
        0 <= i < items.len() ==> match #[trigger] items[i] {
            Option::Some(it) => match it.node {
                Option::Some(SearchNode::PullRequest(pr)) => raw_node_wf(pr),
                _ => true,
            },
            _ => true,
        }
}

/// The view of each scored record of a list.
pub open spec fn spr_views(sprs: Seq<ScoredPr>) -> Seq<ScoredPrView> {
    sprs.map_values(|s: ScoredPr| s@)
}

/// Filters, normalizes and scores one fetched page. `blames` carries the
/// per-item blame verdict the caller looked up (false wherever blame
/// checking is off or the item did not survive the cheap filters).
pub fn process_page(
    items: &Vec<Option<SearchItem>>,
    blames: &Vec<bool>,
    options: &PrArgs,
    username: &String,
    re: &Option<CompiledRegex>,
    re_not: &Option<CompiledRegex>,
    tests_re: &Option<CompiledRegex>,
    now_s: i64,
) -> (r: Result<Vec<ScoredPr>, AteamError>)
    requires
        blames@.len() == items@.len(),
        page_nodes_wf(items@),
        -crate::timeutil::MAX_EPOCH_SECONDS < now_s < crate::timeutil::MAX_EPOCH_SECONDS,
    ensures
        (match r {
            Result::Ok(sprs) => spec_process_page(
                items@,
                blames@,
                *options,
                username@,
                *re,
                *re_not,
                *tests_re,
                now_s,
            ) == Result::<Seq<ScoredPrView>, AteamError>::Ok(spr_views(sprs@)) && (forall|k: int|
                0 <= k < sprs@.len() ==> score_wf(#[trigger] sprs@[k].score)),
            Result::Err(e) => spec_process_page(
                items@,
                blames@,
                *options,
                username@,
                *re,
                *re_not,
                *tests_re,
                now_s,
            ) == Result::<Seq<ScoredPrView>, AteamError>::Err(e),
        }),
{
    let mut acc: Vec<ScoredPr> = Vec::new();
    let mut i: usize = 0;
    proof {
        assert(spr_views(acc@) =~= Seq::<ScoredPrView>::empty());
        assert(items@.subrange(0, items@.len() as int) =~= items@);
        assert(blames@.subrange(0, blames@.len() as int) =~= blames@);
    }
    while i < items.len()
        invariant
            i <= items@.len(),
            blames@.len() == items@.len(),
            page_nodes_wf(items@),
            -crate::timeutil::MAX_EPOCH_SECONDS < now_s < crate::timeutil::MAX_EPOCH_SECONDS,
            forall|k: int| 0 <= k < acc@.len() ==> score_wf(#[trigger] acc@[k].score),
            (match spec_process_page(
                items@.subrange(i as int, items@.len() as int),
                blames@.subrange(i as int, blames@.len() as int),
                *options,
                username@,
                *re,
                *re_not,
                *tests_re,
                now_s,
            ) {
                Result::Ok(rest) => spec_process_page(
                    items@,
                    blames@,
                    *options,
                    username@,
                    *re,
                    *re_not,
                    *tests_re,
                    now_s,
                ) == Result::<Seq<ScoredPrView>, AteamError>::Ok(spr_views(acc@) + rest),
                Result::Err(e) => spec_process_page(
                    items@,
                    blames@,
                    *options,
                    username@,
                    *re,
                    *re_not,
                    *tests_re,
                    now_s,
                ) == Result::<Seq<ScoredPrView>, AteamError>::Err(e),
            }),
        decreases items@.len() - i,
    {
        let ghost n = items@.len() as int;
        let ghost rem_items = items@.subrange(i as int, n);
        let ghost rem_blames = blames@.subrange(i as int, n);
        proof {
            assert(rem_items[0] == items@[i as int]);
            assert(rem_blames[0] == blames@[i as int]);
            assert(rem_items.drop_first() =~= items@.subrange(i as int + 1, n));
            assert(rem_blames.drop_first() =~= blames@.subrange(i as int + 1, n));
        }
        let ghost pre_acc = acc@;
        match &items[i] {
            Option::Some(it) => {
                match &it.node {
                    Option::Some(SearchNode::PullRequest(pr)) => {
                        if include_pr(
                            pr,
                            re,
                            re_not,
                            username,
                            options.include_mine,
                            options.only_mine,
                            options.include_reviewed_by_me,
                        ) {
                            match normalize_node(pr, options, username, tests_re, now_s, blames[i]) {
                                Result::Ok(Option::Some(p)) => {
                                    let score = Score::from_pr(options.required_approvals, &p);
                                    acc.push(ScoredPr { pr: p, score });
                                    proof {
                                        assert(spr_views(acc@) =~= spr_views(pre_acc).push(
                                            acc@.last()@,
                                        ));
                                        assert(spr_views(pre_acc) + (seq![acc@.last()@]
                                            + spec_process_page(
                                            rem_items.drop_first(),
                                            rem_blames.drop_first(),
                                            *options,
                                            username@,
                                            *re,
                                            *re_not,
                                            *tests_re,
                                            now_s,
                                        )->Ok_0) =~= spr_views(acc@) + spec_process_page(
                                            rem_items.drop_first(),
                                            rem_blames.drop_first(),
                                            *options,
                                            username@,
                                            *re,
                                            *re_not,
                                            *tests_re,
                                            now_s,
                                        )->Ok_0);
                                    }
                                },
                                Result::Ok(Option::None) => {
                                    proof {
                                        assert(spr_views(acc@) + Seq::<ScoredPrView>::empty()
                                            =~= spr_views(acc@));
                                    }
                                },
                                Result::Err(e) => {
                                    return Result::Err(e);
                                },
                            }
                        } else {
                            proof {
                                assert(spr_views(acc@) + Seq::<ScoredPrView>::empty() =~= spr_views(
                                    acc@,
                                ));
                            }
                        }
                    },
                    Option::Some(SearchNode::Other) => {
                        proof {
                            assert(spr_views(acc@) + Seq::<ScoredPrView>::empty() =~= spr_views(
                                acc@,
                            ));
                        }
                    },
                    Option::None => {
                        proof {
                            assert(spr_views(acc@) + Seq::<ScoredPrView>::empty() =~= spr_views(
                                acc@,
                            ));
                        }
                    },
                }
            },
            Option::None => {
                proof {
                    assert(spr_views(acc@) + Seq::<ScoredPrView>::empty() =~= spr_views(acc@));
                }
            },
        }
        i += 1;
    }
    proof {
        assert(items@.subrange(items@.len() as int, items@.len() as int) =~= Seq::<
            Option<SearchItem>,
        >::empty());
        assert(blames@.subrange(blames@.len() as int, blames@.len() as int) =~= Seq::<
            bool,
        >::empty());
        assert(spr_views(acc@) + Seq::<ScoredPrView>::empty() =~= spr_views(acc@));
    }
    Result::Ok(acc)
}

/// Whether an optional user pattern is accepted by the regex engine.
pub open spec fn opt_pattern_valid(o: Option<String>) -> bool {
    match o {
        Option::Some(t) => regex_valid(t@),
        Option::None => true,
    }
}

/// Whether a compiled optional pattern corresponds to its option.
pub open spec fn opt_regex_matches(re: Option<CompiledRegex>, o: Option<String>) -> bool {
    match o {
        Option::Some(t) => re matches Option::Some(c) && c.pattern_view() == t@,
        Option::None => re is None,
    }
}

/// The fetch/score state machine. The command layer drives it: while
/// `wants_fetch`, it fetches the page at `next_cursor` and hands the items
/// (with their blame verdicts) to `on_page`; `results` then ranks
/// everything accumulated. One instance handles one invocation.
pub struct Scheduler {
    pub options: PrArgs,
    pub username: String,
    pub re: Option<CompiledRegex>,
    pub re_not: Option<CompiledRegex>,
    pub tests_re: Option<CompiledRegex>,
    pub batch_size: i64,
    pub cursor: Option<String>,
    pub started: bool,
    pub pages: usize,
    pub acc: Vec<ScoredPr>,
}

impl Scheduler {
    /// The machine's invariant: the capped batch size, compiled patterns
    /// corresponding to the options, and bounded accumulated scores.
    pub open spec fn wf(self) -> bool {
        &&& self.batch_size == spec_limited_batch_size(self.options.batch_size)
        &&& forall|k: int| 0 <= k < self.acc@.len() ==> score_wf(#[trigger] self.acc@[k].score)
        &&& opt_regex_matches(self.re, self.options.regex)
        &&& opt_regex_matches(self.re_not, self.options.regex_not)
        &&& opt_regex_matches(self.tests_re, self.options.tests_regex)
    }

    /// Builds the machine, compiling the three optional patterns up front:
    /// an invalid pattern fails the whole command before any network call.
    pub fn new(options: PrArgs, username: String) -> (r: Result<Scheduler, AteamError>)
        ensures
            r is Ok <==> opt_pattern_valid(options.regex) && opt_pattern_valid(options.regex_not)
                && opt_pattern_valid(options.tests_regex),
            r matches Result::Ok(s) ==> (s.wf() && s.options == options && s.username == username
                && !s.started && s.cursor is None && s.acc@ == Seq::<ScoredPr>::empty()
                && s.pages == 0),
            r matches Result::Err(e) ==> e is InvalidRegex,
    {
        let re = match compile_regex(&options.regex) {
            Result::Ok(c) => c,
            Result::Err(e) => {
                return Result::Err(e);
            },
        };
        let re_not = match compile_regex(&options.regex_not) {
            Result::Ok(c) => c,
            Result::Err(e) => {
                return Result::Err(e);
            },
        };
        let tests_re = match compile_regex(&options.tests_regex) {
            Result::Ok(c) => c,
            Result::Err(e) => {
                return Result::Err(e);
            },
        };
        let batch_size = limited_batch_size(options.batch_size);
        Result::Ok(
            Scheduler {
                options,
                username,
                re,
                re_not,
                tests_re,
                batch_size,
                cursor: Option::None,
                started: false,
                pages: 0,
                acc: Vec::new(),
            },
        )
    }

    /// Whether another page must be fetched: always at the start, and
    /// afterwards exactly while the last page yielded a cursor.
    pub fn wants_fetch(&self) -> (r: bool)
        ensures
            r == (!self.started || self.cursor is Some),
    {
        !self.started || self.cursor.is_some()
    }

    /// The cursor to fetch the next page at: none for the first page.
    pub fn next_cursor(&self) -> (r: Option<String>)
        ensures
            r == self.cursor,
    {
        match &self.cursor {
            Option::Some(c) => Option::Some(c.clone()),
            Option::None => Option::None,
        }
    }

    /// How many pages were handed in so far.
    pub fn page_index(&self) -> (r: usize)
        ensures
            r == self.pages,
    {
        self.pages
    }

    /// Feeds one fetched page into the machine: its items are filtered,
    /// normalized and scored in page order and appended to the
    /// accumulator, and the page's cursor decides whether pagination goes
    /// on. An error leaves the machine untouched; the whole command is
    /// aborted rather than ranking a partial result.
    pub fn on_page(&mut self, items: &Vec<Option<SearchItem>>, blames: &Vec<bool>, now_s: i64)
        -> (r: Result<(), AteamError>)
        requires
            old(self).wf(),
            old(self).pages < 0xffff_ffff,
            blames@.len() == items@.len(),
            page_nodes_wf(items@),
            -crate::timeutil::MAX_EPOCH_SECONDS < now_s < crate::timeutil::MAX_EPOCH_SECONDS,
        ensures
            final(self).wf(),
            final(self).options == old(self).options,
            final(self).username == old(self).username,
            final(self).batch_size == old(self).batch_size,
            r is Ok <==> spec_process_page(
                items@,
                blames@,
                old(self).options,
                old(self).username@,
                old(self).re,
                old(self).re_not,
                old(self).tests_re,
                now_s,
            ) is Ok,
            r matches Result::Err(e) ==> (spec_process_page(
                items@,
                blames@,
                old(self).options,
                old(self).username@,
                old(self).re,
                old(self).re_not,
                old(self).tests_re,
                now_s,
            ) == Result::<Seq<ScoredPrView>, AteamError>::Err(e) && *final(self) == *old(self)),
            r is Ok ==> (spec_process_page(
                items@,
                blames@,
                old(self).options,
                old(self).username@,
                old(self).re,
                old(self).re_not,
                old(self).tests_re,
                now_s,
            ) matches Result::Ok(page) && spr_views(final(self).acc@) == spr_views(
                old(self).acc@,
            ) + page),
            r is Ok ==> final(self).cursor == spec_last_item_cursor(
                items@,
                old(self).batch_size as int,
            ) && final(self).started && final(self).pages == old(self).pages + 1,
    {
        let page = match process_page(
            items,
            blames,
            &self.options,
            &self.username,
            &self.re,
            &self.re_not,
            &self.tests_re,
            now_s,
        ) {
            Result::Ok(page) => page,
            Result::Err(e) => {
                return Result::Err(e);
            },
        };
        let ghost pre_acc = self.acc@;
        let ghost page_seq = page@;
        let mut page = page;
        self.acc.append(&mut page);
        self.cursor = last_item_cursor(items, self.batch_size);
        self.started = true;
        self.pages = self.pages + 1;
        proof {
            assert(spr_views(pre_acc + page_seq) =~= spr_views(pre_acc) + spr_views(page_seq));
        }
        Result::Ok(())
    }

    /// Ranks everything accumulated: the stable descending sort of the
    /// scored pull requests of all pages, in page order.
    pub fn results(self) -> (r: Vec<ScoredPr>)
        requires
            self.wf(),
        ensures
            r@ == spec_sort_desc(self.acc@),
    {
        sorted_ranked_prs(self.acc)
    }
}

} // verus!
