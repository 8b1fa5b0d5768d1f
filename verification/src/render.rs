//! Row and line rendering: the cell texts of the ranking table, the short
//! one-line form of a pull request, and the follow-up list as plain rows
//! or JSON. Box drawing and terminal sizing are the command layer's job;
//! every character of content is produced here.

use vstd::prelude::*;
use crate::score::{score_wf, spec_total};
use crate::strfmt::{
    digit_char, i64_to_string, push_char, score_tenths, show_bool, show_duration, spec_dec_signed,
    spec_digit, spec_score_tenths, spec_show_bool, spec_show_duration, spec_tests_result_label,
    tests_result_label,
};
use crate::types::{Labels, LabelView, Pr, Review, ReviewState, ScoredPr, ScoredPrView};

verus! {

/// One label shown in parentheses.
pub open spec fn spec_label_str(l: LabelView) -> Seq<char> {
    "("@ + l.name + ")"@
}

/// All labels, space-separated.
pub open spec fn spec_labels_str(ls: Seq<LabelView>) -> Seq<char>
    decreases ls.len(),
{
    if ls.len() == 0 {
        Seq::empty()
    } else if ls.len() == 1 {
        spec_label_str(ls[0])
    } else {
        spec_labels_str(ls.drop_last()) + " "@ + spec_label_str(ls.last())
    }
}

impl Labels {
    /// Renders the labels space-separated, each in parentheses.
    pub fn display_string(&self) -> (r: String)
        ensures
            r@ == spec_labels_str(self.0@.map_values(|l: crate::types::Label| l@)),
    {
        let ghost lv = self.0@.map_values(|l: crate::types::Label| l@);
        let mut s = String::new();
        let mut i: usize = 0;
        proof {
            assert(lv.subrange(0, 0) =~= Seq::<LabelView>::empty());
        }
        while i < self.0.len()
            invariant
                i <= self.0@.len(),
                lv == self.0@.map_values(|l: crate::types::Label| l@),
                s@ == spec_labels_str(lv.subrange(0, i as int)),
            decreases self.0@.len() - i,
        {
            proof {
                assert(lv.subrange(0, i as int + 1).drop_last() =~= lv.subrange(0, i as int));
                assert(lv.subrange(0, i as int + 1).last() == lv[i as int]);
            }
            if i > 0 {
                s.append(" ");
            }
            s.append("(");
            s.append(self.0[i].name.as_str());
            s.append(")");
            proof {
                if i == 0 {
                    assert(Seq::<char>::empty() + ("("@ + lv[0].name + ")"@) =~= spec_label_str(
                        lv[0],
                    ));
                    assert(s@ =~= spec_labels_str(lv.subrange(0, 1)));
                } else {
                    assert(s@ =~= spec_labels_str(lv.subrange(0, i as int + 1)));
                }
            }
            i += 1;
        }
        proof {
            assert(lv.subrange(0, lv.len() as int) =~= lv);
        }
        s
    }
}

/// The one-line form of a pull request: its address, its title and its
/// labels.
pub open spec fn spec_pr_line(v: crate::types::PrView) -> Seq<char> {
    v.url + " - "@ + v.title + " "@ + spec_labels_str(v.labels)
}

impl Pr {
    /// Renders the one-line form of this pull request.
    pub fn display_string(&self) -> (r: String)
        ensures
            r@ == spec_pr_line(self@),
    {
        let mut s = String::new();
        s.append(self.url.as_str());
        s.append(" - ");
        s.append(self.title.as_str());
        s.append(" ");
        let labels = self.labels.display_string();
        s.append(labels.as_str());
        proof {
            assert(s@ =~= spec_pr_line(self@));
        }
        s
    }
}

/// Each file followed by a newline, in order.
pub open spec fn spec_file_lines(files: Seq<Seq<char>>) -> Seq<char>
    decreases files.len(),
{
    if files.len() == 0 {
        Seq::empty()
    } else {
        spec_file_lines(files.drop_last()) + files.last() + "\n"@
    }
}

/// The changed files appended to the debug block: nothing when no file
/// was fetched, else a newline and then one file per line.
pub open spec fn spec_files_block(files: Seq<Seq<char>>) -> Seq<char> {
    if files.len() == 0 {
        Seq::empty()
    } else {
        "\n"@ + spec_file_lines(files)
    }
}

/// Renders the changed files, one per line, framed by newlines.
fn files_block(files: &crate::types::Files) -> (r: String)
    ensures
        r@ == spec_files_block(files.0@.map_values(|s: String| s@)),
{
    let ghost fv = files.0@.map_values(|s: String| s@);
    let mut s = String::new();
    if files.0.len() == 0 {
        return s;
    }
    s.append("\n");
    let mut i: usize = 0;
    proof {
        assert(fv.subrange(0, 0) =~= Seq::<Seq<char>>::empty());
        assert(s@ =~= "\n"@ + spec_file_lines(fv.subrange(0, 0)));
    }
    while i < files.0.len()
        invariant
            i <= files.0@.len(),
            files.0@.len() > 0,
            fv == files.0@.map_values(|s: String| s@),
            s@ == "\n"@ + spec_file_lines(fv.subrange(0, i as int)),
        decreases files.0@.len() - i,
    {
        proof {
            assert(fv.subrange(0, i as int + 1).drop_last() =~= fv.subrange(0, i as int));
            assert(fv.subrange(0, i as int + 1).last() == fv[i as int]);
        }
        s.append(files.0[i].as_str());
        s.append("\n");
        i += 1;
    }
    proof {
        assert(fv.subrange(0, fv.len() as int) =~= fv);
    }
    s
}

/// The debug block of one row: every score component and the total, each
/// in points with one decimal, then the changed files.
pub open spec fn spec_debug_info(v: ScoredPrView) -> Seq<char> {
    "\nAge:"@ + spec_score_tenths(v.score.age as int) + " T:"@ + spec_score_tenths(
        v.score.tests_result as int,
    ) + " OC:"@ + spec_score_tenths(v.score.open_conversations as int) + " Ap:"@
        + spec_score_tenths(v.score.num_approvals as int) + " R:"@ + spec_score_tenths(
        v.score.num_reviewers as int,
    ) + " +:"@ + spec_score_tenths(v.score.additions as int) + " -:"@ + spec_score_tenths(
        v.score.deletions as int,
    ) + " M.br:"@ + spec_score_tenths(v.score.based_on_main_branch as int) + " Bl:"@
        + spec_score_tenths(v.score.blame as int) + " Req.:"@ + spec_score_tenths(
        v.score.requested as int,
    ) + " C.Owner:"@ + spec_score_tenths(v.score.codeowner as int) + " Tot:"@ + spec_score_tenths(
        spec_total(v.score),
    ) + spec_files_block(v.pr.files) + "\n"@
}

/// Renders the debug block of one row.
fn debug_info(spr: &ScoredPr) -> (r: String)
    requires
        score_wf(spr.score),
    ensures
        r@ == spec_debug_info(spr@),
{
    let mut s = String::new();
    s.append("\nAge:");
    let c0 = score_tenths(spr.score.age);
    s.append(c0.as_str());
    s.append(" T:");
    let c1 = score_tenths(spr.score.tests_result);
    s.append(c1.as_str());
    s.append(" OC:");
    let c2 = score_tenths(spr.score.open_conversations);
    s.append(c2.as_str());
    s.append(" Ap:");
    let c3 = score_tenths(spr.score.num_approvals);
    s.append(c3.as_str());
    s.append(" R:");
    let c4 = score_tenths(spr.score.num_reviewers);
    s.append(c4.as_str());
    s.append(" +:");
    let c5 = score_tenths(spr.score.additions);
    s.append(c5.as_str());
    s.append(" -:");
    let c6 = score_tenths(spr.score.deletions);
    s.append(c6.as_str());
    s.append(" M.br:");
    let c7 = score_tenths(spr.score.based_on_main_branch);
    s.append(c7.as_str());
    s.append(" Bl:");
    let c8 = score_tenths(spr.score.blame);
    s.append(c8.as_str());
    s.append(" Req.:");
    let c9 = score_tenths(spr.score.requested);
    s.append(c9.as_str());
    s.append(" C.Owner:");
    let c10 = score_tenths(spr.score.codeowner);
    s.append(c10.as_str());
    s.append(" Tot:");
    let tot = spr.score.total();
    let ct = score_tenths(tot);
    s.append(ct.as_str());
    let fb = files_block(&spr.pr.files);
    s.append(fb.as_str());
    s.append("\n");
    proof {
        assert(s@ =~= spec_debug_info(spr@));
    }
    s
}

/// The eleven cell texts of one row of the ranking table.
pub open spec fn spec_pr_row(v: ScoredPrView, debug: bool) -> Seq<Seq<char>> {
    seq![
        v.pr.url + "\n"@ + v.pr.title + " "@ + spec_labels_str(v.pr.labels) + (if debug {
            spec_debug_info(v)
        } else {
            Seq::empty()
        }),
        spec_show_duration(v.pr.last_commit_age_min),
        spec_tests_result_label(v.pr.tests_result),
        spec_dec_signed(v.pr.open_conversations as int),
        spec_dec_signed(v.pr.num_approvals as int) + "/"@ + spec_dec_signed(
            v.pr.num_reviewers as int,
        ),
        "+"@ + spec_dec_signed(v.pr.additions as int) + " -"@ + spec_dec_signed(
            v.pr.deletions as int,
        ),
        spec_show_bool(v.pr.based_on_main_branch),
        spec_show_bool(v.pr.blame),
        spec_show_bool(v.pr.requested),
        spec_show_bool(v.pr.codeowner),
        spec_score_tenths(spec_total(v.score)),
    ]
}

/// Builds the cell texts of one row of the ranking table.
#[verifier::rlimit(60)]
pub fn pr_row(spr: &ScoredPr, debug: bool) -> (r: Vec<String>)
    requires
        score_wf(spr.score),
    ensures
        r@.map_values(|s: String| s@) == spec_pr_row(spr@, debug),
{
    let mut cells: Vec<String> = Vec::new();
    let mut main = String::new();
    main.append(spr.pr.url.as_str());
    main.append("\n");
    main.append(spr.pr.title.as_str());
    main.append(" ");
    let labels = spr.pr.labels.display_string();
    main.append(labels.as_str());
    if debug {
        let di = debug_info(spr);
        main.append(di.as_str());
    }
    cells.push(main);
    cells.push(show_duration(spr.pr.last_commit_age_min));
    cells.push(String::from_str(tests_result_label(&spr.pr.tests_result)));
    cells.push(i64_to_string(spr.pr.open_conversations));
    let mut approvals = i64_to_string(spr.pr.num_approvals);
    approvals.append("/");
    let reviewers = i64_to_string(spr.pr.num_reviewers);
    approvals.append(reviewers.as_str());
    cells.push(approvals);
    let mut diff = String::from_str("+");
    let adds = i64_to_string(spr.pr.additions);
    diff.append(adds.as_str());
    diff.append(" -");
    let dels = i64_to_string(spr.pr.deletions);
    diff.append(dels.as_str());
    cells.push(diff);
    cells.push(String::from_str(show_bool(spr.pr.based_on_main_branch)));
    cells.push(String::from_str(show_bool(spr.pr.blame)));
    cells.push(String::from_str(show_bool(spr.pr.requested)));
    cells.push(String::from_str(show_bool(spr.pr.codeowner)));
    let total = spr.score.total();
    cells.push(score_tenths(total));
    proof {
        assert(cells@.map_values(|s: String| s@) =~= spec_pr_row(spr@, debug));
    }
    cells
}

/// The short form: the one-line form of the first `limit` ranked pull
/// requests, newline-separated.
pub open spec fn spec_short_prs(vs: Seq<ScoredPrView>) -> Seq<char>
    decreases vs.len(),
{
    if vs.len() == 0 {
        Seq::empty()
    } else if vs.len() == 1 {
        spec_pr_line(vs[0].pr)
    } else {
        spec_short_prs(vs.drop_last()) + "\n"@ + spec_pr_line(vs.last().pr)
    }
}

/// Renders the short one-line-per-entry form of the first `limit` ranked
/// pull requests.
pub fn short_prs(sprs: &Vec<ScoredPr>, limit: usize) -> (r: String)
    ensures
        r@ == spec_short_prs(
            crate::schedule::spr_views(
                sprs@.subrange(
                    0,
                    if limit < sprs@.len() {
                        limit as int
                    } else {
                        sprs@.len() as int
                    },
                ),
            ),
        ),
{
    let n = if limit < sprs.len() {
        limit
    } else {
        sprs.len()
    };
    let ghost vs = crate::schedule::spr_views(sprs@.subrange(0, n as int));
    let mut s = String::new();
    let mut i: usize = 0;
    proof {
        assert(vs.subrange(0, 0) =~= Seq::<ScoredPrView>::empty());
    }
    while i < n
        invariant
            i <= n <= sprs@.len(),
            vs == crate::schedule::spr_views(sprs@.subrange(0, n as int)),
            s@ == spec_short_prs(vs.subrange(0, i as int)),
        decreases n - i,
    {
        proof {
            assert(vs.subrange(0, i as int + 1).drop_last() =~= vs.subrange(0, i as int));
            assert(vs.subrange(0, i as int + 1).last() == vs[i as int]);
            assert(vs[i as int] == sprs@[i as int]@);
        }
        if i > 0 {
            s.append("\n");
        }
        let line = sprs[i].pr.display_string();
        s.append(line.as_str());
        proof {
            if i == 0 {
                assert(Seq::<char>::empty() + spec_pr_line(vs[0].pr) =~= spec_pr_line(vs[0].pr));
                assert(s@ =~= spec_short_prs(vs.subrange(0, 1)));
            }
        }
        i += 1;
    }
    proof {
        assert(vs.subrange(0, vs.len() as int) =~= vs);
    }
    s
}

impl ReviewState {
    /// The human-readable name of this state.
    pub fn display_string(&self) -> (r: &'static str)
        ensures
            (match self {
                ReviewState::Dismissed => r@ == "Dismissed"@,
                ReviewState::WithAddressedConversations => r@ == "With addressed conversations"@,
            }),
    {
        match self {
            ReviewState::Dismissed => "Dismissed",
            ReviewState::WithAddressedConversations => "With addressed conversations",
        }
    }
}

/// The display text of a follow-up state.
pub open spec fn spec_state_display(s: ReviewState) -> Seq<char> {
    match s {
        ReviewState::Dismissed => "Dismissed"@,
        ReviewState::WithAddressedConversations => "With addressed conversations"@,
    }
}

/// The three cell texts of one follow-up row: address, state, title.
pub open spec fn spec_review_row(r: Review) -> Seq<Seq<char>> {
    seq![r.url@, spec_state_display(r.state), r.pr_title@]
}

/// Builds the cell texts of one follow-up row.
pub fn review_row(review: &Review) -> (r: Vec<String>)
    ensures
        r@.map_values(|s: String| s@) == spec_review_row(*review),
{
    let mut cells: Vec<String> = Vec::new();
    cells.push(review.url.clone());
    cells.push(String::from_str(review.state.display_string()));
    cells.push(review.pr_title.clone());
    proof {
        assert(cells@.map_values(|s: String| s@) =~= spec_review_row(*review));
    }
    cells
}

/// The lowercase hexadecimal digit character of a value below sixteen.
pub open spec fn spec_hex_digit(d: int) -> char {
    if d < 10 {
        spec_digit(d)
    } else if d == 10 {
        'a'
    } else if d == 11 {
        'b'
    } else if d == 12 {
        'c'
    } else if d == 13 {
        'd'
    } else if d == 14 {
        'e'
    } else {
        'f'
    }
}

/// Returns the lowercase hexadecimal digit character of `d`.
fn hex_char(d: u8) -> (c: char)
    requires
        d < 16,
    ensures
        c == spec_hex_digit(d as int),
{
    if d < 10 {
        digit_char(d)
    } else {
        match d {
            10 => 'a',
            11 => 'b',
            12 => 'c',
            13 => 'd',
            14 => 'e',
            _ => 'f',
        }
    }
}

/// How one character appears inside a JSON string: quotes and backslashes
/// escaped, the named control shorthands used where JSON has them, any
/// other control character written as a four-digit escape, and everything
/// else as itself.
pub open spec fn spec_escape_char(c: char) -> Seq<char> {
    if c == '"' {
        "\\\""@
    } else if c == '\\' {
        "\\\\"@
    } else if c == '\u{8}' {
        "\\b"@
    } else if c == '\u{c}' {
        "\\f"@
    } else if c == '\n' {
        "\\n"@
    } else if c == '\r' {
        "\\r"@
    } else if c == '\t' {
        "\\t"@
    } else if (c as int) < 32 {
        "\\u00"@ + seq![spec_hex_digit((c as int) / 16), spec_hex_digit((c as int) % 16)]
    } else {
        seq![c]
    }
}

/// A whole string escaped for JSON, character by character.
pub open spec fn spec_json_escape(s: Seq<char>) -> Seq<char>
    decreases s.len(),
{
    if s.len() == 0 {
        Seq::empty()
    } else {
        spec_json_escape(s.drop_last()) + spec_escape_char(s.last())
    }
}

/// Escapes one string for embedding in a JSON string literal.
fn json_escape(s: &str) -> (r: String)
    ensures
        r@ == spec_json_escape(s@),
{
    let n = s.unicode_len();
    let mut out = String::new();
    let mut i: usize = 0;
    proof {
        assert(s@.subrange(0, 0) =~= Seq::<char>::empty());
    }
    while i < n
        invariant
            i <= n == s@.len(),
            out@ == spec_json_escape(s@.subrange(0, i as int)),
        decreases n - i,
    {
        proof {
            assert(s@.subrange(0, i as int + 1).drop_last() =~= s@.subrange(0, i as int));
            assert(s@.subrange(0, i as int + 1).last() == s@[i as int]);
        }
        let c = s.get_char(i);
        if c == '"' {
            out.append("\\\"");
        } else if c == '\\' {
            out.append("\\\\");
        } else if c == '\u{8}' {
            out.append("\\b");
        } else if c == '\u{c}' {
            out.append("\\f");
        } else if c == '\n' {
            out.append("\\n");
        } else if c == '\r' {
            out.append("\\r");
        } else if c == '\t' {
            out.append("\\t");
        } else if (c as u32) < 32 {
            out.append("\\u00");
            push_char(&mut out, hex_char(((c as u32) / 16) as u8));
            push_char(&mut out, hex_char(((c as u32) % 16) as u8));
            proof {
                assert(out@ =~= spec_json_escape(s@.subrange(0, i as int + 1)));
            }
        } else {
            push_char(&mut out, c);
        }
        i += 1;
    }
    proof {
        assert(s@.subrange(0, s@.len() as int) =~= s@);
    }
    out
}

/// The JSON name of a follow-up state.
pub open spec fn spec_state_name(s: ReviewState) -> Seq<char> {
    match s {
        ReviewState::Dismissed => "Dismissed"@,
        ReviewState::WithAddressedConversations => "WithAddressedConversations"@,
    }
}

/// One follow-up record as a JSON object, fields in declaration order.
pub open spec fn spec_json_review(r: Review) -> Seq<char> {
    "{\"state\":\""@ + spec_state_name(r.state) + "\",\"url\":\""@ + spec_json_escape(r.url@)
        + "\",\"pr_title\":\""@ + spec_json_escape(r.pr_title@) + "\"}"@
}

/// Renders one follow-up record as a JSON object.
fn json_review(review: &Review) -> (r: String)
    ensures
        r@ == spec_json_review(*review),
{
    let mut s = String::from_str("{\"state\":\"");
    match review.state {
        ReviewState::Dismissed => s.append("Dismissed"),
        ReviewState::WithAddressedConversations => s.append("WithAddressedConversations"),
    }
    s.append("\",\"url\":\"");
    let url = json_escape(review.url.as_str());
    s.append(url.as_str());
    s.append("\",\"pr_title\":\"");
    let title = json_escape(review.pr_title.as_str());
    s.append(title.as_str());
    s.append("\"}");
    s
}

/// The follow-up records as a JSON array body, comma-separated.
pub open spec fn spec_json_review_items(rs: Seq<Review>) -> Seq<char>
    decreases rs.len(),
{
    if rs.len() == 0 {
        Seq::empty()
    } else if rs.len() == 1 {
        spec_json_review(rs[0])
    } else {
        spec_json_review_items(rs.drop_last()) + ","@ + spec_json_review(rs.last())
    }
}

/// The whole follow-up list as a JSON array.
pub open spec fn spec_json_reviews(rs: Seq<Review>) -> Seq<char> {
    "["@ + spec_json_review_items(rs) + "]"@
}

/// One follow-up record as a plain text row: address, state, title.
pub open spec fn spec_review_line(r: Review) -> Seq<char> {
    r.url@ + " "@ + spec_state_display(r.state) + " "@ + r.pr_title@
}

/// The follow-up records as plain text, one row per line.
pub open spec fn spec_plain_reviews(rs: Seq<Review>) -> Seq<char>
    decreases rs.len(),
{
    if rs.len() == 0 {
        Seq::empty()
    } else if rs.len() == 1 {
        spec_review_line(rs[0])
    } else {
        spec_plain_reviews(rs.drop_last()) + "\n"@ + spec_review_line(rs.last())
    }
}

/// Renders the follow-up list: as a JSON array when `json` is set, else
/// as plain rows, one per line. Decorated table output is the command
/// layer's concern; this is the content.
pub fn reviews(list: &Vec<Review>, json: bool) -> (r: String)
    ensures
        json ==> r@ == spec_json_reviews(list@),
        !json ==> r@ == spec_plain_reviews(list@),
{
    if json {
        let mut s = String::from_str("[");
        let mut i: usize = 0;
        proof {
            assert(list@.subrange(0, 0) =~= Seq::<Review>::empty());
        }
        while i < list.len()
            invariant
                i <= list@.len(),
                s@ == "["@ + spec_json_review_items(list@.subrange(0, i as int)),
            decreases list@.len() - i,
        {
            proof {
                assert(list@.subrange(0, i as int + 1).drop_last() =~= list@.subrange(
                    0,
                    i as int,
                ));
                assert(list@.subrange(0, i as int + 1).last() == list@[i as int]);
            }
            if i > 0 {
                s.append(",");
            }
            let item = json_review(&list[i]);
            s.append(item.as_str());
            proof {
                if i == 0 {
                    assert(Seq::<char>::empty() + spec_json_review(list@[0]) =~= spec_json_review(
                        list@[0],
                    ));
                    assert(s@ =~= "["@ + spec_json_review_items(list@.subrange(0, 1)));
                }
            }
            i += 1;
        }
        s.append("]");
        proof {
            assert(list@.subrange(0, list@.len() as int) =~= list@);
        }
        s
    } else {
        let mut s = String::new();
        let mut i: usize = 0;
        proof {
            assert(list@.subrange(0, 0) =~= Seq::<Review>::empty());
        }
        while i < list.len()
            invariant
                i <= list@.len(),
                s@ == spec_plain_reviews(list@.subrange(0, i as int)),
            decreases list@.len() - i,
        {
            proof {
                assert(list@.subrange(0, i as int + 1).drop_last() =~= list@.subrange(
                    0,
                    i as int,
                ));
                assert(list@.subrange(0, i as int + 1).last() == list@[i as int]);
            }
            if i > 0 {
                s.append("\n");
            }
            s.append(list[i].url.as_str());
            s.append(" ");
            s.append(list[i].state.display_string());
            s.append(" ");
            s.append(list[i].pr_title.as_str());
            proof {
                if i == 0 {
                    assert(Seq::<char>::empty() + spec_review_line(list@[0]) =~= s@);
                    assert(s@ =~= spec_plain_reviews(list@.subrange(0, 1)));
                } else {
                    assert(s@ =~= spec_plain_reviews(list@.subrange(0, i as int + 1)));
                }
            }
            i += 1;
        }
        proof {
            assert(list@.subrange(0, list@.len() as int) =~= list@);
        }
        s
    }
}

} // verus!
