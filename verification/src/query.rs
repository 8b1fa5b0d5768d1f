//! The query builder: turns the user's filters into the platform's search
//! query string. Every clause is either empty or one token ending in a
//! space, and the clause order is fixed, so two runs over the same options
//! produce the same query character for character.

use vstd::prelude::*;
use crate::cli::PrArgs;

verus! {

/// The draft clause: drafts are excluded unless asked for.
pub open spec fn spec_query_drafts(include_drafts: bool) -> Seq<char> {
    if include_drafts {
        Seq::empty()
    } else {
        "draft:false "@
    }
}

/// Emits the draft clause.
pub fn query_drafts(include_drafts: bool) -> (r: &'static str)
    ensures
        r@ == spec_query_drafts(include_drafts),
{
    if include_drafts {
        proof {
            reveal_strlit("");
            assert(""@ =~= Seq::<char>::empty());
        }
        ""
    } else {
        "draft:false "
    }
}

/// The author clause: only the user's own pull requests when asked for.
pub open spec fn spec_query_mine(username: Seq<char>, only_mine: bool) -> Seq<char> {
    if only_mine {
        "author:"@ + username + " "@
    } else {
        Seq::empty()
    }
}

/// Emits the author clause.
pub fn query_mine(username: &String, only_mine: bool) -> (r: String)
    ensures
        r@ == spec_query_mine(username@, only_mine),
{
    if only_mine {
        let mut s = String::from_str("author:");
        s.append(username.as_str());
        s.append(" ");
        s
    } else {
        String::new()
    }
}

/// The review-requested clause.
pub open spec fn spec_query_requested(username: Seq<char>, requested: bool) -> Seq<char> {
    if requested {
        "review-requested:"@ + username + " "@
    } else {
        Seq::empty()
    }
}

/// Emits the review-requested clause.
pub fn query_requested(username: &String, requested: bool) -> (r: String)
    ensures
        r@ == spec_query_requested(username@, requested),
{
    if requested {
        let mut s = String::from_str("review-requested:");
        s.append(username.as_str());
        s.append(" ");
        s
    } else {
        String::new()
    }
}

/// One label clause: quoted, and negated for an exclusion.
pub open spec fn spec_label_clause(label: Seq<char>, neg: bool) -> Seq<char> {
    (if neg {
        "-label:\""@
    } else {
        "label:\""@
    }) + label + "\" "@
}

/// The label clauses of one list, in order.
pub open spec fn spec_label_clauses(labels: Seq<String>, neg: bool) -> Seq<char>
    decreases labels.len(),
{
    if labels.len() == 0 {
        Seq::empty()
    } else {
        spec_label_clauses(labels.drop_last(), neg) + spec_label_clause(labels.last()@, neg)
    }
}

/// Appends the clauses of one label list to `s`.
fn push_label_clauses(s: &mut String, labels: &Vec<String>, neg: bool)
    ensures
        final(s)@ == old(s)@ + spec_label_clauses(labels@, neg),
{
    let ghost base = s@;
    let mut i: usize = 0;
    proof {
        assert(labels@.subrange(0, 0) =~= Seq::<String>::empty());
        assert(base + Seq::<char>::empty() =~= base);
    }
    while i < labels.len()
        invariant
            i <= labels@.len(),
            s@ == base + spec_label_clauses(labels@.subrange(0, i as int), neg),
        decreases labels@.len() - i,
    {
        proof {
            assert(labels@.subrange(0, i as int + 1).drop_last() =~= labels@.subrange(
                0,
                i as int,
            ));
            assert(labels@.subrange(0, i as int + 1).last() == labels@[i as int]);
        }
        if neg {
            s.append("-label:\"");
        } else {
            s.append("label:\"");
        }
        s.append(labels[i].as_str());
        s.append("\" ");
        proof {
            assert(s@ =~= base + spec_label_clauses(labels@.subrange(0, i as int + 1), neg));
        }
        i += 1;
    }
    proof {
        assert(labels@.subrange(0, labels@.len() as int) =~= labels@);
    }
}

/// The required and excluding label clauses, required ones first.
pub open spec fn spec_query_labels(labels: Seq<String>, exclude_label: Seq<String>) -> Seq<char> {
    spec_label_clauses(labels, false) + spec_label_clauses(exclude_label, true)
}

/// Emits the label clauses.
pub fn query_labels(labels: &Vec<String>, exclude_label: &Vec<String>) -> (r: String)
    ensures
        r@ == spec_query_labels(labels@, exclude_label@),
{
    let mut s = String::new();
    push_label_clauses(&mut s, labels, false);
    push_label_clauses(&mut s, exclude_label, true);
    proof {
        assert(Seq::<char>::empty() + spec_label_clauses(labels@, false) =~= spec_label_clauses(
            labels@,
            false,
        ));
    }
    s
}

/// The repository clauses, in order.
pub open spec fn spec_query_repos(repos: Seq<String>) -> Seq<char>
    decreases repos.len(),
{
    if repos.len() == 0 {
        Seq::empty()
    } else {
        spec_query_repos(repos.drop_last()) + "repo:"@ + repos.last()@ + " "@
    }
}

/// Emits one clause per repository.
pub fn query_repos(repos: &Vec<String>) -> (r: String)
    ensures
        r@ == spec_query_repos(repos@),
{
    let mut s = String::new();
    let mut i: usize = 0;
    proof {
        assert(repos@.subrange(0, 0) =~= Seq::<String>::empty());
    }
    while i < repos.len()
        invariant
            i <= repos@.len(),
            s@ == spec_query_repos(repos@.subrange(0, i as int)),
        decreases repos@.len() - i,
    {
        proof {
            assert(repos@.subrange(0, i as int + 1).drop_last() =~= repos@.subrange(0, i as int));
            assert(repos@.subrange(0, i as int + 1).last() == repos@[i as int]);
        }
        s.append("repo:");
        s.append(repos[i].as_str());
        s.append(" ");
        i += 1;
    }
    proof {
        assert(repos@.subrange(0, repos@.len() as int) =~= repos@);
    }
    s
}

/// The organization clause, if one was named.
pub open spec fn spec_query_org(org: Option<String>) -> Seq<char> {
    match org {
        Option::Some(o) => "org:"@ + o@ + " "@,
        Option::None => Seq::empty(),
    }
}

/// Emits the organization clause.
pub fn query_org(org: &Option<String>) -> (r: String)
    ensures
        r@ == spec_query_org(*org),
{
    match org {
        Option::Some(o) => {
            let mut s = String::from_str("org:");
            s.append(o.as_str());
            s.append(" ");
            s
        },
        Option::None => String::new(),
    }
}

/// The free-form fragments joined by single spaces, with no trailing
/// space.
pub open spec fn spec_join_spaces(qs: Seq<String>) -> Seq<char>
    decreases qs.len(),
{
    if qs.len() == 0 {
        Seq::empty()
    } else if qs.len() == 1 {
        qs[0]@
    } else {
        spec_join_spaces(qs.drop_last()) + " "@ + qs.last()@
    }
}

/// Joins the free-form query fragments with spaces.
pub fn join_spaces(qs: &Vec<String>) -> (r: String)
    ensures
        r@ == spec_join_spaces(qs@),
{
    let mut s = String::new();
    let mut i: usize = 0;
    proof {
        assert(qs@.subrange(0, 0) =~= Seq::<String>::empty());
    }
    while i < qs.len()
        invariant
            i <= qs@.len(),
            s@ == spec_join_spaces(qs@.subrange(0, i as int)),
        decreases qs@.len() - i,
    {
        proof {
            assert(qs@.subrange(0, i as int + 1).drop_last() =~= qs@.subrange(0, i as int));
            assert(qs@.subrange(0, i as int + 1).last() == qs@[i as int]);
        }
        if i > 0 {
            s.append(" ");
        }
        s.append(qs[i].as_str());
        proof {
            if i == 0 {
                assert(Seq::<char>::empty() + qs@[0]@ =~= qs@[0]@);
                assert(s@ =~= spec_join_spaces(qs@.subrange(0, 1)));
            }
        }
        i += 1;
    }
    proof {
        assert(qs@.subrange(0, qs@.len() as int) =~= qs@);
    }
    s
}

/// The whole search query, clause order fixed: the open-pull-request
/// preamble, then drafts, author, review-requested, labels, repositories,
/// organization, and the free-form fragments.
pub open spec fn spec_github_query(username: Seq<char>, options: PrArgs) -> Seq<char> {
    "is:pr is:open "@ + spec_query_drafts(options.include_drafts) + spec_query_mine(
        username,
        options.only_mine,
    ) + spec_query_requested(username, options.requested) + spec_query_labels(
        options.label@,
        options.exclude_label@,
    ) + spec_query_repos(options.repo@) + spec_query_org(options.org) + spec_join_spaces(
        options.query@,
    )
}

/// Builds the search query for `username` under `options`.
pub fn github_query(username: &String, options: &PrArgs) -> (r: String)
    ensures
        r@ == spec_github_query(username@, *options),
{
    let mut s = String::from_str("is:pr is:open ");
    let drafts = query_drafts(options.include_drafts);
    s.append(drafts);
    let mine = query_mine(username, options.only_mine);
    s.append(mine.as_str());
    let requested = query_requested(username, options.requested);
    s.append(requested.as_str());
    let labels = query_labels(&options.label, &options.exclude_label);
    s.append(labels.as_str());
    let repos = query_repos(&options.repo);
    s.append(repos.as_str());
    let org = query_org(&options.org);
    s.append(org.as_str());
    let fragments = join_spaces(&options.query);
    s.append(fragments.as_str());
    s
}

} // verus!
