//! The blame checker's logic: reading one file's blame response to decide
//! whether the acting user authored any of its line ranges, and combining
//! the per-file verdicts. The per-file queries themselves are network work
//! the command layer performs; every decision on their results lives here.

use vstd::prelude::*;

verus! {

/// One author of a blame range; the login is absent when the platform has
/// no user for the commit.
#[derive(Clone, Debug)]
pub struct BlameAuthor {
    pub login: Option<String>,
}

/// One blame range of a file on the default branch: the authors of the
/// commit that wrote it.
#[derive(Clone, Debug)]
pub struct BlameRange {
    pub authors: Vec<BlameAuthor>,
}

/// One file's blame response: its ranges, or nothing when the repository,
/// branch or commit could not be read.
#[derive(Clone, Debug)]
pub struct BlameResponse {
    pub ranges: Option<Vec<BlameRange>>,
}

/// Whether one blame range names `login` among its authors.
pub open spec fn spec_range_has_author(range: BlameRange, login: Seq<char>) -> bool {
    exists|j: int|
        0 <= j < range.authors@.len() && ((#[trigger] range.authors@[j].login) matches
        Option::Some(l) && l@ == login)
}

/// Whether some range of the file was written by `login`.
pub open spec fn spec_is_file_author(resp: BlameResponse, login: Seq<char>) -> bool {
    match resp.ranges {
        Option::Some(ranges) => exists|i: int|
            0 <= i < ranges@.len() && spec_range_has_author(#[trigger] ranges@[i], login),
        Option::None => false,
    }
}

/// Checks whether one range names `login` among its authors.
fn range_has_author(range: &BlameRange, login: &String) -> (r: bool)
    ensures
        r == spec_range_has_author(*range, login@),
{
    let mut j: usize = 0;
    while j < range.authors.len()
        invariant
            j <= range.authors@.len(),
            forall|k: int|
                0 <= k < j ==> !((#[trigger] range.authors@[k].login) matches Option::Some(l)
                    && l@ == login@),
        decreases range.authors@.len() - j,
    {
        match &range.authors[j].login {
            Option::Some(l) => {
                if l.eq(login) {
                    return true;
                }
            },
            Option::None => {},
        }
        j += 1;
    }
    false
}

/// Scans a file's blame ranges for one authored by `login`.
fn ranges_have_author(ranges: &Vec<BlameRange>, login: &String) -> (r: bool)
    ensures
        r == exists|i: int|
            0 <= i < ranges@.len() && spec_range_has_author(#[trigger] ranges@[i], login@),
{
    let mut i: usize = 0;
    while i < ranges.len()
        invariant
            i <= ranges@.len(),
            forall|k: int| 0 <= k < i ==> !spec_range_has_author(#[trigger] ranges@[k], login@),
        decreases ranges@.len() - i,
    {
        if range_has_author(&ranges[i], login) {
            return true;
        }
        i += 1;
    }
    false
}

/// Decides from one blame response whether `login` authored any range of
/// the file. A response without readable ranges blames nobody.
pub fn is_file_author(response: &BlameResponse, login: &String) -> (r: bool)
    ensures
        r == spec_is_file_author(*response, login@),
{
    match &response.ranges {
        Option::Some(ranges) => ranges_have_author(ranges, login),
        Option::None => false,
    }
}

/// Whether any of the per-file verdicts blames the user.
pub open spec fn spec_any_blame(verdicts: Seq<bool>) -> bool {
    exists|i: int| 0 <= i < verdicts.len() && verdicts[i]
}

/// Combines the per-file blame verdicts: the user is blamed for the pull
/// request exactly when some changed file blames them.
pub fn any_blame(verdicts: &Vec<bool>) -> (r: bool)
    ensures
        r == spec_any_blame(verdicts@),
{
    let mut i: usize = 0;
    while i < verdicts.len()
        invariant
            i <= verdicts@.len(),
            forall|k: int| 0 <= k < i ==> !verdicts@[k],
        decreases verdicts@.len() - i,
    {
        if verdicts[i] {
            return true;
        }
        i += 1;
    }
    false
}

} // verus!
