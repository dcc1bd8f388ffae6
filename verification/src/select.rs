//! The random selector: one issue out of those open, each as likely as any other.

use crate::error::Error;
use crate::model::{issue_views, Issue, IssueView};
use crate::response::result_view;
use vstd::prelude::*;

verus! {

/// Draws an index below `bound` from the thread-local generator of `rand`,
/// by `rand::Rng::gen_range(0, bound)`.
///
/// Trusted: `gen_range(low, high)` gives a value in `[low, high)`, so the
/// index lies below `bound`; it panics where `low >= high`, which
/// `bound > 0` rules out. Which index comes is left open. The generator is
/// seeded from the system when a thread first draws, and `rand` panics
/// where the system has no seed to give.
#[verifier::external_body]
fn random_index(bound: usize) -> (index: usize)
    requires
        bound > 0,
    ensures
        index < bound,
{
    rand::Rng::gen_range(&mut rand::thread_rng(), 0, bound)
}

/// What selecting by the draw `index` gives: the issue at that index, and
/// none where no issue stands there, as in an empty list.
pub open spec fn selection(issues: Seq<IssueView>, index: int) -> Result<IssueView, Error> {
    if 0 <= index < issues.len() {
        Ok(issues[index])
    } else {
        Err(Error::NoIssues)
    }
}

/// Removes and returns the issue at `index`, the index that was drawn. Every
/// index of the list is a valid draw, the last one too.
pub fn select(issues: Vec<Issue>, index: usize) -> (selected: Result<Issue, Error>)
    ensures
        result_view(selected) == selection(issue_views(issues@), index as int),
{
    let mut issues = issues;
    if index >= issues.len() {
        return Err(Error::NoIssues);
    }
    Ok(issues.remove(index))
}

/// Every index of a list selects the issue that stands there, the last
/// index like any other.
pub proof fn every_index_selects(issues: Seq<IssueView>, index: int)
    requires
        0 <= index < issues.len(),
    ensures
        selection(issues, index) == Ok::<IssueView, Error>(issues[index]),
        selection(issues, issues.len() - 1) == Ok::<IssueView, Error>(issues.last()),
{
}

/// Picks one issue at random, uniformly over the whole list.
pub fn pick_one(issues: Vec<Issue>) -> (selected: Result<Issue, Error>)
    ensures
        issues.len() == 0 ==> selected == Err::<Issue, Error>(Error::NoIssues),
        issues.len() > 0 ==> exists|index: int|
            0 <= index < issues.len() && result_view(selected) == Ok::<IssueView, Error>(
                #[trigger] issue_views(issues@)[index],
            ),
{
    if issues.len() == 0 {
        return Err(Error::NoIssues);
    }
    let index: usize = random_index(issues.len());
    select(issues, index)
}

} // verus!
