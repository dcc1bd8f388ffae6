//! The issue fetcher: pages are taken in one after the other until an empty
//! one arrives.

use crate::client::page_view;
use crate::error::Error;
use crate::guard::MAX_ISSUES;
use crate::model::{issue_views, lemma_issue_views_concat, Issue, IssueView};
use vstd::prelude::*;

verus! {

/// The number of issues on a full page.
pub const PER_PAGE: u64 = 30;

/// The last page that is ever asked for. A repository within `MAX_ISSUES`
/// ends well before it; an upstream that still returns issues there is
/// taken to be broken.
pub const PAGE_CEILING: u64 = MAX_ISSUES / PER_PAGE + 2;

/// The pause before every page but the first, in milliseconds.
pub const PAGE_DELAY_MS: u64 = 200;

/// The fetch under way: the page that is being asked for, and the issues of
/// the pages before it, in the order of their arrival.
#[derive(Debug)]
pub struct Fetcher {
    page: u64,
    issues: Vec<Issue>,
}

/// A fetch as contracts speak of it.
pub struct FetcherView {
    pub page: nat,
    pub issues: Seq<IssueView>,
}

impl FetcherView {
    /// The fetch before its first page.
    pub open spec fn fresh() -> FetcherView {
        FetcherView { page: 1, issues: Seq::empty() }
    }
}

impl View for Fetcher {
    type V = FetcherView;

    closed spec fn view(&self) -> FetcherView {
        FetcherView { page: self.page as nat, issues: issue_views(self.issues@) }
    }
}

/// Where a fetch stands once a page has been taken in.
#[derive(Debug)]
pub enum Fetched {
    /// The page held issues: the next one is to be asked for.
    Next(Fetcher),
    /// The page was empty: these are all the open issues.
    Complete(Vec<Issue>),
    Failed(Error),
}

/// The state of a fetch after a page, as contracts speak of it.
pub enum FetchedView {
    Next(FetcherView),
    Complete(Seq<IssueView>),
    Failed(Error),
}

impl View for Fetched {
    type V = FetchedView;

    open spec fn view(&self) -> FetchedView {
        match self {
            Fetched::Next(fetcher) => FetchedView::Next(fetcher@),
            Fetched::Complete(issues) => FetchedView::Complete(issue_views(issues@)),
            Fetched::Failed(error) => FetchedView::Failed(*error),
        }
    }
}

/// Where `fetcher` stands once `page`, the result of asking for its page,
/// has been taken in.
pub open spec fn absorbed(fetcher: FetcherView, page: Result<Seq<IssueView>, Error>) -> FetchedView {
    match page {
        Err(error) => FetchedView::Failed(error),
        Ok(issues) => if issues.len() == 0 {
            FetchedView::Complete(fetcher.issues)
        } else if fetcher.page >= PAGE_CEILING {
            FetchedView::Failed(Error::InvalidUpstreamResponse)
        } else {
            FetchedView::Next(
                FetcherView { page: fetcher.page + 1, issues: fetcher.issues + issues },
            )
        },
    }
}

impl Fetcher {
    /// The fetch before its first page.
    pub fn new() -> (fetcher: Fetcher)
        ensures
            fetcher@ == FetcherView::fresh(),
    {
        let fetcher = Fetcher { page: 1, issues: Vec::new() };
        proof {
            assert(issue_views(fetcher.issues@) =~= Seq::empty());
        }
        fetcher
    }

    /// The page that is to be asked for.
    pub fn page(&self) -> (page: u64)
        ensures
            page == self@.page,
    {
        self.page
    }

    /// Takes in the result of asking for the current page.
    pub fn absorb(self, page: Result<Vec<Issue>, Error>) -> (fetched: Fetched)
        ensures
            fetched@ == absorbed(self@, page_view(page)),
    {
        match page {
            Err(error) => Fetched::Failed(error),
            Ok(arrived) => {
                if arrived.len() == 0 {
                    return Fetched::Complete(self.issues);
                }
                if self.page >= PAGE_CEILING {
                    return Fetched::Failed(Error::InvalidUpstreamResponse);
                }
                let mut arrived = arrived;
                let mut issues = self.issues;
                proof {
                    lemma_issue_views_concat(issues@, arrived@);
                }
                issues.append(&mut arrived);
                Fetched::Next(Fetcher { page: self.page + 1, issues })
            },
        }
    }
}

} // verus!
