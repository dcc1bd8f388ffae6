//! The request orchestrator. A session never performs a call: it names the
//! next one, and is advanced by the outcome that the caller hands back.
//!
//! ```text
//! let (mut session, mut call) = handle_random_issue(repo);
//! loop {
//!     // pause for call.delay_ms, then send the request for call.endpoint;
//!     // outcome is what came of it
//!     match session.advance(outcome) {
//!         Step::Respond(response) => return response,
//!         Step::Call(next, following) => {
//!             session = next;
//!             call = following;
//!         }
//!     }
//! }
//! ```

use crate::client::{
    get_issue_count, get_issue_page, get_rate_limit, issue_count_of, issue_page_endpoint,
    issue_page_of, issue_page_path, outcome_view, rate_limit_endpoint, rate_limit_of,
    rate_limit_path, repo_endpoint, repo_path, Outcome, OutcomeView,
};
use crate::error::Error;
use crate::fetch::{absorbed, Fetched, FetchedView, Fetcher, FetcherView, PAGE_DELAY_MS};
use crate::guard::{check_quota, check_size, quota_check, size_check, MAX_ISSUES};
use crate::model::{IssueView, RepoRef, RepoRefView};
use crate::response::{
    error_response, get_error_response, respond, success_response, ApiResponse, ApiResponseView,
};
use crate::select::pick_one;
use vstd::prelude::*;

verus! {

/// An upstream call that the caller is to make.
#[derive(Clone, Debug, PartialEq, Eq)]
pub struct Call {
    /// The path below the API base.
    pub endpoint: String,
    /// The pause before the call, in milliseconds.
    pub delay_ms: u64,
}

/// A call as contracts speak of it.
pub struct CallView {
    pub endpoint: Seq<char>,
    pub delay_ms: u64,
}

impl View for Call {
    type V = CallView;

    open spec fn view(&self) -> CallView {
        CallView { endpoint: self.endpoint@, delay_ms: self.delay_ms }
    }
}

/// The check that a session is waiting on.
#[derive(Debug)]
enum Stage {
    Quota,
    Size,
    Pages(Fetcher),
}

/// The check that a session is waiting on, as contracts speak of it.
pub enum StageView {
    /// The outcome of the rate-limit call is awaited.
    Quota,
    /// The outcome of the issue-count call is awaited.
    Size,
    /// The outcome of the call for the fetcher's page is awaited.
    Pages(FetcherView),
}

/// One request under way, between two upstream calls.
#[derive(Debug)]
pub struct Session {
    repo: RepoRef,
    stage: Stage,
}

/// A session as contracts speak of it.
pub struct SessionView {
    pub repo: RepoRefView,
    pub stage: StageView,
}

impl View for Session {
    type V = SessionView;

    closed spec fn view(&self) -> SessionView {
        SessionView {
            repo: self.repo@,
            stage: match self.stage {
                Stage::Quota => StageView::Quota,
                Stage::Size => StageView::Size,
                Stage::Pages(fetcher) => StageView::Pages(fetcher@),
            },
        }
    }
}

/// What a session asks of its caller: to make a call and come back with its
/// outcome, or to send the response.
#[derive(Debug)]
pub enum Step {
    Call(Session, Call),
    Respond(ApiResponse),
}

/// A step as contracts speak of it.
pub enum StepView {
    Call(SessionView, CallView),
    Respond(ApiResponseView),
}

impl View for Step {
    type V = StepView;

    open spec fn view(&self) -> StepView {
        match self {
            Step::Call(session, call) => StepView::Call(session@, call@),
            Step::Respond(response) => StepView::Respond(response@),
        }
    }
}

/// What an outcome decides: the next call, or the end of the request.
pub enum Verdict {
    Call(SessionView, CallView),
    /// The request ends: with an error, or with the issues that one is to be
    /// drawn from, of which there is at least one.
    End(Result<Seq<IssueView>, Error>),
}

/// The call that asks for the remaining quota.
pub open spec fn quota_call() -> CallView {
    CallView { endpoint: rate_limit_path(), delay_ms: 0 }
}

/// The call that asks for the number of open issues of `repo`.
pub open spec fn size_call(repo: RepoRefView) -> CallView {
    CallView { endpoint: repo_path(repo), delay_ms: 0 }
}

/// The call that asks for page `page` of the open issues of `repo`: every
/// page but the first waits out the pacing delay.
pub open spec fn page_call(repo: RepoRefView, page: nat) -> CallView {
    CallView {
        endpoint: issue_page_path(repo, page),
        delay_ms: if page == 1 {
            0
        } else {
            PAGE_DELAY_MS
        },
    }
}

/// The session as it begins: the rate-limit call is under way.
pub open spec fn opening(repo: RepoRefView) -> SessionView {
    SessionView { repo, stage: StageView::Quota }
}

/// What `outcome`, the outcome of the call that `session` waits on, decides.
pub open spec fn verdict(session: SessionView, outcome: OutcomeView) -> Verdict {
    match session.stage {
        StageView::Quota => match quota_check(rate_limit_of(outcome)) {
            Err(error) => Verdict::End(Err(error)),
            Ok(_) => Verdict::Call(
                SessionView { repo: session.repo, stage: StageView::Size },
                size_call(session.repo),
            ),
        },
        StageView::Size => match size_check(issue_count_of(outcome), MAX_ISSUES) {
            Err(error) => Verdict::End(Err(error)),
            Ok(_) => Verdict::Call(
                SessionView { repo: session.repo, stage: StageView::Pages(FetcherView::fresh()) },
                page_call(session.repo, 1),
            ),
        },
        StageView::Pages(fetcher) => match absorbed(fetcher, issue_page_of(outcome)) {
            FetchedView::Failed(error) => Verdict::End(Err(error)),
            FetchedView::Complete(issues) => if issues.len() == 0 {
                Verdict::End(Err(Error::NoIssues))
            } else {
                Verdict::End(Ok(issues))
            },
            FetchedView::Next(next) => Verdict::Call(
                SessionView { repo: session.repo, stage: StageView::Pages(next) },
                page_call(session.repo, next.page),
            ),
        },
    }
}

/// Whether `step` carries out `verdict`. Which issue is drawn is left to
/// chance; that it is one of those to choose from is not.
pub open spec fn carries_out(step: StepView, verdict: Verdict) -> bool {
    match verdict {
        Verdict::Call(session, call) => step == StepView::Call(session, call),
        Verdict::End(Err(error)) => step == StepView::Respond(error_response(error)),
        Verdict::End(Ok(issues)) => exists|index: int|
            0 <= index < issues.len() && step == StepView::Respond(
                success_response(#[trigger] issues[index]),
            ),
    }
}

fn page_request(repo: &RepoRef, page: u64) -> (call: Call)
    ensures
        call@ == page_call(repo@, page as nat),
{
    let delay_ms: u64 = if page == 1 {
        0
    } else {
        PAGE_DELAY_MS
    };
    Call { endpoint: issue_page_endpoint(repo, page), delay_ms }
}

/// Begins the request for a random open issue of `repo`: gives the session
/// and the call it begins with, which asks for the remaining quota.
pub fn handle_random_issue(repo: RepoRef) -> (begun: (Session, Call))
    ensures
        begun.0@ == opening(repo@),
        begun.1@ == quota_call(),
{
    let call = Call { endpoint: rate_limit_endpoint(), delay_ms: 0 };
    (Session { repo, stage: Stage::Quota }, call)
}

impl Session {
    /// Takes in the outcome of the call that this session asked for, and
    /// says what comes next. It stops at the first failure.
    pub fn advance(self, outcome: Outcome) -> (step: Step)
        ensures
            carries_out(step@, verdict(self@, outcome_view(outcome))),
    {
        let Session { repo, stage } = self;
        match stage {
            Stage::Quota => match check_quota(get_rate_limit(outcome)) {
                Err(error) => Step::Respond(get_error_response(error)),
                Ok(_) => {
                    let call = Call { endpoint: repo_endpoint(&repo), delay_ms: 0 };
                    Step::Call(Session { repo, stage: Stage::Size }, call)
                },
            },
            Stage::Size => match check_size(get_issue_count(outcome), MAX_ISSUES) {
                Err(error) => Step::Respond(get_error_response(error)),
                Ok(_) => {
                    let call = page_request(&repo, 1);
                    Step::Call(Session { repo, stage: Stage::Pages(Fetcher::new()) }, call)
                },
            },
            Stage::Pages(fetcher) => match fetcher.absorb(get_issue_page(outcome)) {
                Fetched::Failed(error) => Step::Respond(get_error_response(error)),
                Fetched::Complete(issues) => Step::Respond(respond(pick_one(issues))),
                Fetched::Next(next) => {
                    let call = page_request(&repo, next.page());
                    Step::Call(Session { repo, stage: Stage::Pages(next) }, call)
                },
            },
        }
    }
}

} // verus!
