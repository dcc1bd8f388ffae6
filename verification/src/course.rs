//! The course that a request takes over a script of upstream outcomes, and
//! what holds of every such course.

use crate::client::{
    issue_count_of, issue_page_of, outcome_view, rate_limit_of, Outcome, OutcomeView,
    RawResponseView, NOT_FOUND,
};
use crate::decode::{count_of, issues_of, rate_of};
use crate::error::{too_many_issues_names_the_ceiling, ClientError, Error};
use crate::fetch::{FetcherView, PAGE_CEILING};
use crate::guard::{quota_check, size_check, MAX_ISSUES, QUOTA_FLOOR};
use crate::json::parsed;
use crate::model::{IssueView, RepoRef, RepoRefView};
use crate::response::{
    error_response, success_response, ApiResponse, ApiResponseView, BodyView, OK,
};
use crate::session::{
    carries_out, handle_random_issue, opening, page_call, quota_call, size_call, verdict, Call,
    CallView, SessionView, StageView, Step, StepView, Verdict,
};
use vstd::prelude::*;

verus! {

/// What became of a session over a script: the calls it asked for after the
/// one it was waiting on, and how it ended, if the script reached that far.
pub struct Course {
    pub calls: Seq<CallView>,
    pub end: Option<Result<Seq<IssueView>, Error>>,
}

/// The course of `session` where the outcome of its `i`-th call is
/// `outcomes[i]`. Outcomes past the end of the request are not looked at.
pub open spec fn course(session: SessionView, outcomes: Seq<OutcomeView>) -> Course
    decreases outcomes.len(),
{
    if outcomes.len() == 0 {
        Course { calls: Seq::empty(), end: None }
    } else {
        match verdict(session, outcomes.first()) {
            Verdict::End(end) => Course { calls: Seq::empty(), end: Some(end) },
            Verdict::Call(next, call) => {
                let rest = course(next, outcomes.drop_first());
                Course { calls: seq![call] + rest.calls, end: rest.end }
            },
        }
    }
}

/// Whether `response` may be what `session` answers with where its calls
/// have the outcomes `outcomes`: the course has ended, and the response
/// carries out its end.
pub open spec fn may_answer(
    response: ApiResponseView,
    session: SessionView,
    outcomes: Seq<OutcomeView>,
) -> bool {
    course(session, outcomes).end matches Some(end) && carries_out(
        StepView::Respond(response),
        Verdict::End(end),
    )
}

/// The session that waits on the page of `fetcher`.
pub open spec fn paging(repo: RepoRefView, fetcher: FetcherView) -> SessionView {
    SessionView { repo, stage: StageView::Pages(fetcher) }
}

/// Whether `outcome` is a page that holds issues.
pub open spec fn is_full_page(outcome: OutcomeView) -> bool {
    issue_page_of(outcome) matches Ok(issues) && issues.len() > 0
}

/// Whether `outcome` is a page without issues: the end of the list.
pub open spec fn is_empty_page(outcome: OutcomeView) -> bool {
    issue_page_of(outcome) matches Ok(issues) && issues.len() == 0
}

/// The issues of the leading pages of `pages` that hold any: what paging
/// through them gathers before the first page that is empty or fails.
pub open spec fn gathered(pages: Seq<OutcomeView>) -> Seq<IssueView>
    decreases pages.len(),
{
    if pages.len() > 0 && is_full_page(pages.first()) {
        issue_page_of(pages.first())->Ok_0 + gathered(pages.drop_first())
    } else {
        Seq::empty()
    }
}

/// The most outcomes that `session` can still take in before it ends.
pub open spec fn calls_left(session: SessionView) -> nat {
    match session.stage {
        StageView::Quota => (PAGE_CEILING + 2) as nat,
        StageView::Size => (PAGE_CEILING + 1) as nat,
        StageView::Pages(fetcher) => if fetcher.page >= PAGE_CEILING {
            1
        } else {
            (PAGE_CEILING - fetcher.page + 1) as nat
        },
    }
}

/// Whether `body` decodes into the shape that a session at `stage` waits
/// for.
pub open spec fn decodes(stage: StageView, body: Seq<u8>) -> bool {
    match stage {
        StageView::Quota => rate_of(body) is Some,
        StageView::Size => count_of(body) is Some,
        StageView::Pages(_) => issues_of(body) is Some,
    }
}

/// The views of a script of outcomes, in order.
pub open spec fn outcome_views(outcomes: Seq<Outcome>) -> Seq<OutcomeView> {
    outcomes.map_values(|outcome: Outcome| outcome_view(outcome))
}

/// The views of a sequence of calls, in order.
pub open spec fn call_views(calls: Seq<Call>) -> Seq<CallView> {
    calls.map_values(|call: Call| call@)
}

/// What replaying a script gave: every call that was asked for, the first
/// one included, and the response, if the script reached that far.
#[derive(Debug)]
pub struct Replay {
    pub calls: Vec<Call>,
    pub response: Option<ApiResponse>,
}

/// Runs the request for `repo` against a script in place of upstream:
/// `outcomes[i]` is handed back as the outcome of the `i`-th call. Nothing
/// is sent and no pause is made.
#[verifier::loop_isolation(false)]
pub fn replay(repo: RepoRef, outcomes: Vec<Outcome>) -> (replayed: Replay)
    ensures
        call_views(replayed.calls@) == seq![quota_call()] + course(
            opening(repo@),
            outcome_views(outcomes@),
        ).calls,
        replayed.response matches Some(response) ==> may_answer(
            response@,
            opening(repo@),
            outcome_views(outcomes@),
        ),
        replayed.response is None ==> course(
            opening(repo@),
            outcome_views(outcomes@),
        ).end is None,
{
    let ghost whole = course(opening(repo@), outcome_views(outcomes@));
    let (first, call) = handle_random_issue(repo);
    let mut session = first;
    let mut calls: Vec<Call> = Vec::new();
    calls.push(call);
    let mut rest = outcomes;
    let ghost mut asked: Seq<CallView> = Seq::empty();
    while rest.len() > 0
        invariant
            call_views(calls@) == seq![quota_call()] + asked,
            whole.calls == asked + course(session@, outcome_views(rest@)).calls,
            whole.end == course(session@, outcome_views(rest@)).end,
        decreases rest.len(),
    {
        let ghost before = outcome_views(rest@);
        let outcome = rest.remove(0);
        assert(outcome_views(rest@) =~= before.drop_first());
        match session.advance(outcome) {
            Step::Respond(response) => {
                return Replay { calls, response: Some(response) };
            },
            Step::Call(next, call) => {
                proof {
                    assert(call_views(calls@.push(call)) =~= call_views(calls@).push(call@));
                    asked = asked.push(call@);
                }
                calls.push(call);
                session = next;
            },
        }
    }
    Replay { calls, response: None }
}

/// A session, wherever it stands, ends within `calls_left` outcomes, and
/// asks for fewer calls than that on the way.
pub proof fn session_ends(session: SessionView, outcomes: Seq<OutcomeView>)
    requires
        outcomes.len() >= calls_left(session),
    ensures
        course(session, outcomes).end is Some,
        course(session, outcomes).calls.len() < calls_left(session),
    decreases outcomes.len(),
{
    match verdict(session, outcomes.first()) {
        Verdict::End(_) => {},
        Verdict::Call(next, _) => {
            assert(calls_left(next) == calls_left(session) - 1);
            session_ends(next, outcomes.drop_first());
        },
    }
}

/// Pagination ends: a request takes in at most `PAGE_CEILING + 2` outcomes,
/// whatever upstream answers, so at most `PAGE_CEILING` pages are asked for.
pub proof fn request_ends(repo: RepoRefView, outcomes: Seq<OutcomeView>)
    requires
        outcomes.len() >= PAGE_CEILING + 2,
    ensures
        course(opening(repo), outcomes).end is Some,
        course(opening(repo), outcomes).calls.len() <= PAGE_CEILING + 1,
{
    session_ends(opening(repo), outcomes);
}

/// Pages are asked for one after the other: the `i`-th call after the one
/// under way is for the `i`-th page after the fetcher's.
pub proof fn pages_come_in_order(
    repo: RepoRefView,
    fetcher: FetcherView,
    outcomes: Seq<OutcomeView>,
    i: int,
)
    requires
        0 <= i < course(paging(repo, fetcher), outcomes).calls.len(),
    ensures
        course(paging(repo, fetcher), outcomes).calls[i] == page_call(
            repo,
            (fetcher.page + 1 + i) as nat,
        ),
    decreases outcomes.len(),
{
    match verdict(paging(repo, fetcher), outcomes.first()) {
        Verdict::End(_) => {},
        Verdict::Call(next, _) => {
            if i > 0 {
                pages_come_in_order(repo, next.stage->Pages_0, outcomes.drop_first(), i - 1);
            }
        },
    }
}

/// The calls of a request come in one order: the issue count, then the
/// pages from the first on.
pub proof fn calls_come_in_order(repo: RepoRefView, outcomes: Seq<OutcomeView>, i: int)
    requires
        0 <= i < course(opening(repo), outcomes).calls.len(),
    ensures
        course(opening(repo), outcomes).calls[i] == if i == 0 {
            size_call(repo)
        } else {
            page_call(repo, i as nat)
        },
{
    if i > 0 {
        let checked = SessionView { repo, stage: StageView::Size };
        let after_quota = outcomes.drop_first();
        assert(course(opening(repo), outcomes).calls[i] == course(checked, after_quota).calls[i
            - 1]);
        if i > 1 {
            let pages = after_quota.drop_first();
            assert(course(checked, after_quota).calls[i - 1] == course(
                paging(repo, FetcherView::fresh()),
                pages,
            ).calls[i - 2]);
            pages_come_in_order(repo, FetcherView::fresh(), pages, i - 2);
        }
    }
}

/// A fetch that ends with issues to choose from has gathered its pages, all
/// of them and in the order of their arrival, behind those it held before.
pub proof fn fetch_gathers_pages(
    repo: RepoRefView,
    fetcher: FetcherView,
    outcomes: Seq<OutcomeView>,
)
    requires
        course(paging(repo, fetcher), outcomes).end matches Some(Ok(_)),
    ensures
        course(paging(repo, fetcher), outcomes).end == Some(
            Ok::<Seq<IssueView>, Error>(fetcher.issues + gathered(outcomes)),
        ),
    decreases outcomes.len(),
{
    match verdict(paging(repo, fetcher), outcomes.first()) {
        Verdict::End(_) => {
            assert(fetcher.issues + gathered(outcomes) =~= fetcher.issues);
        },
        Verdict::Call(next, _) => {
            let page = issue_page_of(outcomes.first())->Ok_0;
            fetch_gathers_pages(repo, next.stage->Pages_0, outcomes.drop_first());
            assert((fetcher.issues + page) + gathered(outcomes.drop_first()) =~= fetcher.issues
                + gathered(outcomes));
        },
    }
}

/// A session never ends with an empty list to choose from.
pub proof fn nonempty_choice(session: SessionView, outcomes: Seq<OutcomeView>)
    requires
        course(session, outcomes).end matches Some(Ok(_)),
    ensures
        course(session, outcomes).end matches Some(Ok(issues)) && issues.len() > 0,
    decreases outcomes.len(),
{
    match verdict(session, outcomes.first()) {
        Verdict::End(_) => {},
        Verdict::Call(next, _) => {
            nonempty_choice(next, outcomes.drop_first());
        },
    }
}

/// The issues that a request chooses from are the issues of every page that
/// was fetched: the pages follow the two guards' outcomes in the script.
pub proof fn candidates_are_all_pages(repo: RepoRefView, outcomes: Seq<OutcomeView>)
    requires
        course(opening(repo), outcomes).end matches Some(Ok(_)),
    ensures
        course(opening(repo), outcomes).end == Some(
            Ok::<Seq<IssueView>, Error>(gathered(outcomes.skip(2))),
        ),
        gathered(outcomes.skip(2)).len() > 0,
{
    let checked = SessionView { repo, stage: StageView::Size };
    let fresh = paging(repo, FetcherView::fresh());
    let after_quota = outcomes.drop_first();
    let pages = after_quota.drop_first();
    assert(course(opening(repo), outcomes).end == course(checked, after_quota).end);
    assert(course(checked, after_quota).end == course(fresh, pages).end);
    assert(pages =~= outcomes.skip(2));
    fetch_gathers_pages(repo, FetcherView::fresh(), pages);
    assert(FetcherView::fresh().issues + gathered(pages) =~= gathered(pages));
    nonempty_choice(fresh, pages);
}

/// A response that delivers an issue delivers one of the issues of the
/// pages that were fetched, with status 200.
pub proof fn delivered_issue_was_fetched(
    response: ApiResponseView,
    repo: RepoRefView,
    outcomes: Seq<OutcomeView>,
)
    requires
        may_answer(response, opening(repo), outcomes),
        response.body is Issue,
    ensures
        response.status == OK,
        gathered(outcomes.skip(2)).contains(response.body->Issue_0),
{
    match course(opening(repo), outcomes).end->Some_0 {
        Ok(issues) => {
            candidates_are_all_pages(repo, outcomes);
            let index = choose|index: int|
                0 <= index < issues.len() && StepView::Respond(response) == StepView::Respond(
                    success_response(#[trigger] issues[index]),
                );
            assert(response.body == BodyView::Issue(issues[index]));
        },
        Err(_) => {},
    }
}

/// A fetch succeeds where it is owed: `count` pages that hold issues, then
/// an empty one, all within the ceiling, end the fetch with every issue of
/// those pages to choose from.
pub proof fn fetch_completes(
    repo: RepoRefView,
    fetcher: FetcherView,
    outcomes: Seq<OutcomeView>,
    count: nat,
)
    requires
        count < outcomes.len(),
        fetcher.page + count <= PAGE_CEILING,
        forall|i: int| 0 <= i < count ==> is_full_page(#[trigger] outcomes[i]),
        is_empty_page(outcomes[count as int]),
        count > 0 || fetcher.issues.len() > 0,
    ensures
        course(paging(repo, fetcher), outcomes).end == Some(
            Ok::<Seq<IssueView>, Error>(fetcher.issues + gathered(outcomes)),
        ),
        course(paging(repo, fetcher), outcomes).calls.len() == count,
    decreases count,
{
    if count == 0 {
        assert(fetcher.issues + gathered(outcomes) =~= fetcher.issues);
    } else {
        let page = issue_page_of(outcomes[0])->Ok_0;
        let moved = FetcherView { page: fetcher.page + 1, issues: fetcher.issues + page };
        let rest = outcomes.drop_first();
        assert(verdict(paging(repo, fetcher), outcomes.first()) == Verdict::Call(
            paging(repo, moved),
            page_call(repo, moved.page),
        ));
        assert forall|i: int| 0 <= i < count - 1 implies is_full_page(#[trigger] rest[i]) by {
            assert(rest[i] == outcomes[i + 1]);
        }
        fetch_completes(repo, moved, rest, (count - 1) as nat);
        assert((fetcher.issues + page) + gathered(rest) =~= fetcher.issues + gathered(outcomes));
    }
}

/// A request succeeds where it is owed: with quota to spare, a repository
/// within the ceiling, `count` pages that hold issues and then an empty one,
/// it ends with every issue of those pages to choose from, and answers with
/// one of them and status 200.
pub proof fn request_succeeds(repo: RepoRefView, outcomes: Seq<OutcomeView>, count: nat)
    requires
        0 < count < PAGE_CEILING,
        count + 2 < outcomes.len(),
        quota_check(rate_limit_of(outcomes[0])) is Ok,
        size_check(issue_count_of(outcomes[1]), MAX_ISSUES) is Ok,
        forall|i: int| 2 <= i < count + 2 ==> is_full_page(#[trigger] outcomes[i]),
        is_empty_page(outcomes[count as int + 2]),
    ensures
        course(opening(repo), outcomes).end == Some(
            Ok::<Seq<IssueView>, Error>(gathered(outcomes.skip(2))),
        ),
        course(opening(repo), outcomes).calls.len() == count + 2,
        forall|response: ApiResponseView| #[trigger]
            may_answer(response, opening(repo), outcomes) ==> response.status == OK
                && response.body is Issue && gathered(outcomes.skip(2)).contains(
                response.body->Issue_0,
            ),
{
    let checked = SessionView { repo, stage: StageView::Size };
    let fresh = paging(repo, FetcherView::fresh());
    let after_quota = outcomes.drop_first();
    let pages = after_quota.drop_first();
    assert(pages =~= outcomes.skip(2));
    assert forall|i: int| 0 <= i < count implies is_full_page(#[trigger] pages[i]) by {
        assert(pages[i] == outcomes[i + 2]);
    }
    fetch_completes(repo, FetcherView::fresh(), pages, count);
    assert(FetcherView::fresh().issues + gathered(pages) =~= gathered(pages));
    assert(course(checked, after_quota).end == course(fresh, pages).end);
    assert(course(opening(repo), outcomes).end == course(checked, after_quota).end);
    assert forall|response: ApiResponseView| #[trigger]
        may_answer(response, opening(repo), outcomes) implies response.status == OK
        && response.body is Issue && gathered(outcomes.skip(2)).contains(
        response.body->Issue_0,
    ) by {
        delivered_issue_was_fetched(response, repo, outcomes);
    }
}

/// With a remaining quota at or below the floor the request ends at once
/// with status 429: no call follows the rate-limit call, whatever the rest
/// of the script holds.
pub proof fn low_quota_ends_the_request(repo: RepoRefView, outcomes: Seq<OutcomeView>)
    requires
        outcomes.len() > 0,
        rate_limit_of(outcomes[0]) matches Ok(rate) && rate.remaining <= QUOTA_FLOOR,
    ensures
        course(opening(repo), outcomes) == (Course {
            calls: Seq::empty(),
            end: Some(Err(Error::RateLimitReached)),
        }),
        forall|response: ApiResponseView| #[trigger]
            may_answer(response, opening(repo), outcomes) ==> response == (ApiResponseView {
                status: 429,
                body: BodyView::Error(
                    "the app has reached github's rate limit, try again in an hour"@,
                ),
            }),
{
}

/// A repository with more than `MAX_ISSUES` open issues ends the request
/// with status 500: the issue-count call is the last, and no page is asked
/// for, whatever the rest of the script holds.
pub proof fn oversized_repository_is_not_paged(repo: RepoRefView, outcomes: Seq<OutcomeView>)
    requires
        outcomes.len() > 1,
        quota_check(rate_limit_of(outcomes[0])) is Ok,
        issue_count_of(outcomes[1]) matches Ok(count) && count.open_issues > MAX_ISSUES,
    ensures
        course(opening(repo), outcomes) == (Course {
            calls: seq![size_call(repo)],
            end: Some(Err(Error::TooManyIssues)),
        }),
        forall|response: ApiResponseView| #[trigger]
            may_answer(response, opening(repo), outcomes) ==> response == (ApiResponseView {
                status: 500,
                body: BodyView::Error(
                    "the repo has more than 300 issues, this is limited so the rate limit by github isn't reached so fast."@,
                ),
            }),
{
    too_many_issues_names_the_ceiling();
    let checked = SessionView { repo, stage: StageView::Size };
    assert(course(checked, outcomes.drop_first()) == (Course {
        calls: Seq::empty(),
        end: Some(Err(Error::TooManyIssues)),
    }));
}

/// A repository without open issues, one whose first page is empty, ends
/// the request with status 404 and the text that says so.
pub proof fn empty_repository_is_reported(repo: RepoRefView, outcomes: Seq<OutcomeView>)
    requires
        outcomes.len() > 2,
        quota_check(rate_limit_of(outcomes[0])) is Ok,
        size_check(issue_count_of(outcomes[1]), MAX_ISSUES) is Ok,
        is_empty_page(outcomes[2]),
    ensures
        course(opening(repo), outcomes) == (Course {
            calls: seq![size_call(repo), page_call(repo, 1)],
            end: Some(Err(Error::NoIssues)),
        }),
        forall|response: ApiResponseView| #[trigger]
            may_answer(response, opening(repo), outcomes) ==> response == (ApiResponseView {
                status: 404,
                body: BodyView::Error("repo has no open issues"@),
            }),
{
    let checked = SessionView { repo, stage: StageView::Size };
    let after_quota = outcomes.drop_first();
    let pages = after_quota.drop_first();
    assert(course(paging(repo, FetcherView::fresh()), pages) == (Course {
        calls: Seq::empty(),
        end: Some(Err(Error::NoIssues)),
    }));
    assert(course(checked, after_quota).calls =~= seq![page_call(repo, 1)]);
    assert(course(opening(repo), outcomes).calls =~= seq![size_call(repo), page_call(repo, 1)]);
}

/// An upstream call that fails ends the request with status 500, at every
/// stage; the kind of the failure is kept, and with it the text.
pub proof fn failed_call_is_reported(session: SessionView, failure: ClientError)
    ensures
        verdict(session, Err(failure)) == Verdict::End(Err(Error::of_client(failure))),
        error_response(Error::CredentialUnavailable) == (ApiResponseView {
            status: 500,
            body: BodyView::Error("server failed to read the PAT"@),
        }),
        error_response(Error::TransportFailure) == (ApiResponseView {
            status: 500,
            body: BodyView::Error("server failed to create a request"@),
        }),
{
}

/// Status 404 from the issue-count endpoint or from an issue page ends the
/// request with status 404 and the text for a missing repository, whatever
/// the body holds.
pub proof fn missing_repository_is_reported(session: SessionView, response: RawResponseView)
    requires
        session.stage !is Quota,
        response.status == NOT_FOUND,
    ensures
        verdict(session, Ok(response)) == Verdict::End(Err(Error::NotFound)),
        error_response(Error::NotFound) == (ApiResponseView {
            status: 404,
            body: BodyView::Error("repo is either private or doesn't exist"@),
        }),
{
}

/// A body that is no JSON decodes into no shape.
pub proof fn unparsable_body_decodes_into_nothing(stage: StageView, body: Seq<u8>)
    requires
        parsed(body) is None,
    ensures
        !decodes(stage, body),
{
}

/// A body that does not decode, be it no JSON or JSON of another shape than
/// the awaited one, ends the request with status 500 and the text for an
/// invalid response, at every stage. Status 404 from a repository's
/// endpoints is read before the body and is left out here.
pub proof fn undecodable_body_is_reported(session: SessionView, response: RawResponseView)
    requires
        !decodes(session.stage, response.body),
        session.stage is Quota || response.status != NOT_FOUND,
    ensures
        verdict(session, Ok(response)) == Verdict::End(Err(Error::InvalidUpstreamResponse)),
        error_response(Error::InvalidUpstreamResponse) == (ApiResponseView {
            status: 500,
            body: BodyView::Error("got an invalid response from github"@),
        }),
{
}

} // verus!
