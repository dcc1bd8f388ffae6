//! The GitHub client without its transport: which request an endpoint
//! becomes, and what the outcome of a call means.

use crate::credential::{load_credential, trimmed};
use crate::decode::{count_from, count_of, issues_from, issues_of, rate_from, rate_of};
use crate::error::{ClientError, Error};
use crate::model::{issue_views, Issue, IssueCount, IssueView, RateStatus, RepoRef, RepoRefView};
use crate::text::{decimal, push_decimal};
use vstd::prelude::*;

verus! {

/// The base that every endpoint is appended to.
pub const GITHUB_API: &'static str = "https://api.github.com/";

/// The user agent that every request names.
pub const USER_AGENT: &'static str = "IssueMyst issue.myst.rs";

/// The status by which upstream reports a repository missing or inaccessible.
pub const NOT_FOUND: u16 = 404;

/// An authenticated GET, ready to be sent: `token` goes into the bearer
/// authorization header, `user_agent` into the user-agent header.
#[derive(Clone, Debug, PartialEq, Eq)]
pub struct Request {
    pub url: String,
    pub user_agent: String,
    pub token: String,
}

/// A request as contracts speak of it.
pub struct RequestView {
    pub url: Seq<char>,
    pub user_agent: Seq<char>,
    pub token: Seq<char>,
}

impl View for Request {
    type V = RequestView;

    open spec fn view(&self) -> RequestView {
        RequestView { url: self.url@, user_agent: self.user_agent@, token: self.token@ }
    }
}

/// The request for `endpoint`, given what reading the credential file gave.
pub open spec fn request_for(endpoint: Seq<char>, contents: Option<Seq<char>>) -> Result<
    RequestView,
    ClientError,
> {
    match contents {
        None => Err(ClientError::CredentialUnavailable),
        Some(text) => Ok(
            RequestView { url: GITHUB_API@ + endpoint, user_agent: USER_AGENT@, token: trimmed(text) },
        ),
    }
}

/// The view of a request that may have failed to come about.
pub open spec fn request_view(request: Result<Request, ClientError>) -> Result<
    RequestView,
    ClientError,
> {
    match request {
        Ok(request) => Ok(request@),
        Err(error) => Err(error),
    }
}

/// The view of the contents of the credential file, where it could be read.
pub open spec fn contents_view(contents: Option<String>) -> Option<Seq<char>> {
    match contents {
        Some(text) => Some(text@),
        None => None,
    }
}

/// Builds the request for `endpoint`. `contents` is what reading the
/// credential file gave just now: `None` where it could not be read.
pub fn build_request(endpoint: &str, contents: Option<String>) -> (request: Result<
    Request,
    ClientError,
>)
    ensures
        request_view(request) == request_for(endpoint@, contents_view(contents)),
{
    match load_credential(contents) {
        Err(_) => Err(ClientError::CredentialUnavailable),
        Ok(token) => {
            let mut url = String::from_str(GITHUB_API);
            url.append(endpoint);
            Ok(Request { url, user_agent: String::from_str(USER_AGENT), token })
        },
    }
}

/// The endpoint that reports the remaining quota.
pub open spec fn rate_limit_path() -> Seq<char> {
    "rate_limit"@
}

/// The endpoint that describes `repo`.
pub open spec fn repo_path(repo: RepoRefView) -> Seq<char> {
    "repos/"@ + repo.owner + "/"@ + repo.name
}

/// The endpoint that lists page `page` of the open issues of `repo`.
pub open spec fn issue_page_path(repo: RepoRefView, page: nat) -> Seq<char> {
    repo_path(repo) + "/issues?page="@ + decimal(page)
}

/// The endpoint that reports the remaining quota.
pub fn rate_limit_endpoint() -> (endpoint: String)
    ensures
        endpoint@ == rate_limit_path(),
{
    String::from_str("rate_limit")
}

/// The endpoint that describes `repo`, open-issue count included.
pub fn repo_endpoint(repo: &RepoRef) -> (endpoint: String)
    ensures
        endpoint@ == repo_path(repo@),
{
    let mut endpoint = String::from_str("repos/");
    endpoint.append(repo.owner.as_str());
    endpoint.append("/");
    endpoint.append(repo.name.as_str());
    endpoint
}

/// The endpoint that lists page `page` of the open issues of `repo`.
pub fn issue_page_endpoint(repo: &RepoRef, page: u64) -> (endpoint: String)
    ensures
        endpoint@ == issue_page_path(repo@, page as nat),
{
    let mut endpoint = repo_endpoint(repo);
    endpoint.append("/issues?page=");
    push_decimal(&mut endpoint, page);
    endpoint
}

/// A response as it arrived: the status is passed through uninterpreted,
/// the body is the bytes that were received.
#[derive(Clone, Debug, PartialEq, Eq)]
pub struct RawResponse {
    pub status: u16,
    pub body: Vec<u8>,
}

/// A response as contracts speak of it.
pub struct RawResponseView {
    pub status: u16,
    pub body: Seq<u8>,
}

impl View for RawResponse {
    type V = RawResponseView;

    open spec fn view(&self) -> RawResponseView {
        RawResponseView { status: self.status, body: self.body@ }
    }
}

/// The outcome of one call: the response, or why there is none.
pub type Outcome = Result<RawResponse, ClientError>;

/// An outcome as contracts speak of it.
pub type OutcomeView = Result<RawResponseView, ClientError>;

/// The view of the outcome of one call.
pub open spec fn outcome_view(outcome: Outcome) -> OutcomeView {
    match outcome {
        Ok(response) => Ok(response@),
        Err(error) => Err(error),
    }
}

/// The outcome of a call whose request was sent. `reply` is the response
/// that arrived, or `None` where sending or receiving failed.
pub fn receive(reply: Option<RawResponse>) -> (outcome: Outcome)
    ensures
        reply matches Some(response) ==> outcome_view(outcome) == Ok::<
            RawResponseView,
            ClientError,
        >(response@),
        reply is None ==> outcome == Err::<RawResponse, ClientError>(
            ClientError::TransportFailure,
        ),
{
    match reply {
        Some(response) => Ok(response),
        None => Err(ClientError::TransportFailure),
    }
}

/// What a body that may not have decoded amounts to.
pub open spec fn decoded<T>(value: Option<T>) -> Result<T, Error> {
    match value {
        Some(value) => Ok(value),
        None => Err(Error::InvalidUpstreamResponse),
    }
}

/// The quota that the outcome of a call to the rate-limit endpoint reports.
pub open spec fn rate_limit_of(outcome: OutcomeView) -> Result<RateStatus, Error> {
    match outcome {
        Err(error) => Err(Error::of_client(error)),
        Ok(response) => decoded(rate_of(response.body)),
    }
}

/// The count that the outcome of a call to a repository's endpoint reports.
pub open spec fn issue_count_of(outcome: OutcomeView) -> Result<IssueCount, Error> {
    match outcome {
        Err(error) => Err(Error::of_client(error)),
        Ok(response) => if response.status == NOT_FOUND {
            Err(Error::NotFound)
        } else {
            decoded(count_of(response.body))
        },
    }
}

/// The issues that the outcome of a call to an issue page's endpoint reports.
pub open spec fn issue_page_of(outcome: OutcomeView) -> Result<Seq<IssueView>, Error> {
    match outcome {
        Err(error) => Err(Error::of_client(error)),
        Ok(response) => if response.status == NOT_FOUND {
            Err(Error::NotFound)
        } else {
            decoded(issues_of(response.body))
        },
    }
}

/// The view of a page of issues that may have failed to arrive.
pub open spec fn page_view(page: Result<Vec<Issue>, Error>) -> Result<Seq<IssueView>, Error> {
    match page {
        Ok(issues) => Ok(issue_views(issues@)),
        Err(error) => Err(error),
    }
}

/// Reads the quota from the outcome of the rate-limit call. The status is
/// not looked at; a body that does not decode is an invalid response.
pub fn get_rate_limit(outcome: Outcome) -> (rate: Result<RateStatus, Error>)
    ensures
        rate == rate_limit_of(outcome_view(outcome)),
{
    match outcome {
        Err(error) => Err(Error::from_client(error)),
        Ok(response) => match rate_from(response.body.as_slice()) {
            Some(rate) => Ok(rate),
            None => Err(Error::InvalidUpstreamResponse),
        },
    }
}

/// Reads the open-issue count from the outcome of the call to a
/// repository's endpoint. Status 404 is read before the body.
pub fn get_issue_count(outcome: Outcome) -> (count: Result<IssueCount, Error>)
    ensures
        count == issue_count_of(outcome_view(outcome)),
{
    match outcome {
        Err(error) => Err(Error::from_client(error)),
        Ok(response) => {
            if response.status == NOT_FOUND {
                return Err(Error::NotFound);
            }
            match count_from(response.body.as_slice()) {
                Some(count) => Ok(count),
                None => Err(Error::InvalidUpstreamResponse),
            }
        },
    }
}

/// Reads the issues from the outcome of the call for one page. Status 404
/// is read before the body.
pub fn get_issue_page(outcome: Outcome) -> (page: Result<Vec<Issue>, Error>)
    ensures
        page_view(page) == issue_page_of(outcome_view(outcome)),
{
    match outcome {
        Err(error) => Err(Error::from_client(error)),
        Ok(response) => {
            if response.status == NOT_FOUND {
                return Err(Error::NotFound);
            }
            match issues_from(response.body.as_slice()) {
                Some(issues) => Ok(issues),
                None => Err(Error::InvalidUpstreamResponse),
            }
        },
    }
}

} // verus!
