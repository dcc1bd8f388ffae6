//! The answer to a request: a status and a body, for the caller to serialise.

use crate::error::Error;
use crate::model::{Issue, IssueView};
use vstd::prelude::*;

verus! {

/// The status of a response that delivers an issue.
pub const OK: u16 = 200;

/// What a response carries: the chosen issue, or the text of an error.
#[derive(Clone, Debug, PartialEq, Eq)]
pub enum Body {
    Issue(Issue),
    Error(String),
}

/// A body as contracts speak of it.
pub enum BodyView {
    Issue(IssueView),
    Error(Seq<char>),
}

impl View for Body {
    type V = BodyView;

    open spec fn view(&self) -> BodyView {
        match self {
            Body::Issue(issue) => BodyView::Issue(issue@),
            Body::Error(text) => BodyView::Error(text@),
        }
    }
}

/// The answer to one request: an HTTP status and the body to serialise.
#[derive(Clone, Debug, PartialEq, Eq)]
pub struct ApiResponse {
    pub status: u16,
    pub body: Body,
}

/// A response as contracts speak of it.
pub struct ApiResponseView {
    pub status: u16,
    pub body: BodyView,
}

impl View for ApiResponse {
    type V = ApiResponseView;

    open spec fn view(&self) -> ApiResponseView {
        ApiResponseView { status: self.status, body: self.body@ }
    }
}

/// The response that reports `error`.
pub open spec fn error_response(error: Error) -> ApiResponseView {
    ApiResponseView { status: error.status_code(), body: BodyView::Error(error.message_text()) }
}

/// The response that delivers `issue`.
pub open spec fn success_response(issue: IssueView) -> ApiResponseView {
    ApiResponseView { status: OK, body: BodyView::Issue(issue) }
}

/// The response for the end of a request, whichever way it ended.
pub open spec fn response_for(result: Result<IssueView, Error>) -> ApiResponseView {
    match result {
        Ok(issue) => success_response(issue),
        Err(error) => error_response(error),
    }
}

/// The view of the end of a request.
pub open spec fn result_view(result: Result<Issue, Error>) -> Result<IssueView, Error> {
    match result {
        Ok(issue) => Ok(issue@),
        Err(error) => Err(error),
    }
}

/// The response that reports `error`: its status, and its text as the body.
pub fn get_error_response(error: Error) -> (response: ApiResponse)
    ensures
        response@ == error_response(error),
{
    ApiResponse { status: error.status(), body: Body::Error(error.message()) }
}

/// The response for the end of a request: the issue with status 200, or the
/// report of the error.
pub fn respond(result: Result<Issue, Error>) -> (response: ApiResponse)
    ensures
        response@ == response_for(result_view(result)),
{
    match result {
        Ok(issue) => ApiResponse { status: OK, body: Body::Issue(issue) },
        Err(error) => get_error_response(error),
    }
}

} // verus!
