//! What can go wrong with a request, and how each failure is reported.

use crate::guard::MAX_ISSUES;
use crate::text::{decimal, push_decimal};
use vstd::prelude::*;

verus! {

/// The credential file could not be read.
#[derive(Clone, Copy, Debug, PartialEq, Eq, Structural)]
pub struct CredentialError;

/// Why an upstream call produced no response at all.
#[derive(Clone, Copy, Debug, PartialEq, Eq, Structural)]
pub enum ClientError {
    /// The credential is missing or unreadable.
    CredentialUnavailable,
    /// The request could not be sent, or no response was received.
    TransportFailure,
}

/// Why a request ends without an issue.
#[derive(Clone, Copy, Debug, PartialEq, Eq, Structural)]
pub enum Error {
    /// The credential is missing or unreadable.
    CredentialUnavailable,
    /// The request could not be sent, or no response was received.
    TransportFailure,
    /// The response body did not decode into the expected shape.
    InvalidUpstreamResponse,
    /// Upstream reports the repository missing or inaccessible.
    NotFound,
    /// The repository has no open issue.
    NoIssues,
    /// The remaining quota is at or below the safety floor.
    RateLimitReached,
    /// The repository has more open issues than `MAX_ISSUES`.
    TooManyIssues,
}

impl Error {
    /// The error that a failed upstream call becomes: the kind is kept.
    pub open spec fn of_client(error: ClientError) -> Error {
        match error {
            ClientError::CredentialUnavailable => Error::CredentialUnavailable,
            ClientError::TransportFailure => Error::TransportFailure,
        }
    }

    /// The HTTP status that reports this error.
    pub open spec fn status_code(self) -> u16 {
        match self {
            Error::NotFound | Error::NoIssues => 404,
            Error::RateLimitReached => 429,
            Error::CredentialUnavailable
            | Error::TransportFailure
            | Error::InvalidUpstreamResponse
            | Error::TooManyIssues => 500,
        }
    }

    /// The text that reports this error; it gives away no internal detail.
    pub open spec fn message_text(self) -> Seq<char> {
        match self {
            Error::CredentialUnavailable => "server failed to read the PAT"@,
            Error::TransportFailure => "server failed to create a request"@,
            Error::InvalidUpstreamResponse => "got an invalid response from github"@,
            Error::NotFound => "repo is either private or doesn't exist"@,
            Error::NoIssues => "repo has no open issues"@,
            Error::RateLimitReached => "the app has reached github's rate limit, try again in an hour"@,
            Error::TooManyIssues => "the repo has more than "@ + decimal(MAX_ISSUES as nat)
                + " issues, this is limited so the rate limit by github isn't reached so fast."@,
        }
    }

    /// Turns the failure of an upstream call into the error of the request.
    pub fn from_client(error: ClientError) -> (out: Error)
        ensures
            out == Error::of_client(error),
    {
        match error {
            ClientError::CredentialUnavailable => Error::CredentialUnavailable,
            ClientError::TransportFailure => Error::TransportFailure,
        }
    }

    /// The HTTP status that reports this error.
    pub fn status(self) -> (code: u16)
        ensures
            code == self.status_code(),
    {
        match self {
            Error::NotFound | Error::NoIssues => 404,
            Error::RateLimitReached => 429,
            _ => 500,
        }
    }

    /// The text that reports this error to the caller.
    pub fn message(self) -> (text: String)
        ensures
            text@ == self.message_text(),
    {
        match self {
            Error::CredentialUnavailable => String::from_str("server failed to read the PAT"),
            Error::TransportFailure => String::from_str("server failed to create a request"),
            Error::InvalidUpstreamResponse => String::from_str(
                "got an invalid response from github",
            ),
            Error::NotFound => String::from_str("repo is either private or doesn't exist"),
            Error::NoIssues => String::from_str("repo has no open issues"),
            Error::RateLimitReached => String::from_str(
                "the app has reached github's rate limit, try again in an hour",
            ),
            Error::TooManyIssues => {
                let mut text = String::from_str("the repo has more than ");
                push_decimal(&mut text, MAX_ISSUES);
                text.append(
                    " issues, this is limited so the rate limit by github isn't reached so fast.",
                );
                text
            },
        }
    }
}

/// The text for a repository that is too large names the ceiling.
pub proof fn too_many_issues_names_the_ceiling()
    ensures
        Error::TooManyIssues.message_text()
            == "the repo has more than 300 issues, this is limited so the rate limit by github isn't reached so fast."@,
{
    reveal_strlit("the repo has more than ");
    reveal_strlit(
        " issues, this is limited so the rate limit by github isn't reached so fast.",
    );
    reveal_strlit(
        "the repo has more than 300 issues, this is limited so the rate limit by github isn't reached so fast.",
    );
    reveal_with_fuel(decimal, 3);
    assert(decimal(300) =~= seq!['3', '0', '0']);
    assert(Error::TooManyIssues.message_text()
        =~= "the repo has more than 300 issues, this is limited so the rate limit by github isn't reached so fast."@);
}

} // verus!
