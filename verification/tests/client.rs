use issuemyst::client::{
    build_request, get_issue_count, get_issue_page, get_rate_limit, issue_page_endpoint,
    rate_limit_endpoint, receive, repo_endpoint, Outcome, RawResponse, Request, GITHUB_API,
    NOT_FOUND, USER_AGENT,
};
use issuemyst::error::{ClientError, Error};
use issuemyst::model::{Issue, IssueCount, RateStatus, RepoRef};

fn repo() -> RepoRef {
    RepoRef { owner: "rust-lang".to_string(), name: "rust".to_string() }
}

fn issue(number: u64) -> Issue {
    Issue {
        api_url: format!("https://api.github.com/repos/rust-lang/rust/issues/{}", number),
        html_url: format!("https://github.com/rust-lang/rust/issues/{}", number),
        labels_url: String::new(),
        number,
        title: format!("issue {}", number),
        author_login: "octocat".to_string(),
        labels: Vec::new(),
        created_at: "2020-05-01T12:00:00Z".to_string(),
    }
}

fn issue_json(number: u64) -> String {
    format!(
        r#"{{"url":"https://api.github.com/repos/rust-lang/rust/issues/{0}","html_url":"https://github.com/rust-lang/rust/issues/{0}","labels_url":"","number":{0},"title":"issue {0}","user":{{"login":"octocat","id":1}},"labels":[],"created_at":"2020-05-01T12:00:00Z","state":"open"}}"#,
        number
    )
}

fn page_json(numbers: &[u64]) -> String {
    let items: Vec<String> = numbers.iter().map(|number| issue_json(*number)).collect();
    format!("[{}]", items.join(","))
}

fn rate_json(remaining: u64) -> String {
    format!(
        r#"{{"resources":{{}},"rate":{{"limit":5000,"remaining":{},"reset":1600000000}}}}"#,
        remaining
    )
}

fn count_json(open_issues: u64) -> String {
    format!(r#"{{"id":1,"name":"rust","open_issues":{}}}"#, open_issues)
}

fn response(status: u16, body: &str) -> Outcome {
    Ok(RawResponse { status, body: body.as_bytes().to_vec() })
}

/// Bodies that are no JSON, or JSON of none of the shapes.
fn undecodable() -> Vec<&'static str> {
    vec!["", "not json", "{", "null", "17", "{}", r#"{"message":"Bad credentials"}"#]
}

#[test]
fn constants_name_the_api_and_the_agent() {
    assert_eq!(GITHUB_API, "https://api.github.com/");
    assert_eq!(USER_AGENT, "IssueMyst issue.myst.rs");
    assert_eq!(NOT_FOUND, 404);
}

#[test]
fn request_joins_base_and_endpoint() {
    let request = build_request("rate_limit", Some("secret\n".to_string()));
    assert_eq!(
        request,
        Ok(Request {
            url: "https://api.github.com/rate_limit".to_string(),
            user_agent: "IssueMyst issue.myst.rs".to_string(),
            token: "secret".to_string(),
        })
    );
}

#[test]
fn request_carries_the_trimmed_credential() {
    let request = build_request("repos/o/n", Some("  \tabc def \r\n".to_string())).unwrap();
    assert_eq!(request.token, "abc def");
    assert_eq!(request.url, "https://api.github.com/repos/o/n");
}

#[test]
fn request_without_credential_fails() {
    assert_eq!(build_request("rate_limit", None), Err(ClientError::CredentialUnavailable));
}

#[test]
fn request_for_empty_endpoint_is_the_base() {
    let request = build_request("", Some("t".to_string())).unwrap();
    assert_eq!(request.url, "https://api.github.com/");
}

#[test]
fn reply_that_arrived_is_the_outcome() {
    let reply = RawResponse { status: 503, body: b"<html>".to_vec() };
    assert_eq!(receive(Some(reply.clone())), Ok(reply));
    let reply = RawResponse { status: 200, body: page_json(&[4]).into_bytes() };
    assert_eq!(receive(Some(reply.clone())), Ok(reply));
}

#[test]
fn reply_that_did_not_arrive_is_a_transport_failure() {
    assert_eq!(receive(None), Err(ClientError::TransportFailure));
}

#[test]
fn rate_limit_endpoint_is_fixed() {
    assert_eq!(rate_limit_endpoint(), "rate_limit");
}

#[test]
fn repo_endpoint_names_owner_and_repository() {
    assert_eq!(repo_endpoint(&repo()), "repos/rust-lang/rust");
}

#[test]
fn issue_page_endpoint_names_the_page() {
    assert_eq!(issue_page_endpoint(&repo(), 1), "repos/rust-lang/rust/issues?page=1");
    assert_eq!(issue_page_endpoint(&repo(), 12), "repos/rust-lang/rust/issues?page=12");
    assert_eq!(
        issue_page_endpoint(&repo(), u64::MAX),
        "repos/rust-lang/rust/issues?page=18446744073709551615"
    );
}

#[test]
fn endpoints_take_empty_names_as_they_are() {
    let empty = RepoRef { owner: String::new(), name: String::new() };
    assert_eq!(repo_endpoint(&empty), "repos//");
    assert_eq!(issue_page_endpoint(&empty, 3), "repos///issues?page=3");
}

#[test]
fn rate_limit_is_read_from_the_body() {
    assert_eq!(
        get_rate_limit(response(200, &rate_json(17))),
        Ok(RateStatus { limit: 5000, remaining: 17, reset: 1_600_000_000 })
    );
}

#[test]
fn rate_limit_status_is_not_interpreted() {
    assert_eq!(get_rate_limit(response(404, &rate_json(17))).map(|rate| rate.remaining), Ok(17));
    assert_eq!(get_rate_limit(response(500, &rate_json(3))).map(|rate| rate.remaining), Ok(3));
    assert_eq!(get_rate_limit(response(404, "Not Found")), Err(Error::InvalidUpstreamResponse));
}

#[test]
fn rate_limit_that_does_not_decode_is_invalid() {
    for body in undecodable() {
        assert_eq!(get_rate_limit(response(200, body)), Err(Error::InvalidUpstreamResponse));
    }
    assert_eq!(get_rate_limit(response(200, &count_json(3))), Err(Error::InvalidUpstreamResponse));
    assert_eq!(get_rate_limit(response(200, &page_json(&[1]))), Err(Error::InvalidUpstreamResponse));
}

#[test]
fn rate_limit_passes_client_errors_on() {
    assert_eq!(
        get_rate_limit(Err(ClientError::CredentialUnavailable)),
        Err(Error::CredentialUnavailable)
    );
    assert_eq!(get_rate_limit(Err(ClientError::TransportFailure)), Err(Error::TransportFailure));
}

#[test]
fn issue_count_is_read_from_the_body() {
    assert_eq!(get_issue_count(response(200, &count_json(42))), Ok(IssueCount { open_issues: 42 }));
}

#[test]
fn issue_count_404_is_not_found_whatever_the_body() {
    for body in undecodable() {
        assert_eq!(get_issue_count(response(404, body)), Err(Error::NotFound));
    }
    assert_eq!(get_issue_count(response(404, &count_json(3))), Err(Error::NotFound));
    assert_eq!(get_issue_count(response(404, r#"{"message":"Not Found"}"#)), Err(Error::NotFound));
}

#[test]
fn issue_count_that_does_not_decode_is_invalid() {
    for body in undecodable() {
        assert_eq!(get_issue_count(response(200, body)), Err(Error::InvalidUpstreamResponse));
    }
    assert_eq!(get_issue_count(response(200, &rate_json(9))), Err(Error::InvalidUpstreamResponse));
    assert_eq!(get_issue_count(response(200, &page_json(&[1]))), Err(Error::InvalidUpstreamResponse));
}

#[test]
fn issue_count_passes_client_errors_on() {
    assert_eq!(
        get_issue_count(Err(ClientError::CredentialUnavailable)),
        Err(Error::CredentialUnavailable)
    );
    assert_eq!(get_issue_count(Err(ClientError::TransportFailure)), Err(Error::TransportFailure));
}

#[test]
fn issue_page_is_read_from_the_body() {
    assert_eq!(get_issue_page(response(200, &page_json(&[1, 2]))), Ok(vec![issue(1), issue(2)]));
}

#[test]
fn issue_page_may_be_empty() {
    assert_eq!(get_issue_page(response(200, "[]")), Ok(Vec::new()));
}

#[test]
fn issue_page_404_is_not_found_whatever_the_body() {
    for body in undecodable() {
        assert_eq!(get_issue_page(response(404, body)), Err(Error::NotFound));
    }
    assert_eq!(get_issue_page(response(404, &page_json(&[1]))), Err(Error::NotFound));
    assert_eq!(get_issue_page(response(404, "[]")), Err(Error::NotFound));
}

#[test]
fn issue_page_that_does_not_decode_is_invalid() {
    for body in undecodable() {
        assert_eq!(get_issue_page(response(200, body)), Err(Error::InvalidUpstreamResponse));
    }
    assert_eq!(get_issue_page(response(200, &rate_json(9))), Err(Error::InvalidUpstreamResponse));
    assert_eq!(get_issue_page(response(200, &count_json(1))), Err(Error::InvalidUpstreamResponse));
    assert_eq!(
        get_issue_page(response(200, r#"[{"number": 1}]"#)),
        Err(Error::InvalidUpstreamResponse)
    );
}

#[test]
fn issue_page_passes_client_errors_on() {
    assert_eq!(
        get_issue_page(Err(ClientError::CredentialUnavailable)),
        Err(Error::CredentialUnavailable)
    );
    assert_eq!(get_issue_page(Err(ClientError::TransportFailure)), Err(Error::TransportFailure));
}

#[test]
fn other_statuses_are_passed_through_to_the_decoder() {
    assert_eq!(get_issue_count(response(500, &count_json(5))), Ok(IssueCount { open_issues: 5 }));
    assert_eq!(get_issue_page(response(301, &page_json(&[8]))), Ok(vec![issue(8)]));
    assert_eq!(
        get_issue_page(response(403, r#"{"message":"API rate limit exceeded"}"#)),
        Err(Error::InvalidUpstreamResponse)
    );
}
