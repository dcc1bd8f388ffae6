use issuemyst::client::{Outcome, RawResponse};
use issuemyst::error::ClientError;
use issuemyst::model::{Issue, Label, RepoRef};
use issuemyst::response::{ApiResponse, Body};
use issuemyst::session::{handle_random_issue, Call, Step};

fn repo() -> RepoRef {
    RepoRef { owner: "octo".to_string(), name: "hello".to_string() }
}

fn issue(number: u64) -> Issue {
    Issue {
        api_url: format!("https://api.github.com/repos/octo/hello/issues/{}", number),
        html_url: format!("https://github.com/octo/hello/issues/{}", number),
        labels_url: format!("https://api.github.com/repos/octo/hello/issues/{}/labels", number),
        number,
        title: format!("issue {}", number),
        author_login: "octocat".to_string(),
        labels: vec![Label { name: "bug".to_string(), color: "d73a4a".to_string() }],
        created_at: "2020-05-01T12:00:00Z".to_string(),
    }
}

fn issue_json(number: u64) -> String {
    format!(
        r#"{{"url":"https://api.github.com/repos/octo/hello/issues/{0}","html_url":"https://github.com/octo/hello/issues/{0}","labels_url":"https://api.github.com/repos/octo/hello/issues/{0}/labels","number":{0},"title":"issue {0}","user":{{"login":"octocat"}},"labels":[{{"name":"bug","color":"d73a4a"}}],"created_at":"2020-05-01T12:00:00Z"}}"#,
        number
    )
}

fn status(code: u16, body: &str) -> Outcome {
    Ok(RawResponse { status: code, body: body.as_bytes().to_vec() })
}

fn quota(remaining: u64) -> Outcome {
    status(
        200,
        &format!(r#"{{"rate":{{"limit":5000,"remaining":{},"reset":1600000000}}}}"#, remaining),
    )
}

fn count(open_issues: u64) -> Outcome {
    status(200, &format!(r#"{{"name":"hello","open_issues":{}}}"#, open_issues))
}

fn page(first: u64, size: u64) -> Outcome {
    let items: Vec<String> = (first..first + size).map(issue_json).collect();
    status(200, &format!("[{}]", items.join(",")))
}

/// Plays `script` as the upstream: its outcomes answer the calls in order.
/// Gives the calls that were asked for and the response, if the script
/// reached that far, and the outcomes that were left over.
fn play(script: Vec<Outcome>) -> (Vec<Call>, Option<ApiResponse>, usize) {
    let mut script = script.into_iter();
    let (mut session, call) = handle_random_issue(repo());
    let mut calls = vec![call];
    loop {
        let outcome = match script.next() {
            Some(outcome) => outcome,
            None => return (calls, None, 0),
        };
        match session.advance(outcome) {
            Step::Respond(response) => return (calls, Some(response), script.count()),
            Step::Call(next, call) => {
                calls.push(call);
                session = next;
            }
        }
    }
}

fn error(status: u16, text: &str) -> Option<ApiResponse> {
    Some(ApiResponse { status, body: Body::Error(text.to_string()) })
}

fn endpoints(calls: &[Call]) -> Vec<&str> {
    calls.iter().map(|call| call.endpoint.as_str()).collect()
}

#[test]
fn request_begins_with_the_rate_limit_call() {
    let (calls, response, _) = play(Vec::new());
    assert_eq!(
        calls,
        vec![Call { endpoint: "rate_limit".to_string(), delay_ms: 0 }]
    );
    assert_eq!(response, None);
}

#[test]
fn issue_count_call_follows_a_sufficient_quota() {
    let (calls, response, _) = play(vec![quota(2)]);
    assert_eq!(
        calls[1],
        Call { endpoint: "repos/octo/hello".to_string(), delay_ms: 0 }
    );
    assert_eq!(calls.len(), 2);
    assert_eq!(response, None);
}

#[test]
fn first_page_call_follows_an_accepted_size() {
    let (calls, response, _) = play(vec![quota(5000), count(3)]);
    assert_eq!(
        calls[2],
        Call { endpoint: "repos/octo/hello/issues?page=1".to_string(), delay_ms: 0 }
    );
    assert_eq!(calls.len(), 3);
    assert_eq!(response, None);
}

#[test]
fn later_pages_wait_out_the_delay() {
    let (calls, _, _) = play(vec![quota(5000), count(70), page(1, 30), page(31, 30)]);
    assert_eq!(
        calls[3],
        Call { endpoint: "repos/octo/hello/issues?page=2".to_string(), delay_ms: 200 }
    );
    assert_eq!(
        calls[4],
        Call { endpoint: "repos/octo/hello/issues?page=3".to_string(), delay_ms: 200 }
    );
}

#[test]
fn low_quota_ends_with_429_before_any_repository_call() {
    for remaining in [0u64, 1] {
        let (calls, response, left) = play(vec![quota(remaining), count(3), page(1, 3)]);
        assert_eq!(endpoints(&calls), vec!["rate_limit"]);
        assert_eq!(
            response,
            error(429, "the app has reached github's rate limit, try again in an hour")
        );
        assert_eq!(left, 2);
    }
}

#[test]
fn quota_of_two_lets_the_request_go_on() {
    let (calls, response, _) = play(vec![quota(2), count(1), page(1, 1), page(2, 0)]);
    assert_eq!(calls.len(), 4);
    assert_eq!(response, Some(ApiResponse { status: 200, body: Body::Issue(issue(1)) }));
}

#[test]
fn oversized_repository_ends_with_500_before_any_page() {
    let (calls, response, left) = play(vec![quota(5000), count(301), page(1, 30)]);
    assert_eq!(endpoints(&calls), vec!["rate_limit", "repos/octo/hello"]);
    assert_eq!(
        response,
        error(
            500,
            "the repo has more than 300 issues, this is limited so the rate limit by github isn't reached so fast."
        )
    );
    assert_eq!(left, 1);
}

#[test]
fn repository_at_the_ceiling_is_paged() {
    let (calls, response, _) = play(vec![quota(5000), count(300), page(1, 0)]);
    assert_eq!(
        endpoints(&calls),
        vec!["rate_limit", "repos/octo/hello", "repos/octo/hello/issues?page=1"]
    );
    assert_eq!(response, error(404, "repo has no open issues"));
}

#[test]
fn repository_without_open_issues_ends_with_404() {
    let (calls, response, _) = play(vec![quota(5000), count(0), page(1, 0)]);
    assert_eq!(calls.len(), 3);
    assert_eq!(response, error(404, "repo has no open issues"));
}

#[test]
fn pages_of_30_30_0_take_three_page_calls() {
    let (calls, response, _) = play(vec![quota(5000), count(60), page(1, 30), page(31, 30), page(61, 0)]);
    assert_eq!(
        endpoints(&calls),
        vec![
            "rate_limit",
            "repos/octo/hello",
            "repos/octo/hello/issues?page=1",
            "repos/octo/hello/issues?page=2",
            "repos/octo/hello/issues?page=3",
        ]
    );
    let pages = calls.iter().filter(|call| call.endpoint.contains("/issues?page=")).count();
    assert_eq!(pages, 3);
    match response {
        Some(ApiResponse { status: 200, body: Body::Issue(picked) }) => {
            assert!(1 <= picked.number && picked.number <= 60);
            assert_eq!(picked, issue(picked.number));
        }
        other => panic!("{:?}", other),
    }
}

#[test]
fn all_sixty_issues_are_candidates() {
    let mut seen = vec![false; 60];
    for _ in 0..6000 {
        let (_, response, _) =
            play(vec![quota(5000), count(60), page(1, 30), page(31, 30), page(61, 0)]);
        match response {
            Some(ApiResponse { status: 200, body: Body::Issue(picked) }) => {
                seen[(picked.number - 1) as usize] = true;
            }
            other => panic!("{:?}", other),
        }
    }
    for (index, hit) in seen.iter().enumerate() {
        assert!(*hit, "issue {} was never chosen", index + 1);
    }
}

#[test]
fn chosen_issue_is_one_of_those_fetched() {
    for _ in 0..100 {
        let (_, response, _) = play(vec![quota(9), count(5), page(10, 3), page(20, 2), page(0, 0)]);
        match response {
            Some(ApiResponse { status: 200, body: Body::Issue(picked) }) => {
                assert!([10, 11, 12, 20, 21].contains(&picked.number));
                assert_eq!(picked, issue(picked.number));
            }
            other => panic!("{:?}", other),
        }
    }
}

#[test]
fn outcomes_after_the_end_are_not_asked_for() {
    let (calls, response, left) =
        play(vec![quota(9), count(1), page(1, 1), page(2, 0), page(3, 30), page(33, 30)]);
    assert_eq!(calls.len(), 4);
    assert_eq!(response, Some(ApiResponse { status: 200, body: Body::Issue(issue(1)) }));
    assert_eq!(left, 2);
}

#[test]
fn not_found_on_the_issue_count_ends_with_404() {
    for body in [r#"{"message":"Not Found"}"#, r#"{"open_issues":1}"#, "", "<html>"] {
        let (calls, response, _) = play(vec![quota(5000), status(404, body), page(1, 1)]);
        assert_eq!(calls.len(), 2);
        assert_eq!(response, error(404, "repo is either private or doesn't exist"));
    }
}

#[test]
fn not_found_on_the_first_page_ends_with_404() {
    let (calls, response, _) =
        play(vec![quota(5000), count(3), status(404, r#"{"message":"Not Found"}"#)]);
    assert_eq!(calls.len(), 3);
    assert_eq!(response, error(404, "repo is either private or doesn't exist"));
}

#[test]
fn not_found_on_a_later_page_ends_with_404() {
    let (calls, response, _) =
        play(vec![quota(5000), count(40), page(1, 30), status(404, "[]")]);
    assert_eq!(calls.len(), 4);
    assert_eq!(response, error(404, "repo is either private or doesn't exist"));
}

#[test]
fn undecodable_rate_limit_ends_with_500() {
    let (calls, response, _) = play(vec![status(200, "<html>rate</html>"), count(1)]);
    assert_eq!(calls.len(), 1);
    assert_eq!(response, error(500, "got an invalid response from github"));
}

#[test]
fn undecodable_issue_count_ends_with_500() {
    let (calls, response, _) = play(vec![quota(5000), status(200, "{\"open_issues\": ")]);
    assert_eq!(calls.len(), 2);
    assert_eq!(response, error(500, "got an invalid response from github"));
}

#[test]
fn undecodable_page_ends_with_500() {
    let (calls, response, _) =
        play(vec![quota(5000), count(40), page(1, 30), status(200, "")]);
    assert_eq!(calls.len(), 4);
    assert_eq!(response, error(500, "got an invalid response from github"));
}

#[test]
fn body_of_another_shape_ends_with_500() {
    let (_, response, _) = play(vec![count(3)]);
    assert_eq!(response, error(500, "got an invalid response from github"));
    let (_, response, _) = play(vec![quota(5000), quota(5000)]);
    assert_eq!(response, error(500, "got an invalid response from github"));
    let (_, response, _) = play(vec![quota(5000), count(3), count(3)]);
    assert_eq!(response, error(500, "got an invalid response from github"));
}

#[test]
fn missing_credential_ends_with_500_at_every_stage() {
    let scripts = vec![
        vec![Err(ClientError::CredentialUnavailable)],
        vec![quota(5000), Err(ClientError::CredentialUnavailable)],
        vec![quota(5000), count(3), Err(ClientError::CredentialUnavailable)],
        vec![quota(5000), count(3), page(1, 3), Err(ClientError::CredentialUnavailable)],
    ];
    for script in scripts {
        let length = script.len();
        let (calls, response, _) = play(script);
        assert_eq!(calls.len(), length);
        assert_eq!(response, error(500, "server failed to read the PAT"));
    }
}

#[test]
fn transport_failure_ends_with_500_at_every_stage() {
    let scripts = vec![
        vec![Err(ClientError::TransportFailure)],
        vec![quota(5000), Err(ClientError::TransportFailure)],
        vec![quota(5000), count(3), Err(ClientError::TransportFailure)],
        vec![quota(5000), count(3), page(1, 3), Err(ClientError::TransportFailure)],
    ];
    for script in scripts {
        let length = script.len();
        let (calls, response, _) = play(script);
        assert_eq!(calls.len(), length);
        assert_eq!(response, error(500, "server failed to create a request"));
    }
}

#[test]
fn upstream_without_an_empty_page_is_cut_off() {
    let mut script = vec![quota(5000), count(300)];
    for index in 0..40u64 {
        script.push(page(index * 30 + 1, 30));
    }
    let (calls, response, left) = play(script);
    let pages: Vec<&str> = endpoints(&calls).into_iter().skip(2).collect();
    assert_eq!(pages.len(), 12);
    assert_eq!(pages[0], "repos/octo/hello/issues?page=1");
    assert_eq!(pages[11], "repos/octo/hello/issues?page=12");
    assert_eq!(response, error(500, "got an invalid response from github"));
    assert_eq!(left, 28);
}

#[test]
fn full_repository_is_gathered_over_eleven_pages() {
    let mut script = vec![quota(5000), count(300)];
    for index in 0..10u64 {
        script.push(page(index * 30 + 1, 30));
    }
    script.push(page(301, 0));
    let (calls, response, left) = play(script);
    assert_eq!(calls.len(), 13);
    assert_eq!(left, 0);
    match response {
        Some(ApiResponse { status: 200, body: Body::Issue(picked) }) => {
            assert!(1 <= picked.number && picked.number <= 300);
        }
        other => panic!("{:?}", other),
    }
}

#[test]
fn count_and_pages_need_not_agree() {
    let (_, response, _) = play(vec![quota(5000), count(0), page(1, 1), page(2, 0)]);
    assert_eq!(response, Some(ApiResponse { status: 200, body: Body::Issue(issue(1)) }));
}

#[test]
fn empty_owner_and_name_are_sent_as_they_are() {
    let blank = RepoRef { owner: String::new(), name: String::new() };
    let (session, _) = handle_random_issue(blank);
    match session.advance(quota(5000)) {
        Step::Call(_, call) => assert_eq!(call.endpoint, "repos//"),
        other => panic!("{:?}", other),
    }
}
