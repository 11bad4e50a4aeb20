use github_release_bot::github::{
    classify_tag, github_api_base, release_request, status_is_success, tags_request, ApiRequest,
    LookupOutcome, LookupReply, LookupStep,
};

const BASE: &str = "http://127.0.0.1:1234";

fn start() -> LookupStep {
    LookupStep::start(BASE, "owner", "repo", None)
}

fn next(step: LookupStep, reply: LookupReply) -> LookupStep {
    step.advance(reply, BASE, "owner", "repo", None)
}

fn found(step: &LookupStep) -> Option<String> {
    match step {
        LookupStep::Done(LookupOutcome::Found(tag)) => Some(tag.clone()),
        LookupStep::Done(LookupOutcome::NotFound) => None,
        other => panic!("the lookup did not end with a tag or without one: {:?}", other),
    }
}

fn headers(request: &ApiRequest) -> Vec<(String, String)> {
    request.headers.clone()
}

fn expected_headers() -> Vec<(String, String)> {
    vec![
        ("User-Agent".to_string(), "github-release-bot/0.1".to_string()),
        ("Accept".to_string(), "application/vnd.github+json".to_string()),
        ("X-GitHub-Api-Version".to_string(), "2022-11-28".to_string()),
    ]
}

#[test]
fn latest_release_success() {
    let step = start();
    match &step {
        LookupStep::FetchRelease(request) => {
            assert_eq!(request.url, "http://127.0.0.1:1234/repos/owner/repo/releases/latest");
        }
        other => panic!("expected the release request, got {:?}", other),
    }
    let step = next(step, LookupReply::Status(200));
    assert!(matches!(step, LookupStep::DecodeRelease));
    let step = next(step, LookupReply::Release("v1.2.3".to_string()));
    assert_eq!(found(&step), Some("v1.2.3".to_string()));
}

#[test]
fn latest_release_empty_tag_returns_none() {
    let step = next(start(), LookupReply::Status(200));
    let step = next(step, LookupReply::Release("".to_string()));
    assert_eq!(found(&step), None);
}

#[test]
fn latest_release_blank_tag_returns_none() {
    let step = next(start(), LookupReply::Status(200));
    let step = next(step, LookupReply::Release(" \t\n".to_string()));
    assert_eq!(found(&step), None);
}

#[test]
fn fallback_to_tags_on_404_success() {
    let step = next(start(), LookupReply::Status(404));
    match &step {
        LookupStep::FetchTags(request) => {
            assert_eq!(request.url, "http://127.0.0.1:1234/repos/owner/repo/tags?per_page=1");
            assert_eq!(headers(request), expected_headers());
        }
        other => panic!("expected the tags request, got {:?}", other),
    }
    let step = next(step, LookupReply::Status(200));
    assert!(matches!(step, LookupStep::DecodeTags));
    let step = next(step, LookupReply::Tags(vec!["v0.9.0".to_string()]));
    assert_eq!(found(&step), Some("v0.9.0".to_string()));
}

#[test]
fn fallback_to_tags_empty_returns_none() {
    let step = next(start(), LookupReply::Status(404));
    let step = next(step, LookupReply::Status(200));
    let step = next(step, LookupReply::Tags(vec![]));
    assert_eq!(found(&step), None);
}

#[test]
fn fallback_takes_the_first_tag_only() {
    let step = next(start(), LookupReply::Status(404));
    let step = next(step, LookupReply::Status(200));
    let step = next(step, LookupReply::Tags(vec!["v2".to_string(), "v1".to_string()]));
    assert_eq!(found(&step), Some("v2".to_string()));
}

#[test]
fn fallback_with_refused_tags_request_finds_nothing() {
    for status in [100u16, 301, 400, 403, 404, 429, 499, 600] {
        let step = next(start(), LookupReply::Status(404));
        let step = next(step, LookupReply::Status(status));
        assert_eq!(found(&step), None, "status {}", status);
    }
}

#[test]
fn fallback_with_server_error_is_a_transient_error() {
    for status in [500u16, 502, 503, 599] {
        let step = next(start(), LookupReply::Status(404));
        let step = next(step, LookupReply::Status(status));
        match step {
            LookupStep::Done(LookupOutcome::TransientError(detail)) => {
                assert_eq!(detail, "GitHub API returned non-success status", "status {}", status)
            }
            other => panic!("status {}: expected a transient error, got {:?}", status, other),
        }
    }
}

#[test]
fn non_success_errors() {
    let step = next(start(), LookupReply::Status(500));
    match step {
        LookupStep::Done(LookupOutcome::TransientError(detail)) => {
            assert_eq!(detail, "GitHub API returned non-success status");
        }
        other => panic!("expected a transient error, got {:?}", other),
    }
}

#[test]
fn every_other_status_is_a_transient_error() {
    for status in [100u16, 199, 300, 301, 400, 401, 403, 405, 429, 502, 503, 599] {
        let step = next(start(), LookupReply::Status(status));
        assert!(
            matches!(step, LookupStep::Done(LookupOutcome::TransientError(_))),
            "status {}",
            status
        );
    }
    for status in [200u16, 201, 204, 299] {
        let step = next(start(), LookupReply::Status(status));
        assert!(matches!(step, LookupStep::DecodeRelease), "status {}", status);
    }
}

#[test]
fn failures_to_send_or_decode_are_transient_errors() {
    let step = next(start(), LookupReply::Failed("connection refused".to_string()));
    match step {
        LookupStep::Done(LookupOutcome::TransientError(detail)) => {
            assert_eq!(detail, "connection refused")
        }
        other => panic!("expected a transient error, got {:?}", other),
    }
    let step = next(start(), LookupReply::Status(200));
    let step = next(step, LookupReply::Failed("missing field `tag_name`".to_string()));
    assert!(matches!(step, LookupStep::Done(LookupOutcome::TransientError(_))));
    let step = next(start(), LookupReply::Status(404));
    let step = next(step, LookupReply::Failed("timed out".to_string()));
    assert!(matches!(step, LookupStep::Done(LookupOutcome::TransientError(_))));
    let step = next(start(), LookupReply::Status(404));
    let step = next(step, LookupReply::Status(200));
    let step = next(step, LookupReply::Failed("expected a sequence".to_string()));
    assert!(matches!(step, LookupStep::Done(LookupOutcome::TransientError(_))));
}

#[test]
fn a_reply_that_does_not_fit_ends_the_lookup() {
    let step = next(start(), LookupReply::Release("v1".to_string()));
    match step {
        LookupStep::Done(LookupOutcome::TransientError(detail)) => {
            assert_eq!(detail, "unexpected reply for the pending lookup step")
        }
        other => panic!("expected a transient error, got {:?}", other),
    }
    let step = next(start(), LookupReply::Status(200));
    let step = next(step, LookupReply::Status(200));
    assert!(matches!(step, LookupStep::Done(LookupOutcome::TransientError(_))));
}

#[test]
fn a_finished_lookup_stays_finished() {
    let step = next(start(), LookupReply::Status(200));
    let step = next(step, LookupReply::Release("v1".to_string()));
    let step = next(step, LookupReply::Status(500));
    assert_eq!(found(&step), Some("v1".to_string()));
    let step = next(step, LookupReply::Failed("late".to_string()));
    assert_eq!(found(&step), Some("v1".to_string()));
}

#[test]
fn requests_carry_headers_and_credential() {
    let request = release_request("https://api.github.com", "o", "r", Some("gh-token"));
    assert_eq!(request.url, "https://api.github.com/repos/o/r/releases/latest");
    assert_eq!(headers(&request), expected_headers());
    assert_eq!(request.bearer, Some("gh-token".to_string()));
    let request = tags_request("https://api.github.com", "o", "r", None);
    assert_eq!(request.url, "https://api.github.com/repos/o/r/tags?per_page=1");
    assert_eq!(headers(&request), expected_headers());
    assert_eq!(request.bearer, None);
}

#[test]
fn the_credential_reaches_the_fallback_request() {
    let step = LookupStep::start(BASE, "owner", "repo", Some("t0ken"));
    match &step {
        LookupStep::FetchRelease(request) => assert_eq!(request.bearer, Some("t0ken".to_string())),
        other => panic!("expected the release request, got {:?}", other),
    }
    let step = step.advance(LookupReply::Status(404), BASE, "owner", "repo", Some("t0ken"));
    match &step {
        LookupStep::FetchTags(request) => assert_eq!(request.bearer, Some("t0ken".to_string())),
        other => panic!("expected the tags request, got {:?}", other),
    }
}

#[test]
fn api_base_defaults_to_github() {
    assert_eq!(github_api_base(None), "https://api.github.com");
    assert_eq!(github_api_base(Some("http://localhost:9".to_string())), "http://localhost:9");
}

#[test]
fn success_is_the_2xx_range() {
    assert!(!status_is_success(199));
    assert!(status_is_success(200));
    assert!(status_is_success(299));
    assert!(!status_is_success(300));
    assert!(!status_is_success(404));
}

#[test]
fn classify_tag_keeps_the_tag_as_it_is() {
    assert!(matches!(classify_tag(" v1 ".to_string()), LookupOutcome::Found(tag) if tag == " v1 "));
    assert!(matches!(classify_tag("\u{3000}".to_string()), LookupOutcome::NotFound));
}
