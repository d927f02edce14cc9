use gravatar_fdw::cell::{Cell, Column, TypeOid};
use gravatar_fdw::error::ErrorKind;
use gravatar_fdw::fetch::{
    copy_headers, find_header, find_reset_time, has_api_key, rate_limit_error, resolve,
    wait_seconds, FetchOutcome, Request, Response,
};
use gravatar_fdw::json::Document;

fn headers(pairs: &[(&str, &str)]) -> Vec<(String, String)> {
    pairs.iter().map(|(n, v)| (n.to_string(), v.to_string())).collect()
}

fn response(status_code: u16, pairs: &[(&str, &str)], body: &str) -> Response {
    Response { status_code, headers: headers(pairs), body: body.to_string() }
}

const WITH_KEY: &str = " Please contact Gravatar to increase your usage limit.";
const WITHOUT_KEY: &str = " Consider getting an API key at https://gravatar.com/developers/applications for higher rate limits.";

#[test]
fn success_resolves_the_record_with_its_key() {
    let r = response(200, &[], r#"{"hash":"h"}"#);
    match r.outcome("me@example.com", 0) {
        Ok(FetchOutcome::Resolved(record)) => {
            let cols = vec![Column::new("hash", TypeOid::String), Column::new("email", TypeOid::String)];
            assert_eq!(
                record.project(&cols),
                vec![Some(Cell::String("h".into())), Some(Cell::String("me@example.com".into()))]
            );
        }
        other => panic!("unexpected outcome {:?}", other),
    }
}

#[test]
fn success_with_a_broken_body_is_a_failure() {
    let r = response(200, &[], "<html>oops</html>");
    let error = r.outcome("me@example.com", 0).unwrap_err();
    assert_eq!(error.kind, ErrorKind::MalformedResponse);
    assert!(error.message.starts_with("Failed to parse JSON response: "));
    assert!(error.message.len() > "Failed to parse JSON response: ".len());
    assert_eq!(error.to_string(), error.message);
}

#[test]
fn broken_body_matters_only_on_success() {
    assert!(matches!(response(404, &[], "{").outcome("k", 0), Ok(FetchOutcome::NotFound)));
    assert!(matches!(response(500, &[], "{").outcome("k", 0), Ok(FetchOutcome::TransientError(_))));
    assert!(matches!(response(429, &[], "{").outcome("k", 0), Ok(FetchOutcome::RateLimited(None))));
}

#[test]
fn not_found_is_its_own_outcome() {
    let r = response(404, &[], r#"{"error":"Profile not found"}"#);
    assert!(matches!(r.outcome("k", 0), Ok(FetchOutcome::NotFound)));
}

#[test]
fn other_statuses_are_passing_errors() {
    for status in [0u16, 100, 201, 204, 301, 400, 401, 403, 405, 430, 500, 502, 503, 65535] {
        let r = response(status, &[], "busy");
        match r.outcome("me@example.com", 0) {
            Ok(FetchOutcome::TransientError(message)) => {
                assert_eq!(message, format!("HTTP error {} for email me@example.com: busy", status));
            }
            other => panic!("status {}: unexpected outcome {:?}", status, other),
        }
    }
}

#[test]
fn rate_limit_without_a_reset_time_has_no_wait() {
    assert!(matches!(response(429, &[], "").outcome("k", 100), Ok(FetchOutcome::RateLimited(None))));
    let r = response(429, &[("retry-after", "30")], "");
    assert!(matches!(r.outcome("k", 100), Ok(FetchOutcome::RateLimited(None))));
}

#[test]
fn rate_limit_waits_until_the_reset_time() {
    let r = response(429, &[("x-ratelimit-reset", "1700000060")], "");
    assert!(matches!(r.outcome("k", 1_700_000_000), Ok(FetchOutcome::RateLimited(Some(60)))));
}

#[test]
fn reset_time_that_has_passed_is_no_wait_at_all() {
    let h = headers(&[("x-ratelimit-reset", "100")]);
    assert_eq!(wait_seconds(&h, 100), Some(0));
    assert_eq!(wait_seconds(&h, 101), Some(0));
    assert_eq!(wait_seconds(&h, u64::MAX), Some(0));
    assert_eq!(wait_seconds(&h, 99), Some(1));
    assert_eq!(wait_seconds(&h, 0), Some(100));
}

#[test]
fn reset_time_that_is_no_number_is_no_wait() {
    for value in ["", "soon", "12.5", "-", " 12", "Wed, 21 Oct 2015 07:28:00 GMT", "18446744073709551616"] {
        let h = headers(&[("x-ratelimit-reset", value)]);
        assert_eq!(wait_seconds(&h, 0), None, "{:?}", value);
    }
    let h = headers(&[("x-ratelimit-reset", "18446744073709551615")]);
    assert_eq!(wait_seconds(&h, 15), Some(u64::MAX - 15));
}

#[test]
fn header_names_are_matched_without_case() {
    let h = headers(&[("Content-Type", "text/plain"), ("X-RateLimit-Reset", "50"), ("x-ratelimit-reset", "70")]);
    assert_eq!(find_header(&h, "x-ratelimit-reset"), Some("50"));
    assert_eq!(find_header(&h, "content-type"), Some("text/plain"));
    assert_eq!(find_header(&h, "Content-Type"), None);
    assert_eq!(find_header(&h, "absent"), None);
    assert_eq!(wait_seconds(&h, 20), Some(30));
}

#[test]
fn only_the_first_reset_header_counts() {
    let h = headers(&[("X-RATELIMIT-RESET", "soon"), ("x-ratelimit-reset", "70")]);
    assert_eq!(wait_seconds(&h, 20), None);
}

#[test]
fn api_key_is_an_authorization_header() {
    assert!(!has_api_key(&headers(&[])));
    assert!(!has_api_key(&headers(&[("accept", "application/json"), ("user-agent", "authorization")])));
    assert!(has_api_key(&headers(&[("accept", "a"), ("authorization", "Bearer t")])));
    assert!(has_api_key(&headers(&[("Authorization", "Bearer t")])));
    assert!(has_api_key(&headers(&[("AUTHORIZATION", "")])));
}

#[test]
fn rate_limit_failure_names_the_wait_and_gives_advice() {
    let e = rate_limit_error(Some(60), true);
    assert_eq!(e.kind, ErrorKind::RateLimited);
    assert_eq!(e.message, format!("Rate limit exceeded (429). Wait 60 seconds for reset.{}", WITH_KEY));
    let e = rate_limit_error(Some(0), false);
    assert_eq!(e.message, format!("Rate limit exceeded (429). Wait 0 seconds for reset.{}", WITHOUT_KEY));
    let e = rate_limit_error(None, true);
    assert_eq!(e.message, format!("Rate limit exceeded (429).{}", WITH_KEY));
    let e = rate_limit_error(None, false);
    assert_eq!(e.message, format!("Rate limit exceeded (429).{}", WITHOUT_KEY));
    let e = rate_limit_error(Some(u64::MAX), false);
    assert_eq!(
        e.message,
        format!("Rate limit exceeded (429). Wait 18446744073709551615 seconds for reset.{}", WITHOUT_KEY)
    );
}

#[test]
fn parsed_body_becomes_a_record_and_a_failure_stays_one() {
    let ok = resolve(Document::parse(r#"{"a":1}"#), "key");
    match ok {
        Ok(FetchOutcome::Resolved(record)) => {
            let cols = vec![Column::new("json", TypeOid::Json)];
            assert_eq!(record.project(&cols), vec![Some(Cell::Json(r#"{"a":1,"email":"key"}"#.into()))]);
        }
        other => panic!("unexpected outcome {:?}", other),
    }
    let parsed = Document::parse("{");
    let reason = Document::parse("{").unwrap_err().message;
    let error = resolve(parsed, "key").unwrap_err();
    assert_eq!(error.kind, ErrorKind::MalformedResponse);
    assert_eq!(error.message, format!("Failed to parse JSON response: {}", reason));
}

#[test]
fn request_has_the_address_of_the_key_and_the_headers() {
    let h = headers(&[("user-agent", "ua"), ("accept", "application/json")]);
    let r = Request::for_key("https://example.test/v3/profiles", &h, " ABC ");
    assert_eq!(
        r.url,
        "https://example.test/v3/profiles/ba7816bf8f01cfea414140de5dae2223b00361a396177a9cb410ff61f20015ad"
    );
    assert_eq!(r.headers, h);
    assert_eq!(copy_headers(&h), h);
    assert!(copy_headers(&Vec::new()).is_empty());
}

#[test]
fn reset_time_before_the_epoch_is_no_wait_at_all() {
    for value in ["-5", "-0", "-1700000000", "-18446744073709551615"] {
        let h = headers(&[("x-ratelimit-reset", value)]);
        assert_eq!(wait_seconds(&h, 200), Some(0), "{:?}", value);
        assert_eq!(wait_seconds(&h, 0), Some(0), "{:?}", value);
    }
    let r = response(429, &[("x-ratelimit-reset", "-5")], "");
    assert!(matches!(r.outcome("k", 200), Ok(FetchOutcome::RateLimited(Some(0)))));
}

#[test]
fn reset_time_is_the_integer_of_the_first_reset_header() {
    assert_eq!(find_reset_time(&headers(&[])), None);
    assert_eq!(find_reset_time(&headers(&[("x-ratelimit-reset", "+70")])), Some(70));
    assert_eq!(find_reset_time(&headers(&[("X-RateLimit-Reset", "-70")])), Some(-70));
    assert_eq!(find_reset_time(&headers(&[("x-ratelimit-reset", "later")])), None);
    assert_eq!(find_reset_time(&headers(&[("x-ratelimit-limit", "70")])), None);
}

#[test]
fn only_a_rate_limit_with_a_reset_time_needs_the_time() {
    assert!(response(429, &[("x-ratelimit-reset", "70")], "").needs_time());
    assert!(response(429, &[("X-Ratelimit-Reset", "-70")], "").needs_time());
    assert!(!response(429, &[("x-ratelimit-reset", "later")], "").needs_time());
    assert!(!response(429, &[], "").needs_time());
    assert!(!response(200, &[("x-ratelimit-reset", "70")], "{}").needs_time());
    assert!(!response(404, &[("x-ratelimit-reset", "70")], "").needs_time());
    assert!(!response(503, &[("x-ratelimit-reset", "70")], "").needs_time());
}

#[test]
fn outcome_is_the_same_at_any_time_when_the_time_is_not_needed() {
    let r = response(429, &[("x-ratelimit-reset", "later")], "");
    assert!(matches!(r.outcome("k", 0), Ok(FetchOutcome::RateLimited(None))));
    assert!(matches!(r.outcome("k", u64::MAX), Ok(FetchOutcome::RateLimited(None))));
    let r = response(503, &[], "busy");
    let text = |o| match o {
        Ok(FetchOutcome::TransientError(m)) => m,
        other => panic!("unexpected outcome {:?}", other),
    };
    assert_eq!(text(r.outcome("k", 0)), text(r.outcome("k", u64::MAX)));
}
