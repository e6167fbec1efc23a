use sagansearch::source::{
    classify, FetchOutcome, Reply, Resp, RADIX, STATUS_OK, STATUS_TOO_MANY_REQUESTS,
};

fn answered(status: i32, digits: Option<&str>, body: &str) -> Reply {
    Reply::Answered {
        status,
        payload: digits.map(|d| Resp::new(d.to_string())),
        body: body.as_bytes().to_vec(),
    }
}

#[test]
fn the_constants_of_the_source() {
    assert_eq!(STATUS_OK, 200);
    assert_eq!(STATUS_TOO_MANY_REQUESTS, 429);
    assert_eq!(RADIX, 10);
}

#[test]
fn a_payload_gives_its_digits() {
    let resp = Resp::new("31415".to_string());
    assert_eq!(resp.content(), "31415");
    assert_eq!(resp.into_content(), "31415".to_string());
}

#[test]
fn no_answer_is_a_transient_error() {
    assert_eq!(classify(Reply::Unreachable), FetchOutcome::TransientError);
}

#[test]
fn status_429_is_a_rate_limit() {
    assert_eq!(
        classify(answered(429, None, "slow down")),
        FetchOutcome::RateLimited
    );
    assert_eq!(
        classify(answered(429, Some("123"), "{\"content\":\"123\"}")),
        FetchOutcome::RateLimited
    );
}

#[test]
fn status_200_with_a_payload_is_a_success() {
    assert_eq!(
        classify(answered(200, Some("1234567890"), "{\"content\":\"1234567890\"}")),
        FetchOutcome::Success("1234567890".to_string())
    );
}

#[test]
fn a_body_without_the_expected_structure_is_fatal() {
    assert_eq!(
        classify(answered(200, None, "<html>oops</html>")),
        FetchOutcome::FatalError(b"<html>oops</html>".to_vec())
    );
    assert_eq!(
        classify(answered(500, None, "internal error")),
        FetchOutcome::FatalError(b"internal error".to_vec())
    );
}

#[test]
fn another_status_with_a_payload_is_a_transient_error() {
    assert_eq!(
        classify(answered(503, Some("123"), "{\"content\":\"123\"}")),
        FetchOutcome::TransientError
    );
    assert_eq!(
        classify(answered(404, Some(""), "{\"content\":\"\"}")),
        FetchOutcome::TransientError
    );
}
