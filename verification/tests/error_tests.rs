use cursor_sdk::{
    api_error, fallback_status_message, is_success_status, CursorError, ErrorEnvelope,
};
use reqwest::StatusCode;

#[test]
fn stream_expired_detection_is_specific() {
    let stream_expired = CursorError::Api {
        status: StatusCode::GONE.as_u16(),
        message: "expired".to_owned(),
        code: Some("stream_expired".to_owned()),
    };
    let other = CursorError::Api {
        status: StatusCode::GONE.as_u16(),
        message: "different".to_owned(),
        code: Some("other".to_owned()),
    };

    assert!(stream_expired.is_stream_expired());
    assert!(!other.is_stream_expired());
}

#[test]
fn stream_expired_needs_status_gone_and_the_code() {
    let wrong_status = CursorError::Api {
        status: StatusCode::NOT_FOUND.as_u16(),
        message: "expired".to_owned(),
        code: Some("stream_expired".to_owned()),
    };
    let no_code = CursorError::Api {
        status: StatusCode::GONE.as_u16(),
        message: "expired".to_owned(),
        code: None,
    };
    assert!(!wrong_status.is_stream_expired());
    assert!(!no_code.is_stream_expired());
    assert!(!CursorError::MissingApiKey.is_stream_expired());
    assert!(!CursorError::Stream("stream_expired".to_owned()).is_stream_expired());
}

#[test]
fn fallback_status_messages_cover_expected_codes() {
    assert_eq!(
        fallback_status_message(StatusCode::UNAUTHORIZED.as_u16()),
        "unauthorized"
    );
    assert_eq!(fallback_status_message(StatusCode::FORBIDDEN.as_u16()), "forbidden");
    assert_eq!(fallback_status_message(StatusCode::NOT_FOUND.as_u16()), "not found");
    assert_eq!(fallback_status_message(StatusCode::CONFLICT.as_u16()), "conflict");
    assert_eq!(
        fallback_status_message(StatusCode::TOO_MANY_REQUESTS.as_u16()),
        "rate limited"
    );
    assert_eq!(
        fallback_status_message(StatusCode::BAD_GATEWAY.as_u16()),
        "request failed"
    );
}

#[test]
fn success_is_the_2xx_range() {
    for code in [200u16, 201, 204, 299] {
        assert!(is_success_status(code));
        assert_eq!(
            is_success_status(code),
            StatusCode::from_u16(code).unwrap().is_success()
        );
    }
    for code in [100u16, 199, 300, 404, 410, 500] {
        assert!(!is_success_status(code));
        assert_eq!(
            is_success_status(code),
            StatusCode::from_u16(code).unwrap().is_success()
        );
    }
}

fn api_parts(e: CursorError) -> (u16, String, Option<String>) {
    match e {
        CursorError::Api { status, message, code } => (status, message, code),
        other => panic!("unexpected error: {other:?}"),
    }
}

#[test]
fn api_error_prefers_message_then_error_then_fallback() {
    let envelope = ErrorEnvelope {
        error: Some("Bad Request".to_owned()),
        code: Some("invalid_request".to_owned()),
        message: Some("oops".to_owned()),
    };
    let (status, message, code) = api_parts(api_error(400, "ignored".to_owned(), Some(envelope)));
    assert_eq!(status, 400);
    assert_eq!(message, "oops");
    assert_eq!(code.as_deref(), Some("invalid_request"));

    let envelope = ErrorEnvelope {
        error: Some("Bad Request".to_owned()),
        code: None,
        message: None,
    };
    let (_, message, code) = api_parts(api_error(400, String::new(), Some(envelope)));
    assert_eq!(message, "Bad Request");
    assert_eq!(code, None);

    let envelope = ErrorEnvelope { error: None, code: Some("x".to_owned()), message: None };
    let (_, message, code) = api_parts(api_error(429, String::new(), Some(envelope)));
    assert_eq!(message, "rate limited");
    assert_eq!(code.as_deref(), Some("x"));
}

#[test]
fn api_error_without_envelope_uses_body_unless_blank() {
    let (status, message, code) = api_parts(api_error(502, "upstream down".to_owned(), None));
    assert_eq!(status, 502);
    assert_eq!(message, "upstream down");
    assert_eq!(code, None);

    let (_, message, _) = api_parts(api_error(404, "  \n\t".to_owned(), None));
    assert_eq!(message, "not found");

    let (_, message, _) = api_parts(api_error(401, String::new(), None));
    assert_eq!(message, "unauthorized");
}

#[test]
fn expired_answer_is_recognised_as_expired() {
    let envelope = ErrorEnvelope {
        error: None,
        code: Some("stream_expired".to_owned()),
        message: Some("stream retention elapsed".to_owned()),
    };
    assert!(api_error(410, String::new(), Some(envelope)).is_stream_expired());
    assert!(!api_error(410, "stream_expired".to_owned(), None).is_stream_expired());
}
