use beatsaver_rs::error::{BeatSaverApiError, BeatSaverRateLimit};
use beatsaver_rs::rate_limit::{classify_response, rate_limit, STATUS_TOO_MANY_REQUESTS};

const LIMIT_BODY: &str = "{\"reset\": 1700000000000, \"resetAfter\": 5000}";

#[test]
fn throttled_status_produces_rate_limit_error() {
    let r = classify_response(STATUS_TOO_MANY_REQUESTS, LIMIT_BODY.as_bytes().to_vec());
    assert_eq!(
        r,
        Err(BeatSaverApiError::RateLimitError(BeatSaverRateLimit {
            reset_ms: 1700000000000,
            reset_after_ms: 5000,
        }))
    );
}

#[test]
fn success_status_passes_body_through_unchanged() {
    let r = classify_response(200, LIMIT_BODY.as_bytes().to_vec());
    assert_eq!(r, Ok(LIMIT_BODY.as_bytes().to_vec()));
}

#[test]
fn throttled_body_with_invalid_utf8_is_encoding_error() {
    let r = classify_response(STATUS_TOO_MANY_REQUESTS, vec![0xff, 0xfe, 0x00]);
    assert_eq!(r, Err(BeatSaverApiError::Utf8Error));
}

#[test]
fn throttled_body_with_malformed_json_is_decode_error() {
    let r = classify_response(STATUS_TOO_MANY_REQUESTS, b"not json at all".to_vec());
    assert!(matches!(r, Err(BeatSaverApiError::SerializeError(_))));
}

#[test]
fn throttled_body_missing_fields_is_decode_error() {
    let r = classify_response(STATUS_TOO_MANY_REQUESTS, b"{\"reset\": 12}".to_vec());
    assert!(matches!(r, Err(BeatSaverApiError::SerializeError(_))));
}

#[test]
fn rate_limit_decodes_fields_directly() {
    let e = rate_limit(LIMIT_BODY.as_bytes().to_vec());
    match e {
        BeatSaverApiError::RateLimitError(l) => {
            assert_eq!(l.reset_ms, 1700000000000);
            assert_eq!(l.reset_after_ms, 5000);
        }
        other => panic!("expected a rate limit error, got {:?}", other),
    }
}

#[test]
fn rate_limit_error_message_names_retry_duration() {
    let e = BeatSaverApiError::RateLimitError(BeatSaverRateLimit {
        reset_ms: 1700000000000,
        reset_after_ms: 5000,
    });
    assert_eq!(e.message(), "API rate limit hit (retry in 5000 ms)");
}

#[test]
fn argument_error_message_names_argument() {
    let e = BeatSaverApiError::ArgumentError(String::from("id"));
    assert_eq!(e.message(), "Invalid argument: id");
}
