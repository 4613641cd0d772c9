//! Detection and decoding of rate-limit responses.
//!
//! A throttled response carries status 429 and a small JSON body with a
//! millisecond reset timestamp and a millisecond reset-after duration.
//! Every transport backend hands its raw status and bytes through
//! [`classify_response`], so throttling is recognised uniformly no matter
//! which backend performed the request.
use vstd::prelude::*;

use vstd::utf8::{valid_utf8, decode_utf8};
use crate::error::{BeatSaverApiError, BeatSaverRateLimit};

verus! {

/// HTTP status code by which the server signals throttling.
pub const STATUS_TOO_MANY_REQUESTS: u16 = 429;

/// What `serde_json` extracts from a rate-limit body: the `reset` and
/// `resetAfter` millisecond fields, or nothing when the text is not such a
/// JSON document.  A function of the text alone.
pub uninterp spec fn rate_limit_fields(s: Seq<char>) -> Option<(u64, u64)>;

/// Relies on `String::from_utf8`: it succeeds exactly on valid UTF-8 input,
/// and then returns the character sequence those bytes encode.
#[verifier::external_body]
pub(crate) fn utf8_to_string(data: Vec<u8>) -> (r: Option<String>)
    ensures
        r is Some <==> valid_utf8(data@),
        r is Some ==> r->0@ == decode_utf8(data@),
{
    String::from_utf8(data).ok()
}

/// Relies on `serde_json::from_str` to parse the body text as a JSON value
/// and on `serde_json::Value::get` / `Value::as_u64` to extract the `reset`
/// and `resetAfter` millisecond fields; the outcome depends on the text
/// alone, which `rate_limit_fields` names.  The error text is the parser's
/// own message and is not specified further.
#[verifier::external_body]
fn parse_rate_limit_body(s: &str) -> (r: Result<(u64, u64), String>)
    ensures
        r is Ok <==> rate_limit_fields(s@) is Some,
        r is Ok ==> Some(r->Ok_0) == rate_limit_fields(s@),
{
    let v: serde_json::Value = match serde_json::from_str(s) {
        Ok(v) => v,
        Err(e) => return Err(e.to_string()),
    };
    let reset = v.get("reset").and_then(serde_json::Value::as_u64);
    let reset_after = v.get("resetAfter").and_then(serde_json::Value::as_u64);
    match (reset, reset_after) {
        (Some(a), Some(b)) => Ok((a, b)),
        _ => Err(String::from("missing or malformed rate limit fields")),
    }
}

/// The typed error a throttled body `data` decodes to: a structured
/// rate-limit signal when the body is well formed, and otherwise the typed
/// decoding failure of the stage that rejected it.
pub open spec fn is_rate_limit_signal(data: Seq<u8>, r: BeatSaverApiError) -> bool {
    &&& !valid_utf8(data) ==> r == BeatSaverApiError::Utf8Error
    &&& valid_utf8(data) && rate_limit_fields(decode_utf8(data)) is None ==> r is SerializeError
    &&& valid_utf8(data) && rate_limit_fields(decode_utf8(data)) is Some ==> r
        == BeatSaverApiError::RateLimitError(
        BeatSaverRateLimit {
            reset_ms: (rate_limit_fields(decode_utf8(data))->0).0,
            reset_after_ms: (rate_limit_fields(decode_utf8(data))->0).1,
        },
    )
}

/// Converts the body of a throttled response to the matching typed error.
///
/// The body is decoded as UTF-8 text and then as the small rate-limit JSON
/// document; a failure at either stage is itself surfaced as a typed error
/// rather than silently defaulted.
pub fn rate_limit(data: Vec<u8>) -> (r: BeatSaverApiError)
    ensures
        is_rate_limit_signal(data@, r),
{
    match utf8_to_string(data) {
        None => BeatSaverApiError::Utf8Error,
        Some(s) => match parse_rate_limit_body(s.as_str()) {
            Err(msg) => BeatSaverApiError::SerializeError(msg),
            Ok((reset, after)) => BeatSaverApiError::RateLimitError(
                BeatSaverRateLimit { reset_ms: reset, reset_after_ms: after },
            ),
        },
    }
}

/// Applies the uniform classification rule to a raw response.
///
/// A throttled status turns the body into a rate-limit (or decode) error,
/// which takes precedence over treating the bytes as a normal payload; any
/// other status passes the body through unchanged for normal decoding by
/// the caller.
pub fn classify_response(status: u16, body: Vec<u8>) -> (r: Result<Vec<u8>, BeatSaverApiError>)
    ensures
        status != STATUS_TOO_MANY_REQUESTS ==> r == Ok::<Vec<u8>, BeatSaverApiError>(body),
        status == STATUS_TOO_MANY_REQUESTS ==> r is Err && is_rate_limit_signal(
            body@,
            r->Err_0,
        ),
{
    if status == STATUS_TOO_MANY_REQUESTS {
        Err(rate_limit(body))
    } else {
        Ok(body)
    }
}

} // verus!
