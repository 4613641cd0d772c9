//! The closed set of errors a query can produce: a transport failure, a
//! decoding failure at the UTF-8 or JSON stage, a rejected argument, or a
//! structured rate-limit signal.
use vstd::prelude::*;

use crate::radix::{dec_render, u64_to_dec};

verus! {

/// Structured rate-limit signal decoded from a throttled response body.
///
/// Both fields come from the same millisecond timestamp fields of the raw
/// body: `reset` is an absolute point in time, `reset_after` a duration.
#[derive(Debug, Clone, Copy, PartialEq, Eq, Structural)]
pub struct BeatSaverRateLimit {
    /// Epoch milliseconds at which the rate limit expires.
    pub reset_ms: u64,
    /// Duration of the rate limit, in milliseconds.
    pub reset_after_ms: u64,
}

/// Error that can occur when querying the API.
///
/// Backend-specific transport failures are carried as their opaque message
/// text rather than as a type parameter of every signature.
#[derive(Debug, Clone, PartialEq, Eq)]
pub enum BeatSaverApiError {
    /// The request backend failed; holds the backend's own message.
    RequestError(String),
    /// A response body could not be decoded as the expected JSON document.
    SerializeError(String),
    /// A caller-supplied argument was rejected before any request was made.
    ArgumentError(String),
    /// A response body was not valid UTF-8.
    Utf8Error,
    /// The rate limit was hit while making the request.
    RateLimitError(BeatSaverRateLimit),
}

impl BeatSaverApiError {
    /// Human-readable description of the error.
    pub fn message(&self) -> (r: String)
        ensures
            ({
                match self {
                    BeatSaverApiError::RequestError(e) => r@ == e@,
                    BeatSaverApiError::SerializeError(e) => r@ == e@,
                    BeatSaverApiError::ArgumentError(a) => r@ == "Invalid argument: "@ + a@,
                    BeatSaverApiError::Utf8Error => r@ == "invalid utf-8 in response body"@,
                    BeatSaverApiError::RateLimitError(l) => r@ == "API rate limit hit (retry in "@
                        + dec_render(l.reset_after_ms as int) + " ms)"@,
                }
            }),
    {
        match self {
            BeatSaverApiError::RequestError(e) => e.clone(),
            BeatSaverApiError::SerializeError(e) => e.clone(),
            BeatSaverApiError::ArgumentError(a) => {
                let mut s = String::from_str("Invalid argument: ");
                s.append(a.as_str());
                s
            },
            BeatSaverApiError::Utf8Error => String::from_str("invalid utf-8 in response body"),
            BeatSaverApiError::RateLimitError(l) => {
                let mut s = String::from_str("API rate limit hit (retry in ");
                let ms = u64_to_dec(l.reset_after_ms);
                s.append(ms.as_str());
                s.append(" ms)");
                s
            },
        }
    }
}

} // verus!
