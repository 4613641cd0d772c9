use beatsaver_rs::api::{BeatSaver, HttpResponse, Transport, valid_user_id};
use beatsaver_rs::error::{BeatSaverApiError, BeatSaverRateLimit};
use beatsaver_rs::map::BeatSaverUser;
use beatsaver_rs::map_id::MapId;

/// Succeeds every request and echoes the requested URL back as the body, so
/// a test can observe exactly which URL an operation produced.
struct EchoTransport;

impl Transport for EchoTransport {
    fn fetch(&self, url: &str) -> Result<HttpResponse, String> {
        Ok(HttpResponse { status: 200, body: url.as_bytes().to_vec() })
    }
}

/// Fails the test if any request is attempted.
struct PanickingTransport;

impl Transport for PanickingTransport {
    fn fetch(&self, _url: &str) -> Result<HttpResponse, String> {
        panic!("no request may be made");
    }
}

/// Fails every request at the transport level.
struct FailingTransport;

impl Transport for FailingTransport {
    fn fetch(&self, _url: &str) -> Result<HttpResponse, String> {
        Err(String::from("connection refused"))
    }
}

/// Answers every request with a throttling status and a rate-limit body.
struct ThrottledTransport;

impl Transport for ThrottledTransport {
    fn fetch(&self, _url: &str) -> Result<HttpResponse, String> {
        Ok(HttpResponse {
            status: 429,
            body: b"{\"reset\": 1700000000000, \"resetAfter\": 5000}".to_vec(),
        })
    }
}

/// Succeeds with a body that is not UTF-8.
struct BinaryTransport;

impl Transport for BinaryTransport {
    fn fetch(&self, _url: &str) -> Result<HttpResponse, String> {
        Ok(HttpResponse { status: 200, body: vec![0xff, 0xfe] })
    }
}

#[test]
fn map_by_key_addresses_detail_path_in_hex() {
    let client = BeatSaver::new(EchoTransport);
    assert_eq!(
        client.map(&MapId::Key(0x2144)),
        Ok(String::from("https://beatsaver.com/api/maps/detail/2144"))
    );
}

#[test]
fn map_by_hash_addresses_by_hash_path() {
    let client = BeatSaver::new(EchoTransport);
    let id = MapId::Hash(String::from("fda568fc27c20d21f8dc6f3709b49b5cc96723be"));
    assert_eq!(
        client.map(&id),
        Ok(String::from(
            "https://beatsaver.com/api/maps/by-hash/fda568fc27c20d21f8dc6f3709b49b5cc96723be"
        ))
    );
}

#[test]
fn listing_operations_address_their_paths() {
    let client = BeatSaver::new(EchoTransport);
    let user = BeatSaverUser {
        id: String::from("5cff0b7298cc5a672c84e98d"),
        username: String::from("bennydabeast"),
    };
    assert_eq!(
        client.maps_by_page(&user, 0),
        Ok(String::from(
            "https://beatsaver.com/api/maps/uploader/5cff0b7298cc5a672c84e98d/0"
        ))
    );
    assert_eq!(
        client.maps_hot_page(0),
        Ok(String::from("https://beatsaver.com/api/maps/hot/0"))
    );
    assert_eq!(
        client.maps_rating_page(1),
        Ok(String::from("https://beatsaver.com/api/maps/rating/1"))
    );
    assert_eq!(
        client.maps_latest_page(2),
        Ok(String::from("https://beatsaver.com/api/maps/latest/2"))
    );
    assert_eq!(
        client.maps_downloads_page(3),
        Ok(String::from("https://beatsaver.com/api/maps/downloads/3"))
    );
    assert_eq!(
        client.maps_plays_page(4),
        Ok(String::from("https://beatsaver.com/api/maps/plays/4"))
    );
}

#[test]
fn search_operations_encode_queries() {
    let client = BeatSaver::new(EchoTransport);
    assert_eq!(
        client.search_page("hello world", 0),
        Ok(String::from("https://beatsaver.com/api/search/text/0?q=hello%20world"))
    );
    assert_eq!(
        client.search_advanced_page("uploaded:[2019 TO *]", 2),
        Ok(String::from(
            "https://beatsaver.com/api/search/advanced/2?q=uploaded%3A%5B2019%20TO%20%2A%5D"
        ))
    );
}

#[test]
fn user_lookup_addresses_find_path() {
    let client = BeatSaver::new(EchoTransport);
    assert_eq!(
        client.user("5cff0b7298cc5a672c84e98d"),
        Ok(String::from("https://beatsaver.com/api/users/find/5cff0b7298cc5a672c84e98d"))
    );
}

#[test]
fn invalid_user_id_is_rejected_before_any_request() {
    let client = BeatSaver::new(PanickingTransport);
    let argument_error = Err(BeatSaverApiError::ArgumentError(String::from("id")));
    assert_eq!(client.user("abc"), argument_error);
    assert_eq!(client.user(""), argument_error);
    assert_eq!(client.user("5cff0b7298cc5a672c84e98"), argument_error);
    assert_eq!(client.user("5cff0b7298cc5a672c84e98dd"), argument_error);
    assert_eq!(client.user("zzff0b7298cc5a672c84e98d"), argument_error);
}

#[test]
fn user_id_validation_checks_length_and_digits() {
    assert!(valid_user_id("5cff0b7298cc5a672c84e98d"));
    assert!(!valid_user_id("5cff0b7298cc5a672c84e98"));
    assert!(!valid_user_id("5cff0b7298cc5a672c84e98dd"));
    assert!(!valid_user_id("g".repeat(24).as_str()));
    assert!(!valid_user_id(""));
}

#[test]
fn download_returns_raw_bytes() {
    let client = BeatSaver::new(EchoTransport);
    assert_eq!(
        client.download(MapId::Key(0x2144)),
        Ok(b"https://beatsaver.com/api/download/key/2144".to_vec())
    );
    let hash = String::from("fda568fc27c20d21f8dc6f3709b49b5cc96723be");
    assert_eq!(
        client.download(MapId::Hash(hash)),
        Ok(b"https://beatsaver.com/api/download/hash/fda568fc27c20d21f8dc6f3709b49b5cc96723be"
            .to_vec())
    );
}

#[test]
fn transport_failure_becomes_request_error() {
    let client = BeatSaver::new(FailingTransport);
    assert_eq!(
        client.map(&MapId::Key(1)),
        Err(BeatSaverApiError::RequestError(String::from("connection refused")))
    );
}

#[test]
fn throttled_response_becomes_rate_limit_error() {
    let client = BeatSaver::new(ThrottledTransport);
    assert_eq!(
        client.maps_hot_page(0),
        Err(BeatSaverApiError::RateLimitError(BeatSaverRateLimit {
            reset_ms: 1700000000000,
            reset_after_ms: 5000,
        }))
    );
}

#[test]
fn non_utf8_document_becomes_encoding_error() {
    let client = BeatSaver::new(BinaryTransport);
    assert_eq!(client.map(&MapId::Key(1)), Err(BeatSaverApiError::Utf8Error));
}

#[test]
fn users_compare_by_identity() {
    let a = BeatSaverUser { id: String::from("5cff0b7298cc5a672c84e98d"), username: String::from("one") };
    let b = BeatSaverUser { id: String::from("5cff0b7298cc5a672c84e98d"), username: String::from("two") };
    let c = BeatSaverUser { id: String::from("5cff0b7398cc5a672c84f945"), username: String::from("one") };
    assert_eq!(a, b);
    assert_ne!(a, c);
}
