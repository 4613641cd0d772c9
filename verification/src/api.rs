//! The API facade: named high-level operations composed from request-path
//! construction, a pluggable transport, and the uniform rate-limit
//! classification.
//!
//! The facade is generic over the [`Transport`] capability, so every
//! backend gets identical classification and validation behaviour.  Methods
//! that fetch JSON documents return the raw text; turning a document into a
//! typed record is the decoder's job and sits with the unverified layer
//! around the library.
use vstd::prelude::*;

use crate::error::BeatSaverApiError;
use crate::map::BeatSaverUser;
use crate::map_id::MapId;
use crate::radix::all_hex;
use crate::rate_limit::{classify_response, utf8_to_string};
use crate::urls::{
    MapSort, map_detail_url, map_hash_url, maps_uploader_url, maps_sort_url, search_text_url,
    search_advanced_url, user_find_url, download_url,
};

verus! {

/// Raw outcome of one HTTP GET: the status code and the body bytes.
pub struct HttpResponse {
    /// HTTP status code.
    pub status: u16,
    /// Raw body bytes.
    pub body: Vec<u8>,
}

/// The pluggable transport capability: performs one HTTP GET and returns
/// the raw response, or the backend's own error message.  Implementations
/// live with the runtime layer around the library; the facade treats every
/// backend through this one contract.
pub trait Transport {
    /// Performs one HTTP GET of `url`.
    fn fetch(&self, url: &str) -> Result<HttpResponse, String>;
}

/// True when `id` is well-formed as a user id: exactly twenty-four
/// hexadecimal characters.  This is a different identifier kind from the
/// forty-character map content hash and is validated separately.
pub fn valid_user_id(id: &str) -> (b: bool)
    ensures
        b == (id@.len() == 24 && all_hex(id@)),
{
    id.unicode_len() == 24 && crate::radix::str_is_hex(id)
}

/// A client for the API, bound to one transport backend.
pub struct BeatSaver<C: Transport> {
    transport: C,
}

impl<C: Transport> BeatSaver<C> {
    /// Creates a client around the given transport.
    pub fn new(transport: C) -> (r: BeatSaver<C>) {
        BeatSaver { transport }
    }

    /// Executes a raw request to the given URL and applies the uniform
    /// rate-limit classification to whatever the transport returned: a
    /// transport failure becomes a request error, a throttled response
    /// becomes a typed rate-limit (or decode) error, and any other
    /// response's body is returned unchanged.
    pub fn request_raw(&self, url: &str) -> (r: Result<Vec<u8>, BeatSaverApiError>)
        ensures
            r is Err ==> !(r->Err_0 is ArgumentError),
    {
        match self.transport.fetch(url) {
            Err(msg) => Err(BeatSaverApiError::RequestError(msg)),
            Ok(resp) => classify_response(resp.status, resp.body),
        }
    }

    /// Executes a request and decodes the body as UTF-8 text; a body that
    /// is not UTF-8 is a typed encoding error, never a default.
    pub fn request(&self, url: &str) -> (r: Result<String, BeatSaverApiError>)
        ensures
            r is Err ==> !(r->Err_0 is ArgumentError),
    {
        match self.request_raw(url) {
            Err(e) => Err(e),
            Ok(body) => match utf8_to_string(body) {
                Some(s) => Ok(s),
                None => Err(BeatSaverApiError::Utf8Error),
            },
        }
    }

    /// Fetches the JSON document of the map with the given identifier.
    /// Numeric keys are addressed in their hexadecimal text form.
    pub fn map(&self, id: &MapId) -> (r: Result<String, BeatSaverApiError>)
        ensures
            r is Err ==> !(r->Err_0 is ArgumentError),
    {
        let url = match id {
            MapId::Key(k) => map_detail_url(*k),
            MapId::Hash(h) => map_hash_url(h.as_str()),
        };
        self.request(url.as_str())
    }

    /// Fetches one page of the maps uploaded by the given user.
    pub fn maps_by_page(&self, user: &BeatSaverUser, page: usize) -> (r: Result<
        String,
        BeatSaverApiError,
    >)
        ensures
            r is Err ==> !(r->Err_0 is ArgumentError),
    {
        let url = maps_uploader_url(user.id.as_str(), page);
        self.request(url.as_str())
    }

    /// Fetches one page of a maps listing in the given sort order.
    pub fn maps_sorted_page(&self, sort: MapSort, page: usize) -> (r: Result<
        String,
        BeatSaverApiError,
    >)
        ensures
            r is Err ==> !(r->Err_0 is ArgumentError),
    {
        let url = maps_sort_url(sort, page);
        self.request(url.as_str())
    }

    /// Fetches one page of the currently hot maps.
    pub fn maps_hot_page(&self, page: usize) -> (r: Result<String, BeatSaverApiError>)
        ensures
            r is Err ==> !(r->Err_0 is ArgumentError),
    {
        self.maps_sorted_page(MapSort::Hot, page)
    }

    /// Fetches one page of maps sorted by rating.
    pub fn maps_rating_page(&self, page: usize) -> (r: Result<String, BeatSaverApiError>)
        ensures
            r is Err ==> !(r->Err_0 is ArgumentError),
    {
        self.maps_sorted_page(MapSort::Rating, page)
    }

    /// Fetches one page of maps sorted by upload time.
    pub fn maps_latest_page(&self, page: usize) -> (r: Result<String, BeatSaverApiError>)
        ensures
            r is Err ==> !(r->Err_0 is ArgumentError),
    {
        self.maps_sorted_page(MapSort::Latest, page)
    }

    /// Fetches one page of maps sorted by total downloads.
    pub fn maps_downloads_page(&self, page: usize) -> (r: Result<String, BeatSaverApiError>)
        ensures
            r is Err ==> !(r->Err_0 is ArgumentError),
    {
        self.maps_sorted_page(MapSort::Downloads, page)
    }

    /// Fetches one page of maps sorted by number of plays.
    pub fn maps_plays_page(&self, page: usize) -> (r: Result<String, BeatSaverApiError>)
        ensures
            r is Err ==> !(r->Err_0 is ArgumentError),
    {
        self.maps_sorted_page(MapSort::Plays, page)
    }

    /// Fetches one page of text-search results; the query is
    /// percent-encoded into the URL.
    pub fn search_page(&self, query: &str, page: usize) -> (r: Result<String, BeatSaverApiError>)
        ensures
            r is Err ==> !(r->Err_0 is ArgumentError),
    {
        let url = search_text_url(query, page);
        self.request(url.as_str())
    }

    /// Fetches one page of advanced-search results; the query is
    /// percent-encoded into the URL.
    pub fn search_advanced_page(&self, query: &str, page: usize) -> (r: Result<
        String,
        BeatSaverApiError,
    >)
        ensures
            r is Err ==> !(r->Err_0 is ArgumentError),
    {
        let url = search_advanced_url(query, page);
        self.request(url.as_str())
    }

    /// Fetches the JSON document of a user record.
    ///
    /// The id is validated locally first: anything but twenty-four
    /// hexadecimal characters is rejected as an argument error before any
    /// request is attempted.
    pub fn user(&self, id: &str) -> (r: Result<String, BeatSaverApiError>)
        ensures
            !(id@.len() == 24 && all_hex(id@)) ==> ({
                &&& r is Err
                &&& r->Err_0 is ArgumentError
                &&& r->Err_0->ArgumentError_0@ == "id"@
            }),
            id@.len() == 24 && all_hex(id@) ==> (r is Err ==> !(r->Err_0 is ArgumentError)),
    {
        if !valid_user_id(id) {
            return Err(BeatSaverApiError::ArgumentError(String::from_str("id")));
        }
        let url = user_find_url(id);
        self.request(url.as_str())
    }

    /// Downloads the map with the given identifier, returning its raw
    /// bytes.  Numeric keys are rendered in the hexadecimal form they were
    /// parsed from.
    pub fn download(&self, id: MapId) -> (r: Result<Vec<u8>, BeatSaverApiError>)
        ensures
            r is Err ==> !(r->Err_0 is ArgumentError),
    {
        let url = download_url(&id);
        self.request_raw(url.as_str())
    }
}

} // verus!
