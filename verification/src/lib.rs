//! Client-side logic for the BeatSaver map-hosting web API: typed response
//! models, identifier parsing and validation, request-path construction,
//! rate-limit classification, and a pagination adapter that turns page-by-page
//! fetches into one continuous item sequence.
pub mod api;
pub mod client;
pub mod error;
pub mod map;
pub mod map_id;
pub mod model;
pub mod page;
pub mod pagination;
pub mod radix;
pub mod rate_limit;
pub mod urls;

