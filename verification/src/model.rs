//! Plain value records describing maps and users.
pub mod map;
pub mod user;
