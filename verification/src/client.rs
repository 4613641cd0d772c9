//! Handles for the bundled client backends.
//!
//! The transport half of a backend performs network requests and therefore
//! lives with the unverified runtime layer around the library, which wraps
//! these handles in its [`Transport`](crate::api::Transport)
//! implementations.
use vstd::prelude::*;

verus! {

/// Handle for the `ureq`-backed blocking client.
#[derive(Debug, Clone, Copy, PartialEq, Eq, Structural)]
pub struct BeatSaverUreq {}

impl BeatSaverUreq {
    /// Creates a new handle.
    pub fn new() -> (r: BeatSaverUreq) {
        BeatSaverUreq {}
    }
}

} // verus!
