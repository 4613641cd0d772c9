//! Domain records for maps and their uploaders: plain immutable values
//! populated from decoded response documents.
//!
//! Fractional score fields of the wire format (heat, rating, per-difficulty
//! duration) live with the unverified decoding layer; the records here hold
//! the fields the library's logic and callers read as plain values, with
//! upload times kept in their RFC 3339 text form.
use vstd::prelude::*;

use crate::map_id::MapId;

verus! {

/// Holds data for a user.
#[derive(Debug, Clone)]
pub struct BeatSaverUser {
    /// User ID: a twenty-four character hexadecimal string.
    pub id: String,
    /// User name.
    pub username: String,
}

impl PartialEq for BeatSaverUser {
    /// Users are compared by identity, not by display fields.
    fn eq(&self, other: &Self) -> (r: bool) {
        self.id == other.id
    }
}

impl vstd::std_specs::cmp::PartialEqSpecImpl for BeatSaverUser {
    open spec fn obeys_eq_spec() -> bool {
        true
    }

    open spec fn eq_spec(&self, other: &Self) -> bool {
        self.id@ == other.id@
    }
}

/// Which difficulties a map provides.
#[derive(Debug, Clone, Copy, PartialEq, Eq, Structural)]
pub struct MapDifficulties {
    /// An easy difficulty exists.
    pub easy: bool,
    /// A normal difficulty exists.
    pub normal: bool,
    /// A hard difficulty exists.
    pub hard: bool,
    /// An expert difficulty exists.
    pub expert: bool,
    /// An expert-plus difficulty exists.
    pub expert_plus: bool,
}

/// Per-difficulty beatmap measurements.
#[derive(Debug, Clone, Copy, PartialEq, Eq, Structural)]
pub struct MapDifficltyCharacteristic {
    /// Length of the difficulty, in seconds.
    pub length: usize,
    /// Note jump speed.
    pub njs: usize,
    /// Note jump speed offset.
    pub njs_offset: i64,
    /// Number of bombs.
    pub bombs: usize,
    /// Number of notes.
    pub notes: usize,
    /// Number of obstacles.
    pub obstacles: usize,
}

/// The measurements of each difficulty, where present.
#[derive(Debug, Clone, Copy, PartialEq, Eq, Structural)]
pub struct MapDifficultyCharacteristics {
    /// Easy difficulty, if mapped.
    pub easy: Option<MapDifficltyCharacteristic>,
    /// Normal difficulty, if mapped.
    pub normal: Option<MapDifficltyCharacteristic>,
    /// Hard difficulty, if mapped.
    pub hard: Option<MapDifficltyCharacteristic>,
    /// Expert difficulty, if mapped.
    pub expert: Option<MapDifficltyCharacteristic>,
    /// Expert-plus difficulty, if mapped.
    pub expert_plus: Option<MapDifficltyCharacteristic>,
}

/// One named characteristic of a map and its difficulties.
#[derive(Debug, Clone, PartialEq)]
pub struct MapCharacteristics {
    /// The difficulties of this characteristic.
    pub difficulties: MapDifficultyCharacteristics,
    /// Name of the characteristic (e.g. `Standard`).
    pub name: String,
}

/// Song and author metadata of a map.
#[derive(Debug, Clone, PartialEq)]
pub struct MapMetadata {
    /// Which difficulties exist.
    pub difficulties: MapDifficulties,
    /// Duration of the song, in seconds.
    pub duration: usize,
    /// Automapper name, when the map was generated.
    pub automapper: Option<String>,
    /// The map's characteristics.
    pub characteristics: Vec<MapCharacteristics>,
    /// Name of the level author.
    pub level_author: String,
    /// Name of the song author.
    pub song_author: String,
    /// Name of the song.
    pub song_name: String,
    /// Subtitle of the song.
    pub song_sub_name: String,
    /// Beats per minute.
    pub bpm: usize,
}

/// Vote and play counters of a map.
#[derive(Debug, Clone, Copy, PartialEq, Eq, Structural)]
pub struct MapStats {
    /// Number of downloads.
    pub downloads: usize,
    /// Number of plays.
    pub plays: usize,
    /// Number of downvotes.
    pub downvotes: usize,
    /// Number of upvotes.
    pub upvotes: usize,
}

/// A map record.
#[derive(Debug, Clone, PartialEq)]
pub struct BeatSaverMap {
    /// Song and author metadata.
    pub metadata: MapMetadata,
    /// Vote and play counters.
    pub stats: MapStats,
    /// Free-form description.
    pub description: String,
    /// Record identifier.
    pub id: String,
    /// Numeric key in hexadecimal text form (e.g. `2144`).
    pub key: String,
    /// Display name.
    pub name: String,
    /// The uploading user.
    pub uploader: BeatSaverUser,
    /// Content hash: forty hexadecimal characters.
    pub hash: String,
    /// Upload time, as RFC 3339 text.
    pub uploaded: String,
    /// Direct download path.
    pub direct_download: String,
    /// Download API path.
    pub download: String,
    /// Cover image path.
    pub cover: String,
}

impl BeatSaverMap {
    /// The identifier of this map: its content hash.
    pub fn map_id(&self) -> (r: MapId)
        ensures
            r is Hash,
            r->Hash_0@ == self.hash@,
    {
        MapId::Hash(self.hash.clone())
    }
}

} // verus!
