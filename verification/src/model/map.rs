//! Enumerated map attributes shared by listings and detail records.
use vstd::prelude::*;

verus! {

/// Publication state of a map version.
#[derive(Debug, Clone, Copy, PartialEq, Eq, PartialOrd, Ord, Hash, Structural)]
pub enum MapState {
    /// Uploaded, not yet test-played.
    Upload,
    /// In test play.
    TestPlay,
    /// Published.
    Published,
    /// Awaiting feedback.
    Feedback,
}

/// Play style a beatmap is authored for.
#[derive(Debug, Clone, Copy, PartialEq, Eq, PartialOrd, Ord, Hash, Structural)]
pub enum MapCharacteristic {
    /// Two sabers, directional notes.
    Standard,
    /// One saber.
    OneSaber,
    /// Directionless notes.
    NoArrows,
    /// Play area spanning ninety degrees.
    NinetyDegree,
    /// Play area spanning a full circle.
    ThreeSixtyDegree,
    /// Lighting events only.
    LightShow,
    /// Unconstrained placement.
    Lawless,
}

/// Difficulty tier of a beatmap.
#[derive(Debug, Clone, Copy, PartialEq, Eq, PartialOrd, Ord, Hash, Structural)]
pub enum MapDifficultyLevel {
    /// Easy.
    Easy,
    /// Normal.
    Normal,
    /// Hard.
    Hard,
    /// Expert.
    Expert,
    /// Expert-plus.
    ExpertPlus,
}

/// Parity analysis counters of a beatmap.
#[derive(Debug, Clone, Copy, PartialEq, Eq, PartialOrd, Ord, Hash, Structural)]
pub struct MapParitySummary {
    /// Number of parity errors.
    pub errors: u32,
    /// Number of resets.
    pub resets: u32,
    /// Number of warnings.
    pub warns: u32,
}

} // verus!
