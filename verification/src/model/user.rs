//! Per-user statistics records.
use vstd::prelude::*;

verus! {

/// Number of difficulties a user has created on each tier.
#[derive(Debug, Clone, Copy, PartialEq, Eq, Structural)]
pub struct UserDiffStats {
    /// Total number of difficulties created.
    pub total: u32,
    /// Number of easy difficulties.
    pub easy: u32,
    /// Number of normal difficulties.
    pub normal: u32,
    /// Number of hard difficulties.
    pub hard: u32,
    /// Number of expert difficulties.
    pub expert: u32,
    /// Number of expert-plus difficulties.
    pub expert_plus: u32,
}

impl UserDiffStats {
    /// The documented shape of the record: the total counts the tiers.
    pub open spec fn totals_consistent(&self) -> bool {
        self.total == self.easy + self.normal + self.hard + self.expert + self.expert_plus
    }
}

impl Default for UserDiffStats {
    /// An all-zero record, trivially consistent.
    fn default() -> (r: Self)
        ensures
            r == (UserDiffStats {
                total: 0,
                easy: 0,
                normal: 0,
                hard: 0,
                expert: 0,
                expert_plus: 0,
            }),
            r.totals_consistent(),
    {
        UserDiffStats { total: 0, easy: 0, normal: 0, hard: 0, expert: 0, expert_plus: 0 }
    }
}

} // verus!
