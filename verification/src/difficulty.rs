//! Difficulty tiers and the inclusive range each one draws its secret from.

use vstd::prelude::*;

verus! {

/// A named tier selecting the inclusive range from which the secret number
/// is drawn. `Unset` is the state before the player has chosen.
#[derive(Clone, Copy, PartialEq, Eq, Structural, Debug)]
pub enum Difficulty {
    Unset,
    Easy,
    Medium,
    Hard,
}

impl Difficulty {
    /// The inclusive range of secret numbers for this tier, as a
    /// (low, high) pair; `None` while no tier has been chosen.
    pub open spec fn range_spec(self) -> Option<(u32, u32)> {
        match self {
            Difficulty::Unset => None,
            Difficulty::Easy => Some((1u32, 100u32)),
            Difficulty::Medium => Some((1u32, 1000u32)),
            Difficulty::Hard => Some((1u32, 10000u32)),
        }
    }

    /// The difficulty table: each chosen tier maps to its inclusive range.
    pub fn range(self) -> (r: Option<(u32, u32)>)
        ensures
            r == self.range_spec(),
    {
        match self {
            Difficulty::Unset => None,
            Difficulty::Easy => Some((1u32, 100u32)),
            Difficulty::Medium => Some((1u32, 1000u32)),
            Difficulty::Hard => Some((1u32, 10000u32)),
        }
    }
}

} // verus!
