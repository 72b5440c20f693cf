//! Difficulty selection.

use vstd::prelude::*;

verus! {

/// The three selectable difficulties.
#[derive(Clone, Copy, PartialEq, Eq, Structural, Debug)]
pub enum Difficulty {
    Easy,
    Medium,
    Hard,
}

/// Number of waves that must be cleared to win.
pub open spec fn max_waves_spec(d: Difficulty) -> u32 {
    match d {
        Difficulty::Easy => 1,
        Difficulty::Medium => 2,
        Difficulty::Hard => 3,
    }
}

/// How many zombies one spawn pulse materializes.
pub open spec fn spawn_count_spec(d: Difficulty) -> u32 {
    match d {
        Difficulty::Easy => 1,
        Difficulty::Medium => 2,
        Difficulty::Hard => 3,
    }
}

impl Difficulty {
    pub fn max_waves(&self) -> (n: u32)
        ensures
            n == max_waves_spec(*self),
    {
        match self {
            Difficulty::Easy => 1,
            Difficulty::Medium => 2,
            Difficulty::Hard => 3,
        }
    }

    pub fn spawn_count(&self) -> (n: u32)
        ensures
            n == spawn_count_spec(*self),
    {
        match self {
            Difficulty::Easy => 1,
            Difficulty::Medium => 2,
            Difficulty::Hard => 3,
        }
    }
}

impl Default for Difficulty {
    /// The difficulty preselected by the menu.
    fn default() -> (d: Difficulty)
        ensures
            d == Difficulty::Medium,
    {
        Difficulty::Medium
    }
}

/// Game options chosen on the menu. The difficulty must be selected before
/// a run can start; the session transition into play enforces that.
#[derive(Clone, Copy, PartialEq, Eq, Structural, Debug)]
pub struct GameSettings {
    pub difficulty: Option<Difficulty>,
}

impl Default for GameSettings {
    fn default() -> (s: GameSettings)
        ensures
            s.difficulty is None,
    {
        GameSettings { difficulty: None }
    }
}

} // verus!
