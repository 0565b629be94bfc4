//! What the game host sends with every callback.

use vstd::prelude::*;

verus! {

/// The game a callback belongs to.
#[derive(Debug, Clone, PartialEq, Eq)]
pub struct Game {
    /// Identifier of the game; unique among the games in play.
    pub id: String,
    /// Time the host allows for answering one turn, in milliseconds.
    pub timeout: u64,
}

/// The snake this server steers.
#[derive(Debug, Clone, PartialEq, Eq)]
pub struct Battlesnake {
    /// Round-trip time of the previous answer as the host measured it: a
    /// decimal number of milliseconds, or anything else where it has none.
    pub latency: String,
}

/// One callback of the game host.
#[derive(Debug, Clone, PartialEq, Eq)]
pub struct Turn {
    pub game: Game,
    pub you: Battlesnake,
}

} // verus!
