use vstd::prelude::*;
use vstd::string::StringExecFns;

use super::{Candidates, Snake};
use crate::api::request::Turn;
use crate::api::response::{Move, MoveView, Movement};

verus! {

/// A stupid snake that just goes down, screaming all the way to the wall.
#[derive(Clone)]
pub struct DownSnake;

impl DownSnake {
    /// The one move this snake knows.
    pub open spec fn scream() -> MoveView {
        MoveView { movement: Movement::Down, shout: Some("Aaaahhhhh!"@) }
    }
}

impl DownSnake {
    /// All that this snake comes up with: its scream, and nothing after it.
    pub open spec fn one_scream(ahead: nat) -> Option<MoveView> {
        if ahead == 0 {
            Some(DownSnake::scream())
        } else {
            None
        }
    }
}

impl Snake for DownSnake {
    open spec fn plan(&self, turn: Turn, ahead: nat) -> Option<MoveView> {
        DownSnake::one_scream(ahead)
    }

    fn iter_moves(&mut self, _turn: Turn) -> (moves: Candidates)
        ensures
            moves matches Candidates::Once(Some(only)) && only@ == DownSnake::scream(),
    {
        Candidates::Once(
            Some(Move { movement: Movement::Down, shout: Some(String::from_str("Aaaahhhhh!")) }),
        )
    }
}

} // verus!
