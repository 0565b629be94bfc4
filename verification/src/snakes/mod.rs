//! The strategies that play, and the candidates they come up with.

pub mod down_snake;

pub use self::down_snake::DownSnake;

use vstd::prelude::*;

use crate::api::request::Turn;
use crate::api::response::{Move, MoveView};
use crate::text::same_text;

verus! {

/// A source of candidate moves for one turn, each better than the one
/// before it. It may never run dry, it cannot be started over, and it may
/// be left at any candidate: the last one taken is the answer then.
///
/// Coming up with the next candidate should take a few milliseconds at
/// most: whoever pulls looks at the clock between two candidates only.
pub trait DecisionSource {
    /// The candidate that the pull after `ahead` further pulls gives, or
    /// `None` where the source has run dry by then. Nothing is known of
    /// the candidates of a source that does not say what they are.
    open spec fn candidate(&self, ahead: nat) -> Option<Move> {
        arbitrary()
    }

    /// The next candidate, or `None` where there is no better one.
    fn next_move(&mut self) -> (next: Option<Move>)
        ensures
            next == old(self).candidate(0),
            next is Some ==> forall|ahead: nat| #[trigger]
                final(self).candidate(ahead) == old(self).candidate(ahead + 1),
    ;
}

/// The candidates of a turn, as a snake hands them out.
pub enum Candidates {
    /// One candidate, or none where it has been taken.
    Once(Option<Move>),
    /// Candidates that are worked out as they are asked for.
    Lazy(Box<dyn DecisionSource>),
}

impl DecisionSource for Candidates {
    open spec fn candidate(&self, ahead: nat) -> Option<Move> {
        match self {
            Candidates::Once(only) => if ahead == 0 {
                *only
            } else {
                None
            },
            Candidates::Lazy(source) => source.candidate(ahead),
        }
    }

    fn next_move(&mut self) -> (next: Option<Move>) {
        match self {
            Candidates::Once(only) => only.take(),
            Candidates::Lazy(source) => source.next_move(),
        }
    }
}

/// A candidate as contracts speak of it: by the view of the move.
pub open spec fn shown(candidate: Option<Move>) -> Option<MoveView> {
    match candidate {
        Some(found) => Some(found@),
        None => None,
    }
}

/// All snakes implement this trait.
pub trait Snake: Send {
    /// The candidate that this snake comes up with for `turn` after `ahead`
    /// earlier ones, or `None` where it knows no better one by then.
    /// Nothing is known of the plan of a snake that does not say what it is.
    open spec fn plan(&self, turn: Turn, ahead: nat) -> Option<MoveView> {
        arbitrary()
    }

    /// Called when a move is to be made. The candidates that come back
    /// give the snake the chance to go on improving its move until the
    /// server finds that the time is up and answers with the last one it
    /// got.
    fn iter_moves(&mut self, turn: Turn) -> (moves: Candidates)
        ensures
            forall|ahead: nat| #[trigger] shown(moves.candidate(ahead)) == old(self).plan(turn, ahead),
    ;
}

/// If you add more snakes, give them a name and construct their initial
/// states here. The server looks for paths beginning with this name (such
/// as `/down/start`) and constructs the snake of that name.
pub fn build_snake_by_name(name: &str) -> (snake: Option<Box<dyn Snake>>)
    ensures
        snake is Some <==> name@ == "down"@,
        snake matches Some(built) ==> forall|turn: Turn, ahead: nat| #[trigger]
            built.plan(turn, ahead) == DownSnake::one_scream(ahead),
{
    if same_text(name, "down") {
        Some(Box::new(DownSnake))
    } else {
        None
    }
}

} // verus!
