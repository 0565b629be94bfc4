//! The registry as contracts speak of it: a map from game identifiers to
//! slots, and what each operation does to that map.

use vstd::prelude::*;

verus! {

/// Why a move cannot begin.
#[derive(Debug, Clone, Copy, PartialEq, Eq)]
pub enum AcquireError {
    /// The previous move of this game has not been handed back yet.
    Busy,
    /// No game of this name is in play.
    NotFound,
}

/// What the registry knows of one game.
pub enum Slot<S> {
    /// Never started, or ended, or expired.
    Absent,
    /// In play and waiting for its next turn, with the state it waits in.
    Idle(S),
    /// In play; its state is out with the computation of a move.
    InFlight,
}

/// A slot without the state it may hold.
#[derive(Debug, Clone, Copy, PartialEq, Eq)]
pub enum Status {
    Absent,
    Idle,
    InFlight,
}

/// The games in play. A game maps to its state while it is idle and to
/// `None` while its state is out; a game that is not in play has no entry.
pub type Slots<S> = Map<Seq<char>, Option<S>>;

/// The slot of game `id`.
pub open spec fn slot_of<S>(slots: Slots<S>, id: Seq<char>) -> Slot<S> {
    if !slots.contains_key(id) {
        Slot::Absent
    } else {
        match slots[id] {
            Some(state) => Slot::Idle(state),
            None => Slot::InFlight,
        }
    }
}

/// The kind of a slot.
pub open spec fn status_of<S>(slot: Slot<S>) -> Status {
    match slot {
        Slot::Absent => Status::Absent,
        Slot::Idle(_) => Status::Idle,
        Slot::InFlight => Status::InFlight,
    }
}

/// Starting game `id` puts it in play and idle, whatever its slot was.
pub open spec fn after_start<S>(slots: Slots<S>, id: Seq<char>, state: S) -> Slots<S> {
    slots.insert(id, Some(state))
}

/// What a request for the state of game `id` is answered with.
pub open spec fn acquire_result<S>(slots: Slots<S>, id: Seq<char>) -> Result<S, AcquireError> {
    match slot_of(slots, id) {
        Slot::Absent => Err(AcquireError::NotFound),
        Slot::InFlight => Err(AcquireError::Busy),
        Slot::Idle(state) => Ok(state),
    }
}

/// A request for the state of game `id` takes the state out of an idle
/// slot and changes nothing else.
pub open spec fn after_acquire<S>(slots: Slots<S>, id: Seq<char>) -> Slots<S> {
    match slot_of(slots, id) {
        Slot::Idle(_) => slots.insert(id, None),
        _ => slots,
    }
}

/// Handing a state back makes the game idle with it if the game is still
/// in play, and changes nothing if it is not.
pub open spec fn after_release<S>(slots: Slots<S>, id: Seq<char>, state: S) -> Slots<S> {
    if slots.contains_key(id) {
        slots.insert(id, Some(state))
    } else {
        slots
    }
}

/// Removing game `id` leaves it without an entry.
pub open spec fn after_remove<S>(slots: Slots<S>, id: Seq<char>) -> Slots<S> {
    slots.remove(id)
}

} // verus!
