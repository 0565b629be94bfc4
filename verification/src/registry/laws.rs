//! What holds of the registry whatever was done to it before, stated of
//! the map that its operations are specified by.

use vstd::prelude::*;

use super::model::{
    acquire_result, after_acquire, after_release, after_remove, after_start, slot_of, AcquireError,
    Slot, Slots,
};

verus! {

/// The slots after `times` removals of game `id` in a row.
pub open spec fn after_removals<S>(slots: Slots<S>, id: Seq<char>, times: nat) -> Slots<S>
    decreases times,
{
    if times == 0 {
        slots
    } else {
        after_remove(after_removals(slots, id, (times - 1) as nat), id)
    }
}

/// Mutual exclusion. Of two requests for the state of one game that
/// nothing separates, the second is never granted; where the first was
/// granted the state of an idle game, the second is told that the game is
/// busy, so exactly one of them holds the state.
pub proof fn lemma_acquire_is_exclusive<S>(slots: Slots<S>, id: Seq<char>)
    ensures
        acquire_result(after_acquire(slots, id), id) is Err,
        slot_of(slots, id) matches Slot::Idle(state) ==> {
            &&& acquire_result(slots, id) == Ok::<S, AcquireError>(state)
            &&& slot_of(after_acquire(slots, id), id) is InFlight
            &&& acquire_result(after_acquire(slots, id), id) == Err::<S, AcquireError>(
                AcquireError::Busy,
            )
        },
{
}

/// A request that is refused changes nothing, so it can be made again at
/// any time without harm to the move that is under way.
pub proof fn lemma_refused_acquire_changes_nothing<S>(slots: Slots<S>, id: Seq<char>)
    requires
        acquire_result(slots, id) is Err,
    ensures
        after_acquire(slots, id) == slots,
{
}

/// Independence. Whatever is done to one game leaves the slot of every
/// other game as it was, and with it the answer to a request for that
/// other game's state.
pub proof fn lemma_other_games_are_untouched<S>(
    slots: Slots<S>,
    id: Seq<char>,
    other: Seq<char>,
    state: S,
)
    requires
        id != other,
    ensures
        slot_of(after_start(slots, id, state), other) == slot_of(slots, other),
        slot_of(after_acquire(slots, id), other) == slot_of(slots, other),
        slot_of(after_release(slots, id, state), other) == slot_of(slots, other),
        slot_of(after_remove(slots, id), other) == slot_of(slots, other),
        acquire_result(after_start(slots, id, state), other) == acquire_result(slots, other),
        acquire_result(after_acquire(slots, id), other) == acquire_result(slots, other),
        acquire_result(after_release(slots, id, state), other) == acquire_result(slots, other),
        acquire_result(after_remove(slots, id), other) == acquire_result(slots, other),
{
}

/// Independence. The moves of two games may interleave in any order: each
/// request is answered as if the other game were not there, and the slots
/// end up the same.
pub proof fn lemma_moves_of_distinct_games_commute<S>(
    slots: Slots<S>,
    a: Seq<char>,
    b: Seq<char>,
    state_a: S,
    state_b: S,
)
    requires
        a != b,
    ensures
        acquire_result(after_acquire(slots, a), b) == acquire_result(slots, b),
        acquire_result(after_acquire(slots, b), a) == acquire_result(slots, a),
        after_acquire(after_acquire(slots, a), b) == after_acquire(after_acquire(slots, b), a),
        after_release(after_acquire(slots, a), b, state_b) == after_acquire(
            after_release(slots, b, state_b),
            a,
        ),
        after_release(after_release(slots, a, state_a), b, state_b) == after_release(
            after_release(slots, b, state_b),
            a,
            state_a,
        ),
{
    assert(after_acquire(after_acquire(slots, a), b) =~= after_acquire(after_acquire(slots, b), a));
    assert(after_release(after_acquire(slots, a), b, state_b) =~= after_acquire(
        after_release(slots, b, state_b),
        a,
    ));
    assert(after_release(after_release(slots, a, state_a), b, state_b) =~= after_release(
        after_release(slots, b, state_b),
        a,
        state_a,
    ));
}

/// A move that runs to its end leaves the game idle with the state that
/// was handed back, and every later move finds that state.
pub proof fn lemma_release_makes_idle_again<S>(slots: Slots<S>, id: Seq<char>, state: S)
    requires
        acquire_result(slots, id) is Ok,
    ensures
        slot_of(after_release(after_acquire(slots, id), id, state), id) == Slot::Idle(state),
        acquire_result(after_release(after_acquire(slots, id), id, state), id) == Ok::<
            S,
            AcquireError,
        >(state),
{
}

/// Idempotent removal. Removing a game leaves it absent, whatever its
/// slot was, and removing it once more changes nothing.
pub proof fn lemma_remove_is_idempotent<S>(slots: Slots<S>, id: Seq<char>)
    ensures
        slot_of(after_remove(slots, id), id) is Absent,
        after_remove(after_remove(slots, id), id) == after_remove(slots, id),
        slot_of(slots, id) is Absent ==> after_remove(slots, id) == slots,
{
    assert(after_remove(after_remove(slots, id), id) =~= after_remove(slots, id));
    if slot_of(slots, id) is Absent {
        assert(after_remove(slots, id) =~= slots);
    }
}

/// Idempotent removal. Any number of removals of a game, one at least,
/// comes to the same as one.
pub proof fn lemma_removals_come_to_one<S>(slots: Slots<S>, id: Seq<char>, times: nat)
    requires
        times >= 1,
    ensures
        after_removals(slots, id, times) == after_remove(slots, id),
        slot_of(after_removals(slots, id, times), id) is Absent,
    decreases times,
{
    if times > 1 {
        lemma_removals_come_to_one(slots, id, (times - 1) as nat);
        lemma_remove_is_idempotent(slots, id);
    } else {
        assert(after_removals(slots, id, 0) == slots);
    }
}

/// Release after removal is safe. A state handed back for a game that was
/// removed while the move was under way is dropped: the game stays absent
/// and a later move for it finds nothing.
pub proof fn lemma_release_after_remove_is_dropped<S>(slots: Slots<S>, id: Seq<char>, state: S)
    ensures
        after_release(after_remove(slots, id), id, state) == after_remove(slots, id),
        slot_of(after_release(after_remove(slots, id), id, state), id) is Absent,
        acquire_result(after_release(after_remove(slots, id), id, state), id) == Err::<
            S,
            AcquireError,
        >(AcquireError::NotFound),
        after_release(after_remove(after_acquire(slots, id), id), id, state) == after_remove(
            slots,
            id,
        ),
{
    assert(after_remove(after_acquire(slots, id), id) =~= after_remove(slots, id));
}

/// Only a start puts a game in play: an absent game is still absent after
/// any request, release or removal, of this game or of another.
pub proof fn lemma_only_start_puts_in_play<S>(
    slots: Slots<S>,
    id: Seq<char>,
    touched: Seq<char>,
    state: S,
)
    requires
        slot_of(slots, id) is Absent,
    ensures
        slot_of(after_acquire(slots, touched), id) is Absent,
        slot_of(after_release(slots, touched, state), id) is Absent,
        slot_of(after_remove(slots, touched), id) is Absent,
        slot_of(after_start(slots, id, state), id) == Slot::Idle(state),
{
}

} // verus!
