//! The anytime decision runner: pulls candidates from a source until the
//! source runs dry or the time is up, and answers with the last one.

use std::time::Instant;
use vstd::prelude::*;

use crate::api::response::Move;
use crate::snakes::DecisionSource;

verus! {

/// `std::time::Instant`, a reading of the monotonic clock. Nothing is
/// claimed of what it holds.
#[verifier::external_type_specification]
#[verifier::external_body]
pub struct ExInstant(Instant);

/// Nanoseconds in a millisecond.
pub const NANOS_PER_MS: u128 = 1_000_000;

/// `Instant::now`: the present reading of the clock. Nothing is claimed
/// of it.
#[verifier::external_body]
fn clock_now() -> Instant {
    Instant::now()
}

/// `Instant::elapsed`: the time that has gone by since `since`, in whole
/// nanoseconds. Nothing is claimed of it: two readings may differ.
#[verifier::external_body]
fn nanos_since(since: &Instant) -> u128 {
    since.elapsed().as_nanos()
}

/// Whether a budget of `budget_ms` milliseconds is used up once
/// `elapsed_nanos` nanoseconds have gone by. Using it up to the last
/// nanosecond is still within it.
pub open spec fn used_up(elapsed_nanos: u128, budget_ms: u64) -> bool {
    elapsed_nanos > budget_ms * NANOS_PER_MS
}

/// Whether a budget of `budget_ms` milliseconds is used up once
/// `elapsed_nanos` nanoseconds have gone by.
pub fn is_used_up(elapsed_nanos: u128, budget_ms: u64) -> (over: bool)
    ensures
        over == used_up(elapsed_nanos, budget_ms),
{
    let budget: u128 = budget_ms as u128;
    elapsed_nanos > budget * NANOS_PER_MS
}

/// A clock that a run is timed by: each reading is the time gone by
/// since the run was taken up, in nanoseconds.
///
/// Of a clock that is foretold the readings are known before they are
/// taken, and a run by it has one answer. The clock of the machine is not
/// foretold: nothing is known of a reading before it is taken.
pub trait Clock {
    /// Whether the readings of this clock are known before they are taken.
    open spec fn foretold(&self) -> bool {
        false
    }

    /// The reading that is taken after `ahead` further readings. Nothing
    /// is known of it for a clock that does not say what it is.
    open spec fn reading(&self, ahead: nat) -> u128 {
        arbitrary()
    }

    /// Takes a reading.
    fn elapsed_nanos(&mut self) -> (nanos: u128)
        ensures
            final(self).foretold() == old(self).foretold(),
            old(self).foretold() ==> nanos == old(self).reading(0),
            old(self).foretold() ==> forall|ahead: nat| #[trigger]
                final(self).reading(ahead) == old(self).reading(ahead + 1),
    ;
}

/// A clock that gives the readings of a list, one after the other, and
/// the largest of all readings once the list is at its end.
pub struct Readings {
    nanos: Vec<u128>,
    taken: usize,
}

impl Readings {
    /// A clock that gives `nanos`, first to last.
    pub fn new(nanos: Vec<u128>) -> (clock: Readings)
        ensures
            clock.foretold(),
            forall|ahead: nat| #[trigger]
                clock.reading(ahead) == if ahead < nanos@.len() {
                    nanos@[ahead as int]
                } else {
                    u128::MAX
                },
    {
        Readings { nanos, taken: 0 }
    }
}

impl Clock for Readings {
    open spec fn foretold(&self) -> bool {
        true
    }

    closed spec fn reading(&self, ahead: nat) -> u128 {
        if self.taken + ahead < self.nanos@.len() {
            self.nanos@[self.taken + ahead]
        } else {
            u128::MAX
        }
    }

    fn elapsed_nanos(&mut self) -> (nanos: u128) {
        if self.taken < self.nanos.len() {
            let nanos = self.nanos[self.taken];
            self.taken = self.taken + 1;
            nanos
        } else {
            u128::MAX
        }
    }
}

/// The instant by which a move is to be answered: a budget, counted from
/// the moment the request was taken up.
pub struct Deadline {
    started: Instant,
    budget_ms: u64,
}

impl Deadline {
    /// The moment that this deadline counts from.
    pub closed spec fn anchor(&self) -> Instant {
        self.started
    }

    /// The budget that this deadline was set with, in milliseconds.
    pub closed spec fn budget(&self) -> u64 {
        self.budget_ms
    }

    /// A deadline `budget_ms` milliseconds from now.
    pub fn starting_now(budget_ms: u64) -> (deadline: Deadline)
        ensures
            deadline.budget() == budget_ms,
    {
        Deadline { started: clock_now(), budget_ms }
    }

    /// A deadline `budget_ms` milliseconds from `started`.
    pub fn starting_at(started: Instant, budget_ms: u64) -> (deadline: Deadline)
        ensures
            deadline.anchor() == started,
            deadline.budget() == budget_ms,
    {
        Deadline { started, budget_ms }
    }

    /// The budget that this deadline was set with, in milliseconds.
    pub fn budget_ms(&self) -> (budget: u64)
        ensures
            budget == self.budget(),
    {
        self.budget_ms
    }

    /// Whether the clock has passed this deadline. The answer is that of
    /// `is_used_up` for the time gone by at the moment of the call.
    pub fn has_passed(&self) -> bool {
        is_used_up(nanos_since(&self.started), self.budget_ms)
    }
}

/// The clock of the machine, read as the time gone by since the moment
/// that the deadline counts from.
impl Clock for Deadline {
    fn elapsed_nanos(&mut self) -> (nanos: u128) {
        nanos_since(&self.started)
    }
}

/// Whether `source` gives `count` candidates, one after the other, before
/// it runs dry.
pub open spec fn gives<S: DecisionSource>(source: S, count: nat) -> bool {
    forall|ahead: nat| ahead < count ==> #[trigger] source.candidate(ahead) is Some
}

/// The candidate held after `pulled` pulls: the latest one, or none before
/// the first pull.
pub open spec fn latest<S: DecisionSource>(source: S, pulled: nat) -> Option<Move> {
    if pulled == 0 {
        None
    } else {
        source.candidate((pulled - 1) as nat)
    }
}

/// Whether `best` is the answer of a run that has pulled `pulled`
/// candidates from `source`: the latest of them, and the fallback move
/// where none was pulled.
pub open spec fn answers<S: DecisionSource>(source: S, pulled: nat, best: Move) -> bool {
    if pulled == 0 {
        best@ == Move::fallback()
    } else {
        latest(source, pulled) == Some(best)
    }
}

/// Whether `best` is an answer that a run with time left may give for
/// `source`: the fallback move where the source has no candidate at all,
/// and else the latest of the candidates pulled, of which there is one at
/// least and none from behind the point where the source runs dry.
pub open spec fn is_answer<S: DecisionSource>(source: S, best: Move) -> bool {
    if source.candidate(0) is None {
        best@ == Move::fallback()
    } else {
        exists|pulled: nat|
            0 < pulled && #[trigger] gives(source, pulled) && latest(source, pulled) == Some(best)
    }
}

/// The readings of a run whose first reading is `first` and whose later
/// ones are those of `clock`.
pub open spec fn readings_from<C: Clock>(first: u128, clock: C) -> spec_fn(nat) -> u128 {
    |at: nat|
        if at == 0 {
            first
        } else {
            clock.reading((at - 1) as nat)
        }
}

/// The readings of a run that takes all of them from `clock`.
pub open spec fn readings_of<C: Clock>(clock: C) -> spec_fn(nat) -> u128 {
    |at: nat| clock.reading(at)
}

/// Whether every one of the first `count` readings leaves time.
pub open spec fn in_time(readings: spec_fn(nat) -> u128, budget_ms: u64, count: nat) -> bool {
    forall|at: nat| at < count ==> !used_up(#[trigger] readings(at), budget_ms)
}

/// Whether a run for `source` stops when it has pulled `pulled`
/// candidates. A reading is taken before every pull. The run goes on
/// while the reading leaves time and the pull gives a candidate, and it
/// stops at the first reading that leaves none, at the first pull that
/// gives none, and after `u64::MAX` pulls in any case.
pub open spec fn stops_after<S: DecisionSource>(
    source: S,
    readings: spec_fn(nat) -> u128,
    budget_ms: u64,
    pulled: nat,
) -> bool {
    &&& pulled <= u64::MAX
    &&& gives(source, pulled)
    &&& in_time(readings, budget_ms, pulled)
    &&& (pulled == u64::MAX || used_up(readings(pulled), budget_ms) || source.candidate(pulled)
        is None)
}

/// Whether `best` is the answer of the run for `source` by `readings`.
pub open spec fn is_answer_by<S: DecisionSource>(
    source: S,
    readings: spec_fn(nat) -> u128,
    budget_ms: u64,
    best: Move,
) -> bool {
    exists|pulled: nat| #[trigger]
        stops_after(source, readings, budget_ms, pulled) && answers(source, pulled, best)
}

/// The run from its first reading on: `first_nanos` was read before any
/// candidate was pulled, and the later readings are taken from `clock`,
/// one after each candidate. Once a reading finds the budget used up no
/// candidate is pulled any more; so a first reading that finds it used up
/// leaves the fallback move as the answer. By a clock that is foretold the
/// answer is the one that `is_answer_by` fixes.
pub fn run_from<S: DecisionSource, C: Clock>(
    source: S,
    clock: &mut C,
    budget_ms: u64,
    first_nanos: u128,
) -> (best: Move)
    ensures
        used_up(first_nanos, budget_ms) ==> best@ == Move::fallback(),
        !used_up(first_nanos, budget_ms) ==> is_answer(source, best),
        old(clock).foretold() ==> is_answer_by(
            source,
            readings_from(first_nanos, *old(clock)),
            budget_ms,
            best,
        ),
        final(clock).foretold() == old(clock).foretold(),
{
    let ghost readings = readings_from(first_nanos, *old(clock));
    let mut pending = source;
    let mut best: Option<Move> = None;
    let mut pulled: u64 = 0;
    let mut dry = false;
    let mut nanos = first_nanos;
    while pulled < u64::MAX && !dry && !is_used_up(nanos, budget_ms)
        invariant
            readings == readings_from(first_nanos, *old(clock)),
            clock.foretold() == old(clock).foretold(),
            !dry ==> forall|ahead: nat| #[trigger]
                pending.candidate(ahead) == source.candidate((ahead + pulled) as nat),
            dry ==> source.candidate(pulled as nat) is None,
            gives(source, pulled as nat),
            best == latest(source, pulled as nat),
            pulled == 0 ==> nanos == first_nanos,
            pulled > 0 ==> !used_up(first_nanos, budget_ms),
            clock.foretold() ==> {
                &&& nanos == readings(pulled as nat)
                &&& in_time(readings, budget_ms, pulled as nat)
                &&& forall|ahead: nat| #[trigger]
                    clock.reading(ahead) == old(clock).reading((ahead + pulled) as nat)
            },
        decreases u64::MAX - pulled, if dry { 0int } else { 1int },
    {
        match pending.next_move() {
            None => {
                dry = true;
            },
            Some(candidate) => {
                best = Some(candidate);
                pulled = pulled + 1;
                nanos = clock.elapsed_nanos();
            },
        }
    }
    proof {
        if old(clock).foretold() {
            assert(stops_after(source, readings, budget_ms, pulled as nat));
        }
    }
    match best {
        Some(candidate) => candidate,
        None => Move::default(),
    }
}

/// The run by any clock: takes a reading, and goes on from it as
/// `run_from` does.
pub fn run_with<S: DecisionSource, C: Clock>(source: S, clock: &mut C, budget_ms: u64) -> (best:
    Move)
    ensures
        best@ == Move::fallback() || is_answer(source, best),
        old(clock).foretold() ==> is_answer_by(source, readings_of(*old(clock)), budget_ms, best),
        final(clock).foretold() == old(clock).foretold(),
{
    let first_nanos = clock.elapsed_nanos();
    let ghost later = *clock;
    let best = run_from(source, clock, budget_ms, first_nanos);
    proof {
        if old(clock).foretold() {
            let from = readings_from(first_nanos, later);
            let of = readings_of(*old(clock));
            let pulled = choose|pulled: nat| #[trigger]
                stops_after(source, from, budget_ms, pulled) && answers(source, pulled, best);
            assert forall|at: nat| #[trigger] from(at) == of(at) by {
                if at > 0 {
                    assert(later.reading((at - 1) as nat) == old(clock).reading((at - 1) as nat + 1));
                }
            }
            assert(in_time(of, budget_ms, pulled)) by {
                assert forall|at: nat| at < pulled implies !used_up(#[trigger] of(at), budget_ms) by {
                    assert(from(at) == of(at));
                }
            }
            assert(stops_after(source, of, budget_ms, pulled));
        }
    }
    best
}

/// Pulls candidates from `source` until the source runs dry or `deadline`
/// has passed, and answers with the last one pulled. The clock is read
/// before the first candidate and after each one, never while one is
/// worked out, so the answer comes later than the deadline by one pull at
/// most. Where the deadline has passed before the first pull, or the
/// source has no candidate at all, the answer is the fallback move.
pub fn run<S: DecisionSource>(source: S, deadline: &Deadline) -> (best: Move)
    ensures
        best@ == Move::fallback() || is_answer(source, best),
{
    let mut clock = Deadline { started: deadline.started, budget_ms: deadline.budget_ms };
    run_with(source, &mut clock, deadline.budget_ms)
}

/// A run stops at one point only: by given readings it has one answer.
pub proof fn lemma_stop_is_unique<S: DecisionSource>(
    source: S,
    readings: spec_fn(nat) -> u128,
    budget_ms: u64,
    one: nat,
    other: nat,
)
    requires
        stops_after(source, readings, budget_ms, one),
        stops_after(source, readings, budget_ms, other),
    ensures
        one == other,
{
    if one < other {
        assert(source.candidate(one) is Some);
        assert(!used_up(readings(one), budget_ms));
    }
    if other < one {
        assert(source.candidate(other) is Some);
        assert(!used_up(readings(other), budget_ms));
    }
}

/// Deadline bound. No candidate is pulled after a reading that has found
/// the budget used up: the answer is the latest of the candidates before
/// that reading, so it comes later than the deadline by the one pull at
/// most that was under way when the deadline passed.
pub proof fn lemma_no_pull_after_deadline<S: DecisionSource>(
    source: S,
    readings: spec_fn(nat) -> u128,
    budget_ms: u64,
    late: nat,
    pulled: nat,
)
    requires
        used_up(readings(late), budget_ms),
        stops_after(source, readings, budget_ms, pulled),
    ensures
        pulled <= late,
{
    if late < pulled {
        assert(!used_up(readings(late), budget_ms));
    }
}

/// A deadline that has passed before the first pull leaves the fallback
/// move as the answer, whatever the source has to give.
pub proof fn lemma_passed_deadline_gives_fallback<S: DecisionSource>(
    source: S,
    readings: spec_fn(nat) -> u128,
    budget_ms: u64,
    best: Move,
)
    requires
        used_up(readings(0), budget_ms),
        is_answer_by(source, readings, budget_ms, best),
    ensures
        best@ == Move::fallback(),
{
    let pulled = choose|pulled: nat| #[trigger]
        stops_after(source, readings, budget_ms, pulled) && answers(source, pulled, best);
    lemma_no_pull_after_deadline(source, readings, budget_ms, 0, pulled);
}

/// Latest, not first. For a source that runs dry after `count` candidates
/// while every reading leaves time, the answer is the last of them.
pub proof fn lemma_source_dry_in_time_gives_its_last<S: DecisionSource>(
    source: S,
    readings: spec_fn(nat) -> u128,
    budget_ms: u64,
    count: nat,
    best: Move,
)
    requires
        count <= u64::MAX,
        gives(source, count),
        source.candidate(count) is None,
        in_time(readings, budget_ms, count),
        is_answer_by(source, readings, budget_ms, best),
    ensures
        answers(source, count, best),
{
    let pulled = choose|pulled: nat| #[trigger]
        stops_after(source, readings, budget_ms, pulled) && answers(source, pulled, best);
    assert(stops_after(source, readings, budget_ms, count));
    lemma_stop_is_unique(source, readings, budget_ms, pulled, count);
}

/// Fallback. For a source without any candidate the answer is the
/// fallback move, whenever the deadline falls.
pub proof fn lemma_dry_source_gives_fallback<S: DecisionSource>(source: S, best: Move)
    requires
        source.candidate(0) is None,
        best@ == Move::fallback() || is_answer(source, best),
    ensures
        best@ == Move::fallback(),
{
}

/// For a source with a candidate an answer that is not the fallback is one
/// of its candidates, with nothing but candidates before it.
pub proof fn lemma_answer_is_a_candidate<S: DecisionSource>(source: S, best: Move)
    requires
        source.candidate(0) is Some,
        is_answer(source, best),
    ensures
        exists|ahead: nat| #[trigger] source.candidate(ahead) == Some(best) && gives(source, ahead + 1),
{
    let pulled = choose|pulled: nat|
        0 < pulled && #[trigger] gives(source, pulled) && latest(source, pulled) == Some(best);
    assert(source.candidate((pulled - 1) as nat) == Some(best));
    assert(gives(source, (pulled - 1) as nat + 1));
}

/// For a source that runs dry after its first candidate the answer with
/// time left is that candidate.
pub proof fn lemma_only_candidate_is_the_answer<S: DecisionSource>(source: S, best: Move)
    requires
        source.candidate(0) is Some,
        source.candidate(1) is None,
        is_answer(source, best),
    ensures
        source.candidate(0) == Some(best),
{
    let pulled = choose|pulled: nat|
        0 < pulled && #[trigger] gives(source, pulled) && latest(source, pulled) == Some(best);
    if pulled > 1 {
        assert(source.candidate(1) is Some);
    }
}

/// The clock is asked one question only: a budget that is used up at
/// some reading is used up at every later one, and a larger budget lasts
/// as long as a smaller one at least.
pub proof fn lemma_used_up_is_monotone(earlier: u128, later: u128, smaller: u64, larger: u64)
    requires
        earlier <= later,
        smaller <= larger,
    ensures
        used_up(earlier, smaller) ==> used_up(later, smaller),
        used_up(earlier, larger) ==> used_up(earlier, smaller),
        !used_up(0, smaller),
{
    assert(smaller * NANOS_PER_MS <= larger * NANOS_PER_MS) by (nonlinear_arith)
        requires
            smaller <= larger,
    ;
}

} // verus!
