//! The session registry: which games are in play, and the state of each.
//!
//! A move takes the state of its game out of the registry and hands it
//! back when it is done, so that no lock is held while the move is
//! computed and a second move for the same game is told apart from a move
//! for a game that is not in play.

pub mod laws;
pub mod model;

use vstd::hash_map::StringHashMap;
use vstd::prelude::*;

use self::model::{
    acquire_result, after_acquire, after_release, after_remove, after_start, slot_of, status_of,
    AcquireError, Slots, Status,
};

verus! {

/// Seconds after its start at which a game is removed, ended or not.
pub const EXPIRY_SECS: u64 = 180;

/// A removal to carry out later: of game `id`, `after_secs` seconds from
/// the start that returned it.
#[derive(Debug, Clone, PartialEq, Eq)]
pub struct Expiry {
    pub id: String,
    pub after_secs: u64,
}

/// One place for a game's state.
enum Cell<S> {
    /// Belongs to no game.
    Vacant,
    /// Holds the state of an idle game.
    Idle(S),
    /// Belongs to a game whose state is out.
    InFlight,
}

/// The cells of a registry and the index into them.
struct Table<S> {
    /// The cell of every game in play.
    index: StringHashMap<usize>,
    cells: Vec<Cell<S>>,
    /// Vacant cells, to be used again before `cells` grows.
    spare: Vec<usize>,
}

impl<S> Table<S> {
    /// The state in a cell, if it holds one.
    spec fn held(cell: Cell<S>) -> Option<S> {
        match cell {
            Cell::Idle(state) => Some(state),
            _ => None,
        }
    }

    /// The games in play, each with its state where it is idle.
    spec fn slots(&self) -> Slots<S> {
        Map::new(
            |id: Seq<char>| self.index@.dom().contains(id),
            |id: Seq<char>| Self::held(self.cells@[self.index@[id] as int]),
        )
    }

    /// Every game in play has a cell of its own, none of them vacant, and
    /// `spare` lists the vacant cells, all of them and none twice, so that
    /// there are never more cells than there have been games at one time.
    spec fn wf(&self) -> bool {
        &&& forall|i: int|
            0 <= i < self.cells@.len() && (#[trigger] self.cells@[i]) is Vacant ==> exists|j: int|
                0 <= j < self.spare@.len() && #[trigger] self.spare@[j] == i
        &&& forall|id: Seq<char>| #[trigger]
            self.index@.dom().contains(id) ==> self.index@[id] < self.cells@.len()
                && !(self.cells@[self.index@[id] as int] is Vacant)
        &&& forall|a: Seq<char>, b: Seq<char>|
            self.index@.dom().contains(a) && self.index@.dom().contains(b) && #[trigger]
            self.index@[a] == #[trigger] self.index@[b] ==> a == b
        &&& forall|j: int|
            0 <= j < self.spare@.len() ==> (#[trigger] self.spare@[j]) < self.cells@.len()
                && self.cells@[self.spare@[j] as int] is Vacant
        &&& forall|j: int, k: int|
            0 <= j < k < self.spare@.len() ==> #[trigger] self.spare@[j] != #[trigger] self.spare@[k]
    }

    fn new() -> (table: Self)
        ensures
            table.wf(),
            table.slots() == Map::<Seq<char>, Option<S>>::empty(),
    {
        let table = Table { index: StringHashMap::new(), cells: Vec::new(), spare: Vec::new() };
        assert(table.slots() =~= Map::<Seq<char>, Option<S>>::empty());
        table
    }

    /// The cell of game `id`, if it is in play.
    fn cell_of(&self, id: &str) -> (cell: Option<usize>)
        ensures
            match cell {
                Some(i) => self.index@.dom().contains(id@) && self.index@[id@] == i,
                None => !self.index@.dom().contains(id@),
            },
    {
        match self.index.get(id) {
            Some(i) => Some(*i),
            None => None,
        }
    }

    fn start(&mut self, id: String, state: S)
        requires
            old(self).wf(),
        ensures
            final(self).wf(),
            final(self).slots() == after_start(old(self).slots(), id@, state),
    {
        match self.cell_of(id.as_str()) {
            Some(i) => {
                self.cells.set(i, Cell::Idle(state));
            },
            None => {
                let i = match self.spare.pop() {
                    Some(i) => {
                        self.cells.set(i, Cell::Idle(state));
                        i
                    },
                    None => {
                        self.cells.push(Cell::Idle(state));
                        self.cells.len() - 1
                    },
                };
                self.index.insert(id, i);
            },
        }
        assert forall|c: int|
            0 <= c < self.cells@.len() && (#[trigger] self.cells@[c]) is Vacant implies exists|j: int|
            0 <= j < self.spare@.len() && #[trigger] self.spare@[j] == c by {
            assert(old(self).cells@[c] is Vacant);
            let j = choose|j: int| 0 <= j < old(self).spare@.len() && #[trigger] old(self).spare@[j] == c;
            assert(self.spare@[j] == c);
        }
        assert(self.slots() =~= after_start(old(self).slots(), id@, state));
    }

    fn acquire(&mut self, id: &str) -> (taken: Result<S, AcquireError>)
        requires
            old(self).wf(),
        ensures
            final(self).wf(),
            taken == acquire_result(old(self).slots(), id@),
            final(self).slots() == after_acquire(old(self).slots(), id@),
    {
        match self.cell_of(id) {
            None => Err(AcquireError::NotFound),
            Some(i) => {
                let mut cell = Cell::InFlight;
                self.cells.set_and_swap(i, &mut cell);
                assert(self.slots() =~= after_acquire(old(self).slots(), id@));
                match cell {
                    Cell::Idle(state) => Ok(state),
                    _ => Err(AcquireError::Busy),
                }
            },
        }
    }

    fn release(&mut self, id: &str, state: S)
        requires
            old(self).wf(),
        ensures
            final(self).wf(),
            final(self).slots() == after_release(old(self).slots(), id@, state),
    {
        match self.cell_of(id) {
            None => {},
            Some(i) => {
                self.cells.set(i, Cell::Idle(state));
            },
        }
        assert(self.slots() =~= after_release(old(self).slots(), id@, state));
    }

    fn remove(&mut self, id: &str)
        requires
            old(self).wf(),
        ensures
            final(self).wf(),
            final(self).slots() == after_remove(old(self).slots(), id@),
    {
        match self.cell_of(id) {
            None => {},
            Some(i) => {
                self.index.remove(id);
                self.cells.set(i, Cell::Vacant);
                self.spare.push(i);
            },
        }
        assert forall|c: int|
            0 <= c < self.cells@.len() && (#[trigger] self.cells@[c]) is Vacant implies exists|j: int|
            0 <= j < self.spare@.len() && #[trigger] self.spare@[j] == c by {
            if old(self).cells@[c] is Vacant {
                let j = choose|j: int| 0 <= j < old(self).spare@.len() && #[trigger] old(self).spare@[j] == c;
                assert(self.spare@[j] == c);
            } else {
                assert(self.spare@[self.spare@.len() - 1] == c);
            }
        }
        assert(self.slots() =~= after_remove(old(self).slots(), id@));
    }

    fn status(&self, id: &str) -> (status: Status)
        requires
            self.wf(),
        ensures
            status == status_of(slot_of(self.slots(), id@)),
    {
        match self.cell_of(id) {
            None => Status::Absent,
            Some(i) => match &self.cells[i] {
                Cell::Idle(_) => Status::Idle,
                _ => Status::InFlight,
            },
        }
    }
}

/// The games in play, each with its state or the mark that its state is
/// out. `S` is the state of a game; the registry never looks into it.
pub struct Registry<S> {
    table: Table<S>,
}

impl<S> View for Registry<S> {
    type V = Slots<S>;

    closed spec fn view(&self) -> Slots<S> {
        self.table.slots()
    }
}

impl<S> Registry<S> {
    #[verifier::type_invariant]
    spec fn sound(self) -> bool {
        self.table.wf()
    }

    /// A registry with no game in play.
    pub fn new() -> (registry: Self)
        ensures
            registry@ == Map::<Seq<char>, Option<S>>::empty(),
    {
        Registry { table: Table::new() }
    }

    /// Puts game `id` in play with `state`, in place of whatever was known
    /// of a game of that name. The removal that goes with every start is
    /// returned for the caller to carry out when it is due.
    pub fn start(&mut self, id: String, state: S) -> (expiry: Expiry)
        ensures
            final(self)@ == after_start(old(self)@, id@, state),
            expiry.id@ == id@,
            expiry.after_secs == EXPIRY_SECS,
    {
        proof {
            use_type_invariant(&*self);
        }
        let expiry = Expiry { id: id.clone(), after_secs: EXPIRY_SECS };
        let mut table = Table::new();
        std::mem::swap(&mut table, &mut self.table);
        table.start(id, state);
        self.table = table;
        expiry
    }

    /// Takes the state of game `id` out for the computation of one move.
    /// The game must be in play and idle; it is in flight afterwards. A
    /// game that is not in play is not found, one whose state is out is
    /// busy, and nothing changes for either.
    pub fn acquire(&mut self, id: &str) -> (taken: Result<S, AcquireError>)
        ensures
            taken == acquire_result(old(self)@, id@),
            final(self)@ == after_acquire(old(self)@, id@),
    {
        proof {
            use_type_invariant(&*self);
        }
        let mut table = Table::new();
        std::mem::swap(&mut table, &mut self.table);
        let taken = table.acquire(id);
        self.table = table;
        taken
    }

    /// Hands the state of game `id` back after a move. Where the game has
    /// been removed in the meantime the state is dropped.
    pub fn release(&mut self, id: &str, state: S)
        ensures
            final(self)@ == after_release(old(self)@, id@, state),
    {
        proof {
            use_type_invariant(&*self);
        }
        let mut table = Table::new();
        std::mem::swap(&mut table, &mut self.table);
        table.release(id, state);
        self.table = table;
    }

    /// Takes game `id` out of play, whatever its slot was.
    pub fn remove(&mut self, id: &str)
        ensures
            final(self)@ == after_remove(old(self)@, id@),
    {
        proof {
            use_type_invariant(&*self);
        }
        let mut table = Table::new();
        std::mem::swap(&mut table, &mut self.table);
        table.remove(id);
        self.table = table;
    }

    /// Carries out a removal that has come due.
    pub fn expire(&mut self, expiry: &Expiry)
        ensures
            final(self)@ == after_remove(old(self)@, expiry.id@),
    {
        self.remove(expiry.id.as_str());
    }

    /// Whether game `id` is in play, and if so whether its state is out.
    pub fn status(&self, id: &str) -> (status: Status)
        ensures
            status == status_of(slot_of(self@, id@)),
    {
        proof {
            use_type_invariant(self);
        }
        self.table.status(id)
    }
}

} // verus!
