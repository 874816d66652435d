//! The ledger: an append-only sequence of snapshots, one for each committed
//! write, with the notification that each write emitted.

use crate::address::EthAddress;
use crate::bounded::{bounded_clone, bounded_into_inner, name_bytes, MAX_USERNAME_LEN};
use crate::storage::UserNames;
use frame_support::traits::ConstU32;
use frame_support::BoundedVec;
use vstd::prelude::*;

verus! {

/// What the registry tells its observers.
#[derive(Clone, Debug, PartialEq, Eq)]
pub enum Event {
    /// A name was stored for an address.
    UsernameSet { ethereum_address: EthAddress, username: Vec<u8> },
}

/// An event as plain values.
pub enum EventView {
    UsernameSet { ethereum_address: Seq<u8>, username: Seq<u8> },
}

impl View for Event {
    type V = EventView;

    open spec fn view(&self) -> EventView {
        match *self {
            Event::UsernameSet { ethereum_address, username } => EventView::UsernameSet {
                ethereum_address: ethereum_address@,
                username: username@,
            },
        }
    }
}

impl EventView {
    /// The address that the event is about.
    pub open spec fn key(self) -> Seq<u8> {
        self->ethereum_address
    }

    /// The name that it announces.
    pub open spec fn name(self) -> Seq<u8> {
        self->username
    }
}

/// Identifies one snapshot of the ledger: the state after that many writes.
#[derive(Clone, Copy, Debug, PartialEq, Eq, Hash, Structural)]
pub struct VersionToken(pub u64);

/// The ledger as plain values: every snapshot since the empty one, oldest
/// first, and every notification, in the order of emission.
pub struct State {
    pub snapshots: Seq<Map<Seq<u8>, Seq<u8>>>,
    pub events: Seq<EventView>,
}

impl State {
    /// The ledger before any write: one empty snapshot, no notification.
    pub open spec fn genesis() -> State {
        State { snapshots: seq![Map::<Seq<u8>, Seq<u8>>::empty()], events: Seq::empty() }
    }

    /// Each snapshot but the first is the one before it with one write
    /// applied, the write that the notification of the same position tells of;
    /// the first is empty; no name is longer than the bound; and the writes
    /// are few enough to be counted in a token.
    pub open spec fn wf(self) -> bool {
        &&& self.snapshots.len() == self.events.len() + 1
        &&& self.events.len() <= u64::MAX
        &&& self.snapshots[0] == Map::<Seq<u8>, Seq<u8>>::empty()
        &&& forall|i: int|
            0 <= i < self.events.len() ==> {
                &&& (#[trigger] self.events[i]).name().len() <= MAX_USERNAME_LEN
                &&& self.snapshots[i + 1] == self.snapshots[i].insert(
                    self.events[i].key(),
                    self.events[i].name(),
                )
            }
    }

    /// The token of the newest snapshot.
    pub open spec fn best(self) -> VersionToken {
        VersionToken((self.snapshots.len() - 1) as u64)
    }

    /// Whether `at` identifies a snapshot of this ledger.
    pub open spec fn knows(self, at: VersionToken) -> bool {
        at.0 < self.snapshots.len()
    }

    /// The snapshot that `at` identifies.
    pub open spec fn at(self, at: VersionToken) -> Map<Seq<u8>, Seq<u8>>
        recommends
            self.knows(at),
    {
        self.snapshots[at.0 as int]
    }

    /// The newest snapshot.
    pub open spec fn current(self) -> Map<Seq<u8>, Seq<u8>> {
        self.snapshots.last()
    }

    /// The ledger after one more write: a new snapshot, built from the newest
    /// one, and one more notification. No earlier snapshot changes.
    pub open spec fn commit(self, key: Seq<u8>, name: Seq<u8>) -> State {
        State {
            snapshots: self.snapshots.push(self.current().insert(key, name)),
            events: self.events.push(
                EventView::UsernameSet { ethereum_address: key, username: name },
            ),
        }
    }
}

struct Block {
    event: Event,
    names: UserNames,
}

/// The ledger. Its snapshots are immutable; a write appends one.
pub struct Ledger {
    genesis: UserNames,
    blocks: Vec<Block>,
}

spec fn state_of(genesis: UserNames, blocks: Seq<Block>) -> State {
    State {
        snapshots: Seq::new(
            (blocks.len() + 1) as nat,
            |i: int|
                if i == 0 {
                    genesis@
                } else {
                    blocks[i - 1].names@
                },
        ),
        events: Seq::new(blocks.len(), |i: int| blocks[i].event@),
    }
}

impl View for Ledger {
    type V = State;

    closed spec fn view(&self) -> State {
        state_of(self.genesis, self.blocks@)
    }
}

impl Ledger {
    /// Holds of every ledger; `use_type_invariant` tells so.
    #[verifier::type_invariant]
    pub open spec fn well_formed(&self) -> bool {
        self@.wf()
    }

    /// The ledger before any write.
    pub fn new() -> (ledger: Ledger)
        ensures
            ledger@ == State::genesis(),
            ledger@.wf(),
    {
        let ledger = Ledger { genesis: UserNames::new(), blocks: Vec::new() };
        assert(ledger@.snapshots =~= State::genesis().snapshots);
        assert(ledger@.events =~= State::genesis().events);
        ledger
    }

    /// The token of the newest snapshot.
    pub fn best(&self) -> (at: VersionToken)
        ensures
            at == self@.best(),
            self@.knows(at),
    {
        VersionToken(self.blocks.len() as u64)
    }

    /// The snapshot that `at` identifies, or `None` where it identifies none.
    pub fn resolve(&self, at: VersionToken) -> (r: Option<&UserNames>)
        ensures
            match r {
                Some(names) => self@.knows(at) && names@ == self@.at(at),
                None => !self@.knows(at),
            },
    {
        if at.0 == 0 {
            Some(&self.genesis)
        } else if at.0 <= self.blocks.len() as u64 {
            Some(&self.blocks[(at.0 - 1) as usize].names)
        } else {
            None
        }
    }

    /// The newest snapshot.
    pub fn current(&self) -> (names: &UserNames)
        ensures
            names@ == self@.current(),
    {
        let n = self.blocks.len();
        if n == 0 {
            &self.genesis
        } else {
            &self.blocks[n - 1].names
        }
    }

    /// The number of notifications emitted so far.
    pub fn event_count(&self) -> (n: usize)
        ensures
            n == self@.events.len(),
    {
        self.blocks.len()
    }

    /// The notification of position `i`, counted from the oldest, or `None`
    /// where fewer have been emitted.
    pub fn event(&self, i: usize) -> (r: Option<&Event>)
        ensures
            match r {
                Some(e) => i < self@.events.len() && e@ == self@.events[i as int],
                None => i >= self@.events.len(),
            },
    {
        if i < self.blocks.len() {
            Some(&self.blocks[i].event)
        } else {
            None
        }
    }

    /// The newest notification, or `None` before the first write.
    pub fn last_event(&self) -> (r: Option<&Event>)
        ensures
            match r {
                Some(e) => self@.events.len() > 0 && e@ == self@.events.last(),
                None => self@.events.len() == 0,
            },
    {
        let n = self.blocks.len();
        if n == 0 {
            None
        } else {
            Some(&self.blocks[n - 1].event)
        }
    }

    /// Commits one write: appends the snapshot that holds `name` for `key` and
    /// the notification of it. Returns the token of the new snapshot.
    pub(crate) fn commit(&mut self, key: EthAddress, name: BoundedVec<u8, ConstU32<64>>) -> (at:
        VersionToken)
        requires
            name_bytes(name).len() <= MAX_USERNAME_LEN,
        ensures
            final(self)@ == old(self)@.commit(key@, name_bytes(name)),
            final(self)@.wf(),
            at == final(self)@.best(),
    {
        proof {
            use_type_invariant(&*self);
        }
        let username = bounded_into_inner(bounded_clone(&name));
        let names = self.current().with(key, name);
        let ghost before = self@;
        // The blocks are taken out while the new one is appended, so that the
        // ledger is well formed whenever it is whole.
        let mut blocks: Vec<Block> = Vec::new();
        proof {
            let emptied = state_of(self.genesis, blocks@);
            assert(emptied.snapshots[0] == before.snapshots[0]);
        }
        std::mem::swap(&mut blocks, &mut self.blocks);
        blocks.push(Block { event: Event::UsernameSet { ethereum_address: key, username }, names });
        let at = VersionToken(blocks.len() as u64);
        proof {
            let after = state_of(self.genesis, blocks@);
            let want = before.commit(key@, name_bytes(name));
            assert(after.snapshots =~= want.snapshots);
            assert(after.events =~= want.events);
            assert(after == want);
            assert(want.wf()) by {
                assert forall|i: int| 0 <= i < want.events.len() implies {
                    &&& (#[trigger] want.events[i]).name().len() <= MAX_USERNAME_LEN
                    &&& want.snapshots[i + 1] == want.snapshots[i].insert(
                        want.events[i].key(),
                        want.events[i].name(),
                    )
                } by {
                    if i < before.events.len() {
                        assert(want.events[i] == before.events[i]);
                    }
                }
            }
        }
        std::mem::swap(&mut blocks, &mut self.blocks);
        at
    }
}

} // verus!
