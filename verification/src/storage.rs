//! One snapshot of the registry: which address has which name.

use crate::address::EthAddress;
use crate::bounded::{bounded_clone, bounded_into_inner, name_bytes};
use frame_support::traits::ConstU32;
use frame_support::BoundedVec;
use vstd::prelude::*;

verus! {

struct Slot {
    key: EthAddress,
    name: BoundedVec<u8, ConstU32<64>>,
}

/// What a row of slots holds for `k`: the name in the last slot that has this
/// key, if there is one.
spec fn lookup(slots: Seq<Slot>, k: Seq<u8>) -> Option<Seq<u8>>
    decreases slots.len(),
{
    if slots.len() == 0 {
        None
    } else if slots.last().key@ == k {
        Some(name_bytes(slots.last().name))
    } else {
        lookup(slots.drop_last(), k)
    }
}

/// An immutable map from addresses to names. A snapshot is never changed
/// once built: a write builds the next one.
pub struct UserNames {
    slots: Vec<Slot>,
}

impl View for UserNames {
    type V = Map<Seq<u8>, Seq<u8>>;

    closed spec fn view(&self) -> Map<Seq<u8>, Seq<u8>> {
        Map::new(
            |k: Seq<u8>| lookup(self.slots@, k) is Some,
            |k: Seq<u8>| lookup(self.slots@, k).unwrap(),
        )
    }
}

/// What a snapshot holds for `key`: its name, or `None` where it has none.
pub open spec fn entry_of(names: Map<Seq<u8>, Seq<u8>>, key: Seq<u8>) -> Option<Seq<u8>> {
    if names.contains_key(key) {
        Some(names[key])
    } else {
        None
    }
}

impl UserNames {
    /// The snapshot in which no address has a name.
    pub fn new() -> (names: UserNames)
        ensures
            names@ == Map::<Seq<u8>, Seq<u8>>::empty(),
    {
        let names = UserNames { slots: Vec::new() };
        assert(names@ =~= Map::<Seq<u8>, Seq<u8>>::empty());
        names
    }

    /// The name stored for `key`, or `None` where it has none.
    pub fn get(&self, key: &EthAddress) -> (r: Option<BoundedVec<u8, ConstU32<64>>>)
        ensures
            match r {
                Some(name) => entry_of(self@, key@) == Some(name_bytes(name)),
                None => entry_of(self@, key@) is None,
            },
    {
        let mut i: usize = self.slots.len();
        assert(self.slots@.take(i as int) =~= self.slots@);
        while i > 0
            invariant
                i <= self.slots@.len(),
                lookup(self.slots@, key@) == lookup(self.slots@.take(i as int), key@),
            decreases i,
        {
            i -= 1;
            assert(self.slots@.take(i + 1).drop_last() =~= self.slots@.take(i as int));
            if self.slots[i].key == *key {
                return Some(bounded_clone(&self.slots[i].name));
            }
        }
        None
    }

    /// The bytes of the name stored for `key`, or `None` where it has none.
    pub fn get_username(&self, key: &EthAddress) -> (r: Option<Vec<u8>>)
        ensures
            match r {
                Some(bytes) => entry_of(self@, key@) == Some(bytes@),
                None => entry_of(self@, key@) is None,
            },
    {
        match self.get(key) {
            Some(name) => Some(bounded_into_inner(name)),
            None => None,
        }
    }

    /// The next snapshot: this one with `name` stored for `key`, whatever it
    /// held for `key` before, and every other address as it was.
    pub fn with(&self, key: EthAddress, name: BoundedVec<u8, ConstU32<64>>) -> (next: UserNames)
        ensures
            next@ == self@.insert(key@, name_bytes(name)),
    {
        let mut slots: Vec<Slot> = Vec::new();
        let mut i: usize = 0;
        while i < self.slots.len()
            invariant
                i <= self.slots@.len(),
                forall|q: Seq<u8>|
                    q != key@ ==> lookup(slots@, q) == lookup(self.slots@.take(i as int), q),
            decreases self.slots@.len() - i,
        {
            let ghost before = slots@;
            assert(self.slots@.take(i + 1).drop_last() =~= self.slots@.take(i as int));
            if self.slots[i].key != key {
                slots.push(Slot { key: self.slots[i].key, name: bounded_clone(&self.slots[i].name) });
                assert(slots@.drop_last() =~= before);
            }
            assert forall|q: Seq<u8>| q != key@ implies lookup(slots@, q) == lookup(
                self.slots@.take(i + 1),
                q,
            ) by {
                assert(lookup(before, q) == lookup(self.slots@.take(i as int), q));
                assert(self.slots@.take(i + 1).last() == self.slots@[i as int]);
            }
            i += 1;
        }
        let ghost copied = slots@;
        slots.push(Slot { key, name });
        let next = UserNames { slots };
        proof {
            assert(self.slots@.take(i as int) =~= self.slots@);
            assert(next.slots@.drop_last() =~= copied);
            assert forall|q: Seq<u8>| #[trigger] lookup(next.slots@, q) == (if q == key@ {
                Some(name_bytes(name))
            } else {
                lookup(self.slots@, q)
            }) by {
                assert(next.slots@.last().key@ == key@);
                if q != key@ {
                    assert(lookup(copied, q) == lookup(self.slots@, q));
                }
            }
            assert(next@ =~= self@.insert(key@, name_bytes(name)));
        }
        next
    }
}

} // verus!
