//! The order of addresses: byte by byte, the first difference decides.

use crate::address::EthAddress;
use std::cmp::Ordering;
use vstd::prelude::*;
use vstd::std_specs::cmp::PartialOrdSpecImpl;

verus! {

/// Whether `i` is the first position at which `a` and `b` differ.
pub open spec fn first_difference(a: Seq<u8>, b: Seq<u8>, i: int) -> bool {
    &&& 0 <= i < a.len()
    &&& i < b.len()
    &&& a[i] != b[i]
    &&& forall|j: int| 0 <= j < i ==> a[j] == b[j]
}

/// How two byte strings of one length compare: as their bytes do at the first
/// position where they differ, and as equal where they differ nowhere.
pub open spec fn byte_order(a: Seq<u8>, b: Seq<u8>) -> Ordering {
    if exists|i: int| first_difference(a, b, i) {
        let i = choose|i: int| first_difference(a, b, i);
        if a[i] < b[i] {
            Ordering::Less
        } else {
            Ordering::Greater
        }
    } else {
        Ordering::Equal
    }
}

impl PartialOrd for EthAddress {
    fn partial_cmp(&self, other: &EthAddress) -> (r: Option<Ordering>) {
        let mut i: usize = 0;
        while i < 20
            invariant
                i <= 20,
                forall|j: int| 0 <= j < i ==> self.bytes@[j] == other.bytes@[j],
            decreases 20 - i,
        {
            let x = self.bytes[i];
            let y = other.bytes[i];
            if x != y {
                proof {
                    let k: int = i + 0;
                    assert(first_difference(self@, other@, k));
                    let c = choose|c: int| first_difference(self@, other@, c);
                    assert(c == k);
                }
                if x < y {
                    return Some(Ordering::Less);
                } else {
                    return Some(Ordering::Greater);
                }
            }
            i += 1;
        }
        Some(Ordering::Equal)
    }
}

impl PartialOrdSpecImpl for EthAddress {
    open spec fn obeys_partial_cmp_spec() -> bool {
        true
    }

    open spec fn partial_cmp_spec(&self, other: &EthAddress) -> Option<Ordering> {
        Some(byte_order(self@, other@))
    }
}

} // verus!
