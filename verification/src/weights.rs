//! The declared cost of a write: a fixed base plus one storage write, in the
//! host's units. Nothing here is measured; the figures are the same before
//! and after a call.

use crate::pallet::Config;
use std::marker::PhantomData;
use vstd::prelude::*;

verus! {

/// The base cost of setting a name, in units of reference time.
pub const SET_USERNAME_BASE_REF_TIME: u64 = 10_000_000;

/// A cost in the host's two dimensions.
#[derive(Clone, Copy, Debug, PartialEq, Eq, Structural)]
pub struct Weight {
    pub ref_time: u64,
    pub proof_size: u64,
}

/// What one read and one write of the host's database cost, in reference time.
#[derive(Clone, Copy, Debug, PartialEq, Eq, Structural)]
pub struct RuntimeDbWeight {
    pub read: u64,
    pub write: u64,
}

/// `a + b`, held at the largest `u64`.
pub open spec fn saturating_sum(a: u64, b: u64) -> u64 {
    if a + b > u64::MAX {
        u64::MAX
    } else {
        (a + b) as u64
    }
}

/// `a * b`, held at the largest `u64`.
pub open spec fn saturating_product(a: u64, b: u64) -> u64 {
    if a * b > u64::MAX {
        u64::MAX
    } else {
        (a * b) as u64
    }
}

impl Weight {
    /// The sum of two costs, each dimension held at the largest `u64`.
    pub open spec fn spec_saturating_add(self, rhs: Weight) -> Weight {
        Weight {
            ref_time: saturating_sum(self.ref_time, rhs.ref_time),
            proof_size: saturating_sum(self.proof_size, rhs.proof_size),
        }
    }

    /// A cost from its two parts.
    pub fn from_parts(ref_time: u64, proof_size: u64) -> (w: Weight)
        ensures
            w == (Weight { ref_time, proof_size }),
    {
        Weight { ref_time, proof_size }
    }

    /// The reference-time part.
    pub fn ref_time(&self) -> (t: u64)
        ensures
            t == self.ref_time,
    {
        self.ref_time
    }

    /// The proof-size part.
    pub fn proof_size(&self) -> (s: u64)
        ensures
            s == self.proof_size,
    {
        self.proof_size
    }
}

impl RuntimeDbWeight {
    /// The cost of `w` writes: no proof size, and a reference time of `w` times
    /// one write, held at the largest `u64`.
    pub open spec fn spec_writes(self, w: u64) -> Weight {
        Weight { ref_time: saturating_product(self.write, w), proof_size: 0 }
    }
}

/// Calls `frame_support::weights::Weight::saturating_add`, which adds the two
/// reference times and the two proof sizes, each with `u64::saturating_add`.
#[verifier::external_body]
fn weight_saturating_add(a: Weight, b: Weight) -> (sum: Weight)
    ensures
        sum == a.spec_saturating_add(b),
{
    let lhs = frame_support::weights::Weight::from_parts(a.ref_time, a.proof_size);
    let rhs = frame_support::weights::Weight::from_parts(b.ref_time, b.proof_size);
    let sum = lhs.saturating_add(rhs);
    Weight { ref_time: sum.ref_time(), proof_size: sum.proof_size() }
}

/// Calls `frame_support::weights::RuntimeDbWeight::writes`, which returns a
/// weight of no proof size whose reference time is the cost of one write times
/// the count, by `u64::saturating_mul`.
#[verifier::external_body]
fn db_weight_writes(db: RuntimeDbWeight, count: u64) -> (cost: Weight)
    ensures
        cost == db.spec_writes(count),
{
    let db = frame_support::weights::RuntimeDbWeight { read: db.read, write: db.write };
    let cost = db.writes(count);
    Weight { ref_time: cost.ref_time(), proof_size: cost.proof_size() }
}

/// Reads `frame_support::weights::constants::RocksDbWeight`, a constant of
/// 25 000 ns for a read and 100 000 ns for a write, at 1 000 units of reference
/// time to the nanosecond.
#[verifier::external_body]
fn rocks_db_weight() -> (db: RuntimeDbWeight)
    ensures
        db == (RuntimeDbWeight { read: 25_000_000, write: 100_000_000 }),
{
    let db = frame_support::weights::constants::RocksDbWeight::get();
    RuntimeDbWeight { read: db.read, write: db.write }
}

/// A source of the host database's costs.
pub trait DbWeight {
    /// The costs, the same at every call.
    spec fn value() -> RuntimeDbWeight;

    /// Hands out the costs.
    fn get() -> (db: RuntimeDbWeight)
        ensures
            db == Self::value(),
    ;
}

/// The costs of a RocksDB-backed host.
pub struct RocksDbWeight;

impl DbWeight for RocksDbWeight {
    open spec fn value() -> RuntimeDbWeight {
        RuntimeDbWeight { read: 25_000_000, write: 100_000_000 }
    }

    fn get() -> (db: RuntimeDbWeight) {
        rocks_db_weight()
    }
}

/// The declared cost of setting a name where one write costs what `db` says.
pub open spec fn set_username_cost(db: RuntimeDbWeight) -> Weight {
    (Weight { ref_time: SET_USERNAME_BASE_REF_TIME, proof_size: 0 }).spec_saturating_add(
        db.spec_writes(1),
    )
}

/// The costs that the registry declares for its calls.
pub trait WeightInfo {
    /// The declared cost of setting a name, the same at every call.
    spec fn set_username_weight() -> Weight;

    /// Hands out the declared cost of setting a name.
    fn set_username() -> (w: Weight)
        ensures
            w == Self::set_username_weight(),
    ;
}

/// Costs for a host `T`, from what its database charges.
pub struct SubstrateWeight<T>(pub PhantomData<T>);

impl<T: Config> WeightInfo for SubstrateWeight<T> {
    open spec fn set_username_weight() -> Weight {
        set_username_cost(T::DbWeight::value())
    }

    fn set_username() -> (w: Weight) {
        let base = Weight::from_parts(SET_USERNAME_BASE_REF_TIME, 0);
        weight_saturating_add(base, db_weight_writes(T::DbWeight::get(), 1))
    }
}

impl WeightInfo for () {
    open spec fn set_username_weight() -> Weight {
        set_username_cost(RocksDbWeight::value())
    }

    fn set_username() -> (w: Weight)
        ensures
            w == (Weight { ref_time: 110_000_000, proof_size: 0 }),
    {
        let base = Weight::from_parts(SET_USERNAME_BASE_REF_TIME, 0);
        weight_saturating_add(base, db_weight_writes(RocksDbWeight::get(), 1))
    }
}

} // verus!
