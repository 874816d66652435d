//! A directory of human-readable names for 20-byte account addresses, kept as
//! an append-only sequence of immutable snapshots, with an authenticated write
//! and a read that resolves a version of the ledger first.

pub mod address;
pub mod bounded;
pub mod laws;
pub mod ledger;
pub mod order;
pub mod pallet;
pub mod rpc;
pub mod storage;
pub mod weights;
