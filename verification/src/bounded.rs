//! Stored names: byte strings of at most 64 bytes, held in the host's bounded
//! vector.

use frame_support::traits::ConstU32;
use frame_support::BoundedVec;
use vstd::prelude::*;

verus! {

/// The largest number of bytes a stored name may hold.
pub const MAX_USERNAME_LEN: usize = 64;

/// Declares `frame_support::BoundedVec`: a vector that is never longer than
/// its bound. Nothing inside it is visible to the verifier; what it holds is
/// named by `name_bytes`.
#[verifier::external_type_specification]
#[verifier::external_body]
#[verifier::reject_recursive_types(T)]
#[verifier::reject_recursive_types(S)]
pub struct ExBoundedVec<T, S>(BoundedVec<T, S>);

/// Declares `frame_support::traits::ConstU32`, the type that stands for a
/// bound.
#[verifier::external_type_specification]
#[verifier::external_body]
pub struct ExConstU32<const N: u32>(ConstU32<N>);

/// The bytes that a bounded name holds, in order.
pub uninterp spec fn name_bytes(name: BoundedVec<u8, ConstU32<64>>) -> Seq<u8>;

/// Calls `BoundedVec`'s `TryFrom<Vec<u8>>::try_from` at a bound of 64: a
/// vector of at most 64 bytes comes back wrapped, with its bytes as they were;
/// a longer one comes back as the error, untouched.
#[verifier::external_body]
pub(crate) fn bounded_try_from(bytes: Vec<u8>) -> (r: Result<BoundedVec<u8, ConstU32<64>>, Vec<u8>>)
    ensures
        match r {
            Ok(name) => bytes@.len() <= MAX_USERNAME_LEN && name_bytes(name) == bytes@,
            Err(back) => bytes@.len() > MAX_USERNAME_LEN && back@ == bytes@,
        },
{
    BoundedVec::try_from(bytes)
}

/// Calls `BoundedVec::into_inner`, which hands out the vector inside.
#[verifier::external_body]
pub(crate) fn bounded_into_inner(name: BoundedVec<u8, ConstU32<64>>) -> (bytes: Vec<u8>)
    ensures
        bytes@ == name_bytes(name),
{
    name.into_inner()
}

/// Calls `BoundedVec`'s `Clone::clone`, which copies the vector inside.
#[verifier::external_body]
pub(crate) fn bounded_clone(name: &BoundedVec<u8, ConstU32<64>>) -> (copy: BoundedVec<u8, ConstU32<64>>)
    ensures
        name_bytes(copy) == name_bytes(*name),
{
    name.clone()
}

} // verus!
