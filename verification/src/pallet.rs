//! The registry store: the one call that writes a name, who may make it, and
//! what it costs.

use crate::address::EthAddress;
use crate::bounded::{bounded_try_from, name_bytes, MAX_USERNAME_LEN};
use crate::ledger::{Ledger, State};
use crate::weights::{DbWeight, Weight, WeightInfo};
use frame_support::traits::ConstU32;
use frame_support::BoundedVec;
use std::marker::PhantomData;
use vstd::prelude::*;

verus! {

/// Where a call comes from.
#[derive(Clone, Copy, Debug, PartialEq, Eq)]
pub enum RawOrigin<AccountId> {
    /// The host itself.
    Root,
    /// An account whose signature the host has verified.
    Signed(AccountId),
    /// Nobody.
    Unsigned,
    /// Nobody, but the host authorised the call.
    Authorized,
}

/// The caller is not who the call asks for.
#[derive(Clone, Copy, Debug, PartialEq, Eq, Structural)]
pub struct BadOrigin;

/// What the registry itself refuses.
#[derive(Clone, Copy, Debug, PartialEq, Eq, Structural)]
pub enum Error {
    /// The name is longer than 64 bytes.
    UsernameTooLong,
}

/// Why a call failed.
#[derive(Clone, Copy, Debug, PartialEq, Eq, Structural)]
pub enum DispatchError {
    /// The call did not come from a signed account.
    BadOrigin,
    /// The registry refused it.
    Module(Error),
}

/// The account that signed, or `BadOrigin` for any other origin.
pub fn ensure_signed<AccountId>(o: RawOrigin<AccountId>) -> (r: Result<AccountId, BadOrigin>)
    ensures
        match r {
            Ok(who) => o == RawOrigin::Signed(who),
            Err(_) => !(o is Signed),
        },
{
    match o {
        RawOrigin::Signed(who) => Ok(who),
        _ => Err(BadOrigin),
    }
}

/// What a host fixes for the registry.
pub trait Config {
    /// How the host names an account.
    type AccountId;

    /// What the host's database charges.
    type DbWeight: DbWeight;

    /// The costs that the registry declares.
    type WeightInfo: WeightInfo;
}

/// What setting a name returns: a call that is not signed is refused first,
/// whatever it carries; a signed one with a name over the bound is refused
/// next; any other succeeds.
pub open spec fn set_username_result(signed: bool, username: Seq<u8>) -> Result<(), DispatchError> {
    if !signed {
        Err(DispatchError::BadOrigin)
    } else if username.len() > MAX_USERNAME_LEN {
        Err(DispatchError::Module(Error::UsernameTooLong))
    } else {
        Ok(())
    }
}

/// The ledger after a call that sets a name: one write committed where the
/// call succeeds, and nothing changed where it fails.
pub open spec fn set_username_state(
    before: State,
    signed: bool,
    ethereum_address: Seq<u8>,
    username: Seq<u8>,
) -> State {
    if set_username_result(signed, username) is Ok {
        before.commit(ethereum_address, username)
    } else {
        before
    }
}

/// The registry's calls, for a host `T`.
pub struct Pallet<T>(pub PhantomData<T>);

impl<T: Config> Pallet<T> {
    /// Decides a call that sets a name, without looking at any ledger: the
    /// name as it is to be stored where the call is let through, and the
    /// error where it is refused.
    pub fn check_set_username(origin: RawOrigin<T::AccountId>, username: Vec<u8>) -> (r: Result<
        BoundedVec<u8, ConstU32<64>>,
        DispatchError,
    >)
        ensures
            match r {
                Ok(name) => set_username_result(origin is Signed, username@) is Ok && name_bytes(
                    name,
                ) == username@,
                Err(e) => set_username_result(origin is Signed, username@) == Err::<
                    (),
                    DispatchError,
                >(e),
            },
    {
        match ensure_signed(origin) {
            Ok(_) => {},
            Err(_) => {
                return Err(DispatchError::BadOrigin);
            },
        }
        match bounded_try_from(username) {
            Ok(bounded_username) => Ok(bounded_username),
            Err(_) => Err(DispatchError::Module(Error::UsernameTooLong)),
        }
    }

    /// Stores `username` for `ethereum_address` and tells the observers.
    ///
    /// Any signed account may set the name of any address. On failure the
    /// ledger is as it was: no snapshot, no notification.
    pub fn set_username(
        ledger: &mut Ledger,
        origin: RawOrigin<T::AccountId>,
        ethereum_address: EthAddress,
        username: Vec<u8>,
    ) -> (r: Result<(), DispatchError>)
        ensures
            r == set_username_result(origin is Signed, username@),
            final(ledger)@ == set_username_state(
                old(ledger)@,
                origin is Signed,
                ethereum_address@,
                username@,
            ),
            final(ledger)@.wf(),
    {
        proof {
            use_type_invariant(&*ledger);
        }
        match Self::check_set_username(origin, username) {
            Ok(bounded_username) => {
                let _ = ledger.commit(ethereum_address, bounded_username);
                Ok(())
            },
            Err(e) => Err(e),
        }
    }

    /// The cost that a call of `set_username` declares. It is fixed by the
    /// host's configuration and does not depend on the call.
    pub fn set_username_weight() -> (w: Weight)
        ensures
            w == T::WeightInfo::set_username_weight(),
    {
        T::WeightInfo::set_username()
    }
}

} // verus!
