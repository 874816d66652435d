use username_registry::address::EthAddress;
use username_registry::ledger::{Event, Ledger, VersionToken};
use username_registry::pallet::{
    ensure_signed, BadOrigin, Config, DispatchError, Error, Pallet, RawOrigin,
};
use username_registry::weights::{RocksDbWeight, SubstrateWeight, Weight};

struct Test;

impl Config for Test {
    type AccountId = u64;
    type DbWeight = RocksDbWeight;
    type WeightInfo = SubstrateWeight<Test>;
}

type UsernameRegistry = Pallet<Test>;

fn new_test_ext() -> Ledger {
    Ledger::new()
}

#[test]
fn set_username_works() {
    let mut ext = new_test_ext();
    let eth_address = EthAddress::from_slice(&[1u8; 20]);
    let username = b"alice".to_vec();

    assert_eq!(
        UsernameRegistry::set_username(
            &mut ext,
            RawOrigin::Signed(1),
            eth_address,
            username.clone()
        ),
        Ok(())
    );

    let stored = ext.current().get(&eth_address).unwrap();
    assert_eq!(stored.into_inner(), username);

    assert_eq!(
        ext.last_event(),
        Some(&Event::UsernameSet { ethereum_address: eth_address, username })
    );
}

#[test]
fn get_username_from_storage() {
    let mut ext = new_test_ext();
    let eth_address = EthAddress::from_slice(&[2u8; 20]);
    let username = b"bob".to_vec();

    assert_eq!(
        UsernameRegistry::set_username(
            &mut ext,
            RawOrigin::Signed(1),
            eth_address,
            username.clone()
        ),
        Ok(())
    );

    let stored = ext.current().get(&eth_address);
    assert_eq!(stored.unwrap().into_inner(), username);
}

#[test]
fn get_nonexistent_username_returns_none() {
    let ext = new_test_ext();
    let eth_address = EthAddress::from_slice(&[99u8; 20]);
    let stored = ext.current().get(&eth_address);
    assert_eq!(stored, None);
}

#[test]
fn set_username_requires_signed_origin() {
    let mut ext = new_test_ext();
    let eth_address = EthAddress::from_slice(&[1u8; 20]);
    let username = b"unauthorized".to_vec();

    assert_eq!(
        UsernameRegistry::set_username(&mut ext, RawOrigin::Unsigned, eth_address, username),
        Err(DispatchError::BadOrigin)
    );
    assert_eq!(ext.best(), VersionToken(0));
    assert_eq!(ext.event_count(), 0);
    assert_eq!(ext.current().get(&eth_address), None);
}

#[test]
fn username_length_limit_enforced() {
    let mut ext = new_test_ext();
    let eth_address = EthAddress::from_slice(&[3u8; 20]);
    let long_username = vec![b'a'; 65];

    assert_eq!(
        UsernameRegistry::set_username(
            &mut ext,
            RawOrigin::Signed(1),
            eth_address,
            long_username
        ),
        Err(DispatchError::Module(Error::UsernameTooLong))
    );
    assert_eq!(ext.best(), VersionToken(0));
    assert_eq!(ext.event_count(), 0);
    assert_eq!(ext.current().get(&eth_address), None);
}

#[test]
fn multiple_addresses_work() {
    let mut ext = new_test_ext();
    let eth_address1 = EthAddress::from_slice(&[6u8; 20]);
    let eth_address2 = EthAddress::from_slice(&[7u8; 20]);
    let username1 = b"alice".to_vec();
    let username2 = b"bob".to_vec();

    assert_eq!(
        UsernameRegistry::set_username(
            &mut ext,
            RawOrigin::Signed(1),
            eth_address1,
            username1.clone()
        ),
        Ok(())
    );
    assert_eq!(
        UsernameRegistry::set_username(
            &mut ext,
            RawOrigin::Signed(1),
            eth_address2,
            username2.clone()
        ),
        Ok(())
    );

    let stored1 = ext.current().get(&eth_address1).unwrap();
    let stored2 = ext.current().get(&eth_address2).unwrap();

    assert_eq!(stored1.into_inner(), username1);
    assert_eq!(stored2.into_inner(), username2);
}

#[test]
fn benchmark_scenario_reads_back_what_was_written() {
    let mut ext = new_test_ext();
    let eth_address = EthAddress::from_slice(&[1u8; 20]);
    let username = b"benchmarkuser".to_vec();
    UsernameRegistry::set_username(&mut ext, RawOrigin::Signed(7), eth_address, username.clone())
        .unwrap();
    assert_eq!(ext.current().get(&eth_address).map(|v| v.into_inner()), Some(username));
}

#[test]
fn a_name_of_exactly_64_bytes_is_stored() {
    let mut ext = new_test_ext();
    let key = EthAddress::from_slice(&[4u8; 20]);
    let name = vec![b'z'; 64];
    assert_eq!(
        UsernameRegistry::set_username(&mut ext, RawOrigin::Signed(1), key, name.clone()),
        Ok(())
    );
    assert_eq!(ext.current().get_username(&key), Some(name));
}

#[test]
fn too_long_name_keeps_the_prior_entry() {
    let mut ext = new_test_ext();
    let key = EthAddress::from_slice(&[5u8; 20]);
    UsernameRegistry::set_username(&mut ext, RawOrigin::Signed(1), key, b"carol".to_vec()).unwrap();
    assert_eq!(
        UsernameRegistry::set_username(&mut ext, RawOrigin::Signed(1), key, vec![b'a'; 65]),
        Err(DispatchError::Module(Error::UsernameTooLong))
    );
    assert_eq!(ext.current().get_username(&key), Some(b"carol".to_vec()));
    assert_eq!(ext.best(), VersionToken(1));
    assert_eq!(ext.event_count(), 1);
}

#[test]
fn unsigned_origins_are_refused_before_the_length_is_looked_at() {
    let key = EthAddress::from_slice(&[8u8; 20]);
    for origin in [RawOrigin::Root, RawOrigin::Unsigned, RawOrigin::Authorized] {
        let mut ext = new_test_ext();
        assert_eq!(
            UsernameRegistry::set_username(&mut ext, origin, key, vec![b'a'; 65]),
            Err(DispatchError::BadOrigin)
        );
        assert_eq!(
            UsernameRegistry::set_username(&mut ext, origin, key, b"ok".to_vec()),
            Err(DispatchError::BadOrigin)
        );
        assert_eq!(ext.event_count(), 0);
        assert_eq!(ext.current().get_username(&key), None);
    }
}

#[test]
fn any_signer_may_name_any_address() {
    let mut ext = new_test_ext();
    let key = EthAddress::from_slice(&[9u8; 20]);
    UsernameRegistry::set_username(&mut ext, RawOrigin::Signed(1), key, b"first".to_vec()).unwrap();
    UsernameRegistry::set_username(&mut ext, RawOrigin::Signed(2), key, b"second".to_vec())
        .unwrap();
    assert_eq!(ext.current().get_username(&key), Some(b"second".to_vec()));
}

#[test]
fn an_empty_name_is_present_not_absent() {
    let mut ext = new_test_ext();
    let key = EthAddress::from_slice(&[0u8; 20]);
    assert_eq!(ext.current().get_username(&key), None);
    UsernameRegistry::set_username(&mut ext, RawOrigin::Signed(1), key, Vec::new()).unwrap();
    assert_eq!(ext.current().get_username(&key), Some(Vec::new()));
}

#[test]
fn overwrite_twice_gives_one_state_and_two_events() {
    let mut ext = new_test_ext();
    let key = EthAddress::from_slice(&[10u8; 20]);
    let other = EthAddress::from_slice(&[11u8; 20]);
    UsernameRegistry::set_username(&mut ext, RawOrigin::Signed(1), other, b"o".to_vec()).unwrap();
    UsernameRegistry::set_username(&mut ext, RawOrigin::Signed(1), key, b"dave".to_vec()).unwrap();
    let once = (ext.current().get_username(&key), ext.current().get_username(&other));
    UsernameRegistry::set_username(&mut ext, RawOrigin::Signed(1), key, b"dave".to_vec()).unwrap();
    let twice = (ext.current().get_username(&key), ext.current().get_username(&other));
    assert_eq!(once, twice);
    assert_eq!(ext.event_count(), 3);
    let told = Event::UsernameSet { ethereum_address: key, username: b"dave".to_vec() };
    assert_eq!(ext.event(1), Some(&told));
    assert_eq!(ext.event(2), Some(&told));
    assert_eq!(ext.event(3), None);
}

#[test]
fn earlier_snapshots_do_not_change() {
    let mut ext = new_test_ext();
    let key = EthAddress::from_slice(&[12u8; 20]);
    UsernameRegistry::set_username(&mut ext, RawOrigin::Signed(1), key, b"old".to_vec()).unwrap();
    let before = ext.best();
    assert_eq!(before, VersionToken(1));
    UsernameRegistry::set_username(&mut ext, RawOrigin::Signed(1), key, b"new".to_vec()).unwrap();
    assert_eq!(ext.best(), VersionToken(2));
    assert_eq!(ext.resolve(before).unwrap().get_username(&key), Some(b"old".to_vec()));
    assert_eq!(ext.resolve(VersionToken(0)).unwrap().get_username(&key), None);
    assert_eq!(ext.current().get_username(&key), Some(b"new".to_vec()));
    assert!(ext.resolve(VersionToken(3)).is_none());
}

#[test]
fn ensure_signed_hands_out_the_signer() {
    assert_eq!(ensure_signed(RawOrigin::Signed(42u64)), Ok(42));
    assert_eq!(ensure_signed(RawOrigin::<u64>::Root), Err(BadOrigin));
    assert_eq!(ensure_signed(RawOrigin::<u64>::Unsigned), Err(BadOrigin));
    assert_eq!(ensure_signed(RawOrigin::<u64>::Authorized), Err(BadOrigin));
}

#[test]
fn check_set_username_decides_without_a_ledger() {
    let ok = UsernameRegistry::check_set_username(RawOrigin::Signed(1), b"erin".to_vec());
    assert_eq!(ok.map(|b| b.into_inner()), Ok(b"erin".to_vec()));
    assert_eq!(
        UsernameRegistry::check_set_username(RawOrigin::Signed(1), vec![0u8; 65]),
        Err(DispatchError::Module(Error::UsernameTooLong))
    );
    assert_eq!(
        UsernameRegistry::check_set_username(RawOrigin::Root, b"erin".to_vec()),
        Err(DispatchError::BadOrigin)
    );
}

#[test]
fn the_declared_cost_is_the_configured_one() {
    assert_eq!(
        UsernameRegistry::set_username_weight(),
        Weight { ref_time: 110_000_000, proof_size: 0 }
    );
    assert_eq!(UsernameRegistry::set_username_weight(), UsernameRegistry::set_username_weight());
}
