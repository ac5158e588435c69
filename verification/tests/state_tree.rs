use forest_core::error::Error;
use forest_core::primitives::{Address, Cid, Protocol, TokenAmount};
use forest_core::state_tree::{
    ActorState, ActorStateV2, ActorStateV3, StateTree, StateTreeV2, StateTreeV3,
};
use std::cell::RefCell;

fn cid(n: u8) -> Cid {
    Cid::from_bytes(vec![1, 0x55, n])
}

fn secp(n: u8) -> Address {
    Address::new_keyed(Protocol::Secp256k1, vec![n; 20]).unwrap()
}

fn delegated() -> Address {
    Address::new_delegated(10, vec![0xEE; 20]).unwrap()
}

fn record(n: u8, delegated_address: Option<Address>) -> ActorState {
    ActorState(ActorStateV3::new(
        cid(n),
        cid(n + 100),
        TokenAmount::from_atto(42 + n as i128),
        n as u64,
        delegated_address,
    ))
}

fn v3_tree() -> StateTree<&'static str> {
    let mut st = StateTreeV3::new("store", cid(0));
    st.bind(secp(1), 101);
    st.bind(secp(2), 102);
    StateTree::V3(st)
}

fn v2_tree() -> StateTree<&'static str> {
    let mut st = StateTreeV2::new("store", cid(0));
    st.bind(secp(1), 101);
    st.bind(secp(2), 102);
    StateTree::V2(st)
}

#[test]
fn actor_state_shapes_convert() {
    let fvm2 = ActorStateV2::new(cid(1), cid(2), TokenAmount::from_atto(42), 0);
    let fvm3 = ActorStateV3::new(cid(1), cid(2), TokenAmount::from_atto(42), 0, None);
    let shim = ActorState::from(fvm2.clone());
    assert_eq!(fvm3, shim.0);
    assert_eq!(fvm2, ActorStateV2::from(shim.clone()));
    assert_eq!(fvm3.clone(), ActorStateV3::from(ActorState::from(fvm3)));
}

#[test]
fn round_trip_through_the_older_shape_drops_the_delegated_address() {
    let full = record(7, Some(delegated()));
    let back = ActorState::from(ActorStateV2::from(full.clone()));
    assert_ne!(back, full);
    assert_eq!(back.0.delegated_address, None);
    assert_eq!(back, record(7, None));
    assert_eq!(back.0.code, full.0.code);
    assert_eq!(back.0.state, full.0.state);
    assert_eq!(back.0.sequence, full.0.sequence);
    assert_eq!(back.0.balance, full.0.balance);
}

#[test]
fn open_prefers_the_newest_generation() {
    let v3 = || StateTreeV3::new(3u8, cid(0));
    let v2 = || StateTreeV2::new(2u8, cid(0));
    match StateTree::from_readings(Some(v3()), Some(v2())) {
        Ok(StateTree::V3(st)) => assert_eq!(*st.store(), 3),
        _ => panic!("a root that reads under both generations opens as the newest"),
    }
    match StateTree::from_readings(None, Some(v2())) {
        Ok(StateTree::V2(st)) => assert_eq!(*st.store(), 2),
        _ => panic!("a root that reads only under the older generation opens as that"),
    }
    match StateTree::from_readings(Some(v3()), None) {
        Ok(StateTree::V3(_)) => {}
        _ => panic!("a root that reads only under the newest generation opens as that"),
    }
    match StateTree::<u8>::from_readings(None, None) {
        Err(e) => assert_eq!(e, Error::UnsupportedStateTreeVersion),
        Ok(_) => panic!("a root that reads under no generation does not open"),
    }
}

/// Opens the root `cid(9)` in the store `7`, where the root reads under the
/// generations that `newest` and `older` say. Hands back what was opened
/// and how often each reading was tried.
fn open(newest: bool, older: bool) -> (Result<StateTree<u8>, Error>, u32, u32) {
    let tried_v3 = RefCell::new(0);
    let tried_v2 = RefCell::new(0);
    let r = StateTree::new_from_root(
        &7u8,
        &cid(9),
        |store: &u8, root: &Cid| {
            *tried_v3.borrow_mut() += 1;
            if newest {
                Some(StateTreeV3::new(*store, root.clone()))
            } else {
                None
            }
        },
        |store: &u8, root: &Cid| {
            *tried_v2.borrow_mut() += 1;
            if older {
                Some(StateTreeV2::new(*store, root.clone()))
            } else {
                None
            }
        },
    );
    (r, tried_v3.into_inner(), tried_v2.into_inner())
}

#[test]
fn open_tries_the_newest_generation_first() {
    let (r, v3, v2) = open(true, true);
    assert!(matches!(r, Ok(StateTree::V3(_))));
    assert_eq!((v3, v2), (1, 0));
    let (r, v3, v2) = open(true, false);
    assert!(matches!(r, Ok(StateTree::V3(_))));
    assert_eq!((v3, v2), (1, 0));
}

#[test]
fn open_falls_back_to_the_older_generation() {
    let (r, v3, v2) = open(false, true);
    match r {
        Ok(StateTree::V2(st)) => assert_eq!(*st.store(), 7),
        _ => panic!("a root that reads only under the older generation opens as that"),
    }
    assert_eq!((v3, v2), (1, 1));
}

#[test]
fn open_fails_where_no_generation_reads_the_root() {
    let (r, v3, v2) = open(false, false);
    match r {
        Err(e) => assert_eq!(e, Error::UnsupportedStateTreeVersion),
        Ok(_) => panic!("a root that reads under no generation does not open"),
    }
    assert_eq!((v3, v2), (1, 1));
}

#[test]
fn store_is_handed_back() {
    assert_eq!(*v3_tree().store(), "store");
    assert_eq!(*v2_tree().store(), "store");
}

#[test]
fn lookup_id_resolves_bound_and_id_addresses() {
    for st in [v2_tree(), v3_tree()] {
        assert_eq!(st.lookup_id(&secp(1)), Ok(Some(101)));
        assert_eq!(st.lookup_id(&secp(2)), Ok(Some(102)));
        assert_eq!(st.lookup_id(&secp(3)), Ok(None));
        assert_eq!(st.lookup_id(&Address::new_id(55)), Ok(Some(55)));
    }
}

#[test]
fn first_binding_of_an_address_stands() {
    let mut st = StateTreeV3::<u8>::new(0, cid(0));
    st.bind(secp(1), 5);
    st.bind(secp(1), 6);
    assert_eq!(st.lookup_id(&secp(1)), Some(5));
}

#[test]
fn get_actor_gives_none_for_what_is_not_there() {
    for mut st in [v2_tree(), v3_tree()] {
        // no binding
        assert_eq!(st.get_actor(&secp(3)), Ok(None));
        // a binding, but no record
        assert_eq!(st.get_actor(&secp(1)), Ok(None));
        assert_eq!(st.get_actor(&Address::new_id(9)), Ok(None));
        st.set_actor(&secp(1), record(1, None)).unwrap();
        assert_eq!(st.get_actor(&secp(1)), Ok(Some(record(1, None))));
        assert_eq!(st.get_actor(&Address::new_id(101)), Ok(Some(record(1, None))));
        assert_eq!(st.get_actor(&secp(2)), Ok(None));
    }
}

#[test]
fn set_actor_needs_an_actor_id() {
    for mut st in [v2_tree(), v3_tree()] {
        assert_eq!(st.set_actor(&secp(3), record(3, None)), Err(Error::UnresolvedActorID));
        assert_eq!(st.get_actor(&secp(3)), Ok(None));
        assert_eq!(st.set_actor(&Address::new_id(7), record(3, None)), Ok(()));
        assert_eq!(st.get_actor(&Address::new_id(7)), Ok(Some(record(3, None))));
    }
}

#[test]
fn set_actor_overwrites_in_place() {
    let mut st = v3_tree();
    st.set_actor(&secp(1), record(1, None)).unwrap();
    st.set_actor(&secp(2), record(2, None)).unwrap();
    st.set_actor(&secp(1), record(9, Some(delegated()))).unwrap();
    assert_eq!(st.get_actor(&secp(1)), Ok(Some(record(9, Some(delegated())))));
    assert_eq!(st.get_actor(&secp(2)), Ok(Some(record(2, None))));
    let seen = RefCell::new(Vec::new());
    st.for_each(|a: Address, _s: &ActorState| {
        seen.borrow_mut().push(a.number());
        Ok(())
    })
    .unwrap();
    assert_eq!(seen.into_inner(), vec![101, 102]);
}

#[test]
fn older_generation_keeps_no_delegated_address() {
    let mut st = v2_tree();
    st.set_actor(&secp(1), record(1, Some(delegated()))).unwrap();
    assert_eq!(st.get_actor(&secp(1)), Ok(Some(record(1, None))));
    let mut st = v3_tree();
    st.set_actor(&secp(1), record(1, Some(delegated()))).unwrap();
    assert_eq!(st.get_actor(&secp(1)), Ok(Some(record(1, Some(delegated())))));
}

#[test]
fn for_each_visits_every_actor_in_order() {
    for mut st in [v2_tree(), v3_tree()] {
        st.set_actor(&Address::new_id(30), record(3, None)).unwrap();
        st.set_actor(&secp(1), record(1, None)).unwrap();
        st.set_actor(&Address::new_id(20), record(2, None)).unwrap();
        let seen = RefCell::new(Vec::new());
        let r = st.for_each(|a: Address, s: &ActorState| {
            seen.borrow_mut().push((a, s.clone()));
            Ok(())
        });
        assert_eq!(r, Ok(()));
        assert_eq!(
            seen.into_inner(),
            vec![
                (Address::new_id(30), record(3, None)),
                (Address::new_id(101), record(1, None)),
                (Address::new_id(20), record(2, None)),
            ]
        );
    }
}

#[test]
fn for_each_stops_at_the_first_failure() {
    let mut st = v3_tree();
    for id in [1u64, 2, 3, 4] {
        st.set_actor(&Address::new_id(id), record(id as u8, None)).unwrap();
    }
    let calls = RefCell::new(0);
    let r = st.for_each(|a: Address, _s: &ActorState| {
        *calls.borrow_mut() += 1;
        if a.number() == 3 {
            Err(Error::Store("halt".to_string()))
        } else {
            Ok(())
        }
    });
    assert_eq!(r, Err(Error::Store("halt".to_string())));
    assert_eq!(calls.into_inner(), 3);
}

#[test]
fn for_each_on_an_empty_tree_calls_nothing() {
    let st = v2_tree();
    let r = st.for_each(|_a: Address, _s: &ActorState| Err(Error::Store("never".to_string())));
    assert_eq!(r, Ok(()));
}

#[test]
fn flush_persists_once_and_is_idempotent() {
    for mut st in [v2_tree(), v3_tree()] {
        st.set_actor(&secp(1), record(1, None)).unwrap();
        let calls = RefCell::new(0);
        let persist = |t: &StateTree<&'static str>| {
            *calls.borrow_mut() += 1;
            // what is to be written is the tree as it stands
            assert_eq!(t.get_actor(&secp(1)), Ok(Some(record(1, None))));
            Ok(cid(77))
        };
        assert_eq!(st.flush(persist), Ok(cid(77)));
        assert_eq!(st.flush(persist), Ok(cid(77)));
        assert_eq!(*calls.borrow(), 1);
        // a write makes the next flush persist again
        st.set_actor(&secp(2), record(2, None)).unwrap();
        assert_eq!(st.flush(|_t: &StateTree<&'static str>| Ok(cid(78))), Ok(cid(78)));
        assert_eq!(st.flush(|_t: &StateTree<&'static str>| Ok(cid(79))), Ok(cid(78)));
    }
}

#[test]
fn flush_of_a_fresh_tree_gives_its_root() {
    let mut st = StateTree::V3(StateTreeV3::new(0u8, cid(5)));
    assert_eq!(
        st.flush(|_t: &StateTree<u8>| Err(Error::Store("not needed".to_string()))),
        Ok(cid(5))
    );
}

#[test]
fn failed_flush_stays_pending() {
    let mut st = v3_tree();
    st.set_actor(&secp(1), record(1, None)).unwrap();
    assert_eq!(
        st.flush(|_t: &StateTree<&'static str>| Err(Error::Store("disk".to_string()))),
        Err(Error::Store("disk".to_string()))
    );
    assert_eq!(st.flush(|_t: &StateTree<&'static str>| Ok(cid(9))), Ok(cid(9)));
    assert_eq!(st.get_actor(&secp(1)), Ok(Some(record(1, None))));
}

#[test]
fn address_constructors_check_lengths() {
    assert!(Address::new_keyed(Protocol::Secp256k1, vec![0; 20]).is_some());
    assert!(Address::new_keyed(Protocol::Secp256k1, vec![0; 21]).is_none());
    assert!(Address::new_keyed(Protocol::Actor, vec![0; 20]).is_some());
    assert!(Address::new_keyed(Protocol::BLS, vec![0; 48]).is_some());
    assert!(Address::new_keyed(Protocol::BLS, vec![0; 20]).is_none());
    assert!(Address::new_keyed(Protocol::ID, vec![]).is_none());
    assert!(Address::new_keyed(Protocol::Delegated, vec![0; 20]).is_none());
    assert!(Address::new_delegated(1, vec![0; 54]).is_some());
    assert!(Address::new_delegated(1, vec![0; 55]).is_none());
    let a = Address::new_id(3);
    assert_eq!(a.protocol(), Protocol::ID);
    assert_eq!(a.number(), 3);
    assert!(a.payload().is_empty());
    assert!(a.same(&Address::new_id(3)));
    assert!(!a.same(&Address::new_id(4)));
    assert_eq!(a.duplicate(), a);
}
