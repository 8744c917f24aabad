use rcon::ids::{successor, AUTH_FAILURE_ID, FIRST_ID, LAST_ID};
use rcon::RequestIdGenerator;

#[test]
fn first_id_is_one() {
    let mut ids = RequestIdGenerator::new();
    assert_eq!(ids.next(), 1);
    assert_eq!(FIRST_ID, 1);
}

#[test]
fn ids_strictly_increase() {
    let mut ids = RequestIdGenerator::new();
    let mut last = ids.next();
    for _ in 0..10_000 {
        let id = ids.next();
        assert_eq!(id, last + 1);
        assert!(id > last);
        last = id;
    }
}

#[test]
fn generators_do_not_share_state() {
    let mut a = RequestIdGenerator::new();
    let mut b = RequestIdGenerator::new();
    assert_eq!(a.next(), 1);
    assert_eq!(a.next(), 2);
    assert_eq!(b.next(), 1);
    assert_eq!(a.next(), 3);
    assert_eq!(b.next(), 2);
}

#[test]
fn successor_adds_one() {
    assert_eq!(successor(1), 2);
    assert_eq!(successor(2), 3);
    assert_eq!(successor(41), 42);
    assert_eq!(successor(i32::MAX - 1), i32::MAX);
}

#[test]
fn successor_of_the_last_id_is_one() {
    assert_eq!(LAST_ID, i32::MAX);
    assert_eq!(successor(LAST_ID), 1);
    assert_ne!(successor(LAST_ID), 0);
    assert!(successor(LAST_ID) > 0);
}

#[test]
fn failure_id_is_minus_one() {
    assert_eq!(AUTH_FAILURE_ID, -1);
}
