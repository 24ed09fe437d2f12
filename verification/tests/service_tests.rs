use std::collections::HashMap;

use yral_metadata::error::{AuthError, Error};
use yral_metadata::principal::Principal;
use yral_metadata::service::{get_user_metadata, set_user_metadata};
use yral_metadata::types::UserMetadata;

type Store = HashMap<Vec<u8>, Vec<u8>>;

fn record(canister: &[u8], name: &[u8]) -> UserMetadata {
    let p = Principal::try_from_slice(canister).unwrap();
    UserMetadata::new(p, name.to_vec())
}

fn apply_set(
    store: &mut Store,
    principal: &Principal,
    m: &UserMetadata,
    verified: bool,
) -> Result<(), Error> {
    let plan = set_user_metadata(principal, m, verified)?;
    store.insert(plan.key, plan.value);
    Ok(())
}

fn read(store: &Store, principal: &Principal) -> Result<Option<UserMetadata>, Error> {
    let key = principal.to_text();
    get_user_metadata(store.get(&key))
}

#[test]
fn set_then_get_returns_written_metadata() {
    let mut store = Store::new();
    let p = Principal::try_from_slice(&[1, 2, 3]).unwrap();
    let m = record(&[4, 5], b"alice");
    apply_set(&mut store, &p, &m, true).unwrap();
    assert_eq!(read(&store, &p).unwrap(), Some(m));
}

#[test]
fn rejected_set_leaves_prior_value() {
    let mut store = Store::new();
    let p = Principal::try_from_slice(&[1]).unwrap();
    let first = record(&[2], b"first");
    apply_set(&mut store, &p, &first, true).unwrap();

    let second = record(&[3], b"second");
    let r = apply_set(&mut store, &p, &second, false);
    assert_eq!(r, Err(Error::Auth(AuthError::InvalidSignature)));
    assert_eq!(read(&store, &p).unwrap(), Some(first));
}

#[test]
fn rejected_set_on_empty_store_stores_nothing() {
    let mut store = Store::new();
    let p = Principal::try_from_slice(&[1]).unwrap();
    let m = record(&[2], b"x");
    let r = apply_set(&mut store, &p, &m, false);
    assert_eq!(r, Err(Error::Auth(AuthError::InvalidSignature)));
    assert!(store.is_empty());
    assert_eq!(read(&store, &p).unwrap(), None);
}

#[test]
fn get_never_written_is_empty_success() {
    let store = Store::new();
    let p = Principal::try_from_slice(&[9, 9]).unwrap();
    assert_eq!(read(&store, &p).unwrap(), None);
}

#[test]
fn get_undecodable_row_is_serialization_error() {
    let row = b"corrupted".to_vec();
    assert_eq!(
        get_user_metadata(Some(&row)),
        Err(Error::Serialization)
    );
}

#[test]
fn last_write_wins_no_merge() {
    let mut store = Store::new();
    let p = Principal::try_from_slice(&[1]).unwrap();
    let m1 = record(&[2], b"one");
    let m2 = record(&[3], b"two");
    apply_set(&mut store, &p, &m1, true).unwrap();
    apply_set(&mut store, &p, &m2, true).unwrap();
    assert_eq!(store.len(), 1);
    assert_eq!(read(&store, &p).unwrap(), Some(m2));
}

#[test]
fn writes_to_distinct_principals_do_not_interfere() {
    let mut store = Store::new();
    let p1 = Principal::try_from_slice(&[1]).unwrap();
    let p2 = Principal::try_from_slice(&[2]).unwrap();
    let m1 = record(&[7], b"one");
    let m2 = record(&[8], b"two");
    apply_set(&mut store, &p1, &m1, true).unwrap();
    apply_set(&mut store, &p2, &m2, true).unwrap();
    assert_eq!(read(&store, &p1).unwrap(), Some(m1));
    assert_eq!(read(&store, &p2).unwrap(), Some(m2));
}
