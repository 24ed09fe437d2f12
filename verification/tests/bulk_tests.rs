use std::collections::HashMap;

use ed25519_dalek::pkcs8::spki::der::pem::LineEnding;
use ed25519_dalek::pkcs8::{EncodePrivateKey, EncodePublicKey};
use ed25519_dalek::SigningKey;
use jsonwebtoken::{encode, Algorithm, EncodingKey, Header};
use rand::rngs::OsRng;

use yral_metadata::auth::{ExpectedClaims, JwtDetails, JwtInterceptor};
use yral_metadata::bulk::{aggregate_outcomes, chunk_ranges, plan_bulk_delete};
use yral_metadata::error::{AuthError, Error, StoreError};
use yral_metadata::principal::Principal;
use yral_metadata::service::{get_user_metadata, set_user_metadata};
use yral_metadata::types::{BulkUsers, UserMetadata};

type Store = HashMap<Vec<u8>, Vec<u8>>;

const FUTURE_EXP: u64 = 4102444800;

fn valid_setup() -> (JwtInterceptor, Vec<u8>) {
    let key = SigningKey::generate(&mut OsRng);
    let key_pem = key.to_pkcs8_pem(LineEnding::LF).unwrap();
    let enc = EncodingKey::from_ed_pem(key_pem.as_bytes()).unwrap();
    let pub_pem = key
        .verifying_key()
        .to_public_key_pem(LineEnding::LF)
        .unwrap();
    let mut map = serde_json::Map::new();
    map.insert(
        "sub".to_string(),
        serde_json::Value::String("off-chain-agent".to_string()),
    );
    map.insert(
        "company".to_string(),
        serde_json::Value::String("gobazzinga".to_string()),
    );
    map.insert(
        "exp".to_string(),
        serde_json::Value::Number(serde_json::Number::from(FUTURE_EXP)),
    );
    let token = encode(
        &Header::new(Algorithm::EdDSA),
        &serde_json::Value::Object(map),
        &enc,
    )
    .unwrap();
    let jwt = JwtInterceptor::new(JwtDetails {
        public_key_pem: pub_pem.into_bytes(),
        expected: ExpectedClaims {
            sub: "off-chain-agent".to_string(),
            company: "gobazzinga".to_string(),
            exp: None,
        },
    });
    (jwt, format!("Bearer {}", token).into_bytes())
}

fn populate(store: &mut Store, principals: &[Principal]) {
    for (i, p) in principals.iter().enumerate() {
        let m = UserMetadata::new(
            Principal::try_from_slice(&[i as u8 + 100]).unwrap(),
            format!("user{}", i).into_bytes(),
        );
        let plan = set_user_metadata(p, &m, true).unwrap();
        store.insert(plan.key, plan.value);
    }
}

#[test]
fn bulk_delete_removes_all_records() {
    let (jwt, header) = valid_setup();
    let principals: Vec<Principal> = (1u8..=5)
        .map(|i| Principal::try_from_slice(&[i]).unwrap())
        .collect();
    let mut store = Store::new();
    populate(&mut store, &principals);
    assert_eq!(store.len(), 5);

    let req = BulkUsers::new(principals.clone());
    let keys = plan_bulk_delete(&jwt, Some(&header), &req).unwrap();
    assert_eq!(keys.len(), 5);

    // every delete succeeds at the backend
    let mut outcomes: Vec<(Vec<u8>, Result<(), StoreError>)> = Vec::new();
    for key in keys {
        store.remove(&key);
        outcomes.push((key, Ok(())));
    }
    assert_eq!(aggregate_outcomes(&outcomes), Ok(()));

    for p in &principals {
        let key = p.to_text();
        assert_eq!(get_user_metadata(store.get(&key)).unwrap(), None);
    }
}

#[test]
fn bulk_delete_reports_exactly_the_failing_key() {
    let (jwt, header) = valid_setup();
    let principals: Vec<Principal> = (1u8..=4)
        .map(|i| Principal::try_from_slice(&[i]).unwrap())
        .collect();
    let mut store = Store::new();
    populate(&mut store, &principals);

    let req = BulkUsers::new(principals.clone());
    let keys = plan_bulk_delete(&jwt, Some(&header), &req).unwrap();

    // the backend fails on the third key and succeeds on the rest
    let failing = keys[2].clone();
    let mut outcomes: Vec<(Vec<u8>, Result<(), StoreError>)> = Vec::new();
    for (i, key) in keys.into_iter().enumerate() {
        if i == 2 {
            outcomes.push((key, Err(StoreError::OperationFailure)));
        } else {
            store.remove(&key);
            outcomes.push((key, Ok(())));
        }
    }
    match aggregate_outcomes(&outcomes) {
        Err(Error::BulkDelete(fails)) => {
            assert_eq!(fails.len(), 1);
            assert_eq!(fails[0].0, failing);
            assert_eq!(fails[0].1, StoreError::OperationFailure);
        }
        other => panic!("expected a bulk-delete failure, got {:?}", other),
    }

    // the other three records are gone, the failing one survives
    for (i, p) in principals.iter().enumerate() {
        let key = p.to_text();
        let read = get_user_metadata(store.get(&key)).unwrap();
        if i == 2 {
            assert!(read.is_some());
        } else {
            assert_eq!(read, None);
        }
    }
}

#[test]
fn bulk_delete_without_token_is_rejected() {
    let (jwt, _) = valid_setup();
    let req = BulkUsers::new(vec![Principal::try_from_slice(&[1]).unwrap()]);
    assert_eq!(
        plan_bulk_delete(&jwt, None, &req),
        Err(Error::Auth(AuthError::TokenMissing))
    );
}

#[test]
fn bulk_delete_with_bad_token_is_rejected() {
    let (jwt, _) = valid_setup();
    let req = BulkUsers::new(vec![Principal::try_from_slice(&[1]).unwrap()]);
    let header = b"Bearer nonsense".to_vec();
    assert_eq!(
        plan_bulk_delete(&jwt, Some(&header), &req),
        Err(Error::Auth(AuthError::TokenMalformed))
    );
}

#[test]
fn duplicate_principals_get_one_key_each() {
    let (jwt, header) = valid_setup();
    let p = Principal::try_from_slice(&[7]).unwrap();
    let req = BulkUsers::new(vec![p.clone(), p.clone()]);
    let keys = plan_bulk_delete(&jwt, Some(&header), &req).unwrap();
    assert_eq!(keys.len(), 2);
    assert_eq!(keys[0], keys[1]);
    assert_eq!(keys[0], p.to_text());
}

#[test]
fn chunk_ranges_bounds_fanout() {
    assert_eq!(chunk_ranges(0, 100), vec![]);
    assert_eq!(chunk_ranges(50, 100), vec![(0, 50)]);
    assert_eq!(
        chunk_ranges(250, 100),
        vec![(0, 100), (100, 200), (200, 250)]
    );
    assert_eq!(chunk_ranges(100, 100), vec![(0, 100)]);
}

#[test]
fn aggregate_of_empty_outcome_list_is_success() {
    let outcomes: Vec<(Vec<u8>, Result<(), StoreError>)> = Vec::new();
    assert_eq!(aggregate_outcomes(&outcomes), Ok(()));
}

#[test]
fn aggregate_keeps_every_failure_with_its_reason() {
    let outcomes: Vec<(Vec<u8>, Result<(), StoreError>)> = vec![
        (b"a".to_vec(), Err(StoreError::ConnectionFailure)),
        (b"b".to_vec(), Ok(())),
        (b"c".to_vec(), Err(StoreError::OperationFailure)),
    ];
    match aggregate_outcomes(&outcomes) {
        Err(Error::BulkDelete(fails)) => {
            assert_eq!(
                fails,
                vec![
                    (b"a".to_vec(), StoreError::ConnectionFailure),
                    (b"c".to_vec(), StoreError::OperationFailure),
                ]
            );
        }
        other => panic!("expected a bulk-delete failure, got {:?}", other),
    }
}
