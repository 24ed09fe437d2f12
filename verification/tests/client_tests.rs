use yral_metadata::client::{bulk_delete_body, metadata_path, set_user_metadata_body};
use yral_metadata::error::Error;
use yral_metadata::principal::Principal;
use yral_metadata::service::decode_set_request;
use yral_metadata::types::{BulkUsers, SetUserMetadataReq, UserMetadata};

fn meta(canister: &[u8], name: &str) -> UserMetadata {
    let p = Principal::try_from_slice(canister).unwrap();
    UserMetadata::new(p, name.as_bytes().to_vec())
}

#[test]
fn metadata_path_is_segment_plus_text() {
    let bytes = [1, 2, 3];
    let p = Principal::try_from_slice(&bytes).unwrap();
    let path = metadata_path(&p);
    let expected = format!(
        "metadata/{}",
        candid::Principal::from_slice(&bytes).to_text()
    );
    assert_eq!(path, expected.into_bytes());
}

#[test]
fn set_body_matches_reference_json() {
    let m = meta(&[4, 5], "alice");
    let mut sig_map = serde_json::Map::new();
    sig_map.insert(
        "sig".to_string(),
        serde_json::Value::String("deadbeef".to_string()),
    );
    let sig = serde_json::Value::Object(sig_map);
    let sig_bytes = serde_json::to_vec(&sig).unwrap();
    let req = SetUserMetadataReq::new(m, sig_bytes);
    let body = set_user_metadata_body(&req);

    let text = candid::Principal::from_slice(&[4, 5]).to_text();
    let mut meta_map = serde_json::Map::new();
    meta_map.insert(
        "user_canister_id".to_string(),
        serde_json::Value::String(text),
    );
    meta_map.insert(
        "user_name".to_string(),
        serde_json::Value::String("alice".to_string()),
    );
    let mut body_map = serde_json::Map::new();
    body_map.insert(
        "metadata".to_string(),
        serde_json::Value::Object(meta_map),
    );
    body_map.insert("signature".to_string(), sig);
    let reference = serde_json::to_vec(&serde_json::Value::Object(body_map)).unwrap();
    assert_eq!(body, reference);
}

#[test]
fn bulk_body_matches_reference_json() {
    let users: Vec<Principal> = vec![
        Principal::try_from_slice(&[1]).unwrap(),
        Principal::try_from_slice(&[2]).unwrap(),
        Principal::try_from_slice(&[3]).unwrap(),
    ];
    let body = bulk_delete_body(&BulkUsers::new(users));

    let texts: Vec<serde_json::Value> = [[1u8], [2], [3]]
        .iter()
        .map(|b| serde_json::Value::String(candid::Principal::from_slice(b).to_text()))
        .collect();
    let mut map = serde_json::Map::new();
    map.insert("users".to_string(), serde_json::Value::Array(texts));
    let reference = serde_json::to_vec(&serde_json::Value::Object(map)).unwrap();
    assert_eq!(body, reference);
}

#[test]
fn bulk_body_of_no_users() {
    let body = bulk_delete_body(&BulkUsers::new(vec![]));
    assert_eq!(body, b"{\"users\":[]}".to_vec());
}

#[test]
fn decode_set_request_cases() {
    let m = meta(&[1], "x");
    let ok = decode_set_request(&[2, 3], Some(m.clone())).unwrap();
    assert_eq!(ok.0.as_slice(), &[2, 3]);
    assert_eq!(ok.1, m);

    assert_eq!(
        decode_set_request(&[0u8; 30], Some(m.clone())),
        Err(Error::InvalidPrincipal)
    );
    assert_eq!(decode_set_request(&[2, 3], None), Err(Error::MetadataMissing));
}
