use yral_metadata::codec::{decode_record, encode_record};
use yral_metadata::error::Error;
use yral_metadata::principal::Principal;
use yral_metadata::types::UserMetadata;

fn meta(canister: &[u8], name: &[u8]) -> UserMetadata {
    let p = Principal::try_from_slice(canister).unwrap();
    UserMetadata::new(p, name.to_vec())
}

fn roundtrip(canister: &[u8], name: &[u8]) {
    let m = meta(canister, name);
    let bytes = encode_record(&m);
    let back = decode_record(bytes.as_slice()).unwrap();
    assert_eq!(back, m);
}

#[test]
fn encode_matches_reference_json() {
    // for names without control bytes the canonical form coincides with the
    // reference JSON serializer's output (object keys are already in order)
    let m = meta(&[1, 2, 3], b"alice");
    let bytes = encode_record(&m);
    let text = candid::Principal::from_slice(&[1, 2, 3]).to_text();
    let mut map = serde_json::Map::new();
    map.insert(
        "user_canister_id".to_string(),
        serde_json::Value::String(text),
    );
    map.insert(
        "user_name".to_string(),
        serde_json::Value::String("alice".to_string()),
    );
    let reference = serde_json::to_vec(&serde_json::Value::Object(map)).unwrap();
    assert_eq!(bytes, reference);
}

#[test]
fn encode_escapes_like_reference_json() {
    let m = meta(&[9], b"a\"b\\c");
    let bytes = encode_record(&m);
    let text = candid::Principal::from_slice(&[9]).to_text();
    let mut map = serde_json::Map::new();
    map.insert(
        "user_canister_id".to_string(),
        serde_json::Value::String(text),
    );
    map.insert(
        "user_name".to_string(),
        serde_json::Value::String("a\"b\\c".to_string()),
    );
    let reference = serde_json::to_vec(&serde_json::Value::Object(map)).unwrap();
    assert_eq!(bytes, reference);
}

#[test]
fn roundtrip_plain_name() {
    roundtrip(&[1, 2, 3, 4], b"alice");
}

#[test]
fn roundtrip_empty_name() {
    roundtrip(&[5, 6], b"");
}

#[test]
fn roundtrip_empty_principal() {
    roundtrip(&[], b"management");
}

#[test]
fn roundtrip_longest_principal() {
    roundtrip(&[0xabu8; 29], b"edge");
}

#[test]
fn roundtrip_escaped_name() {
    roundtrip(&[7], b"quote\" back\\slash \x01\x1f\ntab\t end");
}

#[test]
fn roundtrip_unicode_name() {
    roundtrip(&[8, 9], "überraschung \u{1F980}".as_bytes());
}

#[test]
fn decode_rejects_garbage() {
    assert_eq!(decode_record(b"not json at all"), Err(Error::Serialization));
    assert_eq!(decode_record(b""), Err(Error::Serialization));
}

#[test]
fn decode_rejects_wrong_field_order() {
    let text = candid::Principal::from_slice(&[1]).to_text();
    let swapped = format!("{{\"user_name\":\"x\",\"user_canister_id\":\"{}\"}}", text);
    assert_eq!(
        decode_record(swapped.as_bytes()),
        Err(Error::Serialization)
    );
}

#[test]
fn decode_rejects_trailing_data() {
    let m = meta(&[1], b"x");
    let mut bytes = encode_record(&m);
    bytes.push(b' ');
    assert_eq!(decode_record(bytes.as_slice()), Err(Error::Serialization));
}

#[test]
fn decode_rejects_bad_principal_text() {
    assert_eq!(
        decode_record(b"{\"user_canister_id\":\"zzzzz-zzzzz\",\"user_name\":\"x\"}"),
        Err(Error::Serialization)
    );
}

#[test]
fn decode_rejects_noncanonical_escapes() {
    let text = candid::Principal::from_slice(&[1]).to_text();
    // \u0041 is 'A', which the canonical form never escapes
    let a = format!(
        "{{\"user_canister_id\":\"{}\",\"user_name\":\"\\u0041\"}}",
        text
    );
    assert_eq!(decode_record(a.as_bytes()), Err(Error::Serialization));
    // upper-case hex digits are not canonical
    let b = format!(
        "{{\"user_canister_id\":\"{}\",\"user_name\":\"\\u000A\"}}",
        text
    );
    assert_eq!(decode_record(b.as_bytes()), Err(Error::Serialization));
    // a raw control byte is never stored
    let c = format!("{{\"user_canister_id\":\"{}\",\"user_name\":\"\n\"}}", text);
    assert_eq!(decode_record(c.as_bytes()), Err(Error::Serialization));
}

#[test]
fn decode_accepts_canonical_control_escape() {
    let m = meta(&[2], b"\n");
    let bytes = encode_record(&m);
    let as_text = String::from_utf8(bytes.clone()).unwrap();
    assert!(as_text.contains("\\u000a"));
    assert_eq!(decode_record(bytes.as_slice()).unwrap(), m);
}
