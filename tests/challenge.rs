use base64::Engine;
use lazorkit::address::Address;
use lazorkit::challenge::{decode_challenge, decode_client_data, parse_message, signed_message, to_hashed_bytes, trim_challenge};
use lazorkit::error::LazorKitError;

fn encode_message(nonce: u64, slot: i64, data: &[u8]) -> Vec<u8> {
    let mut b = nonce.to_le_bytes().to_vec();
    b.extend_from_slice(&slot.to_le_bytes());
    b.extend_from_slice(&(data.len() as u32).to_le_bytes());
    b.extend_from_slice(data);
    b
}

fn client_json(challenge: &str) -> Vec<u8> {
    format!(
        "{{\"type\":\"webauthn.get\",\"challenge\":\"{}\",\"origin\":\"https://wallet.example\"}}",
        challenge
    )
    .into_bytes()
}

fn b64(b: &[u8]) -> String {
    base64::engine::general_purpose::URL_SAFE_NO_PAD.encode(b)
}

#[test]
fn parse_message_reads_layout() {
    let m = parse_message(&encode_message(5, -7, &[9, 8, 7])).unwrap();
    assert_eq!(m.nonce, 5);
    assert_eq!(m.current_slot, -7);
    assert_eq!(m.instruction_data, vec![9, 8, 7]);
}

#[test]
fn parse_message_reads_extremes() {
    let m = parse_message(&encode_message(u64::MAX, i64::MIN, &[])).unwrap();
    assert_eq!(m.nonce, u64::MAX);
    assert_eq!(m.current_slot, i64::MIN);
    assert!(m.instruction_data.is_empty());
}

#[test]
fn parse_message_rejects_trailing_and_missing_bytes() {
    let mut b = encode_message(1, 2, &[3]);
    b.push(0);
    assert_eq!(parse_message(&b).unwrap_err(), LazorKitError::ChallengeDeserializationError);
    let b = encode_message(1, 2, &[3, 4]);
    assert_eq!(parse_message(&b[..b.len() - 1]).unwrap_err(), LazorKitError::ChallengeDeserializationError);
    assert_eq!(parse_message(&[0u8; 19]).unwrap_err(), LazorKitError::ChallengeDeserializationError);
}

#[test]
fn trim_strips_quoting_characters_at_both_ends() {
    assert_eq!(trim_challenge(b"\"'/ ab/c '\"/"), b"ab/c".to_vec());
    assert_eq!(trim_challenge(b"abc"), b"abc".to_vec());
    assert_eq!(trim_challenge(b"\"' /"), Vec::<u8>::new());
    assert_eq!(trim_challenge(b""), Vec::<u8>::new());
}

#[test]
fn client_data_decodes_to_message() {
    let raw = client_json(&b64(&encode_message(42, 1000, &[1, 2, 3])));
    let m = decode_client_data(&raw).unwrap();
    assert_eq!(m.nonce, 42);
    assert_eq!(m.current_slot, 1000);
    assert_eq!(m.instruction_data, vec![1, 2, 3]);
}

#[test]
fn quoted_challenge_is_trimmed_before_decoding() {
    let inner = format!("'/{}/ '", b64(&encode_message(3, 4, &[])));
    let m = decode_challenge(inner.as_bytes()).unwrap();
    assert_eq!(m.nonce, 3);
    assert_eq!(m.current_slot, 4);
}

#[test]
fn invalid_utf8_is_rejected() {
    assert_eq!(decode_client_data(&[0x7b, 0xff, 0x7d]).unwrap_err(), LazorKitError::ClientDataInvalidUtf8);
}

#[test]
fn invalid_json_is_rejected() {
    assert_eq!(decode_client_data(b"{\"challenge\":").unwrap_err(), LazorKitError::ClientDataJsonParseError);
}

#[test]
fn missing_challenge_is_rejected() {
    assert_eq!(decode_client_data(b"{\"type\":\"webauthn.get\"}").unwrap_err(), LazorKitError::ChallengeMissing);
    assert_eq!(decode_client_data(b"{\"challenge\":17}").unwrap_err(), LazorKitError::ChallengeMissing);
    assert_eq!(decode_client_data(b"[1,2]").unwrap_err(), LazorKitError::ChallengeMissing);
}

#[test]
fn bad_base64_is_rejected() {
    assert_eq!(decode_client_data(&client_json("ab*cd")).unwrap_err(), LazorKitError::ChallengeBase64DecodeError);
    assert_eq!(decode_client_data(&client_json("AAAA==")).unwrap_err(), LazorKitError::ChallengeBase64DecodeError);
}

#[test]
fn bad_layout_is_rejected() {
    assert_eq!(
        decode_client_data(&client_json(&b64(&[1, 2, 3]))).unwrap_err(),
        LazorKitError::ChallengeDeserializationError
    );
}

#[test]
fn signed_message_appends_client_data_digest() {
    let auth = vec![1u8, 2, 3];
    let client = b"client".to_vec();
    let m = signed_message(&auth, &client);
    let digest = anchor_lang::solana_program::hash::hash(&client).to_bytes();
    assert_eq!(m.len(), 35);
    assert_eq!(&m[..3], &auth[..]);
    assert_eq!(&m[3..], &digest[..]);
    assert_ne!(&m[3..], &client[..]);
}

#[test]
fn hashed_passkey_seed_is_digest_of_key_and_wallet() {
    let key = [5u8; 33];
    let wallet = Address::new([6u8; 32]);
    let mut buf = key.to_vec();
    buf.extend_from_slice(&wallet.bytes);
    let expected = anchor_lang::solana_program::hash::hash(&buf).to_bytes();
    assert_eq!(to_hashed_bytes(&key, &wallet), expected);
}
