use lazorkit::address::{Address, SECP256R1_PROGRAM_ID};
use lazorkit::challenge::signed_message;
use lazorkit::error::LazorKitError;
use lazorkit::instruction::{AccountMeta, Instruction};
use lazorkit::secp::{slice_eq, verify_secp256r1_instruction};

fn record(pubkey: &[u8; 33], sig: &[u8], msg: &[u8]) -> Instruction {
    let n = msg.len();
    let mut data = vec![1u8, 0, 49, 0, 0xFF, 0xFF, 16, 0, 0xFF, 0xFF, 113, 0];
    data.push((n % 256) as u8);
    data.push((n / 256) as u8);
    data.push(0xFF);
    data.push(0xFF);
    data.extend_from_slice(pubkey);
    data.extend_from_slice(sig);
    data.extend_from_slice(msg);
    Instruction { program_id: Address::new(SECP256R1_PROGRAM_ID), accounts: vec![], data }
}

fn key() -> [u8; 33] {
    let mut k = [7u8; 33];
    k[0] = 2;
    k
}

fn sig() -> Vec<u8> {
    (0..64u8).collect()
}

#[test]
fn matching_record_verifies() {
    let msg = b"hello passkey".to_vec();
    let ix = record(&key(), &sig(), &msg);
    assert_eq!(verify_secp256r1_instruction(&ix, &key(), &msg, &sig()), Ok(()));
}

#[test]
fn record_of_other_program_is_rejected() {
    let msg = b"m".to_vec();
    let mut ix = record(&key(), &sig(), &msg);
    ix.program_id = Address::new([1u8; 32]);
    assert_eq!(
        verify_secp256r1_instruction(&ix, &key(), &msg, &sig()),
        Err(LazorKitError::Secp256r1InvalidLength)
    );
}

#[test]
fn record_with_accounts_is_rejected() {
    let msg = b"m".to_vec();
    let mut ix = record(&key(), &sig(), &msg);
    ix.accounts.push(AccountMeta { pubkey: Address::new([3u8; 32]), is_signer: false, is_writable: false });
    assert_eq!(
        verify_secp256r1_instruction(&ix, &key(), &msg, &sig()),
        Err(LazorKitError::Secp256r1InvalidLength)
    );
}

#[test]
fn record_of_wrong_length_is_rejected() {
    let msg = b"message".to_vec();
    let ix = record(&key(), &sig(), &msg);
    let shorter = b"messag".to_vec();
    assert_eq!(
        verify_secp256r1_instruction(&ix, &key(), &shorter, &sig()),
        Err(LazorKitError::Secp256r1InvalidLength)
    );
}

#[test]
fn every_header_field_is_checked() {
    let msg = b"message".to_vec();
    for pos in [0usize, 2, 3, 4, 5, 6, 7, 8, 9, 10, 11, 12, 13, 14, 15] {
        let mut ix = record(&key(), &sig(), &msg);
        ix.data[pos] ^= 1;
        assert_eq!(
            verify_secp256r1_instruction(&ix, &key(), &msg, &sig()),
            Err(LazorKitError::Secp256r1HeaderMismatch),
            "header byte {}",
            pos
        );
    }
}

#[test]
fn padding_byte_of_header_is_not_checked() {
    let msg = b"message".to_vec();
    let mut ix = record(&key(), &sig(), &msg);
    ix.data[1] = 9;
    assert_eq!(verify_secp256r1_instruction(&ix, &key(), &msg, &sig()), Ok(()));
}

#[test]
fn payload_mismatch_is_rejected() {
    let msg = b"message".to_vec();
    for pos in [16usize, 48, 49, 112, 113, 119] {
        let mut ix = record(&key(), &sig(), &msg);
        ix.data[pos] ^= 0x80;
        assert_eq!(
            verify_secp256r1_instruction(&ix, &key(), &msg, &sig()),
            Err(LazorKitError::Secp256r1DataMismatch),
            "payload byte {}",
            pos
        );
    }
}

#[test]
fn short_signature_is_rejected() {
    let msg = b"message".to_vec();
    let ix = record(&key(), &sig(), &msg);
    let mut short = sig();
    short.pop();
    assert_eq!(
        verify_secp256r1_instruction(&ix, &key(), &msg, &short),
        Err(LazorKitError::Secp256r1DataMismatch)
    );
}

#[test]
fn flipping_any_bit_of_the_request_breaks_verification() {
    let auth = vec![0x49u8, 0x96, 0x0d, 0xe5, 0x88, 0x0e, 0x8c, 0x68, 1, 0, 0, 0, 5];
    let client = br#"{"type":"webauthn.get","challenge":"abc"}"#.to_vec();
    let msg = signed_message(&auth, &client);
    let ix = record(&key(), &sig(), &msg);
    assert_eq!(verify_secp256r1_instruction(&ix, &key(), &msg, &sig()), Ok(()));
    for byte in 0..auth.len() {
        for bit in 0..8 {
            let mut a = auth.clone();
            a[byte] ^= 1 << bit;
            let m = signed_message(&a, &client);
            assert!(verify_secp256r1_instruction(&ix, &key(), &m, &sig()).is_err());
        }
    }
    for byte in 0..client.len() {
        for bit in 0..8 {
            let mut c = client.clone();
            c[byte] ^= 1 << bit;
            let m = signed_message(&auth, &c);
            assert!(verify_secp256r1_instruction(&ix, &key(), &m, &sig()).is_err());
        }
    }
    for byte in 0..64 {
        for bit in 0..8 {
            let mut s = sig();
            s[byte] ^= 1 << bit;
            assert!(verify_secp256r1_instruction(&ix, &key(), &msg, &s).is_err());
        }
    }
}

#[test]
fn slice_eq_compares_contents() {
    assert!(slice_eq(&[1, 2, 3], &[1, 2, 3]));
    assert!(!slice_eq(&[1, 2, 3], &[1, 2, 4]));
    assert!(!slice_eq(&[1, 2], &[1, 2, 3]));
    assert!(slice_eq(&[], &[]));
}
