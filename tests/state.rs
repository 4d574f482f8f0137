use anchor_lang::prelude::Pubkey;
use lazorkit::address::{Address, PROGRAM_ID};
use lazorkit::challenge::to_hashed_bytes;
use lazorkit::error::LazorKitError;
use lazorkit::rule_gateway::{upsert_whitelist_rule_programs, WhitelistRulePrograms};
use lazorkit::state::{create_smart_wallet, initialize, wallet_signer};

#[test]
fn initialize_sets_no_fees() {
    let (config, seq) = initialize(Address::new([1u8; 32]), Address::new([2u8; 32]));
    assert_eq!(config.authority.bytes, [1u8; 32]);
    assert_eq!(config.default_rule_program.bytes, [2u8; 32]);
    assert_eq!((config.create_smart_wallet_fee, config.execute_instruction_fee, seq), (0, 0, 0));
}

fn derived(seeds: &[&[u8]]) -> (Pubkey, u8) {
    Pubkey::find_program_address(seeds, &Pubkey::new_from_array(PROGRAM_ID))
}

#[test]
fn new_wallet_takes_counter_and_default_rule() {
    let (config, _) = initialize(Address::new([1u8; 32]), Address::new([2u8; 32]));
    let mut seq: u64 = 41;
    let w = create_smart_wallet(&mut seq, &config, [4u8; 33], vec![5, 6]).unwrap();
    assert_eq!(seq, 42);
    let (wallet, wallet_bump) = derived(&[b"smart_wallet", &41u64.to_le_bytes()]);
    assert_eq!(w.smart_wallet.bytes, wallet.to_bytes());
    let c = w.smart_wallet_config;
    assert_eq!((c.id, c.last_nonce, c.bump), (41, 0, wallet_bump));
    assert_eq!(c.rule_program.bytes, [2u8; 32]);
    let a = &w.smart_wallet_authenticator;
    assert_eq!(a.passkey_pubkey, [4u8; 33]);
    assert_eq!(a.smart_wallet.bytes, wallet.to_bytes());
    assert_eq!(a.credential_id, vec![5, 6]);
    let hashed = to_hashed_bytes(&[4u8; 33], &w.smart_wallet);
    let (record, record_bump) = derived(&[b"smart_wallet_authenticator", &wallet.to_bytes(), &hashed]);
    assert_eq!(w.authenticator_address.bytes, record.to_bytes());
    assert_eq!(a.bump, record_bump);
}

#[test]
fn long_credential_id_is_rejected() {
    let (config, _) = initialize(Address::new([1u8; 32]), Address::new([2u8; 32]));
    let mut seq: u64 = 3;
    assert_eq!(
        create_smart_wallet(&mut seq, &config, [4u8; 33], vec![0u8; 257]).unwrap_err(),
        LazorKitError::CredentialIdTooLong
    );
    assert_eq!(seq, 3);
    assert!(create_smart_wallet(&mut seq, &config, [4u8; 33], vec![0u8; 256]).is_ok());
    assert_eq!(seq, 4);
}

#[test]
fn wallet_signer_seeds_hold_id_bytes() {
    let (config, _) = initialize(Address::new([1u8; 32]), Address::new([2u8; 32]));
    let mut seq: u64 = 0x0102;
    let w = create_smart_wallet(&mut seq, &config, [4u8; 33], vec![]).unwrap();
    let signer = wallet_signer(&w.smart_wallet_config);
    assert_eq!(signer.seeds, vec![b"smart_wallet".to_vec(), 0x0102u64.to_le_bytes().to_vec()]);
    assert_eq!(signer.bump, w.smart_wallet_config.bump);
}

#[test]
fn whitelist_upsert_is_idempotent_and_keeps_default() {
    let default_rule = Address::new([2u8; 32]);
    let mut w = WhitelistRulePrograms::new(default_rule);
    assert!(w.is_whitelisted(&default_rule));
    let other = Address::new([3u8; 32]);
    assert!(!w.is_whitelisted(&other));
    upsert_whitelist_rule_programs(&mut w, other);
    upsert_whitelist_rule_programs(&mut w, other);
    upsert_whitelist_rule_programs(&mut w, default_rule);
    assert_eq!(w.list.len(), 2);
    assert!(w.is_whitelisted(&other));
    assert!(w.is_whitelisted(&default_rule));
}
