use std::str::FromStr;

use anchor_lang::prelude::Pubkey;
use lazorkit::address::{PROGRAM_ID, SECP256R1_PROGRAM_ID, SYSTEM_PROGRAM_ID, TOKEN_PROGRAM_ID};
use lazorkit::rule_gateway::{RuleOperation, CHECK_RULE_DISCRIMINATOR, DESTROY_DISCRIMINATOR, INIT_RULE_DISCRIMINATOR};

#[test]
fn program_ids_match_their_published_addresses() {
    assert_eq!(Pubkey::from_str("9gJ7jZaAvUafgTFPoqkCwbuvC9kpZCPtHfHjMkQ66wu9").unwrap().to_bytes(), PROGRAM_ID);
    assert_eq!(
        Pubkey::from_str("Secp256r1SigVerify1111111111111111111111111").unwrap().to_bytes(),
        SECP256R1_PROGRAM_ID
    );
    assert_eq!(anchor_lang::solana_program::system_program::ID.to_bytes(), SYSTEM_PROGRAM_ID);
    assert_eq!(anchor_spl::token::ID.to_bytes(), TOKEN_PROGRAM_ID);
}

#[test]
fn operation_tags_are_instruction_discriminators() {
    for (name, tag) in [
        ("check_rule", CHECK_RULE_DISCRIMINATOR),
        ("destroy", DESTROY_DISCRIMINATOR),
        ("init_rule", INIT_RULE_DISCRIMINATOR),
    ] {
        let digest = anchor_lang::solana_program::hash::hash(format!("global:{}", name).as_bytes()).to_bytes();
        assert_eq!(&digest[..8], &tag[..]);
    }
    assert_eq!(RuleOperation::CheckRule.tag(), CHECK_RULE_DISCRIMINATOR);
    assert_eq!(RuleOperation::Destroy.tag(), DESTROY_DISCRIMINATOR);
    assert_eq!(RuleOperation::InitRule.tag(), INIT_RULE_DISCRIMINATOR);
}
