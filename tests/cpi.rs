use anchor_lang::prelude::Pubkey;
use lazorkit::address::{Address, PROGRAM_ID};
use lazorkit::cpi::{account_window, create_cpi_instruction, is_sol_transfer, prepare_cpi, transfer_sol_from_pda, AccountInfo, PdaSigner};
use lazorkit::error::LazorKitError;

fn account(key: Address, is_signer: bool, lamports: u64) -> AccountInfo {
    AccountInfo { key, is_signer, is_writable: true, owner: Address::new(PROGRAM_ID), lamports }
}

fn derived(seeds: &[&[u8]]) -> (Address, u8) {
    let (k, b) = Pubkey::find_program_address(seeds, &Pubkey::new_from_array(PROGRAM_ID));
    (Address::new(k.to_bytes()), b)
}

#[test]
fn derived_identity_signs_and_others_keep_their_flags() {
    let (pda, bump) = derived(&[b"smart_wallet", &7u64.to_le_bytes()]);
    let accounts = vec![account(Address::new([1u8; 32]), true, 0), account(pda, false, 0), account(Address::new([2u8; 32]), false, 0)];
    let signer = PdaSigner { seeds: vec![b"smart_wallet".to_vec(), 7u64.to_le_bytes().to_vec()], bump };
    let target = Address::new([3u8; 32]);
    let ix = create_cpi_instruction(&accounts, vec![4, 5], &target, &Some(signer)).unwrap();
    assert_eq!(ix.program_id.bytes, [3u8; 32]);
    assert_eq!(ix.data, vec![4, 5]);
    let flags: Vec<bool> = ix.accounts.iter().map(|m| m.is_signer).collect();
    assert_eq!(flags, vec![true, true, false]);
    assert_eq!(ix.accounts[1].pubkey.bytes, pda.bytes);
}

#[test]
fn unsigned_call_keeps_flags() {
    let (pda, _) = derived(&[b"smart_wallet", &7u64.to_le_bytes()]);
    let accounts = vec![account(pda, false, 0)];
    let ix = create_cpi_instruction(&accounts, vec![], &Address::new([3u8; 32]), &None).unwrap();
    assert!(!ix.accounts[0].is_signer);
}

#[test]
fn prepared_call_carries_seeds_with_bump() {
    let (_, bump) = derived(&[b"abc"]);
    let accounts = vec![account(Address::new([1u8; 32]), false, 0)];
    let call = prepare_cpi(&accounts, &[1, 2, 3], &Address::new([3u8; 32]), Some(PdaSigner { seeds: vec![b"abc".to_vec()], bump })).unwrap();
    assert_eq!(call.signer_seeds, Some(vec![b"abc".to_vec(), vec![bump]]));
    assert_eq!(call.instruction.data, vec![1, 2, 3]);
    let unsigned = prepare_cpi(&accounts, &[1], &Address::new([3u8; 32]), None).unwrap();
    assert_eq!(unsigned.signer_seeds, None);
}

#[test]
fn seeds_that_cannot_derive_are_rejected() {
    let too_long = PdaSigner { seeds: vec![vec![0u8; 40]], bump: 1 };
    let accounts = vec![account(Address::new([1u8; 32]), false, 0)];
    assert_eq!(
        create_cpi_instruction(&accounts, vec![], &Address::new([3u8; 32]), &Some(too_long)).unwrap_err(),
        LazorKitError::InvalidBumpSeed
    );
}

#[test]
fn account_window_bounds() {
    let accounts: Vec<AccountInfo> = (0..4u8).map(|i| account(Address::new([i; 32]), false, 0)).collect();
    let w = account_window(&accounts, 1, 2).unwrap();
    assert_eq!(w.len(), 2);
    assert_eq!(w[0].key.bytes, [1u8; 32]);
    assert_eq!(w[1].key.bytes, [2u8; 32]);
    assert_eq!(account_window(&accounts, 4, 0).unwrap().len(), 0);
    assert_eq!(account_window(&accounts, 3, 2).unwrap_err(), LazorKitError::AccountSliceOutOfBounds);
    assert_eq!(account_window(&accounts, 255, 255).unwrap_err(), LazorKitError::AccountSliceOutOfBounds);
}

#[test]
fn sol_transfer_detection() {
    let system = Address::new([0u8; 32]);
    assert!(is_sol_transfer(&system, &[2, 0, 0, 0, 5]));
    assert!(!is_sol_transfer(&system, &[2, 0, 0]));
    assert!(!is_sol_transfer(&system, &[3, 0, 0, 0]));
    assert!(!is_sol_transfer(&Address::new([1u8; 32]), &[2, 0, 0, 0]));
}

#[test]
fn lamports_move_from_wallet_to_recipient() {
    let mut from = account(Address::new([1u8; 32]), false, 100);
    let mut to = account(Address::new([2u8; 32]), false, 5);
    assert_eq!(transfer_sol_from_pda(&mut from, &mut to, 30), Ok(()));
    assert_eq!(from.lamports, 70);
    assert_eq!(to.lamports, 35);
}

#[test]
fn lamport_transfer_errors_change_nothing() {
    let mut from = account(Address::new([1u8; 32]), false, 100);
    let mut to = account(Address::new([2u8; 32]), false, u64::MAX - 10);
    assert_eq!(transfer_sol_from_pda(&mut from, &mut to, 101), Err(LazorKitError::InsufficientLamports));
    assert_eq!(transfer_sol_from_pda(&mut from, &mut to, 11), Err(LazorKitError::TransferAmountOverflow));
    assert_eq!((from.lamports, to.lamports), (100, u64::MAX - 10));
    let mut foreign = from;
    foreign.owner = Address::new([0u8; 32]);
    assert_eq!(transfer_sol_from_pda(&mut foreign, &mut to, 1), Err(LazorKitError::InvalidAccountOwner));
    assert_eq!(foreign.lamports, 100);
}

#[test]
fn transfer_to_the_same_account_changes_nothing() {
    let mut from = account(Address::new([1u8; 32]), false, 100);
    let mut to = from;
    to.lamports = u64::MAX;
    assert_eq!(transfer_sol_from_pda(&mut from, &mut to, 40), Ok(()));
    assert_eq!((from.lamports, to.lamports), (100, u64::MAX));
    assert_eq!(transfer_sol_from_pda(&mut from, &mut to, 101), Err(LazorKitError::InsufficientLamports));
}
