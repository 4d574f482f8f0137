use vstd::prelude::*;

use crate::address::{Address, PROGRAM_ID};
use crate::challenge::{sha256_of, to_hashed_bytes};
use crate::cpi::{find_program_address, program_address, seed_views, PdaSigner};
use crate::error::LazorKitError;

verus! {

/// Seed prefix of a wallet's signing identity.
pub const SMART_WALLET_SEED: [u8; 12] = [115, 109, 97, 114, 116, 95, 119, 97, 108, 108, 101, 116];

/// Seed prefix of an authenticator record's identity.
pub const SMART_WALLET_AUTHENTICATOR_SEED: [u8; 26] = [
    115, 109, 97, 114, 116, 95, 119, 97, 108, 108, 101, 116, 95, 97, 117, 116, 104, 101, 110, 116,
    105, 99, 97, 116, 111, 114,
];

/// The most bytes a credential identifier may have.
pub const MAX_CREDENTIAL_ID_LEN: usize = 256;

/// The stored record of a wallet.
#[derive(Clone, Copy, Debug)]
pub struct SmartWalletConfig {
    /// The wallet's number; it seeds the wallet's signing identity.
    pub id: u64,
    /// The nonce that the next request must carry.
    pub last_nonce: u64,
    /// The rule module that governs the wallet.
    pub rule_program: Address,
    /// The bump of the wallet's signing identity.
    pub bump: u8,
}

/// A passkey registered for a wallet.
#[derive(Debug)]
pub struct SmartWalletAuthenticator {
    pub passkey_pubkey: [u8; 33],
    /// The wallet whose address, with the key, derives this record's address.
    pub smart_wallet: Address,
    pub credential_id: Vec<u8>,
    /// The bump of this record's identity.
    pub bump: u8,
}

impl SmartWalletAuthenticator {
    pub open spec fn well_formed(&self) -> bool {
        self.credential_id@.len() <= MAX_CREDENTIAL_ID_LEN
    }
}

/// Program-wide settings.
#[derive(Clone, Copy, Debug)]
pub struct Config {
    pub authority: Address,
    pub create_smart_wallet_fee: u64,
    pub execute_instruction_fee: u64,
    /// The rule module that every wallet can fall back to.
    pub default_rule_program: Address,
}

/// The little-endian bytes of `v`.
pub open spec fn u64_le_bytes(v: u64) -> Seq<u8> {
    seq![
        (v % 0x100) as u8,
        ((v / 0x100) % 0x100) as u8,
        ((v / 0x1_0000) % 0x100) as u8,
        ((v / 0x100_0000) % 0x100) as u8,
        ((v / 0x1_0000_0000) % 0x100) as u8,
        ((v / 0x100_0000_0000) % 0x100) as u8,
        ((v / 0x1_0000_0000_0000) % 0x100) as u8,
        ((v / 0x100_0000_0000_0000) % 0x100) as u8,
    ]
}

fn to_le_bytes(v: u64) -> (r: Vec<u8>)
    ensures
        r@ == u64_le_bytes(v),
{
    let mut r: Vec<u8> = Vec::new();
    r.push((v % 0x100) as u8);
    r.push(((v / 0x100) % 0x100) as u8);
    r.push(((v / 0x1_0000) % 0x100) as u8);
    r.push(((v / 0x100_0000) % 0x100) as u8);
    r.push(((v / 0x1_0000_0000) % 0x100) as u8);
    r.push(((v / 0x100_0000_0000) % 0x100) as u8);
    r.push(((v / 0x1_0000_0000_0000) % 0x100) as u8);
    r.push(((v / 0x100_0000_0000_0000) % 0x100) as u8);
    assert(r@ =~= u64_le_bytes(v));
    r
}

/// The seeds of the wallet's signing identity.
pub open spec fn wallet_seeds(id: u64) -> Seq<Seq<u8>> {
    seq![SMART_WALLET_SEED@, u64_le_bytes(id)]
}

/// The seeds of the identity of the authenticator record for `passkey` on
/// `wallet`.
pub open spec fn authenticator_seeds(passkey: Seq<u8>, wallet: Seq<u8>) -> Seq<Seq<u8>> {
    seq![SMART_WALLET_AUTHENTICATOR_SEED@, wallet, sha256_of(passkey + wallet)]
}

fn copy_bytes<const N: usize>(a: &[u8; N]) -> (r: Vec<u8>)
    ensures
        r@ == a@,
{
    let mut r: Vec<u8> = Vec::new();
    r.extend_from_slice(a.as_slice());
    assert(r@ =~= a@);
    r
}

/// The signer for the wallet's own identity.
pub fn wallet_signer(config: &SmartWalletConfig) -> (r: PdaSigner)
    ensures
        seed_views(r.seeds@) == wallet_seeds(config.id),
        r.bump == config.bump,
{
    let mut seeds: Vec<Vec<u8>> = Vec::new();
    seeds.push(copy_bytes(&SMART_WALLET_SEED));
    seeds.push(to_le_bytes(config.id));
    assert(seed_views(seeds@) =~= wallet_seeds(config.id));
    PdaSigner { seeds, bump: config.bump }
}

/// The seeds of the identity of the authenticator record for `passkey` on
/// `wallet`.
pub fn authenticator_seed_list(passkey: &[u8; 33], wallet: &Address) -> (r: Vec<Vec<u8>>)
    ensures
        seed_views(r@) == authenticator_seeds(passkey@, wallet@),
{
    let mut seeds: Vec<Vec<u8>> = Vec::new();
    seeds.push(copy_bytes(&SMART_WALLET_AUTHENTICATOR_SEED));
    seeds.push(copy_bytes(&wallet.bytes));
    seeds.push(copy_bytes(&to_hashed_bytes(passkey, wallet)));
    assert(seed_views(seeds@) =~= authenticator_seeds(passkey@, wallet@));
    seeds
}

/// The signer for an authenticator record's identity: the identity that rule
/// modules see, which can act for this record and for nothing else of the
/// wallet.
pub fn authenticator_signer(authenticator: &SmartWalletAuthenticator) -> (r: PdaSigner)
    ensures
        seed_views(r.seeds@) == authenticator_seeds(
            authenticator.passkey_pubkey@,
            authenticator.smart_wallet@,
        ),
        r.bump == authenticator.bump,
{
    PdaSigner {
        seeds: authenticator_seed_list(&authenticator.passkey_pubkey, &authenticator.smart_wallet),
        bump: authenticator.bump,
    }
}

/// Program-wide settings as the administrator first sets them: no fees, and
/// the wallet counter at zero.
pub fn initialize(authority: Address, default_rule_program: Address) -> (r: (Config, u64))
    ensures
        r.0 == (Config {
            authority,
            create_smart_wallet_fee: 0,
            execute_instruction_fee: 0,
            default_rule_program,
        }),
        r.1 == 0,
{
    (
        Config {
            authority,
            create_smart_wallet_fee: 0,
            execute_instruction_fee: 0,
            default_rule_program,
        },
        0,
    )
}

/// A wallet as [`create_smart_wallet`] sets it up: its address and record,
/// and its first authenticator record with that record's address.
#[derive(Debug)]
pub struct NewSmartWallet {
    pub smart_wallet: Address,
    pub smart_wallet_config: SmartWalletConfig,
    pub authenticator_address: Address,
    pub smart_wallet_authenticator: SmartWalletAuthenticator,
}

/// Why a wallet with number `seq` and this passkey and credential length
/// cannot be set up, if it cannot.
pub open spec fn create_wallet_error(seq: u64, passkey: Seq<u8>, credential_len: int) -> Option<LazorKitError> {
    if credential_len > MAX_CREDENTIAL_ID_LEN {
        Some(LazorKitError::CredentialIdTooLong)
    } else {
        match program_address(wallet_seeds(seq), PROGRAM_ID@) {
            None => Some(LazorKitError::InvalidBumpSeed),
            Some(w) => if program_address(
                authenticator_seeds(passkey, w.0),
                PROGRAM_ID@,
            ) is None {
                Some(LazorKitError::InvalidBumpSeed)
            } else {
                None
            },
        }
    }
}

/// The records of a new wallet: it takes the counter's number, lives at the
/// address derived from that number, starts at nonce zero under the default
/// rule module, and gets the passkey's authenticator record, which lives at
/// the address derived from the wallet and the passkey. The counter moves on
/// by one; on an error nothing changes.
pub fn create_smart_wallet(
    seq: &mut u64,
    config: &Config,
    passkey_pubkey: [u8; 33],
    credential_id: Vec<u8>,
) -> (r: Result<NewSmartWallet, LazorKitError>)
    requires
        *old(seq) < u64::MAX,
    ensures
        r is Err <==> create_wallet_error(*old(seq), passkey_pubkey@, credential_id@.len() as int) is Some,
        r matches Err(e) ==> create_wallet_error(*old(seq), passkey_pubkey@, credential_id@.len() as int) == Some(e),
        r is Err ==> *final(seq) == *old(seq),
        r matches Ok(w) ==> {
            let wallet = program_address(wallet_seeds(*old(seq)), PROGRAM_ID@)->Some_0;
            let record = program_address(authenticator_seeds(passkey_pubkey@, w.smart_wallet@), PROGRAM_ID@)->Some_0;
            &&& *final(seq) == *old(seq) + 1
            &&& w.smart_wallet@ == wallet.0
            &&& w.smart_wallet_config == (SmartWalletConfig {
                id: *old(seq),
                last_nonce: 0,
                rule_program: config.default_rule_program,
                bump: wallet.1,
            })
            &&& w.authenticator_address@ == record.0
            &&& w.smart_wallet_authenticator.passkey_pubkey == passkey_pubkey
            &&& w.smart_wallet_authenticator.smart_wallet == w.smart_wallet
            &&& w.smart_wallet_authenticator.credential_id@ == credential_id@
            &&& w.smart_wallet_authenticator.bump == record.1
            &&& w.smart_wallet_authenticator.well_formed()
        },
{
    if credential_id.len() > MAX_CREDENTIAL_ID_LEN {
        return Err(LazorKitError::CredentialIdTooLong);
    }
    let program_id = Address::new(PROGRAM_ID);
    let mut wallet_seed_list: Vec<Vec<u8>> = Vec::new();
    wallet_seed_list.push(copy_bytes(&SMART_WALLET_SEED));
    wallet_seed_list.push(to_le_bytes(*seq));
    assert(seed_views(wallet_seed_list@) =~= wallet_seeds(*seq));
    let (smart_wallet, wallet_bump) = match find_program_address(&wallet_seed_list, &program_id) {
        Some(p) => p,
        None => return Err(LazorKitError::InvalidBumpSeed),
    };
    let record_seeds = authenticator_seed_list(&passkey_pubkey, &smart_wallet);
    let (authenticator_address, authenticator_bump) = match find_program_address(&record_seeds, &program_id) {
        Some(p) => p,
        None => return Err(LazorKitError::InvalidBumpSeed),
    };
    let smart_wallet_config = SmartWalletConfig {
        id: *seq,
        last_nonce: 0,
        rule_program: config.default_rule_program,
        bump: wallet_bump,
    };
    let smart_wallet_authenticator = SmartWalletAuthenticator {
        passkey_pubkey,
        smart_wallet,
        credential_id,
        bump: authenticator_bump,
    };
    *seq = *seq + 1;
    Ok(NewSmartWallet { smart_wallet, smart_wallet_config, authenticator_address, smart_wallet_authenticator })
}

} // verus!
