use vstd::prelude::*;

use crate::address::{Address, PROGRAM_ID, SYSTEM_PROGRAM_ID};
use crate::bytes::copy_range;
use crate::error::LazorKitError;
use crate::instruction::{AccountMeta, Instruction};

verus! {

/// An account as the request hands it over: its address, its flags, the
/// program that owns it and its balance in lamports.
#[derive(Clone, Copy, Debug)]
pub struct AccountInfo {
    pub key: Address,
    pub is_signer: bool,
    pub is_writable: bool,
    pub owner: Address,
    pub lamports: u64,
}

/// The seeds of an identity derived from this program, without the bump, and
/// the bump that completes them.
#[derive(Debug)]
pub struct PdaSigner {
    pub seeds: Vec<Vec<u8>>,
    pub bump: u8,
}

/// A delegated call ready to be made: the instruction, and the seeds (bump
/// included) that prove authority for a derived identity, if the call is
/// signed.
#[derive(Debug)]
pub struct DelegatedCall {
    pub instruction: Instruction,
    pub signer_seeds: Option<Vec<Vec<u8>>>,
}

/// The contents of a list of seeds.
pub open spec fn seed_views(seeds: Seq<Vec<u8>>) -> Seq<Seq<u8>> {
    seeds.map_values(|s: Vec<u8>| s@)
}

/// The address and bump derived from `seeds` under `program_id`, or `None`
/// where no bump gives an address off the curve or the seeds are too many or
/// too long.
pub uninterp spec fn program_address(seeds: Seq<Seq<u8>>, program_id: Seq<u8>) -> Option<(Seq<u8>, u8)>;

/// Relies on `Pubkey::try_find_program_address` (solana-pubkey, re-exported by
/// anchor_lang): the derived address and bump depend on the seeds and the
/// program alone.
#[verifier::external_body]
pub(crate) fn find_program_address(seeds: &Vec<Vec<u8>>, program_id: &Address) -> (r: Option<(Address, u8)>)
    ensures
        r matches Some(p) ==> program_address(seed_views(seeds@), program_id@) == Some((p.0@, p.1)),
        r is None ==> program_address(seed_views(seeds@), program_id@) is None,
{
    let slices: Vec<&[u8]> = seeds.iter().map(|s| s.as_slice()).collect();
    let program = anchor_lang::prelude::Pubkey::new_from_array(program_id.bytes);
    anchor_lang::prelude::Pubkey::try_find_program_address(&slices, &program).map(
        |(k, b)| (Address { bytes: k.to_bytes() }, b),
    )
}

/// The tag of the system program's transfer instruction.
pub const SOL_TRANSFER_DISCRIMINATOR: [u8; 4] = [2, 0, 0, 0];

/// Whether a call of `program` with `data` is a native-asset transfer, which
/// the executor performs itself.
pub open spec fn is_native_transfer(program: Address, data: Seq<u8>) -> bool {
    program.bytes == SYSTEM_PROGRAM_ID && data.len() >= 4 && data.subrange(0, 4)
        == SOL_TRANSFER_DISCRIMINATOR@
}

/// Whether a call of `program` with `data` is a native-asset transfer.
pub fn is_sol_transfer(program: &Address, data: &[u8]) -> (r: bool)
    ensures
        r == is_native_transfer(*program, data@),
{
    let system = Address::new(SYSTEM_PROGRAM_ID);
    if !program.same(&system) || data.len() < 4 {
        return false;
    }
    let r = data[0] == 2 && data[1] == 0 && data[2] == 0 && data[3] == 0;
    proof {
        let head = data@.subrange(0, 4);
        assert(head[0] == data@[0] && head[1] == data@[1] && head[2] == data@[2] && head[3] == data@[3]);
        if r {
            assert(head =~= SOL_TRANSFER_DISCRIMINATOR@);
        }
    }
    r
}

/// The identity that this program can sign for with `seeds`.
pub open spec fn derived_key(seeds: Seq<Seq<u8>>) -> Option<Seq<u8>> {
    match program_address(seeds, PROGRAM_ID@) {
        Some(p) => Some(p.0),
        None => None,
    }
}

/// How an account is passed on: it signs if it signed already or if it is
/// the derived identity `pda`.
pub open spec fn meta_for(acc: AccountInfo, pda: Option<Seq<u8>>) -> AccountMeta {
    AccountMeta {
        pubkey: acc.key,
        is_signer: acc.is_signer || (pda matches Some(k) && acc.key@ == k),
        is_writable: acc.is_writable,
    }
}

/// `metas` passes on each of `accounts` in order.
pub open spec fn metas_for(metas: Seq<AccountMeta>, accounts: Seq<AccountInfo>, pda: Option<Seq<u8>>) -> bool {
    &&& metas.len() == accounts.len()
    &&& forall|i: int| 0 <= i < accounts.len() ==> metas[i] == meta_for(accounts[i], pda)
}

/// `c` calls `program` with `data` on `accounts`, signed with `signer` (seeds
/// and bump) where one is given.
pub open spec fn is_call(
    c: DelegatedCall,
    program: Address,
    accounts: Seq<AccountInfo>,
    data: Seq<u8>,
    signer: Option<(Seq<Seq<u8>>, u8)>,
) -> bool {
    &&& c.instruction.program_id == program
    &&& c.instruction.data@ == data
    &&& match signer {
        None => {
            &&& metas_for(c.instruction.accounts@, accounts, None)
            &&& c.signer_seeds is None
        },
        Some(s) => {
            &&& metas_for(c.instruction.accounts@, accounts, derived_key(s.0))
            &&& c.signer_seeds matches Some(v) && seed_views(v@) == s.0.push(seq![s.1])
        },
    }
}

/// A copy of the seeds.
fn copy_seeds(seeds: &Vec<Vec<u8>>) -> (r: Vec<Vec<u8>>)
    ensures
        seed_views(r@) == seed_views(seeds@),
{
    let mut r: Vec<Vec<u8>> = Vec::new();
    let mut i: usize = 0;
    while i < seeds.len()
        invariant
            0 <= i <= seeds@.len(),
            r@.len() == i,
            forall|j: int| 0 <= j < i ==> r@[j]@ == seeds@[j]@,
        decreases seeds@.len() - i,
    {
        let s = copy_range(seeds[i].as_slice(), 0, seeds[i].len());
        proof {
            assert(s@ =~= seeds@[i as int]@);
        }
        r.push(s);
        i = i + 1;
    }
    assert(seed_views(r@) =~= seed_views(seeds@));
    r
}

/// Builds the instruction of a delegated call: each account signs if it
/// signed already or is the identity derived from the signer's seeds.
pub fn create_cpi_instruction(
    accounts: &Vec<AccountInfo>,
    data: Vec<u8>,
    program: &Address,
    pda_signer: &Option<PdaSigner>,
) -> (r: Result<Instruction, LazorKitError>)
    ensures
        r is Err <==> (pda_signer matches Some(s) && derived_key(seed_views(s.seeds@)) is None),
        r matches Err(e) ==> e == LazorKitError::InvalidBumpSeed,
        r matches Ok(ix) ==> {
            &&& ix.program_id == *program
            &&& ix.data@ == data@
            &&& metas_for(
                ix.accounts@,
                accounts@,
                match pda_signer {
                    Some(s) => derived_key(seed_views(s.seeds@)),
                    None => None,
                },
            )
        },
{
    let program_id = Address::new(PROGRAM_ID);
    let pda: Option<Address> = match pda_signer {
        Some(s) => match find_program_address(&s.seeds, &program_id) {
            Some(p) => Some(p.0),
            None => return Err(LazorKitError::InvalidBumpSeed),
        },
        None => None,
    };
    let ghost pda_view: Option<Seq<u8>> = match pda {
        Some(k) => Some(k@),
        None => None,
    };
    let mut metas: Vec<AccountMeta> = Vec::new();
    let mut i: usize = 0;
    while i < accounts.len()
        invariant
            0 <= i <= accounts@.len(),
            pda matches Some(k) ==> pda_view == Some(k@),
            pda is None ==> pda_view is None,
            metas@.len() == i,
            forall|j: int| 0 <= j < i ==> metas@[j] == meta_for(accounts@[j], pda_view),
        decreases accounts@.len() - i,
    {
        let acc = accounts[i];
        let is_signer = match pda {
            Some(k) => acc.is_signer || acc.key.same(&k),
            None => acc.is_signer,
        };
        metas.push(AccountMeta { pubkey: acc.key, is_signer, is_writable: acc.is_writable });
        i = i + 1;
    }
    Ok(Instruction { program_id: *program, accounts: metas, data })
}

/// Prepares a delegated call into `program`: the instruction and, for a
/// signed call, the signer's seeds with its bump appended.
pub fn prepare_cpi(
    accounts: &Vec<AccountInfo>,
    data: &[u8],
    program: &Address,
    signer: Option<PdaSigner>,
) -> (r: Result<DelegatedCall, LazorKitError>)
    ensures
        r is Err <==> (signer matches Some(s) && derived_key(seed_views(s.seeds@)) is None),
        r matches Err(e) ==> e == LazorKitError::InvalidBumpSeed,
        r matches Ok(c) ==> is_call(
            c,
            *program,
            accounts@,
            data@,
            match signer {
                Some(s) => Some((seed_views(s.seeds@), s.bump)),
                None => None,
            },
        ),
{
    let ix = create_cpi_instruction(accounts, copy_range(data, 0, data.len()), program, &signer);
    let ix = match ix {
        Ok(ix) => ix,
        Err(e) => return Err(e),
    };
    proof {
        assert(data@.subrange(0, data@.len() as int) =~= data@);
    }
    match signer {
        Some(s) => {
            let mut seeds = copy_seeds(&s.seeds);
            let ghost before = seeds@;
            let mut last: Vec<u8> = Vec::new();
            last.push(s.bump);
            seeds.push(last);
            proof {
                assert(seeds@[before.len() as int]@ =~= seq![s.bump]);
                assert forall|j: int| 0 <= j < before.len() implies seed_views(seeds@)[j] == seed_views(before)[j] by {
                    assert(seeds@[j] == before[j]);
                }
                assert(seed_views(seeds@) =~= seed_views(s.seeds@).push(seq![s.bump]));
            }
            Ok(DelegatedCall { instruction: ix, signer_seeds: Some(seeds) })
        },
        None => Ok(DelegatedCall { instruction: ix, signer_seeds: None }),
    }
}

/// The accounts `accounts[start..start + length]`.
pub fn account_window(accounts: &Vec<AccountInfo>, start: u8, length: u8) -> (r: Result<
    Vec<AccountInfo>,
    LazorKitError,
>)
    ensures
        r is Ok <==> start + length <= accounts@.len(),
        r matches Ok(w) ==> w@ == accounts@.subrange(start as int, start + length),
        r matches Err(e) ==> e == LazorKitError::AccountSliceOutOfBounds,
{
    let end = start as usize + length as usize;
    if end > accounts.len() {
        return Err(LazorKitError::AccountSliceOutOfBounds);
    }
    let mut w: Vec<AccountInfo> = Vec::new();
    let mut i: usize = start as usize;
    while i < end
        invariant
            start <= i <= end <= accounts@.len(),
            end == start + length,
            w@ == accounts@.subrange(start as int, i as int),
        decreases end - i,
    {
        w.push(accounts[i]);
        i = i + 1;
        proof {
            assert(w@ =~= accounts@.subrange(start as int, i as int));
        }
    }
    Ok(w)
}

/// The outcome of moving `amount` lamports out of `from`, a wallet account of
/// this program, into `to`.
pub open spec fn transfer_outcome(from: AccountInfo, to: AccountInfo, amount: u64) -> Result<(), LazorKitError> {
    if from.owner.bytes != PROGRAM_ID {
        Err(LazorKitError::InvalidAccountOwner)
    } else if from.lamports < amount {
        Err(LazorKitError::InsufficientLamports)
    } else if from.key != to.key && to.lamports + amount > u64::MAX {
        Err(LazorKitError::TransferAmountOverflow)
    } else {
        Ok(())
    }
}

/// Moves lamports out of an account that this program owns: debits `from`
/// and credits `to`, or changes nothing. Where both are the same account
/// (the same key) the debit and the credit cancel: nothing changes.
pub fn transfer_sol_from_pda(from: &mut AccountInfo, to: &mut AccountInfo, amount: u64) -> (r: Result<
    (),
    LazorKitError,
>)
    ensures
        r == transfer_outcome(*old(from), *old(to), amount),
        r is Ok && old(from).key == old(to).key ==> *final(from) == *old(from) && *final(to) == *old(to),
        r is Ok && old(from).key != old(to).key ==> {
            &&& *final(from) == AccountInfo { lamports: (old(from).lamports - amount) as u64, ..*old(from) }
            &&& *final(to) == AccountInfo { lamports: (old(to).lamports + amount) as u64, ..*old(to) }
        },
        r is Err ==> *final(from) == *old(from) && *final(to) == *old(to),
{
    let program_id = Address::new(PROGRAM_ID);
    if !from.owner.same(&program_id) {
        return Err(LazorKitError::InvalidAccountOwner);
    }
    if from.lamports < amount {
        return Err(LazorKitError::InsufficientLamports);
    }
    if from.key.same(&to.key) {
        return Ok(());
    }
    if to.lamports > u64::MAX - amount {
        return Err(LazorKitError::TransferAmountOverflow);
    }
    from.lamports = from.lamports - amount;
    to.lamports = to.lamports + amount;
    Ok(())
}

} // verus!
