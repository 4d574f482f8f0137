use vstd::prelude::*;

use crate::address::{Address, PROGRAM_ID};
use crate::bytes::{le_u64_at, read_u64_le};
use crate::challenge::{
    MESSAGE_HEADER_LEN, client_data_outcome, decode_client_data, message_of, signed_bytes, signed_message, Message,
};
use crate::cpi::{
    account_window, derived_key, find_program_address, is_call, is_native_transfer,
    is_sol_transfer, prepare_cpi, program_address, seed_views, AccountInfo, DelegatedCall,
    PdaSigner,
};
use crate::error::LazorKitError;
use crate::instruction::Instruction;
use crate::replay::{check_replay, message_replay_outcome};
use crate::rule_gateway::{carries_tag, RuleOperation, WhitelistRulePrograms};
use crate::secp::{slice_eq, secp_outcome, verify_secp256r1_instruction};
use crate::state::{
    authenticator_seed_list, authenticator_seeds, authenticator_signer, wallet_seeds,
    wallet_signer, Config, SmartWalletAuthenticator, SmartWalletConfig,
};

verus! {

/// What a request asks the wallet to do. Each action but
/// `CheckAuthenticator` has one payload that must equal the payload of the
/// signed challenge (see [`action_payload`]).
#[derive(Clone, Copy, Debug, PartialEq, Eq, Structural)]
pub enum Action {
    /// Have the wallet's rule module check the call, then make it.
    ExecuteCpi,
    /// Replace the wallet's rule module.
    ChangeProgramRule,
    /// Call the wallet's rule module, optionally registering a new passkey.
    CallRuleProgram,
    /// Only prove possession of the passkey.
    CheckAuthenticator,
}

/// A delegated call as a request describes it: its data and the window of
/// the request's accounts that it receives.
#[derive(Debug)]
pub struct CpiData {
    pub data: Vec<u8>,
    pub start_index: u8,
    pub length: u8,
}

/// A signed request.
#[derive(Debug)]
pub struct ExecuteInstructionArgs {
    pub passkey_pubkey: [u8; 33],
    pub signature: Vec<u8>,
    pub client_data_json_raw: Vec<u8>,
    pub authenticator_data_raw: Vec<u8>,
    /// Where the verification record stands among the request's instructions.
    pub verify_instruction_index: u8,
    /// The call into the rule module.
    pub rule_data: CpiData,
    /// The target call, or the new rule module's set-up call.
    pub cpi_data: Option<CpiData>,
    pub action: Action,
    /// Whether `CallRuleProgram` should register `new_authenticator_passkey`.
    pub create_new_authenticator: bool,
    pub new_authenticator_passkey: Option<[u8; 33]>,
}

/// What the environment holds for a request: the wallet's records, the
/// program settings, the whitelist, the program the request targets (the new
/// rule module, for `ChangeProgramRule`) and the accounts it passes on.
#[derive(Debug)]
pub struct ExecuteInstruction {
    pub smart_wallet: Address,
    pub smart_wallet_config: SmartWalletConfig,
    pub smart_wallet_authenticator: SmartWalletAuthenticator,
    pub config: Config,
    pub whitelist_rule_programs: WhitelistRulePrograms,
    pub cpi_program: Address,
    pub remaining_accounts: Vec<AccountInfo>,
}

/// A native-asset transfer out of the wallet.
#[derive(Clone, Copy, Debug)]
pub struct NativeTransfer {
    pub to: Address,
    pub amount: u64,
}

/// What an accepted request does, to be carried out in this order: the
/// delegated calls, then the transfer, then the new authenticator record.
/// Any failure aborts the whole request.
#[derive(Debug)]
pub struct ActionPlan {
    pub calls: Vec<DelegatedCall>,
    pub transfer: Option<NativeTransfer>,
    pub new_authenticator: Option<SmartWalletAuthenticator>,
}

/// The checks that every action shares: the passkey and wallet match the
/// stored record, the challenge decodes, its nonce and freshness pass, and the
/// verification record holds the passkey's signature over the authenticator
/// data and the client data's digest. On success, the encoded message.
pub open spec fn authorize_outcome(
    ctx: ExecuteInstruction,
    args: ExecuteInstructionArgs,
    ix: Instruction,
    now: u64,
) -> Result<Seq<u8>, LazorKitError> {
    if ctx.smart_wallet_authenticator.passkey_pubkey != args.passkey_pubkey {
        Err(LazorKitError::PasskeyMismatch)
    } else if ctx.smart_wallet_authenticator.smart_wallet != ctx.smart_wallet {
        Err(LazorKitError::SmartWalletMismatch)
    } else {
        match client_data_outcome(args.client_data_json_raw@) {
            Err(e) => Err(e),
            Ok(m) => match message_replay_outcome(
                m,
                ctx.smart_wallet_config.last_nonce as int,
                now as int,
            ) {
                Err(e) => Err(e),
                Ok(_) => match secp_outcome(
                    ix.program_id,
                    ix.accounts@.len() as int,
                    ix.data@,
                    args.passkey_pubkey@,
                    signed_bytes(args.authenticator_data_raw@, args.client_data_json_raw@),
                    args.signature@,
                ) {
                    Err(e) => Err(e),
                    Ok(_) => Ok(m),
                },
            },
        }
    }
}

/// The action payload that an encoded message carries, and that the
/// passkey's signature therefore covers.
pub open spec fn signed_payload(m: Seq<u8>) -> Seq<u8> {
    m.subrange(MESSAGE_HEADER_LEN as int, m.len() as int)
}

/// The payload of a request that must be the signed one: the target call's
/// data for `ExecuteCpi`, the new module's set-up data for
/// `ChangeProgramRule`, and the rule call's data for `CallRuleProgram`.
pub open spec fn action_payload(args: ExecuteInstructionArgs) -> Seq<u8> {
    match args.action {
        Action::ExecuteCpi | Action::ChangeProgramRule => args.cpi_data->Some_0.data@,
        Action::CallRuleProgram => args.rule_data.data@,
        Action::CheckAuthenticator => Seq::empty(),
    }
}

/// The window fits in the accounts.
pub open spec fn window_fits(accounts: Seq<AccountInfo>, d: CpiData) -> bool {
    d.start_index + d.length <= accounts.len()
}

/// The accounts in the window.
pub open spec fn window_of(accounts: Seq<AccountInfo>, d: CpiData) -> Seq<AccountInfo> {
    accounts.subrange(d.start_index as int, d.start_index + d.length)
}

/// The seeds of the identity of the request's authenticator record.
pub open spec fn rule_seeds(ctx: ExecuteInstruction) -> Seq<Seq<u8>> {
    authenticator_seeds(
        ctx.smart_wallet_authenticator.passkey_pubkey@,
        ctx.smart_wallet_authenticator.smart_wallet@,
    )
}

/// The signer of every call into a rule module: the authenticator record.
pub open spec fn rule_signer(ctx: ExecuteInstruction) -> Option<(Seq<Seq<u8>>, u8)> {
    Some((rule_seeds(ctx), ctx.smart_wallet_authenticator.bump))
}

/// The error of a signed call on a window, if any.
pub open spec fn call_error(accounts: Seq<AccountInfo>, d: CpiData, seeds: Seq<Seq<u8>>) -> Option<
    LazorKitError,
> {
    if !window_fits(accounts, d) {
        Some(LazorKitError::AccountSliceOutOfBounds)
    } else if derived_key(seeds) is None {
        Some(LazorKitError::InvalidBumpSeed)
    } else {
        None
    }
}

/// The checks of `ExecuteCpi`.
pub open spec fn execute_cpi_error(
    ctx: ExecuteInstruction,
    args: ExecuteInstructionArgs,
    payload: Seq<u8>,
) -> Option<
    LazorKitError,
> {
    let accounts = ctx.remaining_accounts@;
    let rule = ctx.smart_wallet_config.rule_program;
    if !ctx.whitelist_rule_programs.list@.contains(rule) {
        Some(LazorKitError::RuleProgramNotWhitelisted)
    } else if !carries_tag(args.rule_data.data@, RuleOperation::CheckRule) {
        Some(LazorKitError::InvalidCheckRuleDiscriminator)
    } else if call_error(accounts, args.rule_data, rule_seeds(ctx)) is Some {
        call_error(accounts, args.rule_data, rule_seeds(ctx))
    } else {
        match args.cpi_data {
            None => Some(LazorKitError::CpiDataMissing),
            Some(d) => if d.data@ != payload {
                Some(LazorKitError::SignedPayloadMismatch)
            } else if !window_fits(accounts, d) {
                Some(LazorKitError::AccountSliceOutOfBounds)
            } else if is_native_transfer(ctx.cpi_program, d.data@) {
                if d.length < 2 {
                    Some(LazorKitError::SolTransferInsufficientAccounts)
                } else if d.data@.len() < 12 {
                    Some(LazorKitError::CpiDataInvalid)
                } else {
                    None
                }
            } else {
                call_error(accounts, d, wallet_seeds(ctx.smart_wallet_config.id))
            },
        }
    }
}

/// The checks of `ChangeProgramRule`.
pub open spec fn change_rule_error(
    ctx: ExecuteInstruction,
    args: ExecuteInstructionArgs,
    payload: Seq<u8>,
) -> Option<
    LazorKitError,
> {
    let accounts = ctx.remaining_accounts@;
    let old_rule = ctx.smart_wallet_config.rule_program;
    let new_rule = ctx.cpi_program;
    let default_rule = ctx.config.default_rule_program;
    if !ctx.whitelist_rule_programs.list@.contains(old_rule) {
        Some(LazorKitError::RuleProgramNotWhitelisted)
    } else if !ctx.whitelist_rule_programs.list@.contains(new_rule) {
        Some(LazorKitError::RuleProgramNotWhitelisted)
    } else if !carries_tag(args.rule_data.data@, RuleOperation::Destroy) {
        Some(LazorKitError::InvalidDestroyDiscriminator)
    } else {
        match args.cpi_data {
            None => Some(LazorKitError::CpiDataMissing),
            Some(d) => if !carries_tag(d.data@, RuleOperation::InitRule) {
                Some(LazorKitError::InvalidInitRuleDiscriminator)
            } else if d.data@ != payload {
                Some(LazorKitError::SignedPayloadMismatch)
            } else if old_rule == new_rule {
                Some(LazorKitError::RuleProgramsIdentical)
            } else if old_rule != default_rule && new_rule != default_rule {
                Some(LazorKitError::NoDefaultRuleProgram)
            } else if call_error(accounts, args.rule_data, rule_seeds(ctx)) is Some {
                call_error(accounts, args.rule_data, rule_seeds(ctx))
            } else {
                call_error(accounts, d, rule_seeds(ctx))
            },
        }
    }
}

/// The checks of `CallRuleProgram`.
pub open spec fn call_rule_error(
    ctx: ExecuteInstruction,
    args: ExecuteInstructionArgs,
    payload: Seq<u8>,
) -> Option<
    LazorKitError,
> {
    let accounts = ctx.remaining_accounts@;
    if !ctx.whitelist_rule_programs.list@.contains(ctx.smart_wallet_config.rule_program) {
        Some(LazorKitError::RuleProgramNotWhitelisted)
    } else if args.rule_data.data@ != payload {
        Some(LazorKitError::SignedPayloadMismatch)
    } else if args.create_new_authenticator && args.new_authenticator_passkey is None {
        Some(LazorKitError::NewAuthenticatorPasskeyMissing)
    } else if call_error(accounts, args.rule_data, rule_seeds(ctx)) is Some {
        call_error(accounts, args.rule_data, rule_seeds(ctx))
    } else if args.create_new_authenticator && program_address(
        authenticator_seeds(args.new_authenticator_passkey->Some_0@, ctx.smart_wallet@),
        PROGRAM_ID@,
    ) is None {
        Some(LazorKitError::InvalidBumpSeed)
    } else {
        None
    }
}

/// The checks of the requested action, after the shared ones.
pub open spec fn action_checks(
    ctx: ExecuteInstruction,
    args: ExecuteInstructionArgs,
    payload: Seq<u8>,
) -> Option<
    LazorKitError,
> {
    match args.action {
        Action::ExecuteCpi => execute_cpi_error(ctx, args, payload),
        Action::ChangeProgramRule => change_rule_error(ctx, args, payload),
        Action::CallRuleProgram => call_rule_error(ctx, args, payload),
        Action::CheckAuthenticator => None,
    }
}

/// The error of the requested action, if any: its checks, then the nonce
/// increment for every action but `CheckAuthenticator`.
pub open spec fn action_error(
    ctx: ExecuteInstruction,
    args: ExecuteInstructionArgs,
    payload: Seq<u8>,
) -> Option<
    LazorKitError,
> {
    match action_checks(ctx, args, payload) {
        Some(e) => Some(e),
        None => if args.action != Action::CheckAuthenticator && ctx.smart_wallet_config.last_nonce
            == u64::MAX {
            Some(LazorKitError::NonceOverflow)
        } else {
            None
        },
    }
}

/// The error of a request, if any.
pub open spec fn dispatch_error(
    ctx: ExecuteInstruction,
    args: ExecuteInstructionArgs,
    ix: Instruction,
    now: u64,
) -> Option<LazorKitError> {
    match authorize_outcome(ctx, args, ix, now) {
        Err(e) => Some(e),
        Ok(m) => action_error(ctx, args, signed_payload(m)),
    }
}

/// The wallet record after an accepted request: the nonce advances for every
/// action but `CheckAuthenticator`, and `ChangeProgramRule` installs the new
/// rule module.
pub open spec fn next_config(ctx: ExecuteInstruction, args: ExecuteInstructionArgs) -> SmartWalletConfig {
    let c = ctx.smart_wallet_config;
    match args.action {
        Action::CheckAuthenticator => c,
        Action::ChangeProgramRule => SmartWalletConfig {
            last_nonce: (c.last_nonce + 1) as u64,
            rule_program: ctx.cpi_program,
            ..c
        },
        _ => SmartWalletConfig { last_nonce: (c.last_nonce + 1) as u64, ..c },
    }
}

/// The plan of an accepted request.
pub open spec fn plan_matches(ctx: ExecuteInstruction, args: ExecuteInstructionArgs, plan: ActionPlan) -> bool {
    let accounts = ctx.remaining_accounts@;
    let calls = plan.calls@;
    let rule = ctx.smart_wallet_config.rule_program;
    let rule_call_ok = is_call(
        calls[0],
        rule,
        window_of(accounts, args.rule_data),
        args.rule_data.data@,
        rule_signer(ctx),
    );
    match args.action {
        Action::CheckAuthenticator => {
            &&& calls.len() == 0
            &&& plan.transfer is None
            &&& plan.new_authenticator is None
        },
        Action::ExecuteCpi => {
            let d = args.cpi_data->Some_0;
            let target = window_of(accounts, d);
            &&& rule_call_ok
            &&& plan.new_authenticator is None
            &&& if is_native_transfer(ctx.cpi_program, d.data@) {
                &&& calls.len() == 1
                &&& plan.transfer == Some(
                    NativeTransfer { to: target[1].key, amount: le_u64_at(d.data@, 4) as u64 },
                )
            } else {
                &&& calls.len() == 2
                &&& is_call(
                    calls[1],
                    ctx.cpi_program,
                    target,
                    d.data@,
                    Some((wallet_seeds(ctx.smart_wallet_config.id), ctx.smart_wallet_config.bump)),
                )
                &&& plan.transfer is None
            }
        },
        Action::ChangeProgramRule => {
            let d = args.cpi_data->Some_0;
            &&& calls.len() == 2
            &&& rule_call_ok
            &&& is_call(calls[1], ctx.cpi_program, window_of(accounts, d), d.data@, rule_signer(ctx))
            &&& plan.transfer is None
            &&& plan.new_authenticator is None
        },
        Action::CallRuleProgram => {
            &&& calls.len() == 1
            &&& rule_call_ok
            &&& plan.transfer is None
            &&& if args.create_new_authenticator {
                let key = args.new_authenticator_passkey->Some_0;
                let a = plan.new_authenticator->Some_0;
                let derived = program_address(authenticator_seeds(key@, ctx.smart_wallet@), PROGRAM_ID@);
                &&& plan.new_authenticator is Some
                &&& a.passkey_pubkey == key
                &&& a.smart_wallet == ctx.smart_wallet
                &&& a.credential_id@.len() == 0
                &&& derived is Some
                &&& a.bump == derived->Some_0.1
            } else {
                plan.new_authenticator is None
            }
        },
    }
}

fn same_passkey(a: &[u8; 33], b: &[u8; 33]) -> (r: bool)
    ensures
        r == (*a == *b),
{
    let r = slice_eq(a.as_slice(), b.as_slice());
    proof {
        if r {
            assert forall|i: int| 0 <= i < 33 implies a[i] == b[i] by {
                assert(a@[i] == b@[i]);
            }
            assert(*a =~= *b);
        }
    }
    r
}

/// The shared checks of every action; on success, the accepted message.
fn authorize(ctx: &ExecuteInstruction, args: &ExecuteInstructionArgs, ix: &Instruction, now: u64) -> (r:
    Result<Message, LazorKitError>)
    ensures
        r is Ok <==> authorize_outcome(*ctx, *args, *ix, now) is Ok,
        r matches Ok(m) ==> message_of(authorize_outcome(*ctx, *args, *ix, now)->Ok_0, m),
        r matches Err(e) ==> authorize_outcome(*ctx, *args, *ix, now) == Err::<Seq<u8>, LazorKitError>(e),
{
    let authenticator = &ctx.smart_wallet_authenticator;
    if !same_passkey(&authenticator.passkey_pubkey, &args.passkey_pubkey) {
        return Err(LazorKitError::PasskeyMismatch);
    }
    if !authenticator.smart_wallet.same(&ctx.smart_wallet) {
        return Err(LazorKitError::SmartWalletMismatch);
    }
    let message = signed_message(
        args.authenticator_data_raw.as_slice(),
        args.client_data_json_raw.as_slice(),
    );
    let msg = match decode_client_data(args.client_data_json_raw.as_slice()) {
        Ok(m) => m,
        Err(e) => return Err(e),
    };
    match check_replay(&msg, ctx.smart_wallet_config.last_nonce, now) {
        Ok(()) => {},
        Err(e) => return Err(e),
    }
    match verify_secp256r1_instruction(ix, &authenticator.passkey_pubkey, &message, &args.signature) {
        Ok(()) => {},
        Err(e) => return Err(e),
    }
    Ok(msg)
}

/// A signed call on a window of the accounts.
fn signed_call(accounts: &Vec<AccountInfo>, d: &CpiData, program: &Address, signer: PdaSigner) -> (r:
    Result<DelegatedCall, LazorKitError>)
    ensures
        r is Err <==> call_error(accounts@, *d, seed_views(signer.seeds@)) is Some,
        r matches Err(e) ==> call_error(accounts@, *d, seed_views(signer.seeds@)) == Some(e),
        r matches Ok(c) ==> is_call(
            c,
            *program,
            window_of(accounts@, *d),
            d.data@,
            Some((seed_views(signer.seeds@), signer.bump)),
        ),
{
    let window = match account_window(accounts, d.start_index, d.length) {
        Ok(w) => w,
        Err(e) => return Err(e),
    };
    prepare_cpi(&window, d.data.as_slice(), program, Some(signer))
}

fn execute_cpi_action(ctx: &ExecuteInstruction, args: &ExecuteInstructionArgs, signed: &Vec<u8>) -> (r: Result<
    ActionPlan,
    LazorKitError,
>)
    requires
        args.action == Action::ExecuteCpi,
    ensures
        r is Err <==> action_checks(*ctx, *args, signed@) is Some,
        r matches Err(e) ==> action_checks(*ctx, *args, signed@) == Some(e),
        r matches Ok(p) ==> plan_matches(*ctx, *args, p),
{
    let rule = ctx.smart_wallet_config.rule_program;
    if !ctx.whitelist_rule_programs.is_whitelisted(&rule) {
        return Err(LazorKitError::RuleProgramNotWhitelisted);
    }
    match RuleOperation::CheckRule.check_tag(args.rule_data.data.as_slice()) {
        Ok(()) => {},
        Err(e) => return Err(e),
    }
    let rule_call = match signed_call(
        &ctx.remaining_accounts,
        &args.rule_data,
        &rule,
        authenticator_signer(&ctx.smart_wallet_authenticator),
    ) {
        Ok(c) => c,
        Err(e) => return Err(e),
    };
    let d = match &args.cpi_data {
        Some(d) => d,
        None => return Err(LazorKitError::CpiDataMissing),
    };
    if !slice_eq(d.data.as_slice(), signed.as_slice()) {
        return Err(LazorKitError::SignedPayloadMismatch);
    }
    if d.start_index as usize + d.length as usize > ctx.remaining_accounts.len() {
        return Err(LazorKitError::AccountSliceOutOfBounds);
    }
    let mut calls: Vec<DelegatedCall> = Vec::new();
    calls.push(rule_call);
    if is_sol_transfer(&ctx.cpi_program, d.data.as_slice()) {
        if d.length < 2 {
            return Err(LazorKitError::SolTransferInsufficientAccounts);
        }
        if d.data.len() < 12 {
            return Err(LazorKitError::CpiDataInvalid);
        }
        let amount = read_u64_le(d.data.as_slice(), 4);
        let to = ctx.remaining_accounts[d.start_index as usize + 1].key;
        Ok(ActionPlan { calls, transfer: Some(NativeTransfer { to, amount }), new_authenticator: None })
    } else {
        let target = match signed_call(
            &ctx.remaining_accounts,
            d,
            &ctx.cpi_program,
            wallet_signer(&ctx.smart_wallet_config),
        ) {
            Ok(c) => c,
            Err(e) => return Err(e),
        };
        calls.push(target);
        Ok(ActionPlan { calls, transfer: None, new_authenticator: None })
    }
}

fn change_program_rule(ctx: &ExecuteInstruction, args: &ExecuteInstructionArgs, signed: &Vec<u8>) -> (r: Result<
    ActionPlan,
    LazorKitError,
>)
    requires
        args.action == Action::ChangeProgramRule,
    ensures
        r is Err <==> action_checks(*ctx, *args, signed@) is Some,
        r matches Err(e) ==> action_checks(*ctx, *args, signed@) == Some(e),
        r matches Ok(p) ==> plan_matches(*ctx, *args, p),
{
    let old_rule = ctx.smart_wallet_config.rule_program;
    let new_rule = ctx.cpi_program;
    let default_rule = ctx.config.default_rule_program;
    if !ctx.whitelist_rule_programs.is_whitelisted(&old_rule) {
        return Err(LazorKitError::RuleProgramNotWhitelisted);
    }
    if !ctx.whitelist_rule_programs.is_whitelisted(&new_rule) {
        return Err(LazorKitError::RuleProgramNotWhitelisted);
    }
    match RuleOperation::Destroy.check_tag(args.rule_data.data.as_slice()) {
        Ok(()) => {},
        Err(e) => return Err(e),
    }
    let d = match &args.cpi_data {
        Some(d) => d,
        None => return Err(LazorKitError::CpiDataMissing),
    };
    match RuleOperation::InitRule.check_tag(d.data.as_slice()) {
        Ok(()) => {},
        Err(e) => return Err(e),
    }
    if !slice_eq(d.data.as_slice(), signed.as_slice()) {
        return Err(LazorKitError::SignedPayloadMismatch);
    }
    if old_rule.same(&new_rule) {
        return Err(LazorKitError::RuleProgramsIdentical);
    }
    if !old_rule.same(&default_rule) && !new_rule.same(&default_rule) {
        return Err(LazorKitError::NoDefaultRuleProgram);
    }
    let destroy_call = match signed_call(
        &ctx.remaining_accounts,
        &args.rule_data,
        &old_rule,
        authenticator_signer(&ctx.smart_wallet_authenticator),
    ) {
        Ok(c) => c,
        Err(e) => return Err(e),
    };
    let init_call = match signed_call(
        &ctx.remaining_accounts,
        d,
        &new_rule,
        authenticator_signer(&ctx.smart_wallet_authenticator),
    ) {
        Ok(c) => c,
        Err(e) => return Err(e),
    };
    let mut calls: Vec<DelegatedCall> = Vec::new();
    calls.push(destroy_call);
    calls.push(init_call);
    Ok(ActionPlan { calls, transfer: None, new_authenticator: None })
}

fn call_rule_program(ctx: &ExecuteInstruction, args: &ExecuteInstructionArgs, signed: &Vec<u8>) -> (r: Result<
    ActionPlan,
    LazorKitError,
>)
    requires
        args.action == Action::CallRuleProgram,
    ensures
        r is Err <==> action_checks(*ctx, *args, signed@) is Some,
        r matches Err(e) ==> action_checks(*ctx, *args, signed@) == Some(e),
        r matches Ok(p) ==> plan_matches(*ctx, *args, p),
{
    let rule = ctx.smart_wallet_config.rule_program;
    if !ctx.whitelist_rule_programs.is_whitelisted(&rule) {
        return Err(LazorKitError::RuleProgramNotWhitelisted);
    }
    if !slice_eq(args.rule_data.data.as_slice(), signed.as_slice()) {
        return Err(LazorKitError::SignedPayloadMismatch);
    }
    if args.create_new_authenticator && args.new_authenticator_passkey.is_none() {
        return Err(LazorKitError::NewAuthenticatorPasskeyMissing);
    }
    let rule_call = match signed_call(
        &ctx.remaining_accounts,
        &args.rule_data,
        &rule,
        authenticator_signer(&ctx.smart_wallet_authenticator),
    ) {
        Ok(c) => c,
        Err(e) => return Err(e),
    };
    let new_authenticator = if args.create_new_authenticator {
        match args.new_authenticator_passkey {
            Some(key) => {
                let seeds = authenticator_seed_list(&key, &ctx.smart_wallet);
                let program_id = Address::new(PROGRAM_ID);
                match find_program_address(&seeds, &program_id) {
                    Some(p) => Some(
                        SmartWalletAuthenticator {
                            passkey_pubkey: key,
                            smart_wallet: ctx.smart_wallet,
                            credential_id: Vec::new(),
                            bump: p.1,
                        },
                    ),
                    None => return Err(LazorKitError::InvalidBumpSeed),
                }
            },
            None => None,
        }
    } else {
        None
    };
    let mut calls: Vec<DelegatedCall> = Vec::new();
    calls.push(rule_call);
    Ok(ActionPlan { calls, transfer: None, new_authenticator })
}

/// Runs a signed request against a wallet. The shared checks come first:
/// passkey and wallet match, challenge decoding, nonce and freshness, and
/// the signature record. Then the action's own checks, among them that the
/// action's payload is the one the signed challenge carries. On success the wallet
/// record advances (see [`next_config`]) and the plan of what to carry out is
/// returned; on failure nothing changes.
///
/// `verify_ix` is the request's instruction at `verify_instruction_index`;
/// `current_slot` is the environment's current slot.
///
/// `CheckAuthenticator` leaves the nonce where it was, so the same signed
/// challenge passes again for as long as it is fresh. Whether a possession
/// check should consume its nonce is an open question of the design; callers
/// that need a one-time proof must not rely on this action.
pub fn execute_instruction(
    ctx: &mut ExecuteInstruction,
    args: &ExecuteInstructionArgs,
    verify_ix: &Instruction,
    current_slot: u64,
) -> (r: Result<ActionPlan, LazorKitError>)
    ensures
        r is Err <==> dispatch_error(*old(ctx), *args, *verify_ix, current_slot) is Some,
        r matches Err(e) ==> dispatch_error(*old(ctx), *args, *verify_ix, current_slot) == Some(e),
        r is Err ==> *final(ctx) == *old(ctx),
        r matches Ok(p) ==> plan_matches(*old(ctx), *args, p),
        r is Ok ==> *final(ctx) == (ExecuteInstruction {
            smart_wallet_config: next_config(*old(ctx), *args),
            ..*old(ctx)
        }),
        r is Ok && args.action != Action::CheckAuthenticator ==> {
            &&& final(ctx).smart_wallet_config.last_nonce == old(ctx).smart_wallet_config.last_nonce + 1
            &&& le_u64_at(client_data_outcome(args.client_data_json_raw@)->Ok_0, 0)
                == old(ctx).smart_wallet_config.last_nonce
            &&& action_payload(*args) == signed_payload(
                client_data_outcome(args.client_data_json_raw@)->Ok_0,
            )
        },
{
    let msg = match authorize(ctx, args, verify_ix, current_slot) {
        Ok(m) => m,
        Err(e) => return Err(e),
    };
    let signed = &msg.instruction_data;
    let plan = match args.action {
        Action::ExecuteCpi => execute_cpi_action(ctx, args, signed),
        Action::ChangeProgramRule => change_program_rule(ctx, args, signed),
        Action::CallRuleProgram => call_rule_program(ctx, args, signed),
        Action::CheckAuthenticator => Ok(
            ActionPlan { calls: Vec::new(), transfer: None, new_authenticator: None },
        ),
    };
    let plan = match plan {
        Ok(p) => p,
        Err(e) => return Err(e),
    };
    if args.action != Action::CheckAuthenticator {
        if ctx.smart_wallet_config.last_nonce == u64::MAX {
            return Err(LazorKitError::NonceOverflow);
        }
        ctx.smart_wallet_config.last_nonce = ctx.smart_wallet_config.last_nonce + 1;
        if args.action == Action::ChangeProgramRule {
            ctx.smart_wallet_config.rule_program = ctx.cpi_program;
        }
    }
    Ok(plan)
}

/// A request that was applied cannot be applied again: once the wallet's
/// nonce has moved one past the nonce the request carries, the same request
/// fails, so no plan and no delegated call comes of it. Against the same
/// wallet and authenticator record it fails on the nonce.
pub proof fn lemma_replay_rejected(
    ctx: ExecuteInstruction,
    later: ExecuteInstruction,
    args: ExecuteInstructionArgs,
    ix: Instruction,
    later_ix: Instruction,
    now: u64,
    later_now: u64,
)
    requires
        dispatch_error(ctx, args, ix, now) is None,
        args.action != Action::CheckAuthenticator,
        later.smart_wallet_config.last_nonce == ctx.smart_wallet_config.last_nonce + 1,
    ensures
        dispatch_error(later, args, later_ix, later_now) is Some,
        later.smart_wallet == ctx.smart_wallet && later.smart_wallet_authenticator
            == ctx.smart_wallet_authenticator ==> dispatch_error(later, args, later_ix, later_now)
            == Some(LazorKitError::NonceMismatch),
{
}

/// Every action but `CheckAuthenticator` fails when the wallet's rule module
/// is not on the whitelist.
pub proof fn lemma_rule_module_must_be_whitelisted(
    ctx: ExecuteInstruction,
    args: ExecuteInstructionArgs,
    ix: Instruction,
    now: u64,
)
    requires
        args.action != Action::CheckAuthenticator,
        !ctx.whitelist_rule_programs.list@.contains(ctx.smart_wallet_config.rule_program),
    ensures
        dispatch_error(ctx, args, ix, now) is Some,
{
}

/// `ChangeProgramRule` fails when the proposed rule module is not on the
/// whitelist.
pub proof fn lemma_new_rule_module_must_be_whitelisted(
    ctx: ExecuteInstruction,
    args: ExecuteInstructionArgs,
    ix: Instruction,
    now: u64,
)
    requires
        args.action == Action::ChangeProgramRule,
        !ctx.whitelist_rule_programs.list@.contains(ctx.cpi_program),
    ensures
        dispatch_error(ctx, args, ix, now) is Some,
{
}

/// `CheckAuthenticator` never consults the whitelist: any whitelist gives the
/// same outcome.
pub proof fn lemma_check_authenticator_ignores_whitelist(
    ctx: ExecuteInstruction,
    whitelist: WhitelistRulePrograms,
    args: ExecuteInstructionArgs,
    ix: Instruction,
    now: u64,
)
    requires
        args.action == Action::CheckAuthenticator,
    ensures
        dispatch_error(ctx, args, ix, now) == dispatch_error(
            ExecuteInstruction { whitelist_rule_programs: whitelist, ..ctx },
            args,
            ix,
            now,
        ),
{
}

/// The rule-module swap checks that come before the default-module rule all
/// pass: the request is authorized, both modules are whitelisted, the
/// payloads carry the destroy and init tags, the init payload is the signed
/// one, and the modules differ.
pub open spec fn swap_prechecks_pass(
    ctx: ExecuteInstruction,
    args: ExecuteInstructionArgs,
    ix: Instruction,
    now: u64,
) -> bool {
    &&& args.action == Action::ChangeProgramRule
    &&& authorize_outcome(ctx, args, ix, now) is Ok
    &&& ctx.whitelist_rule_programs.list@.contains(ctx.smart_wallet_config.rule_program)
    &&& ctx.whitelist_rule_programs.list@.contains(ctx.cpi_program)
    &&& carries_tag(args.rule_data.data@, RuleOperation::Destroy)
    &&& args.cpi_data is Some
    &&& carries_tag(args.cpi_data->Some_0.data@, RuleOperation::InitRule)
    &&& args.cpi_data->Some_0.data@ == signed_payload(authorize_outcome(ctx, args, ix, now)->Ok_0)
    &&& ctx.smart_wallet_config.rule_program != ctx.cpi_program
}

/// Swapping between two modules of which neither is the default is refused.
pub proof fn lemma_swap_between_non_defaults_rejected(
    ctx: ExecuteInstruction,
    args: ExecuteInstructionArgs,
    ix: Instruction,
    now: u64,
)
    requires
        swap_prechecks_pass(ctx, args, ix, now),
        ctx.smart_wallet_config.rule_program != ctx.config.default_rule_program,
        ctx.cpi_program != ctx.config.default_rule_program,
    ensures
        dispatch_error(ctx, args, ix, now) == Some(LazorKitError::NoDefaultRuleProgram),
{
}

/// Swapping from or to the default module succeeds once the swap checks
/// pass, the windows fit, the authenticator identity derives and the nonce
/// can advance.
pub proof fn lemma_swap_with_default_accepted(
    ctx: ExecuteInstruction,
    args: ExecuteInstructionArgs,
    ix: Instruction,
    now: u64,
)
    requires
        swap_prechecks_pass(ctx, args, ix, now),
        ctx.smart_wallet_config.rule_program == ctx.config.default_rule_program
            || ctx.cpi_program == ctx.config.default_rule_program,
        window_fits(ctx.remaining_accounts@, args.rule_data),
        window_fits(ctx.remaining_accounts@, args.cpi_data->Some_0),
        derived_key(rule_seeds(ctx)) is Some,
        ctx.smart_wallet_config.last_nonce < u64::MAX,
    ensures
        dispatch_error(ctx, args, ix, now) is None,
{
}

} // verus!
