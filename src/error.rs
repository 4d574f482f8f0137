use vstd::prelude::*;

verus! {

/// Errors of the wallet core.
#[derive(Clone, Copy, Debug, PartialEq, Eq, Structural)]
pub enum LazorKitError {
    // authentication and passkey
    PasskeyMismatch,
    SmartWalletMismatch,
    AuthenticatorNotFound,
    // signature record
    Secp256r1InvalidLength,
    Secp256r1HeaderMismatch,
    Secp256r1DataMismatch,
    Secp256r1InstructionNotFound,
    InvalidSignature,
    // client data and challenge
    ClientDataInvalidUtf8,
    ClientDataJsonParseError,
    ChallengeMissing,
    ChallengeBase64DecodeError,
    ChallengeDeserializationError,
    // freshness and nonce
    TimestampTooOld,
    TimestampTooNew,
    NonceMismatch,
    NonceOverflow,
    // rule modules
    RuleProgramNotWhitelisted,
    InvalidCheckRuleDiscriminator,
    InvalidDestroyDiscriminator,
    InvalidInitRuleDiscriminator,
    RuleProgramsIdentical,
    NoDefaultRuleProgram,
    // accounts and delegated calls
    CpiDataMissing,
    CpiDataInvalid,
    SignedPayloadMismatch,
    InsufficientRuleAccounts,
    InsufficientCpiAccounts,
    AccountSliceOutOfBounds,
    SolTransferInsufficientAccounts,
    NewAuthenticatorMissing,
    NewAuthenticatorPasskeyMissing,
    // balances
    InsufficientLamports,
    TransferAmountOverflow,
    // account validation
    InvalidBumpSeed,
    InvalidAccountOwner,
    InvalidAccountDiscriminator,
    CredentialIdTooLong,
}

/// Errors of the transfer-limit rule module.
#[derive(Clone, Copy, Debug, PartialEq, Eq, Structural)]
pub enum TransferLimitError {
    MemberNotAdmin,
    InvalidNewPasskey,
    InvalidTokenAccount,
    InvalidToken,
    InvalidBalance,
    InvalidTransferAmount,
    RuleNotInitialized,
    InvalidRuleAccount,
    InvalidAccountInput,
    UnAuthorize,
    InvalidBump,
    MemberNotInitialized,
    TransferAmountExceedLimit,
}

} // verus!
