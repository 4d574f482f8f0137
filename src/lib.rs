//! Passkey-controlled smart wallets: signature-record checking, challenge
//! decoding, replay protection, rule-module gating and the dispatch of wallet
//! actions, together with the transfer-limit rule module.

pub mod address;
pub mod bytes;
pub mod challenge;
pub mod cpi;
pub mod error;
pub mod execute;
pub mod instruction;
pub mod replay;
pub mod rule_gateway;
pub mod secp;
pub mod state;
pub mod transfer_limit;
