use vstd::prelude::*;

use crate::address::Address;

verus! {

/// One account handed to an invoked program.
#[derive(Clone, Copy, Debug)]
pub struct AccountMeta {
    pub pubkey: Address,
    pub is_signer: bool,
    pub is_writable: bool,
}

/// An invocation of a program: its address, its accounts and its data.
#[derive(Debug)]
pub struct Instruction {
    pub program_id: Address,
    pub accounts: Vec<AccountMeta>,
    pub data: Vec<u8>,
}

} // verus!
