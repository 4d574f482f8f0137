use vstd::prelude::*;

use crate::address::{Address, SYSTEM_PROGRAM_ID, TOKEN_PROGRAM_ID};
use crate::bytes::{le_u64_at, read_u64_le};
use crate::cpi::SOL_TRANSFER_DISCRIMINATOR;
use crate::error::TransferLimitError;

verus! {

/// The role of a wallet member in the transfer-limit module.
#[derive(Clone, Copy, Debug, PartialEq, Eq, Structural)]
pub enum MemberType {
    Admin,
    Member,
}

/// A member record of the transfer-limit module.
#[derive(Clone, Copy, Debug)]
pub struct Member {
    pub member_type: MemberType,
    pub is_initialized: bool,
}

/// A spending cap of a wallet, for the native asset or for one token.
#[derive(Clone, Copy, Debug)]
pub struct RuleData {
    pub limit_amount: u64,
    pub is_initialized: bool,
}

/// The opcode of the token program's transfer instruction.
pub const TOKEN_TRANSFER_INSTRUCTION: u8 = 3;

/// The amount that the call of `program_id` with `data` transfers, where it
/// is one of the transfers the module knows.
pub open spec fn transfer_amount(program_id: Address, data: Seq<u8>) -> Option<int> {
    if program_id.bytes == SYSTEM_PROGRAM_ID {
        if data.len() >= 12 && data.subrange(0, 4) == SOL_TRANSFER_DISCRIMINATOR@ {
            Some(le_u64_at(data, 4))
        } else {
            None
        }
    } else if program_id.bytes == TOKEN_PROGRAM_ID {
        if data.len() >= 9 && data[0] == TOKEN_TRANSFER_INSTRUCTION {
            Some(le_u64_at(data, 1))
        } else {
            None
        }
    } else {
        None
    }
}

/// The module's verdict on a call of `program_id` with `data`.
pub open spec fn check_rule_outcome(
    member: Member,
    rule_data: RuleData,
    data: Seq<u8>,
    program_id: Address,
) -> Result<(), TransferLimitError> {
    if member.member_type == MemberType::Admin {
        Ok(())
    } else if !member.is_initialized {
        Err(TransferLimitError::MemberNotInitialized)
    } else if !rule_data.is_initialized {
        Err(TransferLimitError::UnAuthorize)
    } else {
        match transfer_amount(program_id, data) {
            None => Err(TransferLimitError::UnAuthorize),
            Some(a) => if a > rule_data.limit_amount {
                Err(TransferLimitError::TransferAmountExceedLimit)
            } else {
                Ok(())
            },
        }
    }
}

/// Decodes the amount of a native or token transfer.
fn decode_transfer_amount(program_id: &Address, data: &[u8]) -> (r: Option<u64>)
    ensures
        r matches Some(a) ==> transfer_amount(*program_id, data@) == Some(a as int),
        r is None ==> transfer_amount(*program_id, data@) is None,
{
    let system = Address::new(SYSTEM_PROGRAM_ID);
    let token = Address::new(TOKEN_PROGRAM_ID);
    if program_id.same(&system) {
        if data.len() >= 12 && data[0] == 2 && data[1] == 0 && data[2] == 0 && data[3] == 0 {
            assert(data@.subrange(0, 4) =~= SOL_TRANSFER_DISCRIMINATOR@);
            Some(read_u64_le(data, 4))
        } else {
            proof {
                if data@.len() >= 12 {
                    assert(data@.subrange(0, 4)[0] == data@[0]);
                    assert(data@.subrange(0, 4)[1] == data@[1]);
                    assert(data@.subrange(0, 4)[2] == data@[2]);
                    assert(data@.subrange(0, 4)[3] == data@[3]);
                }
            }
            None
        }
    } else if program_id.same(&token) {
        if data.len() >= 9 && data[0] == TOKEN_TRANSFER_INSTRUCTION {
            Some(read_u64_le(data, 1))
        } else {
            None
        }
    } else {
        None
    }
}

/// Decides whether a wallet call may go ahead: an admin may do anything;
/// anyone else may make a native or token transfer of at most the stored cap.
pub fn check_rule(member: &Member, rule_data: &RuleData, cpi_data: &[u8], program_id: &Address) -> (r:
    Result<(), TransferLimitError>)
    ensures
        r == check_rule_outcome(*member, *rule_data, cpi_data@, *program_id),
{
    if member.member_type == MemberType::Admin {
        return Ok(());
    }
    if !member.is_initialized {
        return Err(TransferLimitError::MemberNotInitialized);
    }
    if !rule_data.is_initialized {
        return Err(TransferLimitError::UnAuthorize);
    }
    let amount = match decode_transfer_amount(program_id, cpi_data) {
        Some(a) => a,
        None => return Err(TransferLimitError::UnAuthorize),
    };
    if amount > rule_data.limit_amount {
        return Err(TransferLimitError::TransferAmountExceedLimit);
    }
    Ok(())
}

/// An admin passes the check whatever the call and the cap.
pub proof fn lemma_admin_bypasses_cap(member: Member, rule_data: RuleData, data: Seq<u8>, program_id: Address)
    requires
        member.member_type == MemberType::Admin,
    ensures
        check_rule_outcome(member, rule_data, data, program_id) == Ok::<(), TransferLimitError>(()),
{
}

} // verus!
