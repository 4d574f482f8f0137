use vstd::prelude::*;

use crate::address::{contains_address, Address};
use crate::error::LazorKitError;

verus! {

/// The operations that a rule module offers to the wallet. Each has a fixed
/// 8-byte tag that must open the payload of a call that asks for it.
#[derive(Clone, Copy, Debug, PartialEq, Eq, Structural)]
pub enum RuleOperation {
    /// Set up the module's state for a wallet.
    InitRule,
    /// Decide whether a wallet action is allowed.
    CheckRule,
    /// Tear down the module's state for a wallet.
    Destroy,
}

pub const INIT_RULE_DISCRIMINATOR: [u8; 8] = [129, 224, 96, 169, 247, 125, 74, 118];

pub const CHECK_RULE_DISCRIMINATOR: [u8; 8] = [215, 90, 220, 175, 191, 212, 144, 147];

pub const DESTROY_DISCRIMINATOR: [u8; 8] = [157, 40, 96, 3, 135, 203, 143, 74];

/// The tag of an operation.
pub open spec fn operation_tag(op: RuleOperation) -> Seq<u8> {
    match op {
        RuleOperation::InitRule => INIT_RULE_DISCRIMINATOR@,
        RuleOperation::CheckRule => CHECK_RULE_DISCRIMINATOR@,
        RuleOperation::Destroy => DESTROY_DISCRIMINATOR@,
    }
}

/// The error for a payload that does not open with the operation's tag.
pub open spec fn tag_error(op: RuleOperation) -> LazorKitError {
    match op {
        RuleOperation::InitRule => LazorKitError::InvalidInitRuleDiscriminator,
        RuleOperation::CheckRule => LazorKitError::InvalidCheckRuleDiscriminator,
        RuleOperation::Destroy => LazorKitError::InvalidDestroyDiscriminator,
    }
}

/// Whether `payload` opens with the tag of `op`.
pub open spec fn carries_tag(payload: Seq<u8>, op: RuleOperation) -> bool {
    payload.len() >= 8 && payload.subrange(0, 8) == operation_tag(op)
}

impl RuleOperation {
    /// The operation's tag.
    pub fn tag(&self) -> (r: [u8; 8])
        ensures
            r@ == operation_tag(*self),
    {
        match self {
            RuleOperation::InitRule => INIT_RULE_DISCRIMINATOR,
            RuleOperation::CheckRule => CHECK_RULE_DISCRIMINATOR,
            RuleOperation::Destroy => DESTROY_DISCRIMINATOR,
        }
    }

    /// Accepts `payload` if it opens with this operation's tag.
    pub fn check_tag(&self, payload: &[u8]) -> (r: Result<(), LazorKitError>)
        ensures
            r is Ok <==> carries_tag(payload@, *self),
            r matches Err(e) ==> e == tag_error(*self),
    {
        let tag = self.tag();
        let err = match self {
            RuleOperation::InitRule => LazorKitError::InvalidInitRuleDiscriminator,
            RuleOperation::CheckRule => LazorKitError::InvalidCheckRuleDiscriminator,
            RuleOperation::Destroy => LazorKitError::InvalidDestroyDiscriminator,
        };
        if payload.len() < 8 {
            return Err(err);
        }
        let mut i: usize = 0;
        while i < 8
            invariant
                payload@.len() >= 8,
                tag@ == operation_tag(*self),
                err == tag_error(*self),
                0 <= i <= 8,
                forall|j: int| 0 <= j < i ==> payload@[j] == tag@[j],
            decreases 8 - i,
        {
            if payload[i] != tag[i] {
                assert(payload@.subrange(0, 8)[i as int] != operation_tag(*self)[i as int]);
                return Err(err);
            }
            i = i + 1;
        }
        assert(payload@.subrange(0, 8) =~= operation_tag(*self));
        Ok(())
    }
}

/// The rule modules that a wallet may delegate to, kept by the administrator.
/// Entries are only ever added.
#[derive(Debug)]
pub struct WhitelistRulePrograms {
    pub list: Vec<Address>,
}

impl WhitelistRulePrograms {
    /// The whitelist holds the default rule module.
    pub open spec fn well_formed(&self, default_rule: Address) -> bool {
        self.list@.contains(default_rule)
    }

    /// A whitelist that holds only the default rule module.
    pub fn new(default_rule: Address) -> (r: WhitelistRulePrograms)
        ensures
            r.list@ == seq![default_rule],
            r.well_formed(default_rule),
    {
        let mut list: Vec<Address> = Vec::new();
        list.push(default_rule);
        assert(list@[0] == default_rule);
        WhitelistRulePrograms { list }
    }

    /// Whether `program` is on the whitelist.
    pub fn is_whitelisted(&self, program: &Address) -> (r: bool)
        ensures
            r == self.list@.contains(*program),
    {
        contains_address(&self.list, program)
    }
}

/// Adds `program` to the whitelist unless it is there already.
pub fn upsert_whitelist_rule_programs(whitelist: &mut WhitelistRulePrograms, program: Address)
    ensures
        final(whitelist).list@ == if old(whitelist).list@.contains(program) {
            old(whitelist).list@
        } else {
            old(whitelist).list@.push(program)
        },
        forall|a: Address| #[trigger] final(whitelist).list@.contains(a) <==> (old(whitelist).list@.contains(a) || a == program),
{
    if !contains_address(&whitelist.list, &program) {
        whitelist.list.push(program);
        proof {
            assert forall|a: Address| #[trigger] whitelist.list@.contains(a) <==> (old(whitelist).list@.contains(a) || a == program) by {
                if old(whitelist).list@.contains(a) {
                    let k = choose|k: int| 0 <= k < old(whitelist).list@.len() && old(whitelist).list@[k] == a;
                    assert(whitelist.list@[k] == a);
                }
                if a == program {
                    assert(whitelist.list@[old(whitelist).list@.len() as int] == a);
                }
            }
        }
    }
}

/// Adding a module keeps the default rule module on the whitelist.
pub proof fn lemma_upsert_keeps_default(
    before: Seq<Address>,
    after: Seq<Address>,
    program: Address,
    default_rule: Address,
)
    requires
        before.contains(default_rule),
        forall|a: Address| #[trigger] after.contains(a) <==> (before.contains(a) || a == program),
    ensures
        after.contains(default_rule),
{
}

} // verus!
