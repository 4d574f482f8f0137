use vstd::prelude::*;

use crate::bytes::{as_signed_64, le_u64_at};
use crate::challenge::Message;
use crate::error::LazorKitError;

verus! {

/// How many slots a request's freshness marker may lie before or after the
/// current slot.
pub const MAX_SLOT_DRIFT: i64 = 30;

/// The verdict on a request made at slot `slot` when the current slot is
/// `now`.
pub open spec fn freshness_outcome(slot: int, now: int) -> Result<(), LazorKitError> {
    if slot < now - MAX_SLOT_DRIFT {
        Err(LazorKitError::TimestampTooOld)
    } else if slot > now + MAX_SLOT_DRIFT {
        Err(LazorKitError::TimestampTooNew)
    } else {
        Ok(())
    }
}

/// The verdict on a message with `nonce` made at `slot`, for a wallet that
/// expects `stored_nonce`, at the current slot `now`.
pub open spec fn replay_outcome(nonce: int, slot: int, stored_nonce: int, now: int) -> Result<(), LazorKitError> {
    if nonce != stored_nonce {
        Err(LazorKitError::NonceMismatch)
    } else {
        freshness_outcome(slot, now)
    }
}

/// The verdict of the replay guard on the encoded message `m`.
pub open spec fn message_replay_outcome(m: Seq<u8>, stored_nonce: int, now: int) -> Result<(), LazorKitError> {
    replay_outcome(le_u64_at(m, 0), as_signed_64(le_u64_at(m, 8)), stored_nonce, now)
}

/// Accepts a freshness marker that lies within the drift window around the
/// current slot.
pub fn check_freshness(message_slot: i64, current_slot: u64) -> (r: Result<(), LazorKitError>)
    ensures
        r == freshness_outcome(message_slot as int, current_slot as int),
{
    let slot = message_slot as i128;
    let now = current_slot as i128;
    if slot < now - MAX_SLOT_DRIFT as i128 {
        return Err(LazorKitError::TimestampTooOld);
    }
    if slot > now + MAX_SLOT_DRIFT as i128 {
        return Err(LazorKitError::TimestampTooNew);
    }
    Ok(())
}

/// Accepts a message whose nonce is exactly the one the wallet expects and
/// whose freshness marker is within the window.
pub fn check_replay(message: &Message, stored_nonce: u64, current_slot: u64) -> (r: Result<(), LazorKitError>)
    ensures
        r == replay_outcome(message.nonce as int, message.current_slot as int, stored_nonce as int, current_slot as int),
{
    if message.nonce != stored_nonce {
        return Err(LazorKitError::NonceMismatch);
    }
    check_freshness(message.current_slot, current_slot)
}

/// The nonce that follows `stored_nonce`.
pub fn advance_nonce(stored_nonce: u64) -> (r: Result<u64, LazorKitError>)
    ensures
        r is Ok <==> stored_nonce < u64::MAX,
        r matches Ok(n) ==> n == stored_nonce + 1,
        r matches Err(e) ==> e == LazorKitError::NonceOverflow,
{
    if stored_nonce == u64::MAX {
        return Err(LazorKitError::NonceOverflow);
    }
    Ok(stored_nonce + 1)
}

/// The freshness window is closed: a marker exactly `MAX_SLOT_DRIFT` slots
/// before or after the current slot is accepted, one more slot away is not.
pub proof fn lemma_freshness_boundary(now: int)
    ensures
        freshness_outcome(now - MAX_SLOT_DRIFT - 1, now) == Err::<(), LazorKitError>(LazorKitError::TimestampTooOld),
        freshness_outcome(now - MAX_SLOT_DRIFT, now) == Ok::<(), LazorKitError>(()),
        freshness_outcome(now + MAX_SLOT_DRIFT, now) == Ok::<(), LazorKitError>(()),
        freshness_outcome(now + MAX_SLOT_DRIFT + 1, now) == Err::<(), LazorKitError>(LazorKitError::TimestampTooNew),
{
}

} // verus!
