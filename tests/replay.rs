use lazorkit::challenge::Message;
use lazorkit::error::LazorKitError;
use lazorkit::replay::{advance_nonce, check_freshness, check_replay, MAX_SLOT_DRIFT};

#[test]
fn freshness_window_boundaries() {
    let now: u64 = 1000;
    let n = now as i64;
    assert_eq!(check_freshness(n - MAX_SLOT_DRIFT - 1, now), Err(LazorKitError::TimestampTooOld));
    assert_eq!(check_freshness(n - MAX_SLOT_DRIFT, now), Ok(()));
    assert_eq!(check_freshness(n, now), Ok(()));
    assert_eq!(check_freshness(n + MAX_SLOT_DRIFT, now), Ok(()));
    assert_eq!(check_freshness(n + MAX_SLOT_DRIFT + 1, now), Err(LazorKitError::TimestampTooNew));
}

#[test]
fn freshness_at_extreme_values() {
    assert_eq!(check_freshness(-30, 0), Ok(()));
    assert_eq!(check_freshness(-31, 0), Err(LazorKitError::TimestampTooOld));
    assert_eq!(check_freshness(i64::MIN, u64::MAX), Err(LazorKitError::TimestampTooOld));
    assert_eq!(check_freshness(i64::MAX, 0), Err(LazorKitError::TimestampTooNew));
    assert_eq!(check_freshness(i64::MAX, i64::MAX as u64 + 30), Ok(()));
}

#[test]
fn nonce_must_match_exactly() {
    let m = Message { nonce: 5, current_slot: 100, instruction_data: vec![] };
    assert_eq!(check_replay(&m, 5, 100), Ok(()));
    assert_eq!(check_replay(&m, 6, 100), Err(LazorKitError::NonceMismatch));
    assert_eq!(check_replay(&m, 4, 100), Err(LazorKitError::NonceMismatch));
    assert_eq!(check_replay(&m, 5, 200), Err(LazorKitError::TimestampTooOld));
}

#[test]
fn nonce_advances_by_one_until_overflow() {
    assert_eq!(advance_nonce(5), Ok(6));
    assert_eq!(advance_nonce(u64::MAX - 1), Ok(u64::MAX));
    assert_eq!(advance_nonce(u64::MAX), Err(LazorKitError::NonceOverflow));
}
