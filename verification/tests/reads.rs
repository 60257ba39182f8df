use batcher_retry::RetryError;
use batcher_retry::ledger::Uint256;
use batcher_retry::reads::{ReadAction, is_unlocked, read_after_fallback, read_after_primary};

#[test]
fn balance_primary_success_skips_fallback() {
    let action = read_after_primary::<u64, String>(Ok(1_000_000));
    match action {
        ReadAction::Done(r) => assert_eq!(r, Ok(1_000_000)),
        ReadAction::QueryFallback => panic!("fallback endpoint must not be consulted"),
    }
}

#[test]
fn nonce_fallback_value_returned() {
    let primary: Result<u64, String> = Err("connection refused".to_string());
    match read_after_primary(primary) {
        ReadAction::QueryFallback => {
            let r = read_after_fallback::<u64, String>(Ok(7));
            assert_eq!(r, Ok(7));
        }
        ReadAction::Done(_) => panic!("a failed primary read must escalate to the fallback"),
    }
}

#[test]
fn read_both_failed_carries_fallback_cause() {
    let primary: Result<u64, String> = Err("primary down".to_string());
    assert_eq!(read_after_primary(primary), ReadAction::QueryFallback);
    let r = read_after_fallback::<u64, String>(Err("fallback down".to_string()));
    assert_eq!(r, Err(RetryError::Transient("fallback down".to_string())));
}

#[test]
fn gas_price_primary_timeout_fallback_answers() {
    let primary: Result<Uint256, String> = Err("request timed out".to_string());
    match read_after_primary(primary) {
        ReadAction::QueryFallback => {
            let r = read_after_fallback::<Uint256, String>(Ok(Uint256::from_u64(20_000_000_000)));
            assert_eq!(r, Ok(Uint256::from_u64(20_000_000_000)));
        }
        ReadAction::Done(_) => panic!("a timed-out primary read must escalate to the fallback"),
    }
}

#[test]
fn unlock_block_zero_means_locked() {
    assert!(!is_unlocked(&Uint256::zero()));
}

#[test]
fn unlock_block_nonzero_means_unlocked() {
    assert!(is_unlocked(&Uint256::from_u64(123_456)));
}

#[test]
fn unlock_block_high_limb_only_means_unlocked() {
    let block = Uint256 { limb0: 0, limb1: 0, limb2: 0, limb3: 1 };
    assert!(is_unlocked(&block));
}

#[test]
fn uint256_zero_is_zero() {
    assert!(Uint256::zero().is_zero());
}

#[test]
fn uint256_from_u64_max_is_not_zero() {
    assert!(!Uint256::from_u64(u64::MAX).is_zero());
}
