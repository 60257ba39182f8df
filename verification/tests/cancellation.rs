use batcher_retry::RetryError;
use batcher_retry::cancel::{
    CancelSendAction, build_cancel_transfer, cancel_send_after_fallback, cancel_send_after_primary,
    cancel_wait_outcome,
};
use batcher_retry::confirmation::WaitOutcome;
use batcher_retry::errors::CancelError;
use batcher_retry::ledger::{Address, Uint256};
use batcher_retry::reads::{ReadAction, read_after_fallback, read_after_primary};

#[test]
fn cancel_nonce_from_fallback_builds_transfer() {
    // The current nonce is unreachable from the primary endpoint but
    // reachable from the fallback; the superseding transfer must carry
    // the fallback-sourced nonce.
    let primary: Result<Uint256, CancelError> =
        Err(CancelError::Endpoint("primary unreachable".to_string()));
    let nonce = match read_after_primary(primary) {
        ReadAction::QueryFallback => {
            match read_after_fallback::<Uint256, CancelError>(Ok(Uint256::from_u64(9))) {
                Ok(n) => n,
                Err(_) => panic!("a successful fallback nonce read must not error"),
            }
        }
        ReadAction::Done(_) => panic!("a failed primary nonce read must escalate to the fallback"),
    };
    let sender = Address { bytes: [0x33; 20] };
    let transfer = build_cancel_transfer(sender, nonce, Uint256::from_u64(45_000_000_000));
    assert_eq!(transfer.to, sender);
    assert!(transfer.value.is_zero());
    assert_eq!(transfer.nonce, Uint256::from_u64(9));
    assert_eq!(transfer.gas_price, Uint256::from_u64(45_000_000_000));
}

#[test]
fn cancel_primary_accept_goes_to_waiter() {
    let sender = Address { bytes: [0x44; 20] };
    let transfer = build_cancel_transfer(sender, Uint256::from_u64(3), Uint256::from_u64(10));
    let action = cancel_send_after_primary::<u16>(transfer, Ok(21));
    assert_eq!(action, CancelSendAction::AwaitReceipt(21));
}

#[test]
fn cancel_primary_send_failure_replays_unchanged_transfer() {
    let sender = Address { bytes: [0x55; 20] };
    let transfer = build_cancel_transfer(sender, Uint256::from_u64(8), Uint256::from_u64(77));
    let action =
        cancel_send_after_primary::<u16>(transfer, Err("transaction underpriced".to_string()));
    assert_eq!(action, CancelSendAction::RetryOnFallback(transfer));
}

#[test]
fn cancel_fallback_send_failure_is_transient_endpoint_cause() {
    let r = cancel_send_after_fallback::<u16>(Err("insufficient funds".to_string()));
    assert_eq!(
        r,
        Err(RetryError::Transient(CancelError::Endpoint(
            "insufficient funds".to_string()
        )))
    );
}

#[test]
fn cancel_fallback_send_success_is_ok() {
    assert_eq!(cancel_send_after_fallback::<u16>(Ok(99)), Ok(99));
}

#[test]
fn cancel_wait_confirmed_returns_receipt() {
    let r = cancel_wait_outcome::<&str>(WaitOutcome::Confirmed("cancel-receipt"));
    assert_eq!(r, Ok("cancel-receipt"));
}

#[test]
fn cancel_wait_deadline_elapsed_is_transient_timeout() {
    let r = cancel_wait_outcome::<u8>(WaitOutcome::DeadlineElapsed);
    assert_eq!(
        r,
        Err(RetryError::Transient(CancelError::ConfirmationTimeout))
    );
}

#[test]
fn cancel_wait_no_receipt_is_transient_receipt_not_found() {
    let r = cancel_wait_outcome::<u8>(WaitOutcome::NoReceipt);
    assert_eq!(r, Err(RetryError::Transient(CancelError::ReceiptNotFound)));
}

#[test]
fn cancel_wait_reported_failure_is_transient_endpoint_cause() {
    let r = cancel_wait_outcome::<u8>(WaitOutcome::Failed("nonce too low".to_string()));
    assert_eq!(
        r,
        Err(RetryError::Transient(CancelError::Endpoint(
            "nonce too low".to_string()
        )))
    );
}
