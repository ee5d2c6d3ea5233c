use x402_hack_payment::escrow::PaymentError;
use x402_hack_payment::session::{
    complete_delegation, delegate_private_payment, process_private_payment,
    settle_private_payment, IssuePrivateReceipt, PrivateReceipt, SessionStatus,
    COMMIT_FREQUENCY_MS,
};
use x402_hack_payment::types::Pubkey;

fn open(id: &str) -> PrivateReceipt {
    let ctx = IssuePrivateReceipt { customer: Pubkey::new(0, 1), merchant: Pubkey::new(0, 2) };
    ctx.issue_private_receipt(id.to_string(), 1_000, 25, "order 7".to_string(), 100).unwrap()
}

#[test]
fn session_full_lifecycle() {
    let mut r = open("s1");
    assert_eq!(r.session_status, SessionStatus::Pending);
    assert!(!r.is_delegated);
    assert_eq!((r.created_at, r.settled_at), (100, 0));
    assert_eq!(r.memo, "order 7");
    let req = delegate_private_payment(&r).unwrap();
    assert_eq!(req.commit_frequency_ms, COMMIT_FREQUENCY_MS);
    assert_eq!(complete_delegation(&mut r, true), Ok(()));
    assert_eq!(r.session_status, SessionStatus::Active);
    assert!(r.is_delegated);
    assert_eq!(process_private_payment(&mut r), Ok(()));
    assert_eq!(r.session_status, SessionStatus::Processed);
    assert_eq!(settle_private_payment(&mut r, 900), Ok(()));
    assert_eq!(r.session_status, SessionStatus::Settled);
    assert!(!r.is_delegated);
    assert_eq!(r.settled_at, 900);
    assert_eq!(settle_private_payment(&mut r, 950), Err(PaymentError::StateConflict));
    assert_eq!(r.settled_at, 900);
}

#[test]
fn session_refuses_out_of_order_steps() {
    let mut r = open("s2");
    assert_eq!(process_private_payment(&mut r), Err(PaymentError::StateConflict));
    assert_eq!(r.session_status, SessionStatus::Pending);
    assert_eq!(complete_delegation(&mut r, false), Err(PaymentError::DelegationFailed));
    assert_eq!(r.session_status, SessionStatus::Pending);
    complete_delegation(&mut r, true).unwrap();
    assert_eq!(delegate_private_payment(&r), Err(PaymentError::StateConflict));
    assert_eq!(complete_delegation(&mut r, true), Err(PaymentError::StateConflict));
    process_private_payment(&mut r).unwrap();
    assert_eq!(process_private_payment(&mut r), Err(PaymentError::StateConflict));
    assert_eq!(delegate_private_payment(&r), Err(PaymentError::StateConflict));
}

#[test]
fn session_settles_from_pending() {
    let mut r = open("s3");
    assert_eq!(settle_private_payment(&mut r, 7), Ok(()));
    assert_eq!(r.session_status, SessionStatus::Settled);
}

#[test]
fn session_input_checks() {
    let ctx = IssuePrivateReceipt { customer: Pubkey::new(0, 1), merchant: Pubkey::new(0, 2) };
    let r = ctx.issue_private_receipt(String::new(), 1, 0, String::new(), 0);
    assert_eq!(r.unwrap_err(), PaymentError::InvalidPaymentId);
    let r = ctx.issue_private_receipt("x".repeat(65), 1, 0, String::new(), 0);
    assert_eq!(r.unwrap_err(), PaymentError::InvalidPaymentId);
    let r = ctx.issue_private_receipt("x".to_string(), 1, 0, "m".repeat(129), 0);
    assert_eq!(r.unwrap_err(), PaymentError::InvalidMemo);
    let r = ctx.issue_private_receipt("x".to_string(), 1, 0, "m".repeat(128), 0);
    assert!(r.is_ok());
}
