use x402_hack_payment::escrow::{
    claim_platform_fees, compute_fee, initialize_merchant, process_payment, refund_payment,
    set_platform_config, FeeSplit, Merchant, PaymentError, PaymentStatus, Platform, ProcessPayout,
    TransferAuthority,
};
use x402_hack_payment::types::Pubkey;

fn key(n: u128) -> Pubkey {
    Pubkey::new(0, n)
}

fn platform(fee_bps: u64, min: u64) -> Platform {
    Platform::new(key(1), key(2), fee_bps, min).unwrap()
}

fn merchant(fee_bps: Option<u16>) -> Merchant {
    initialize_merchant(key(10), "shop".to_string(), fee_bps).unwrap()
}

#[test]
fn fee_split_scenario_claim_then_refund() {
    let p = platform(250, 1);
    let m = merchant(None);
    let mut pay = process_payment(&p, &m, key(11), key(20), "p1".to_string(), 1_000_000, 5).unwrap();
    assert_eq!(pay.amount, 1_000_000);
    assert_eq!(pay.fee_amount, 25_000);
    assert_eq!(pay.status, PaymentStatus::Created);
    let split = claim_platform_fees(&p, &m, key(10), 1_000_000, &mut pay).unwrap();
    assert_eq!(split, FeeSplit { to_merchant: 975_000, to_platform: 25_000 });
    assert_eq!(pay.status, PaymentStatus::Claimed);
    assert_eq!(refund_payment(&p, key(1), &mut pay), Err(PaymentError::StateConflict));
    assert_eq!(pay.status, PaymentStatus::Claimed);
}

#[test]
fn refund_then_claim_conflicts() {
    let p = platform(250, 1);
    let m = merchant(None);
    let mut pay = process_payment(&p, &m, key(11), key(20), "p2".to_string(), 400, 0).unwrap();
    assert_eq!(refund_payment(&p, key(1), &mut pay), Ok(400));
    assert_eq!(pay.status, PaymentStatus::Refunded);
    assert_eq!(
        claim_platform_fees(&p, &m, key(10), 400, &mut pay),
        Err(PaymentError::StateConflict)
    );
}

#[test]
fn merchant_rate_overrides_platform() {
    let p = platform(250, 1);
    let m = merchant(Some(100));
    let pay = process_payment(&p, &m, key(11), key(20), "p3".to_string(), 1_000_000, 0).unwrap();
    assert_eq!(pay.fee_amount, 10_000);
}

#[test]
fn fee_rounds_down_and_never_exceeds_amount() {
    assert_eq!(compute_fee(999, 250), 24);
    assert_eq!(compute_fee(1, 9999), 0);
    assert_eq!(compute_fee(u64::MAX, 10000), u64::MAX);
    assert_eq!(compute_fee(7, 0), 0);
    let f = compute_fee(123_457, 333);
    assert_eq!((123_457 - f) + f, 123_457);
    assert_eq!(f, 4111);
}

#[test]
fn payment_creation_errors() {
    let m = merchant(None);
    let mut off = platform(250, 100);
    off.is_active = false;
    let r = process_payment(&off, &m, key(11), key(20), "x".to_string(), 500, 0);
    assert_eq!(r.unwrap_err(), PaymentError::PlatformInactive);
    let p = platform(250, 100);
    let r = process_payment(&p, &m, key(11), key(20), "x".to_string(), 0, 0);
    assert_eq!(r.unwrap_err(), PaymentError::PaymentBelowMinimum);
    let r = process_payment(&p, &m, key(11), key(20), "x".to_string(), 99, 0);
    assert_eq!(r.unwrap_err(), PaymentError::PaymentBelowMinimum);
    let r = process_payment(&p, &m, key(11), key(20), String::new(), 100, 0);
    assert_eq!(r.unwrap_err(), PaymentError::InvalidPaymentId);
    let r = process_payment(&p, &m, key(11), key(20), "a".repeat(65), 100, 0);
    assert_eq!(r.unwrap_err(), PaymentError::InvalidPaymentId);
    let r = process_payment(&p, &m, key(11), key(20), "a".repeat(64), 100, 0);
    assert!(r.is_ok());
}

#[test]
fn claim_errors() {
    let p = platform(250, 1);
    let m = merchant(None);
    let mut pay = process_payment(&p, &m, key(11), key(20), "c".to_string(), 1000, 0).unwrap();
    assert_eq!(
        claim_platform_fees(&p, &m, key(99), 1000, &mut pay),
        Err(PaymentError::Unauthorized)
    );
    assert_eq!(
        claim_platform_fees(&p, &m, key(10), 999, &mut pay),
        Err(PaymentError::InsufficientEscrowBalance)
    );
    assert_eq!(pay.status, PaymentStatus::Created);
    assert_eq!(
        claim_platform_fees(&p, &m, key(1), 1000, &mut pay),
        Ok(FeeSplit { to_merchant: 975, to_platform: 25 })
    );
}

#[test]
fn refund_needs_platform_authority() {
    let p = platform(250, 1);
    let m = merchant(None);
    let mut pay = process_payment(&p, &m, key(11), key(20), "r".to_string(), 1000, 0).unwrap();
    assert_eq!(refund_payment(&p, key(10), &mut pay), Err(PaymentError::Unauthorized));
    assert_eq!(pay.status, PaymentStatus::Created);
}

#[test]
fn platform_and_merchant_setup() {
    assert_eq!(
        Platform::new(key(1), key(2), 10_001, 0),
        Err(PaymentError::InvalidFeeBps)
    );
    let mut p = platform(250, 1);
    assert_eq!(set_platform_config(&mut p, key(5), 300, 10), Err(PaymentError::Unauthorized));
    assert_eq!(set_platform_config(&mut p, key(1), 10_001, 10), Err(PaymentError::InvalidFeeBps));
    assert_eq!(p.fee_bps, 250);
    assert_eq!(set_platform_config(&mut p, key(1), 300, 10), Ok(()));
    assert_eq!((p.fee_bps, p.min_payment_amount), (300, 10));
    assert_eq!(
        initialize_merchant(key(10), String::new(), None).unwrap_err(),
        PaymentError::InvalidMerchantId
    );
    assert_eq!(
        initialize_merchant(key(10), "m".to_string(), Some(10_001)).unwrap_err(),
        PaymentError::InvalidFeeBps
    );
    let m = merchant(Some(10_000));
    assert!(m.is_active);
    assert_eq!(m.fee_bps, Some(10_000));
}

#[test]
fn authority_transfer() {
    let mut ctx = TransferAuthority {
        authority: key(7),
        new_authority: key(8),
        platform_config: platform(250, 1),
    };
    assert_eq!(ctx.transfer_authority(), Err(PaymentError::Unauthorized));
    assert_eq!(ctx.platform_config.authority, key(1));
    ctx.authority = key(1);
    assert_eq!(ctx.transfer_authority(), Ok(()));
    assert_eq!(ctx.platform_config.authority, key(8));
}

#[test]
fn treasury_payout_checks() {
    let mut ctx = ProcessPayout { authority: key(1), platform_config: platform(250, 1), treasury_balance: 500 };
    assert_eq!(ctx.process_payout(500, "po".to_string()), Ok(()));
    assert_eq!(ctx.process_payout(501, "po".to_string()), Err(PaymentError::InsufficientTreasuryBalance));
    assert_eq!(ctx.process_payout(0, "po".to_string()), Err(PaymentError::PaymentBelowMinimum));
    assert_eq!(ctx.process_payout(5, "a".repeat(65)), Err(PaymentError::InvalidPaymentId));
    assert_eq!(ctx.process_payout(5, String::new()), Err(PaymentError::InvalidPaymentId));
    ctx.platform_config.is_active = false;
    assert_eq!(ctx.process_payout(5, "po".to_string()), Err(PaymentError::PlatformInactive));
    ctx.authority = key(3);
    assert_eq!(ctx.process_payout(5, "po".to_string()), Err(PaymentError::Unauthorized));
}
