use x402_hack_payment::confidential::{AllowanceBook, MerchantPrivateStats};
use x402_hack_payment::escrow::initialize_merchant;
use x402_hack_payment::payout::{CompletePrivatePayout, InitiatePrivatePayout, PayoutError, PayoutStatus};
use x402_hack_payment::types::Pubkey;

fn ctx() -> InitiatePrivatePayout {
    InitiatePrivatePayout {
        authority: Pubkey::new(0, 10),
        merchant: initialize_merchant(Pubkey::new(0, 10), "shop".to_string(), None).unwrap(),
        merchant_key: Pubkey::new(0, 11),
        destination_wallet: Pubkey::new(0, 12),
        merchant_private_stats: MerchantPrivateStats::new(),
        allowances: AllowanceBook::new(),
    }
}

#[test]
fn payout_lifecycle() {
    let mut c = ctx();
    let auditor = Pubkey::new(0, 13);
    let p = c.initiate_private_payout("po1".to_string(), vec![7, 1], Some(auditor), 0, 50).unwrap();
    assert_eq!(p.encrypted_amount_handle, 0x0107);
    assert_eq!(p.status, PayoutStatus::Pending);
    assert_eq!((p.merchant, p.destination_wallet, p.initiated_at), (Pubkey::new(0, 11), Pubkey::new(0, 12), 50));
    assert_eq!(p.completed_at, None);
    assert_eq!(p.auditor, Some(auditor));
    assert!(c.allowances.is_allowed(0x0107, Pubkey::new(0, 10)));
    assert!(c.allowances.is_allowed(0x0107, auditor));
    assert_eq!(c.merchant_private_stats.payout_count, 1);
    assert_eq!(c.merchant_private_stats.encrypted_total_payouts, 0x0107);
    assert_eq!(c.merchant_private_stats.merchant, Pubkey::new(0, 11));

    let p2 = c.initiate_private_payout("po2".to_string(), vec![3], None, 4242, 60).unwrap();
    assert_eq!(p2.encrypted_amount_handle, 3);
    assert_eq!(c.merchant_private_stats.payout_count, 2);
    assert_eq!(c.merchant_private_stats.encrypted_total_payouts, 4242);
    assert_eq!(c.allowances.len(), 3);

    let mut done = CompletePrivatePayout { authority: Pubkey::new(0, 10), private_payout: p };
    assert_eq!(done.complete_private_payout(70), Ok(()));
    assert_eq!(done.private_payout.status, PayoutStatus::Completed);
    assert_eq!(done.private_payout.completed_at, Some(70));
    assert_eq!(done.complete_private_payout(80), Err(PayoutError::PayoutNotPending));
    assert_eq!(done.private_payout.completed_at, Some(70));
}

#[test]
fn payout_input_errors() {
    let mut c = ctx();
    let r = c.initiate_private_payout("x".repeat(65), vec![1], None, 0, 0);
    assert_eq!(r.unwrap_err(), PayoutError::PayoutIdTooLong);
    let r = c.initiate_private_payout("x".to_string(), vec![], None, 0, 0);
    assert_eq!(r.unwrap_err(), PayoutError::InvalidCiphertext);
    c.authority = Pubkey::new(0, 99);
    let r = c.initiate_private_payout("x".to_string(), vec![1], None, 0, 0);
    assert_eq!(r.unwrap_err(), PayoutError::UnauthorizedMerchant);
    assert_eq!(c.merchant_private_stats.payout_count, 0);
    assert_eq!(c.allowances.len(), 0);
}

#[test]
fn payout_stats_errors() {
    let mut c = ctx();
    c.merchant_private_stats.merchant = Pubkey::new(0, 77);
    let r = c.initiate_private_payout("x".to_string(), vec![1], None, 0, 0);
    assert_eq!(r.unwrap_err(), PayoutError::StatsMerchantMismatch);
    c.merchant_private_stats.merchant = Pubkey::new(0, 11);
    c.merchant_private_stats.payout_count = u64::MAX;
    let r = c.initiate_private_payout("x".to_string(), vec![1], None, 0, 0);
    assert_eq!(r.unwrap_err(), PayoutError::CounterOverflow);
    assert_eq!(c.allowances.len(), 0);
}
