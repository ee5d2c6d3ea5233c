use x402_hack_payment::confidential::{encrypt_amount, AllowanceBook, MerchantPrivateStats, StatsError};
use x402_hack_payment::types::Pubkey;

#[test]
fn handle_reads_first_sixteen_bytes_little_endian() {
    assert_eq!(encrypt_amount(&vec![1]), Some(1));
    assert_eq!(encrypt_amount(&vec![0x34, 0x12]), Some(0x1234));
    let long: Vec<u8> = (1..=20).collect();
    let mut first = [0u8; 16];
    first.copy_from_slice(&long[..16]);
    assert_eq!(encrypt_amount(&long), Some(u128::from_le_bytes(first)));
    assert_eq!(encrypt_amount(&vec![0xff; 16]), Some(u128::MAX));
    assert_eq!(encrypt_amount(&vec![0xff; 17]), Some(u128::MAX));
    assert_eq!(encrypt_amount(&vec![]), None);
}

#[test]
fn grant_twice_is_one_grant() {
    let mut book = AllowanceBook::new();
    let who = Pubkey::new(0, 5);
    assert!(!book.is_allowed(9, who));
    book.grant_allowance(9, who);
    book.grant_allowance(9, who);
    assert_eq!(book.len(), 1);
    assert!(book.is_allowed(9, who));
    book.grant_allowance(9, Pubkey::new(0, 6));
    book.grant_allowance(10, who);
    assert_eq!(book.len(), 3);
    assert!(!book.is_allowed(11, who));
}

#[test]
fn stats_first_and_later_aggregations() {
    let m = Pubkey::new(0, 3);
    let mut s = MerchantPrivateStats::new();
    assert_eq!(s.aggregate_payout(m, 111, 999, 10), Ok(()));
    assert_eq!((s.merchant, s.encrypted_total_payouts, s.payout_count, s.last_updated), (m, 111, 1, 10));
    assert_eq!(s.aggregate_payout(m, 222, 333, 20), Ok(()));
    assert_eq!((s.encrypted_total_payouts, s.payout_count, s.last_updated), (333, 2, 20));
    assert_eq!(s.aggregate_revenue(m, 5, 6, 30), Ok(()));
    assert_eq!((s.encrypted_total_revenue, s.transaction_count), (6, 1));
    assert_eq!(
        s.aggregate_payout(Pubkey::new(0, 4), 1, 1, 40),
        Err(StatsError::MerchantMismatch)
    );
    s.payout_count = u64::MAX;
    assert_eq!(s.aggregate_payout(m, 1, 1, 40), Err(StatsError::CounterOverflow));
    assert_eq!(s.last_updated, 30);
}

#[test]
fn revenue_starts_a_fresh_record() {
    let m = Pubkey::new(1, 3);
    let mut s = MerchantPrivateStats::new();
    assert_eq!(s.aggregate_revenue(m, 77, 0, 3), Ok(()));
    assert_eq!((s.merchant, s.encrypted_total_revenue, s.transaction_count, s.payout_count), (m, 77, 1, 0));
}
