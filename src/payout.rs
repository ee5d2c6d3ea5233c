use vstd::prelude::*;
use crate::confidential::{
    encrypt_amount,
    handle_of,
    stats_after_payout,
    stats_error,
    with_grant,
    Allowance,
    AllowanceBook,
    MerchantPrivateStats,
    StatsError,
};
use crate::escrow::Merchant;
use crate::types::{Pubkey, byte_len, str_byte_len, MAX_ID_LEN};

verus! {

#[derive(Clone, Copy, Debug, PartialEq, Eq, Structural)]
pub enum PayoutError {
    /// A payout id longer than 64 bytes.
    PayoutIdTooLong,
    /// An empty ciphertext.
    InvalidCiphertext,
    /// The signer is not the merchant's authority.
    UnauthorizedMerchant,
    /// The payout is no longer Pending.
    PayoutNotPending,
    /// The stats record belongs to another merchant.
    StatsMerchantMismatch,
    /// The merchant's payout counter is at its largest value.
    CounterOverflow,
}

#[derive(Clone, Copy, Debug, PartialEq, Eq, Structural)]
pub enum PayoutStatus {
    Pending,
    Completed,
    Cancelled,
}

/// A confidential merchant payout; its amount exists only as an encrypted handle.
#[derive(Clone, Debug)]
pub struct PrivatePayout {
    pub payout_id: String,
    pub merchant: Pubkey,
    pub destination_wallet: Pubkey,
    pub encrypted_amount_handle: u128,
    pub range_proof_handle: Option<u128>,
    pub auditor: Option<Pubkey>,
    pub status: PayoutStatus,
    pub initiated_at: i64,
    /// Set when, and only when, the payout is Completed.
    pub completed_at: Option<i64>,
}

/// The accounts that starting a payout reads and writes: the signer, the
/// merchant record and its address, the destination, the merchant's stats and
/// the allowance book.
#[derive(Clone, Debug)]
pub struct InitiatePrivatePayout {
    pub authority: Pubkey,
    pub merchant: Merchant,
    pub merchant_key: Pubkey,
    pub destination_wallet: Pubkey,
    pub merchant_private_stats: MerchantPrivateStats,
    pub allowances: AllowanceBook,
}

/// Why a payout cannot be started, if it cannot.
pub open spec fn initiate_error(ctx: InitiatePrivatePayout, payout_id: Seq<char>, ciphertext: Seq<
    u8,
>) -> Option<PayoutError> {
    if ctx.authority != ctx.merchant.authority {
        Some(PayoutError::UnauthorizedMerchant)
    } else if byte_len(payout_id) > MAX_ID_LEN {
        Some(PayoutError::PayoutIdTooLong)
    } else if ciphertext.len() == 0 {
        Some(PayoutError::InvalidCiphertext)
    } else {
        match stats_error(
            ctx.merchant_private_stats,
            ctx.merchant_key,
            ctx.merchant_private_stats.payout_count,
        ) {
            Some(StatsError::MerchantMismatch) => Some(PayoutError::StatsMerchantMismatch),
            Some(StatsError::CounterOverflow) => Some(PayoutError::CounterOverflow),
            None => None,
        }
    }
}

/// `grants` after the merchant's authority, and the auditor if there is one,
/// may decrypt `handle`.
pub open spec fn payout_grants(
    grants: Seq<Allowance>,
    handle: u128,
    merchant_authority: Pubkey,
    auditor: Option<Pubkey>,
) -> Seq<Allowance> {
    let g = with_grant(grants, Allowance { handle, grantee: merchant_authority });
    match auditor {
        Some(a) => with_grant(g, Allowance { handle, grantee: a }),
        None => g,
    }
}

impl InitiatePrivatePayout {
    /// Starts a Pending payout whose amount is the ciphertext's handle, folds it
    /// into the merchant's stats (`summed` is the coprocessor's encrypted sum of
    /// the current payout total and the new handle) and lets the merchant's
    /// authority and the auditor, if any, decrypt it.
    pub fn initiate_private_payout(
        &mut self,
        payout_id: String,
        encrypted_amount_ciphertext: Vec<u8>,
        auditor: Option<Pubkey>,
        summed: u128,
        now: i64,
    ) -> (r: Result<PrivatePayout, PayoutError>)
        requires
            old(self).allowances.wf(),
        ensures
            final(self).allowances.wf(),
            r is Err <==> initiate_error(*old(self), payout_id@, encrypted_amount_ciphertext@) is Some,
            r matches Err(e) ==> initiate_error(*old(self), payout_id@, encrypted_amount_ciphertext@)
                == Some(e) && *final(self) == *old(self),
            r matches Ok(p) ==> {
                let handle = handle_of(encrypted_amount_ciphertext@) as u128;
                &&& p.payout_id@ == payout_id@
                &&& p.merchant == old(self).merchant_key
                &&& p.destination_wallet == old(self).destination_wallet
                &&& p.encrypted_amount_handle == handle
                &&& p.range_proof_handle is None
                &&& p.auditor == auditor
                &&& p.status == PayoutStatus::Pending
                &&& p.initiated_at == now
                &&& p.completed_at is None
                &&& final(self).merchant_private_stats == stats_after_payout(
                    old(self).merchant_private_stats,
                    old(self).merchant_key,
                    handle,
                    summed,
                    now,
                )
                &&& final(self).allowances@ == payout_grants(
                    old(self).allowances@,
                    handle,
                    old(self).merchant.authority,
                    auditor,
                )
                &&& final(self).authority == old(self).authority
                &&& final(self).merchant == old(self).merchant
                &&& final(self).merchant_key == old(self).merchant_key
                &&& final(self).destination_wallet == old(self).destination_wallet
            },
    {
        if self.authority != self.merchant.authority {
            return Err(PayoutError::UnauthorizedMerchant);
        }
        if str_byte_len(&payout_id) > MAX_ID_LEN {
            return Err(PayoutError::PayoutIdTooLong);
        }
        let handle = match encrypt_amount(&encrypted_amount_ciphertext) {
            Some(h) => h,
            None => {
                return Err(PayoutError::InvalidCiphertext);
            },
        };
        match self.merchant_private_stats.aggregate_payout(self.merchant_key, handle, summed, now) {
            Err(StatsError::MerchantMismatch) => {
                return Err(PayoutError::StatsMerchantMismatch);
            },
            Err(StatsError::CounterOverflow) => {
                return Err(PayoutError::CounterOverflow);
            },
            Ok(()) => {},
        }
        self.allowances.grant_allowance(handle, self.merchant.authority);
        match auditor {
            Some(a) => {
                self.allowances.grant_allowance(handle, a);
            },
            None => {},
        }
        Ok(
            PrivatePayout {
                payout_id,
                merchant: self.merchant_key,
                destination_wallet: self.destination_wallet,
                encrypted_amount_handle: handle,
                range_proof_handle: None,
                auditor,
                status: PayoutStatus::Pending,
                initiated_at: now,
                completed_at: None,
            },
        )
    }
}

/// The accounts that completing a payout reads and writes.
#[derive(Clone, Debug)]
pub struct CompletePrivatePayout {
    pub authority: Pubkey,
    pub private_payout: PrivatePayout,
}

impl CompletePrivatePayout {
    /// Marks a Pending payout Completed at `now`.
    pub fn complete_private_payout(&mut self, now: i64) -> (r: Result<(), PayoutError>)
        ensures
            old(self).private_payout.status != PayoutStatus::Pending ==> r == Err::<(), PayoutError>(
                PayoutError::PayoutNotPending,
            ) && *final(self) == *old(self),
            old(self).private_payout.status == PayoutStatus::Pending ==> r is Ok
                && *final(self) == (CompletePrivatePayout {
                private_payout: (PrivatePayout {
                    status: PayoutStatus::Completed,
                    completed_at: Some(now),
                    ..old(self).private_payout
                }),
                ..*old(self)
            }),
    {
        if self.private_payout.status != PayoutStatus::Pending {
            return Err(PayoutError::PayoutNotPending);
        }
        self.private_payout.status = PayoutStatus::Completed;
        self.private_payout.completed_at = Some(now);
        Ok(())
    }
}

} // verus!
