use vstd::prelude::*;
use crate::confidential::{encrypt_amount, handle_of, with_grant, Allowance, AllowanceBook};
use crate::escrow::Merchant;
use crate::types::{Pubkey, byte_len, str_byte_len, MAX_ID_LEN};

verus! {

#[derive(Clone, Copy, Debug, PartialEq, Eq, Structural)]
pub enum SubscriptionError {
    /// A subscription id longer than 64 bytes.
    SubscriptionIdTooLong,
    /// An empty ciphertext.
    InvalidCiphertext,
    /// A billing cycle that is not positive.
    InvalidBillingCycle,
    /// The subscription is not Active.
    SubscriptionNotActive,
    /// The customer given is not the subscription's.
    CustomerMismatch,
    /// The next payment is not due yet.
    PaymentNotDue,
    /// Only the subscription's customer may cancel it.
    UnauthorizedCancellation,
    /// The subscription is already Cancelled.
    AlreadyCancelled,
    /// The next due time would not fit in a timestamp.
    ScheduleOverflow,
    /// The payment counter is at its largest value.
    CounterOverflow,
}

#[derive(Clone, Copy, Debug, PartialEq, Eq, Structural)]
pub enum SubscriptionStatus {
    Active,
    Paused,
    Cancelled,
    PastDue,
}

/// A recurring payment whose amount exists only as an encrypted handle.
#[derive(Clone, Debug)]
pub struct PrivateSubscription {
    pub subscription_id: String,
    pub customer: Pubkey,
    pub merchant: Pubkey,
    pub encrypted_amount_handle: u128,
    pub billing_cycle_seconds: i64,
    pub created_at: i64,
    pub last_payment_at: i64,
    pub next_payment_at: i64,
    pub payment_count: u64,
    pub status: SubscriptionStatus,
}

impl PrivateSubscription {
    /// The cycle is positive and the next payment falls one cycle after the last.
    pub open spec fn wf(&self) -> bool {
        &&& self.billing_cycle_seconds > 0
        &&& self.next_payment_at == self.last_payment_at + self.billing_cycle_seconds
    }
}

/// The accounts that opening a subscription reads and writes: the customer, the
/// merchant record and its address, and the allowance book.
#[derive(Clone, Debug)]
pub struct CreatePrivateSubscription {
    pub customer: Pubkey,
    pub merchant: Merchant,
    pub merchant_key: Pubkey,
    pub allowances: AllowanceBook,
}

/// Why a subscription cannot be opened at `now`, if it cannot.
pub open spec fn create_error(
    subscription_id: Seq<char>,
    ciphertext: Seq<u8>,
    billing_cycle_seconds: i64,
    now: i64,
) -> Option<SubscriptionError> {
    if byte_len(subscription_id) > MAX_ID_LEN {
        Some(SubscriptionError::SubscriptionIdTooLong)
    } else if ciphertext.len() == 0 {
        Some(SubscriptionError::InvalidCiphertext)
    } else if billing_cycle_seconds <= 0 {
        Some(SubscriptionError::InvalidBillingCycle)
    } else if now + billing_cycle_seconds > i64::MAX {
        Some(SubscriptionError::ScheduleOverflow)
    } else {
        None
    }
}

/// `grants` after both parties of a subscription may decrypt `handle`.
pub open spec fn subscription_grants(
    grants: Seq<Allowance>,
    handle: u128,
    customer: Pubkey,
    merchant_authority: Pubkey,
) -> Seq<Allowance> {
    with_grant(
        with_grant(grants, Allowance { handle, grantee: customer }),
        Allowance { handle, grantee: merchant_authority },
    )
}

impl CreatePrivateSubscription {
    /// Opens an Active subscription at `now`, first due one cycle later, and
    /// lets the customer and the merchant's authority decrypt its amount.
    pub fn create_private_subscription(
        &mut self,
        subscription_id: String,
        encrypted_amount_ciphertext: Vec<u8>,
        billing_cycle_seconds: i64,
        now: i64,
    ) -> (r: Result<PrivateSubscription, SubscriptionError>)
        requires
            old(self).allowances.wf(),
        ensures
            final(self).allowances.wf(),
            r is Err <==> create_error(
                subscription_id@,
                encrypted_amount_ciphertext@,
                billing_cycle_seconds,
                now,
            ) is Some,
            r matches Err(e) ==> create_error(
                subscription_id@,
                encrypted_amount_ciphertext@,
                billing_cycle_seconds,
                now,
            ) == Some(e) && *final(self) == *old(self),
            r matches Ok(s) ==> {
                let handle = handle_of(encrypted_amount_ciphertext@) as u128;
                &&& s.wf()
                &&& s.subscription_id@ == subscription_id@
                &&& s.customer == old(self).customer
                &&& s.merchant == old(self).merchant_key
                &&& s.encrypted_amount_handle == handle
                &&& s.billing_cycle_seconds == billing_cycle_seconds
                &&& s.created_at == now
                &&& s.last_payment_at == now
                &&& s.next_payment_at == now + billing_cycle_seconds
                &&& s.payment_count == 0
                &&& s.status == SubscriptionStatus::Active
                &&& final(self).allowances@ == subscription_grants(
                    old(self).allowances@,
                    handle,
                    old(self).customer,
                    old(self).merchant.authority,
                )
                &&& final(self).customer == old(self).customer
                &&& final(self).merchant == old(self).merchant
                &&& final(self).merchant_key == old(self).merchant_key
            },
    {
        if str_byte_len(&subscription_id) > MAX_ID_LEN {
            return Err(SubscriptionError::SubscriptionIdTooLong);
        }
        let handle = match encrypt_amount(&encrypted_amount_ciphertext) {
            Some(h) => h,
            None => {
                return Err(SubscriptionError::InvalidCiphertext);
            },
        };
        if billing_cycle_seconds <= 0 {
            return Err(SubscriptionError::InvalidBillingCycle);
        }
        if now > i64::MAX - billing_cycle_seconds {
            return Err(SubscriptionError::ScheduleOverflow);
        }
        self.allowances.grant_allowance(handle, self.customer);
        self.allowances.grant_allowance(handle, self.merchant.authority);
        Ok(
            PrivateSubscription {
                subscription_id,
                customer: self.customer,
                merchant: self.merchant_key,
                encrypted_amount_handle: handle,
                billing_cycle_seconds,
                created_at: now,
                last_payment_at: now,
                next_payment_at: now + billing_cycle_seconds,
                payment_count: 0,
                status: SubscriptionStatus::Active,
            },
        )
    }
}

/// The accounts that charging a subscription reads and writes: the signer (the
/// merchant or a keeper), the customer being charged and the subscription.
#[derive(Clone, Debug)]
pub struct ProcessSubscriptionPayment {
    pub authority: Pubkey,
    pub customer: Pubkey,
    pub private_subscription: PrivateSubscription,
}

/// Why a subscription cannot be charged at `now`, if it cannot.
pub open spec fn charge_error(ctx: ProcessSubscriptionPayment, now: i64) -> Option<
    SubscriptionError,
> {
    let s = ctx.private_subscription;
    if s.status != SubscriptionStatus::Active {
        Some(SubscriptionError::SubscriptionNotActive)
    } else if s.customer != ctx.customer {
        Some(SubscriptionError::CustomerMismatch)
    } else if now < s.next_payment_at {
        Some(SubscriptionError::PaymentNotDue)
    } else if s.next_payment_at + s.billing_cycle_seconds > i64::MAX {
        Some(SubscriptionError::ScheduleOverflow)
    } else if s.payment_count == u64::MAX {
        Some(SubscriptionError::CounterOverflow)
    } else {
        None
    }
}

/// A subscription after one charge: the due payment becomes the last one and
/// the next falls one cycle later.
pub open spec fn charged(s: PrivateSubscription) -> PrivateSubscription {
    PrivateSubscription {
        last_payment_at: s.next_payment_at,
        next_payment_at: (s.next_payment_at + s.billing_cycle_seconds) as i64,
        payment_count: (s.payment_count + 1) as u64,
        ..s
    }
}

impl ProcessSubscriptionPayment {
    /// Charges the payment that fell due, if one has by `now`. Each charge moves
    /// the schedule on by exactly one cycle, so payments missed for several
    /// cycles are charged one at a time.
    pub fn process_subscription_payment(&mut self, now: i64) -> (r: Result<(), SubscriptionError>)
        requires
            old(self).private_subscription.wf(),
        ensures
            r is Err <==> charge_error(*old(self), now) is Some,
            r matches Err(e) ==> charge_error(*old(self), now) == Some(e) && *final(self)
                == *old(self),
            r is Ok ==> *final(self) == (ProcessSubscriptionPayment {
                private_subscription: charged(old(self).private_subscription),
                ..*old(self)
            }),
            old(self).private_subscription.status == SubscriptionStatus::Active
                && old(self).private_subscription.customer == old(self).customer && now
                < old(self).private_subscription.next_payment_at ==> r == Err::<
                (),
                SubscriptionError,
            >(SubscriptionError::PaymentNotDue),
            r is Ok ==> final(self).private_subscription.next_payment_at
                == old(self).private_subscription.next_payment_at
                + old(self).private_subscription.billing_cycle_seconds,
            r is Ok ==> final(self).private_subscription.wf(),
    {
        if self.private_subscription.status != SubscriptionStatus::Active {
            return Err(SubscriptionError::SubscriptionNotActive);
        }
        if self.private_subscription.customer != self.customer {
            return Err(SubscriptionError::CustomerMismatch);
        }
        let due = self.private_subscription.next_payment_at;
        let cycle = self.private_subscription.billing_cycle_seconds;
        if now < due {
            return Err(SubscriptionError::PaymentNotDue);
        }
        if due > i64::MAX - cycle {
            return Err(SubscriptionError::ScheduleOverflow);
        }
        if self.private_subscription.payment_count == u64::MAX {
            return Err(SubscriptionError::CounterOverflow);
        }
        self.private_subscription.last_payment_at = due;
        self.private_subscription.next_payment_at = due + cycle;
        self.private_subscription.payment_count = self.private_subscription.payment_count + 1;
        Ok(())
    }
}

/// The accounts that cancelling a subscription reads and writes.
#[derive(Clone, Debug)]
pub struct CancelSubscription {
    pub customer: Pubkey,
    pub private_subscription: PrivateSubscription,
}

/// Why a subscription cannot be cancelled, if it cannot.
pub open spec fn cancel_error(ctx: CancelSubscription) -> Option<SubscriptionError> {
    if ctx.private_subscription.customer != ctx.customer {
        Some(SubscriptionError::UnauthorizedCancellation)
    } else if ctx.private_subscription.status == SubscriptionStatus::Cancelled {
        Some(SubscriptionError::AlreadyCancelled)
    } else {
        None
    }
}

impl CancelSubscription {
    /// Cancels the subscription; only its customer may, and only once.
    pub fn cancel_subscription(&mut self) -> (r: Result<(), SubscriptionError>)
        ensures
            r is Err <==> cancel_error(*old(self)) is Some,
            r matches Err(e) ==> cancel_error(*old(self)) == Some(e) && *final(self) == *old(self),
            r is Ok ==> *final(self) == (CancelSubscription {
                private_subscription: (PrivateSubscription {
                    status: SubscriptionStatus::Cancelled,
                    ..old(self).private_subscription
                }),
                ..*old(self)
            }),
    {
        if self.private_subscription.customer != self.customer {
            return Err(SubscriptionError::UnauthorizedCancellation);
        }
        if self.private_subscription.status == SubscriptionStatus::Cancelled {
            return Err(SubscriptionError::AlreadyCancelled);
        }
        self.private_subscription.status = SubscriptionStatus::Cancelled;
        Ok(())
    }
}

} // verus!
