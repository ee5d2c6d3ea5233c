use vstd::prelude::*;
use crate::escrow::PaymentError;
use crate::types::{Pubkey, byte_len, valid_id, is_valid_id, str_byte_len, MAX_MEMO_LEN};

verus! {

/// How often the confidential venue commits a delegated session back, in milliseconds.
pub const COMMIT_FREQUENCY_MS: u32 = 30000;

/// Lifecycle of a confidential session; it only ever moves forward.
#[derive(Clone, Copy, Debug, PartialEq, Eq, Structural)]
pub enum SessionStatus {
    /// Created on the base ledger, awaiting delegation.
    Pending,
    /// Delegated to the confidential venue.
    Active,
    /// Processed inside the venue, awaiting settlement.
    Processed,
    /// Committed back to the base ledger.
    Settled,
}

/// Position of a status along the session's lifecycle.
pub open spec fn session_rank(s: SessionStatus) -> nat {
    match s {
        SessionStatus::Pending => 0,
        SessionStatus::Active => 1,
        SessionStatus::Processed => 2,
        SessionStatus::Settled => 3,
    }
}

/// A confidential payment session (private receipt).
#[derive(Clone, Debug)]
pub struct PrivateReceipt {
    pub payment_id: String,
    pub customer: Pubkey,
    pub merchant: Pubkey,
    pub amount: u64,
    pub fee_amount: u64,
    pub session_status: SessionStatus,
    pub is_delegated: bool,
    pub memo: String,
    pub created_at: i64,
    /// 0 until the session is settled.
    pub settled_at: i64,
}

/// What is handed to the confidential venue when a session is delegated.
#[derive(Clone, Copy, Debug, PartialEq, Eq, Structural)]
pub struct DelegationRequest {
    pub commit_frequency_ms: u32,
}

/// The parties of a new session.
#[derive(Clone, Copy, Debug, PartialEq, Eq, Structural)]
pub struct IssuePrivateReceipt {
    pub customer: Pubkey,
    pub merchant: Pubkey,
}

/// Why a session cannot be opened, if it cannot.
pub open spec fn issue_error(payment_id: Seq<char>, memo: Seq<char>) -> Option<PaymentError> {
    if !valid_id(payment_id) {
        Some(PaymentError::InvalidPaymentId)
    } else if byte_len(memo) > MAX_MEMO_LEN {
        Some(PaymentError::InvalidMemo)
    } else {
        None
    }
}

impl IssuePrivateReceipt {
    /// Opens a Pending, undelegated session for `payment_id` at time `now`.
    pub fn issue_private_receipt(
        &self,
        payment_id: String,
        amount: u64,
        fee_amount: u64,
        memo: String,
        now: i64,
    ) -> (r: Result<PrivateReceipt, PaymentError>)
        ensures
            r is Err <==> issue_error(payment_id@, memo@) is Some,
            r matches Err(e) ==> issue_error(payment_id@, memo@) == Some(e),
            r matches Ok(rc) ==> {
                &&& rc.payment_id@ == payment_id@
                &&& rc.customer == self.customer
                &&& rc.merchant == self.merchant
                &&& rc.amount == amount
                &&& rc.fee_amount == fee_amount
                &&& rc.session_status == SessionStatus::Pending
                &&& !rc.is_delegated
                &&& rc.memo@ == memo@
                &&& rc.created_at == now
                &&& rc.settled_at == 0
            },
    {
        if !is_valid_id(&payment_id) {
            return Err(PaymentError::InvalidPaymentId);
        }
        if str_byte_len(&memo) > MAX_MEMO_LEN {
            return Err(PaymentError::InvalidMemo);
        }
        Ok(
            PrivateReceipt {
                payment_id,
                customer: self.customer,
                merchant: self.merchant,
                amount,
                fee_amount,
                session_status: SessionStatus::Pending,
                is_delegated: false,
                memo,
                created_at: now,
                settled_at: 0,
            },
        )
    }
}

/// Why a session cannot be delegated, if it cannot.
pub open spec fn delegate_error(receipt: PrivateReceipt) -> Option<PaymentError> {
    if receipt.session_status != SessionStatus::Pending {
        Some(PaymentError::StateConflict)
    } else {
        None
    }
}

/// A session after a successful delegation.
pub open spec fn delegated(receipt: PrivateReceipt) -> PrivateReceipt {
    PrivateReceipt { session_status: SessionStatus::Active, is_delegated: true, ..receipt }
}

/// A session after processing in the venue.
pub open spec fn processed(receipt: PrivateReceipt) -> PrivateReceipt {
    PrivateReceipt { session_status: SessionStatus::Processed, ..receipt }
}

/// A session after settlement at time `now`.
pub open spec fn settled(receipt: PrivateReceipt, now: i64) -> PrivateReceipt {
    PrivateReceipt {
        session_status: SessionStatus::Settled,
        is_delegated: false,
        settled_at: now,
        ..receipt
    }
}

/// First half of a delegation: only a Pending session may be handed to the
/// venue. On `Ok` the caller makes the hand-off with the request returned and
/// reports its outcome to `complete_delegation`.
pub fn delegate_private_payment(receipt: &PrivateReceipt) -> (r: Result<
    DelegationRequest,
    PaymentError,
>)
    ensures
        r is Err <==> delegate_error(*receipt) is Some,
        r matches Err(e) ==> delegate_error(*receipt) == Some(e),
        r matches Ok(req) ==> req.commit_frequency_ms == COMMIT_FREQUENCY_MS,
{
    if receipt.session_status != SessionStatus::Pending {
        return Err(PaymentError::StateConflict);
    }
    Ok(DelegationRequest { commit_frequency_ms: COMMIT_FREQUENCY_MS })
}

/// Second half of a delegation: records whether the hand-off succeeded. A
/// successful hand-off makes the session Active and delegated; a failed one
/// leaves it as it was.
pub fn complete_delegation(receipt: &mut PrivateReceipt, handed_off: bool) -> (r: Result<
    (),
    PaymentError,
>)
    ensures
        delegate_error(*old(receipt)) matches Some(e) ==> r == Err::<(), PaymentError>(e),
        delegate_error(*old(receipt)) is None && !handed_off ==> r == Err::<(), PaymentError>(
            PaymentError::DelegationFailed,
        ),
        delegate_error(*old(receipt)) is None && handed_off ==> r is Ok,
        r is Err ==> *final(receipt) == *old(receipt),
        r is Ok ==> *final(receipt) == delegated(*old(receipt)),
{
    if receipt.session_status != SessionStatus::Pending {
        return Err(PaymentError::StateConflict);
    }
    if !handed_off {
        return Err(PaymentError::DelegationFailed);
    }
    receipt.is_delegated = true;
    receipt.session_status = SessionStatus::Active;
    Ok(())
}

/// Why a session cannot be processed, if it cannot.
pub open spec fn process_error(receipt: PrivateReceipt) -> Option<PaymentError> {
    if receipt.session_status != SessionStatus::Active {
        Some(PaymentError::StateConflict)
    } else {
        None
    }
}

/// Marks an Active session as processed inside the venue.
pub fn process_private_payment(receipt: &mut PrivateReceipt) -> (r: Result<(), PaymentError>)
    ensures
        r is Err <==> process_error(*old(receipt)) is Some,
        r matches Err(e) ==> process_error(*old(receipt)) == Some(e)
            && *final(receipt) == *old(receipt),
        r is Ok ==> *final(receipt) == processed(*old(receipt)),
{
    if receipt.session_status != SessionStatus::Active {
        return Err(PaymentError::StateConflict);
    }
    receipt.session_status = SessionStatus::Processed;
    Ok(())
}

/// Why a session cannot be settled, if it cannot.
pub open spec fn settle_error(receipt: PrivateReceipt) -> Option<PaymentError> {
    if receipt.session_status == SessionStatus::Settled {
        Some(PaymentError::StateConflict)
    } else {
        None
    }
}

/// Commits a session back to the base ledger at time `now`: it becomes Settled
/// and undelegated, and `settled_at` is set. Settlement is accepted from any
/// status short of Settled, so a session may be settled without having been
/// delegated or processed; a second settlement fails, so `settled_at` is
/// written once.
pub fn settle_private_payment(receipt: &mut PrivateReceipt, now: i64) -> (r: Result<
    (),
    PaymentError,
>)
    ensures
        r is Err <==> settle_error(*old(receipt)) is Some,
        r matches Err(e) ==> settle_error(*old(receipt)) == Some(e)
            && *final(receipt) == *old(receipt),
        r is Ok ==> *final(receipt) == settled(*old(receipt), now),
{
    if receipt.session_status == SessionStatus::Settled {
        return Err(PaymentError::StateConflict);
    }
    receipt.session_status = SessionStatus::Settled;
    receipt.is_delegated = false;
    receipt.settled_at = now;
    Ok(())
}

/// Sessions only move forward: every transition that is allowed raises the
/// status's rank, delegation is refused unless the session is Pending, and
/// processing is refused unless it is Active.
pub proof fn lemma_session_forward(receipt: PrivateReceipt, now: i64)
    ensures
        delegate_error(receipt) is None <==> receipt.session_status == SessionStatus::Pending,
        process_error(receipt) is None <==> receipt.session_status == SessionStatus::Active,
        delegate_error(receipt) is None ==> session_rank(delegated(receipt).session_status)
            > session_rank(receipt.session_status),
        process_error(receipt) is None ==> session_rank(processed(receipt).session_status)
            > session_rank(receipt.session_status),
        settle_error(receipt) is None ==> session_rank(settled(receipt, now).session_status)
            > session_rank(receipt.session_status),
{
}

} // verus!
