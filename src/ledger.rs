use vstd::prelude::*;
use crate::escrow::{
    claim_error,
    claim_platform_fees,
    effective_fee_bps,
    fee_of,
    payment_error,
    process_payment,
    refund_error,
    refund_payment,
    FeeSplit,
    Merchant,
    Payment,
    PaymentError,
    PaymentStatus,
    Platform,
};
use crate::types::Pubkey;

verus! {

/// Whether some payment in `payments` has id `id`.
pub open spec fn has_id(payments: Seq<Payment>, id: Seq<char>) -> bool {
    exists|i: int| 0 <= i < payments.len() && payments[i].payment_id@ == id
}

/// No two payments share an id, and each payment's fee is within its amount.
pub open spec fn ledger_wf(payments: Seq<Payment>) -> bool {
    &&& forall|i: int, j: int|
        0 <= i < j < payments.len() ==> payments[i].payment_id@ != payments[j].payment_id@
    &&& forall|i: int| 0 <= i < payments.len() ==> (#[trigger] payments[i]).wf()
}

/// Every payment the platform has taken into escrow, by id, in order of creation.
/// Payments are never removed; claimed and refunded ones stay for audit.
#[derive(Clone, Debug)]
pub struct EscrowLedger {
    payments: Vec<Payment>,
}

impl View for EscrowLedger {
    type V = Seq<Payment>;

    closed spec fn view(&self) -> Seq<Payment> {
        self.payments@
    }
}

impl EscrowLedger {
    pub open spec fn wf(&self) -> bool {
        ledger_wf(self@)
    }

    pub fn new() -> (r: EscrowLedger)
        ensures
            r@ == Seq::<Payment>::empty(),
            r.wf(),
    {
        EscrowLedger { payments: Vec::new() }
    }

    pub fn len(&self) -> (r: usize)
        ensures
            r == self@.len(),
    {
        self.payments.len()
    }

    /// Where the payment with id `payment_id` stands, if there is one.
    pub fn position(&self, payment_id: &String) -> (r: Option<usize>)
        requires
            self.wf(),
        ensures
            r is None <==> !has_id(self@, payment_id@),
            r matches Some(i) ==> i < self@.len() && self@[i as int].payment_id@ == payment_id@,
    {
        let mut i: usize = 0;
        while i < self.payments.len()
            invariant
                i <= self.payments@.len(),
                forall|j: int| 0 <= j < i ==> self.payments@[j].payment_id@ != payment_id@,
            decreases self.payments@.len() - i,
        {
            if self.payments[i].payment_id == *payment_id {
                return Some(i);
            }
            i = i + 1;
        }
        None
    }

    /// The payment with id `payment_id`, if there is one.
    pub fn get(&self, payment_id: &String) -> (r: Option<&Payment>)
        requires
            self.wf(),
        ensures
            r is None <==> !has_id(self@, payment_id@),
            r matches Some(p) ==> self@.contains(*p) && p.payment_id@ == payment_id@,
    {
        match self.position(payment_id) {
            Some(i) => Some(&self.payments[i]),
            None => None,
        }
    }

    /// Takes a new payment into escrow (see `process_payment`); its id must not
    /// be in use. The caller moves `amount` from the customer into escrow when
    /// this succeeds.
    pub fn create_payment(
        &mut self,
        platform: &Platform,
        merchant: &Merchant,
        merchant_key: Pubkey,
        customer: Pubkey,
        payment_id: String,
        amount: u64,
        now: i64,
    ) -> (r: Result<(), PaymentError>)
        requires
            old(self).wf(),
            platform.wf(),
            merchant.wf(),
        ensures
            final(self).wf(),
            payment_error(*platform, payment_id@, amount) matches Some(e) ==> r == Err::<
                (),
                PaymentError,
            >(e),
            payment_error(*platform, payment_id@, amount) is None && has_id(old(self)@, payment_id@)
                ==> r == Err::<(), PaymentError>(PaymentError::PaymentIdInUse),
            payment_error(*platform, payment_id@, amount) is None && !has_id(
                old(self)@,
                payment_id@,
            ) ==> r is Ok,
            r is Err ==> final(self)@ == old(self)@,
            r is Ok ==> {
                &&& final(self)@.len() == old(self)@.len() + 1
                &&& final(self)@.drop_last() == old(self)@
                &&& final(self)@.last().payment_id@ == payment_id@
                &&& final(self)@.last().customer == customer
                &&& final(self)@.last().merchant == merchant_key
                &&& final(self)@.last().amount == amount
                &&& final(self)@.last().fee_amount == fee_of(
                    amount as int,
                    effective_fee_bps(*platform, *merchant) as int,
                )
                &&& final(self)@.last().status == PaymentStatus::Created
                &&& final(self)@.last().created_at == now
            },
    {
        let used = self.position(&payment_id).is_some();
        let ghost id = payment_id@;
        let p = match process_payment(
            platform,
            merchant,
            merchant_key,
            customer,
            payment_id,
            amount,
            now,
        ) {
            Ok(p) => p,
            Err(e) => {
                return Err(e);
            },
        };
        if used {
            return Err(PaymentError::PaymentIdInUse);
        }
        self.payments.push(p);
        proof {
            assert(self@.drop_last() =~= old(self)@);
            assert forall|i: int, j: int|
                0 <= i < j < self@.len() implies self@[i].payment_id@ != self@[j].payment_id@ by {
                if j == self@.len() - 1 {
                    assert(old(self)@[i] == self@[i]);
                }
            }
        }
        Ok(())
    }

    /// Claims the payment with id `payment_id` (see `claim_platform_fees`).
    pub fn claim(
        &mut self,
        platform: &Platform,
        merchant: &Merchant,
        signer: Pubkey,
        escrow_balance: u64,
        payment_id: &String,
    ) -> (r: Result<FeeSplit, PaymentError>)
        requires
            old(self).wf(),
        ensures
            final(self).wf(),
            !has_id(old(self)@, payment_id@) ==> r == Err::<FeeSplit, PaymentError>(
                PaymentError::PaymentNotFound,
            ) && final(self)@ == old(self)@,
            has_id(old(self)@, payment_id@) ==> exists|i: int|
                0 <= i < old(self)@.len() && old(self)@[i].payment_id@ == payment_id@ && {
                    let p = old(self)@[i];
                    &&& r is Err <==> claim_error(*platform, *merchant, signer, escrow_balance, p) is Some
                    &&& r matches Err(e) ==> claim_error(
                        *platform,
                        *merchant,
                        signer,
                        escrow_balance,
                        p,
                    ) == Some(e) && final(self)@ == old(self)@
                    &&& r matches Ok(split) ==> split == (FeeSplit {
                        to_merchant: (p.amount - p.fee_amount) as u64,
                        to_platform: p.fee_amount,
                    }) && final(self)@ == old(self)@.update(
                        i,
                        (Payment { status: PaymentStatus::Claimed, ..p }),
                    )
                },
    {
        let i = match self.position(payment_id) {
            Some(i) => i,
            None => {
                return Err(PaymentError::PaymentNotFound);
            },
        };
        let ghost before = self@;
        let r = claim_platform_fees(platform, merchant, signer, escrow_balance, &mut self.payments[i]);
        proof {
            assert(self@ =~= before.update(i as int, self@[i as int]));
            assert forall|a: int, b: int|
                0 <= a < b < self@.len() implies self@[a].payment_id@ != self@[b].payment_id@ by {
                assert(self@[a].payment_id@ == before[a].payment_id@);
                assert(self@[b].payment_id@ == before[b].payment_id@);
            }
            assert forall|a: int| 0 <= a < self@.len() implies (#[trigger] self@[a]).wf() by {
                assert(before[a].wf());
            }
        }
        r
    }

    /// Refunds the payment with id `payment_id` (see `refund_payment`); the
    /// result is the amount to send back to its customer.
    pub fn refund(&mut self, platform: &Platform, signer: Pubkey, payment_id: &String) -> (r: Result<
        u64,
        PaymentError,
    >)
        requires
            old(self).wf(),
        ensures
            final(self).wf(),
            !has_id(old(self)@, payment_id@) ==> r == Err::<u64, PaymentError>(
                PaymentError::PaymentNotFound,
            ) && final(self)@ == old(self)@,
            has_id(old(self)@, payment_id@) ==> exists|i: int|
                0 <= i < old(self)@.len() && old(self)@[i].payment_id@ == payment_id@ && {
                    let p = old(self)@[i];
                    &&& r is Err <==> refund_error(*platform, signer, p) is Some
                    &&& r matches Err(e) ==> refund_error(*platform, signer, p) == Some(e)
                        && final(self)@ == old(self)@
                    &&& r matches Ok(amount) ==> amount == p.amount && final(self)@ == old(
                        self,
                    )@.update(i, (Payment { status: PaymentStatus::Refunded, ..p }))
                },
    {
        let i = match self.position(payment_id) {
            Some(i) => i,
            None => {
                return Err(PaymentError::PaymentNotFound);
            },
        };
        let ghost before = self@;
        let r = refund_payment(platform, signer, &mut self.payments[i]);
        proof {
            assert(self@ =~= before.update(i as int, self@[i as int]));
            assert forall|a: int, b: int|
                0 <= a < b < self@.len() implies self@[a].payment_id@ != self@[b].payment_id@ by {
                assert(self@[a].payment_id@ == before[a].payment_id@);
                assert(self@[b].payment_id@ == before[b].payment_id@);
            }
            assert forall|a: int| 0 <= a < self@.len() implies (#[trigger] self@[a]).wf() by {
                assert(before[a].wf());
            }
        }
        r
    }
}

} // verus!
