use vstd::prelude::*;
use crate::types::{Pubkey, valid_id, is_valid_id};

verus! {

/// Largest fee rate, in basis points (100%).
pub const MAX_FEE_BPS: u64 = 10000;

/// Basis points in a whole.
pub const BPS_DENOMINATOR: u64 = 10000;

#[derive(Clone, Copy, Debug, PartialEq, Eq, Structural)]
pub enum PaymentError {
    /// The signer is not an authority allowed to perform the operation.
    Unauthorized,
    /// The platform's kill-switch is off.
    PlatformInactive,
    /// A fee rate above `MAX_FEE_BPS`.
    InvalidFeeBps,
    /// A merchant id that is empty or longer than 64 bytes.
    InvalidMerchantId,
    /// A payment or payout id that is empty or longer than 64 bytes.
    InvalidPaymentId,
    /// An amount that is zero or below the platform minimum.
    PaymentBelowMinimum,
    /// The record is not in the status the operation starts from.
    StateConflict,
    /// The escrow account holds less than the payment amount.
    InsufficientEscrowBalance,
    /// The treasury holds less than the requested payout.
    InsufficientTreasuryBalance,
    /// A memo longer than 128 bytes.
    InvalidMemo,
    /// Handing the session over to the confidential venue failed.
    DelegationFailed,
    /// A payment with this id already exists.
    PaymentIdInUse,
    /// No payment has this id.
    PaymentNotFound,
}

/// Platform-wide configuration.
#[derive(Clone, Copy, Debug, PartialEq, Eq, Structural)]
pub struct Platform {
    pub authority: Pubkey,
    pub treasury: Pubkey,
    pub fee_bps: u64,
    pub min_payment_amount: u64,
    pub is_active: bool,
}

impl Platform {
    pub open spec fn wf(&self) -> bool {
        self.fee_bps <= MAX_FEE_BPS
    }

    /// An active platform configuration; the fee rate must not exceed 100%.
    pub fn new(authority: Pubkey, treasury: Pubkey, fee_bps: u64, min_payment_amount: u64) -> (r:
        Result<Platform, PaymentError>)
        ensures
            fee_bps > MAX_FEE_BPS ==> r == Err::<Platform, PaymentError>(PaymentError::InvalidFeeBps),
            fee_bps <= MAX_FEE_BPS ==> r == Ok::<Platform, PaymentError>(
                (Platform { authority, treasury, fee_bps, min_payment_amount, is_active: true }),
            ),
            r matches Ok(p) ==> p.wf(),
    {
        if fee_bps > MAX_FEE_BPS {
            return Err(PaymentError::InvalidFeeBps);
        }
        Ok(Platform { authority, treasury, fee_bps, min_payment_amount, is_active: true })
    }
}

/// Updates the platform's fee rate and minimum payment; only its authority may.
pub fn set_platform_config(
    platform: &mut Platform,
    signer: Pubkey,
    fee_bps: u64,
    min_payment_amount: u64,
) -> (r: Result<(), PaymentError>)
    ensures
        signer != old(platform).authority ==> r == Err::<(), PaymentError>(PaymentError::Unauthorized),
        signer == old(platform).authority && fee_bps > MAX_FEE_BPS ==> r == Err::<(), PaymentError>(
            PaymentError::InvalidFeeBps,
        ),
        signer == old(platform).authority && fee_bps <= MAX_FEE_BPS ==> r is Ok,
        r is Err ==> *final(platform) == *old(platform),
        r is Ok ==> *final(platform) == (Platform { fee_bps, min_payment_amount, ..*old(platform) }),
{
    if signer != platform.authority {
        return Err(PaymentError::Unauthorized);
    }
    if fee_bps > MAX_FEE_BPS {
        return Err(PaymentError::InvalidFeeBps);
    }
    platform.fee_bps = fee_bps;
    platform.min_payment_amount = min_payment_amount;
    Ok(())
}

/// A merchant; a fee rate of its own, when set, overrides the platform's.
#[derive(Clone, Debug)]
pub struct Merchant {
    pub merchant_id: String,
    pub authority: Pubkey,
    pub fee_bps: Option<u16>,
    pub is_active: bool,
}

impl Merchant {
    pub open spec fn wf(&self) -> bool {
        &&& valid_id(self.merchant_id@)
        &&& (self.fee_bps matches Some(b) ==> b <= MAX_FEE_BPS)
    }
}

/// Registers a merchant under `merchant_id` (1 to 64 bytes) with an optional fee rate.
pub fn initialize_merchant(authority: Pubkey, merchant_id: String, fee_bps: Option<u16>) -> (r:
    Result<Merchant, PaymentError>)
    ensures
        !valid_id(merchant_id@) ==> r == Err::<Merchant, PaymentError>(PaymentError::InvalidMerchantId),
        valid_id(merchant_id@) && (fee_bps matches Some(b) && b > MAX_FEE_BPS) ==> r == Err::<
            Merchant,
            PaymentError,
        >(PaymentError::InvalidFeeBps),
        valid_id(merchant_id@) && !(fee_bps matches Some(b) && b > MAX_FEE_BPS) ==> r is Ok,
        r matches Ok(m) ==> m.wf() && m.merchant_id@ == merchant_id@ && m.authority == authority
            && m.fee_bps == fee_bps && m.is_active,
{
    if !is_valid_id(&merchant_id) {
        return Err(PaymentError::InvalidMerchantId);
    }
    match fee_bps {
        Some(b) => {
            if b as u64 > MAX_FEE_BPS {
                return Err(PaymentError::InvalidFeeBps);
            }
        },
        None => {},
    }
    Ok(Merchant { merchant_id, authority, fee_bps, is_active: true })
}

/// The fee rate that applies to a merchant's payments.
pub open spec fn effective_fee_bps(platform: Platform, merchant: Merchant) -> u64 {
    match merchant.fee_bps {
        Some(b) => b as u64,
        None => platform.fee_bps,
    }
}

/// The platform's share of `amount` at `fee_bps`, rounded down.
pub open spec fn fee_of(amount: int, fee_bps: int) -> int {
    amount * fee_bps / BPS_DENOMINATOR as int
}

pub fn effective_fee(platform: &Platform, merchant: &Merchant) -> (r: u64)
    requires
        platform.wf(),
        merchant.wf(),
    ensures
        r == effective_fee_bps(*platform, *merchant),
        r <= MAX_FEE_BPS,
{
    match merchant.fee_bps {
        Some(b) => b as u64,
        None => platform.fee_bps,
    }
}

/// The fee on `amount` at `fee_bps`; never more than `amount`.
pub fn compute_fee(amount: u64, fee_bps: u64) -> (r: u64)
    requires
        fee_bps <= MAX_FEE_BPS,
    ensures
        r == fee_of(amount as int, fee_bps as int),
        r <= amount,
{
    let a = amount as u128;
    let b = fee_bps as u128;
    proof {
        assert(a * b <= a * 10000) by (nonlinear_arith)
            requires
                b <= 10000,
        ;
        assert(a * 10000 <= 0xffff_ffff_ffff_ffffu128 * 10000) by (nonlinear_arith)
            requires
                a <= 0xffff_ffff_ffff_ffffu128,
        ;
    }
    let wide = a * b;
    let fee = wide / 10000;
    proof {
        assert(wide / 10000 <= a) by (nonlinear_arith)
            requires
                wide <= a * 10000,
        ;
    }
    fee as u64
}

#[derive(Clone, Copy, Debug, PartialEq, Eq, Structural)]
pub enum PaymentStatus {
    Created,
    Claimed,
    Refunded,
}

/// A payment held in escrow; the fee is fixed when the payment is created.
#[derive(Clone, Debug)]
pub struct Payment {
    pub payment_id: String,
    pub customer: Pubkey,
    pub merchant: Pubkey,
    pub amount: u64,
    pub fee_amount: u64,
    pub status: PaymentStatus,
    pub created_at: i64,
}

impl Payment {
    pub open spec fn wf(&self) -> bool {
        self.fee_amount <= self.amount
    }
}

/// Why a payment of `amount` under `payment_id` cannot be created, if it cannot.
pub open spec fn payment_error(platform: Platform, payment_id: Seq<char>, amount: u64) -> Option<
    PaymentError,
> {
    if !platform.is_active {
        Some(PaymentError::PlatformInactive)
    } else if amount == 0 || amount < platform.min_payment_amount {
        Some(PaymentError::PaymentBelowMinimum)
    } else if !valid_id(payment_id) {
        Some(PaymentError::InvalidPaymentId)
    } else {
        None
    }
}

/// Creates a payment of `amount` from `customer` to the merchant at `merchant_key`,
/// with the fee at the merchant's effective rate. The caller moves `amount` into
/// escrow when this succeeds.
pub fn process_payment(
    platform: &Platform,
    merchant: &Merchant,
    merchant_key: Pubkey,
    customer: Pubkey,
    payment_id: String,
    amount: u64,
    now: i64,
) -> (r: Result<Payment, PaymentError>)
    requires
        platform.wf(),
        merchant.wf(),
    ensures
        r is Err <==> payment_error(*platform, payment_id@, amount) is Some,
        r matches Err(e) ==> payment_error(*platform, payment_id@, amount) == Some(e),
        r matches Ok(p) ==> {
            &&& p.wf()
            &&& p.payment_id@ == payment_id@
            &&& p.customer == customer
            &&& p.merchant == merchant_key
            &&& p.amount == amount
            &&& p.fee_amount == fee_of(amount as int, effective_fee_bps(*platform, *merchant) as int)
            &&& p.status == PaymentStatus::Created
            &&& p.created_at == now
        },
{
    if !platform.is_active {
        return Err(PaymentError::PlatformInactive);
    }
    if amount == 0 || amount < platform.min_payment_amount {
        return Err(PaymentError::PaymentBelowMinimum);
    }
    if !is_valid_id(&payment_id) {
        return Err(PaymentError::InvalidPaymentId);
    }
    let bps = effective_fee(platform, merchant);
    let fee_amount = compute_fee(amount, bps);
    Ok(
        Payment {
            payment_id,
            customer,
            merchant: merchant_key,
            amount,
            fee_amount,
            status: PaymentStatus::Created,
            created_at: now,
        },
    )
}

/// How a claimed payment is paid out of escrow.
#[derive(Clone, Copy, Debug, PartialEq, Eq, Structural)]
pub struct FeeSplit {
    pub to_merchant: u64,
    pub to_platform: u64,
}

/// Why `signer` cannot claim `payment`, if it cannot.
pub open spec fn claim_error(
    platform: Platform,
    merchant: Merchant,
    signer: Pubkey,
    escrow_balance: u64,
    payment: Payment,
) -> Option<PaymentError> {
    if payment.status != PaymentStatus::Created {
        Some(PaymentError::StateConflict)
    } else if signer != merchant.authority && signer != platform.authority {
        Some(PaymentError::Unauthorized)
    } else if escrow_balance < payment.amount {
        Some(PaymentError::InsufficientEscrowBalance)
    } else {
        None
    }
}

/// Why `signer` cannot refund `payment`, if it cannot.
pub open spec fn refund_error(platform: Platform, signer: Pubkey, payment: Payment) -> Option<
    PaymentError,
> {
    if payment.status != PaymentStatus::Created {
        Some(PaymentError::StateConflict)
    } else if signer != platform.authority {
        Some(PaymentError::Unauthorized)
    } else {
        None
    }
}

/// Releases an escrowed payment: the merchant gets `amount - fee_amount` and the
/// treasury gets `fee_amount`; the payment becomes Claimed. The merchant's or the
/// platform's authority may claim.
pub fn claim_platform_fees(
    platform: &Platform,
    merchant: &Merchant,
    signer: Pubkey,
    escrow_balance: u64,
    payment: &mut Payment,
) -> (r: Result<FeeSplit, PaymentError>)
    requires
        old(payment).wf(),
    ensures
        r is Err <==> claim_error(*platform, *merchant, signer, escrow_balance, *old(payment)) is Some,
        r matches Err(e) ==> claim_error(*platform, *merchant, signer, escrow_balance, *old(payment))
            == Some(e) && *final(payment) == *old(payment),
        r matches Ok(split) ==> {
            &&& split.to_merchant == old(payment).amount - old(payment).fee_amount
            &&& split.to_platform == old(payment).fee_amount
            &&& split.to_merchant + split.to_platform == old(payment).amount
            &&& *final(payment) == (Payment { status: PaymentStatus::Claimed, ..*old(payment) })
        },
{
    if payment.status != PaymentStatus::Created {
        return Err(PaymentError::StateConflict);
    }
    if signer != merchant.authority && signer != platform.authority {
        return Err(PaymentError::Unauthorized);
    }
    if escrow_balance < payment.amount {
        return Err(PaymentError::InsufficientEscrowBalance);
    }
    payment.status = PaymentStatus::Claimed;
    Ok(FeeSplit { to_merchant: payment.amount - payment.fee_amount, to_platform: payment.fee_amount })
}

/// Returns an escrowed payment to its customer in full; the payment becomes
/// Refunded. Only the platform authority may refund. The result is the amount
/// to send back.
pub fn refund_payment(platform: &Platform, signer: Pubkey, payment: &mut Payment) -> (r: Result<
    u64,
    PaymentError,
>)
    ensures
        r is Err <==> refund_error(*platform, signer, *old(payment)) is Some,
        r matches Err(e) ==> refund_error(*platform, signer, *old(payment)) == Some(e)
            && *final(payment) == *old(payment),
        r matches Ok(refunded) ==> refunded == old(payment).amount && *final(payment) == (Payment {
            status: PaymentStatus::Refunded,
            ..*old(payment)
        }),
{
    if payment.status != PaymentStatus::Created {
        return Err(PaymentError::StateConflict);
    }
    if signer != platform.authority {
        return Err(PaymentError::Unauthorized);
    }
    payment.status = PaymentStatus::Refunded;
    Ok(payment.amount)
}

/// Fee split: at any rate up to 100%, the fee is the rate's share of the amount
/// rounded down, never more than the amount, and the merchant's part and the fee
/// add up to the amount exactly.
pub proof fn lemma_fee_split(amount: u64, fee_bps: u64)
    requires
        fee_bps <= MAX_FEE_BPS,
    ensures
        0 <= fee_of(amount as int, fee_bps as int) <= amount,
        fee_of(amount as int, fee_bps as int) * 10000 <= amount * fee_bps,
        amount * fee_bps < (fee_of(amount as int, fee_bps as int) + 1) * 10000,
        (amount - fee_of(amount as int, fee_bps as int)) + fee_of(amount as int, fee_bps as int)
            == amount,
{
    let a = amount as int;
    let b = fee_bps as int;
    assert(0 <= a * b <= a * 10000) by (nonlinear_arith)
        requires
            0 <= b <= 10000,
            0 <= a,
    ;
    assert(0 <= (a * b) / 10000 <= a) by (nonlinear_arith)
        requires
            0 <= a * b <= a * 10000,
    ;
}

/// Claim and refund exclude each other: once either has succeeded on a payment,
/// both fail on the result with StateConflict, whoever signs.
pub proof fn lemma_claim_refund_exclusive(
    platform: Platform,
    merchant: Merchant,
    payment: Payment,
    signer: Pubkey,
    escrow_balance: u64,
    next_signer: Pubkey,
    next_balance: u64,
)
    ensures
        claim_error(platform, merchant, signer, escrow_balance, payment) is None ==> {
            let claimed = Payment { status: PaymentStatus::Claimed, ..payment };
            &&& refund_error(platform, next_signer, claimed) == Some(PaymentError::StateConflict)
            &&& claim_error(platform, merchant, next_signer, next_balance, claimed) == Some(
                PaymentError::StateConflict,
            )
        },
        refund_error(platform, signer, payment) is None ==> {
            let refunded = Payment { status: PaymentStatus::Refunded, ..payment };
            &&& claim_error(platform, merchant, next_signer, next_balance, refunded) == Some(
                PaymentError::StateConflict,
            )
            &&& refund_error(platform, next_signer, refunded) == Some(PaymentError::StateConflict)
        },
{
}

/// The accounts that an authority transfer reads.
#[derive(Clone, Copy, Debug, PartialEq, Eq, Structural)]
pub struct TransferAuthority {
    pub authority: Pubkey,
    pub new_authority: Pubkey,
    pub platform_config: Platform,
}

impl TransferAuthority {
    /// Hands the platform over to `new_authority`; the current authority must sign.
    pub fn transfer_authority(&mut self) -> (r: Result<(), PaymentError>)
        ensures
            old(self).authority != old(self).platform_config.authority ==> r == Err::<
                (),
                PaymentError,
            >(PaymentError::Unauthorized) && *final(self) == *old(self),
            old(self).authority == old(self).platform_config.authority ==> r is Ok
                && *final(self) == (TransferAuthority {
                platform_config: (Platform {
                    authority: old(self).new_authority,
                    ..old(self).platform_config
                }),
                ..*old(self)
            }),
    {
        if self.authority != self.platform_config.authority {
            return Err(PaymentError::Unauthorized);
        }
        self.platform_config.authority = self.new_authority;
        Ok(())
    }
}

/// The accounts that a treasury payout reads: the signer, the platform and the
/// treasury's balance.
#[derive(Clone, Copy, Debug, PartialEq, Eq, Structural)]
pub struct ProcessPayout {
    pub authority: Pubkey,
    pub platform_config: Platform,
    pub treasury_balance: u64,
}

/// Why a treasury payout cannot go ahead, if it cannot.
pub open spec fn payout_error(ctx: ProcessPayout, amount: u64, payout_id: Seq<char>) -> Option<
    PaymentError,
> {
    if ctx.authority != ctx.platform_config.authority {
        Some(PaymentError::Unauthorized)
    } else if !ctx.platform_config.is_active {
        Some(PaymentError::PlatformInactive)
    } else if amount == 0 {
        Some(PaymentError::PaymentBelowMinimum)
    } else if !valid_id(payout_id) {
        Some(PaymentError::InvalidPaymentId)
    } else if ctx.treasury_balance < amount {
        Some(PaymentError::InsufficientTreasuryBalance)
    } else {
        None
    }
}

impl ProcessPayout {
    /// Decides whether `amount` may leave the treasury; on `Ok` the caller
    /// transfers exactly `amount` to the recipient.
    pub fn process_payout(&self, amount: u64, payout_id: String) -> (r: Result<(), PaymentError>)
        ensures
            r is Err <==> payout_error(*self, amount, payout_id@) is Some,
            r matches Err(e) ==> payout_error(*self, amount, payout_id@) == Some(e),
    {
        if self.authority != self.platform_config.authority {
            return Err(PaymentError::Unauthorized);
        }
        if !self.platform_config.is_active {
            return Err(PaymentError::PlatformInactive);
        }
        if amount == 0 {
            return Err(PaymentError::PaymentBelowMinimum);
        }
        if !is_valid_id(&payout_id) {
            return Err(PaymentError::InvalidPaymentId);
        }
        if self.treasury_balance < amount {
            return Err(PaymentError::InsufficientTreasuryBalance);
        }
        Ok(())
    }
}

} // verus!
