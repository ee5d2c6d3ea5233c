use vstd::prelude::*;
use crate::types::Pubkey;

verus! {

/// Bytes of a ciphertext that make up its handle.
pub const HANDLE_BYTES: usize = 16;

/// 256 to the power `n`.
pub open spec fn pow256(n: nat) -> nat
    decreases n,
{
    if n == 0 {
        1
    } else {
        256 * pow256((n - 1) as nat)
    }
}

/// The number that `bytes` spell in little-endian order.
pub open spec fn le_value(bytes: Seq<u8>) -> nat
    decreases bytes.len(),
{
    if bytes.len() == 0 {
        0
    } else {
        bytes[0] as nat + 256 * le_value(bytes.drop_first())
    }
}

/// The handle that stands for a ciphertext: the little-endian value of its first
/// `HANDLE_BYTES` bytes (all of them when it is shorter).
pub open spec fn handle_of(ciphertext: Seq<u8>) -> nat {
    if ciphertext.len() <= HANDLE_BYTES {
        le_value(ciphertext)
    } else {
        le_value(ciphertext.take(HANDLE_BYTES as int))
    }
}

proof fn lemma_pow256_mono(a: nat, b: nat)
    requires
        a <= b,
    ensures
        pow256(a) <= pow256(b),
    decreases b - a,
{
    if a < b {
        lemma_pow256_mono(a, (b - 1) as nat);
    }
}

/// Registers a client ciphertext and returns the opaque handle that stands for
/// it; an empty ciphertext is refused.
pub fn encrypt_amount(ciphertext: &Vec<u8>) -> (r: Option<u128>)
    ensures
        ciphertext@.len() == 0 ==> r is None,
        ciphertext@.len() > 0 ==> r == Some(handle_of(ciphertext@) as u128),
{
    if ciphertext.len() == 0 {
        return None;
    }
    let n: usize = if ciphertext.len() < HANDLE_BYTES {
        ciphertext.len()
    } else {
        HANDLE_BYTES
    };
    let ghost bytes = ciphertext@.subrange(0, n as int);
    proof {
        reveal_with_fuel(pow256, 17);
        assert(pow256(16) == 0x1_0000_0000_0000_0000_0000_0000_0000_0000);
        if ciphertext@.len() <= HANDLE_BYTES {
            assert(bytes =~= ciphertext@);
        } else {
            assert(bytes =~= ciphertext@.take(HANDLE_BYTES as int));
        }
        assert(ciphertext@.subrange(n as int, n as int) =~= Seq::<u8>::empty());
    }
    let mut h: u128 = 0;
    let mut i: usize = n;
    while i > 0
        invariant
            n <= HANDLE_BYTES,
            n <= ciphertext@.len(),
            i <= n,
            bytes == ciphertext@.subrange(0, n as int),
            h == le_value(ciphertext@.subrange(i as int, n as int)),
            h < pow256((n - i) as nat),
            pow256(16) == 0x1_0000_0000_0000_0000_0000_0000_0000_0000,
        decreases i,
    {
        i = i - 1;
        let b = ciphertext[i];
        proof {
            let k = (n - i - 1) as nat;
            lemma_pow256_mono(k + 1, 16);
            assert(pow256(k + 1) == 256 * pow256(k));
            assert(h * 256 + b < pow256(k + 1)) by (nonlinear_arith)
                requires
                    h < pow256(k),
                    b < 256,
                    pow256(k + 1) == 256 * pow256(k),
            ;
            let tail = ciphertext@.subrange(i as int, n as int);
            assert(tail.drop_first() =~= ciphertext@.subrange(i + 1, n as int));
        }
        h = b as u128 + h * 256;
    }
    proof {
        assert(ciphertext@.subrange(0, n as int) == bytes);
    }
    Some(h)
}

/// Permission for `grantee` to have the value behind `handle` decrypted.
#[derive(Clone, Copy, Debug, PartialEq, Eq, Structural)]
pub struct Allowance {
    pub handle: u128,
    pub grantee: Pubkey,
}

/// `grants` after granting `a`: unchanged when `a` is already there, else `a` is added.
pub open spec fn with_grant(grants: Seq<Allowance>, a: Allowance) -> Seq<Allowance> {
    if grants.contains(a) {
        grants
    } else {
        grants.push(a)
    }
}

/// The allowances granted so far, each once, in the order they were granted.
/// Grants are never revoked.
#[derive(Clone, Debug)]
pub struct AllowanceBook {
    grants: Vec<Allowance>,
}

impl View for AllowanceBook {
    type V = Seq<Allowance>;

    closed spec fn view(&self) -> Seq<Allowance> {
        self.grants@
    }
}

impl AllowanceBook {
    pub open spec fn wf(&self) -> bool {
        self@.no_duplicates()
    }

    pub fn new() -> (r: AllowanceBook)
        ensures
            r@ == Seq::<Allowance>::empty(),
            r.wf(),
    {
        AllowanceBook { grants: Vec::new() }
    }

    pub fn len(&self) -> (r: usize)
        ensures
            r == self@.len(),
    {
        self.grants.len()
    }

    /// The `i`-th grant, in the order of granting.
    pub fn get(&self, i: usize) -> (r: Allowance)
        requires
            i < self@.len(),
        ensures
            r == self@[i as int],
    {
        self.grants[i]
    }

    /// Whether `grantee` may have `handle` decrypted.
    pub fn is_allowed(&self, handle: u128, grantee: Pubkey) -> (r: bool)
        ensures
            r == self@.contains(Allowance { handle, grantee }),
    {
        let a = Allowance { handle, grantee };
        let mut i: usize = 0;
        while i < self.grants.len()
            invariant
                i <= self.grants@.len(),
                a == (Allowance { handle, grantee }),
                forall|j: int| 0 <= j < i ==> self.grants@[j] != a,
            decreases self.grants@.len() - i,
        {
            if self.grants[i] == a {
                assert(self@[i as int] == a);
                return true;
            }
            i = i + 1;
        }
        false
    }

    /// Lets `grantee` have `handle` decrypted; granting the same pair again changes nothing.
    pub fn grant_allowance(&mut self, handle: u128, grantee: Pubkey)
        requires
            old(self).wf(),
        ensures
            final(self)@ == with_grant(old(self)@, Allowance { handle, grantee }),
            final(self).wf(),
    {
        if !self.is_allowed(handle, grantee) {
            self.grants.push(Allowance { handle, grantee });
        }
    }
}

/// Granting is idempotent: granting a pair a second time leaves the book as the
/// first grant left it, and the pair then stands in it exactly once.
pub proof fn lemma_grant_idempotent(grants: Seq<Allowance>, a: Allowance)
    requires
        grants.no_duplicates(),
    ensures
        with_grant(with_grant(grants, a), a) == with_grant(grants, a),
        with_grant(grants, a).no_duplicates(),
        with_grant(grants, a).contains(a),
        forall|i: int, j: int|
            0 <= i < with_grant(grants, a).len() && 0 <= j < with_grant(grants, a).len()
                && with_grant(grants, a)[i] == a && with_grant(grants, a)[j] == a ==> i == j,
{
    let g = with_grant(grants, a);
    if !grants.contains(a) {
        assert(g[grants.len() as int] == a);
        assert forall|i: int, j: int| 0 <= i < j < g.len() implies g[i] != g[j] by {
            if j == grants.len() {
                assert(grants[i] == g[i]);
            } else {
                assert(grants[i] == g[i] && grants[j] == g[j]);
            }
        }
    }
    assert(g.contains(a));
}

/// Why the stats record cannot take an aggregation, if it cannot.
#[derive(Clone, Copy, Debug, PartialEq, Eq, Structural)]
pub enum StatsError {
    /// The record already belongs to another merchant.
    MerchantMismatch,
    /// The counter is at its largest value.
    CounterOverflow,
}

/// A merchant's running totals, held as encrypted handles.
#[derive(Clone, Copy, Debug, PartialEq, Eq, Structural)]
pub struct MerchantPrivateStats {
    /// The zero address until the first aggregation.
    pub merchant: Pubkey,
    pub encrypted_total_revenue: u128,
    pub encrypted_total_payouts: u128,
    pub transaction_count: u64,
    pub payout_count: u64,
    pub last_updated: i64,
}

/// Why `stats` cannot take an aggregation for `merchant` on a counter at `count`.
pub open spec fn stats_error(stats: MerchantPrivateStats, merchant: Pubkey, count: u64) -> Option<
    StatsError,
> {
    if stats.merchant != Pubkey::spec_zero() && stats.merchant != merchant {
        Some(StatsError::MerchantMismatch)
    } else if count == u64::MAX {
        Some(StatsError::CounterOverflow)
    } else {
        None
    }
}

/// `stats` after a payout with `handle` is folded in at `now`. The first
/// aggregation starts the total at `handle`; later ones take `summed`, the
/// coprocessor's encrypted sum of the current total and `handle`.
pub open spec fn stats_after_payout(
    stats: MerchantPrivateStats,
    merchant: Pubkey,
    handle: u128,
    summed: u128,
    now: i64,
) -> MerchantPrivateStats {
    MerchantPrivateStats {
        merchant,
        encrypted_total_payouts: if stats.merchant == Pubkey::spec_zero() {
            handle
        } else {
            summed
        },
        payout_count: (stats.payout_count + 1) as u64,
        last_updated: now,
        ..stats
    }
}

/// `stats` after a payment with `handle` is folded into revenue at `now`, in
/// the same way as `stats_after_payout`.
pub open spec fn stats_after_revenue(
    stats: MerchantPrivateStats,
    merchant: Pubkey,
    handle: u128,
    summed: u128,
    now: i64,
) -> MerchantPrivateStats {
    MerchantPrivateStats {
        merchant,
        encrypted_total_revenue: if stats.merchant == Pubkey::spec_zero() {
            handle
        } else {
            summed
        },
        transaction_count: (stats.transaction_count + 1) as u64,
        last_updated: now,
        ..stats
    }
}

impl MerchantPrivateStats {
    /// A record that no merchant has used yet.
    pub fn new() -> (r: MerchantPrivateStats)
        ensures
            r.merchant == Pubkey::spec_zero(),
            r.encrypted_total_revenue == 0,
            r.encrypted_total_payouts == 0,
            r.transaction_count == 0,
            r.payout_count == 0,
            r.last_updated == 0,
    {
        MerchantPrivateStats {
            merchant: Pubkey::zero(),
            encrypted_total_revenue: 0,
            encrypted_total_payouts: 0,
            transaction_count: 0,
            payout_count: 0,
            last_updated: 0,
        }
    }

    /// Folds a payout into the payout total and counts it.
    pub fn aggregate_payout(&mut self, merchant: Pubkey, handle: u128, summed: u128, now: i64) -> (r:
        Result<(), StatsError>)
        ensures
            r is Err <==> stats_error(*old(self), merchant, old(self).payout_count) is Some,
            r matches Err(e) ==> stats_error(*old(self), merchant, old(self).payout_count) == Some(e)
                && *final(self) == *old(self),
            r is Ok ==> *final(self) == stats_after_payout(*old(self), merchant, handle, summed, now),
    {
        let fresh = self.merchant.is_zero();
        if !fresh && self.merchant != merchant {
            return Err(StatsError::MerchantMismatch);
        }
        if self.payout_count == u64::MAX {
            return Err(StatsError::CounterOverflow);
        }
        self.merchant = merchant;
        self.encrypted_total_payouts = if fresh {
            handle
        } else {
            summed
        };
        self.payout_count = self.payout_count + 1;
        self.last_updated = now;
        Ok(())
    }

    /// Folds a payment into the revenue total and counts it.
    pub fn aggregate_revenue(&mut self, merchant: Pubkey, handle: u128, summed: u128, now: i64) -> (r:
        Result<(), StatsError>)
        ensures
            r is Err <==> stats_error(*old(self), merchant, old(self).transaction_count) is Some,
            r matches Err(e) ==> stats_error(*old(self), merchant, old(self).transaction_count)
                == Some(e) && *final(self) == *old(self),
            r is Ok ==> *final(self) == stats_after_revenue(*old(self), merchant, handle, summed, now),
    {
        let fresh = self.merchant.is_zero();
        if !fresh && self.merchant != merchant {
            return Err(StatsError::MerchantMismatch);
        }
        if self.transaction_count == u64::MAX {
            return Err(StatsError::CounterOverflow);
        }
        self.merchant = merchant;
        self.encrypted_total_revenue = if fresh {
            handle
        } else {
            summed
        };
        self.transaction_count = self.transaction_count + 1;
        self.last_updated = now;
        Ok(())
    }
}

} // verus!
