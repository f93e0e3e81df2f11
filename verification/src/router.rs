//! Rent routing to whoever holds a lease's lessor-rights token: rent paid
//! accumulates for the current holder, and when the token changes hands the
//! outgoing holder is paid the share of the cycle that has passed.

use vstd::prelude::*;
use crate::contract::{fits_i128, releasable_status, total_escrowed_spec, LeaseContract};
use crate::math::div_toward_zero;
use crate::nft::{purpose_valid_spec, LessorRightsNFT, LessorRightsNFTMetadata, VerificationPurpose, BILLING_CYCLE_SECONDS};
use crate::types::{AccountId, DepositStatus, LeaseError, LeaseInstance, LeaseStatus, MutualLeaseFinalized};

verus! {

/// Why rent routing failed.
#[derive(Clone, Copy, Debug, PartialEq, Eq, Structural)]
pub enum RoutingError {
    LeaseNotFound,
    NFTNotFound,
    OwnershipVerificationFailed,
    InvalidRoutingState,
    InsufficientYield,
    ProrationCalculationFailed,
    CrossContractCallFailed,
    PaymentRoutingDisabled,
}

impl RoutingError {
    /// The stable numeric code of an error (3001 to 3008, in declaration order).
    pub open spec fn code_spec(self) -> u32 {
        match self {
            RoutingError::LeaseNotFound => 3001,
            RoutingError::NFTNotFound => 3002,
            RoutingError::OwnershipVerificationFailed => 3003,
            RoutingError::InvalidRoutingState => 3004,
            RoutingError::InsufficientYield => 3005,
            RoutingError::ProrationCalculationFailed => 3006,
            RoutingError::CrossContractCallFailed => 3007,
            RoutingError::PaymentRoutingDisabled => 3008,
        }
    }

    /// The stable numeric code of an error.
    pub fn code(&self) -> (c: u32)
        ensures
            c == self.code_spec(),
    {
        match self {
            RoutingError::LeaseNotFound => 3001,
            RoutingError::NFTNotFound => 3002,
            RoutingError::OwnershipVerificationFailed => 3003,
            RoutingError::InvalidRoutingState => 3004,
            RoutingError::InsufficientYield => 3005,
            RoutingError::ProrationCalculationFailed => 3006,
            RoutingError::CrossContractCallFailed => 3007,
            RoutingError::PaymentRoutingDisabled => 3008,
        }
    }
}

/// Where a lease's rent is routed.
#[derive(Clone, Copy, Debug, PartialEq, Eq, Structural)]
pub struct PaymentRoutingConfig {
    pub lease_id: u64,
    pub current_holder: AccountId,
    pub routing_enabled: bool,
    pub last_routing_update: u64,
    pub yield_accumulation_start: u64,
}

/// Rent accumulated for the current holder of a lease's token.
#[derive(Clone, Copy, Debug, PartialEq, Eq, Structural)]
pub struct YieldAccumulation {
    pub lease_id: u64,
    pub holder: AccountId,
    pub accumulated_yield: i128,
    pub accumulation_start: u64,
    pub last_payment_timestamp: u64,
    pub payment_count: u32,
}

/// The outgoing holder's share of the accumulated rent at a transfer.
#[derive(Clone, Copy, Debug, PartialEq, Eq, Structural)]
pub struct YieldProrationData {
    pub accumulated_yield: i128,
    pub proration_amount: i128,
    pub elapsed_time: u64,
    /// Share of the billing cycle that has passed, in basis points.
    pub proration_ratio: u32,
}

/// What a routed rent payment changes.
#[derive(Clone, Copy, Debug, PartialEq, Eq, Structural)]
pub struct RentRouting {
    /// The token holder the payment goes to.
    pub holder: AccountId,
    pub accumulation: YieldAccumulation,
    /// Seconds since the holder's accumulation began.
    pub accumulation_period: u64,
    /// Rent payments recorded on the lease, this one included.
    pub payment_count: u32,
    /// Whether the tenant (rather than an authorized payer) paid.
    pub paid_by_tenant: bool,
}

/// What a transfer of a lease's token changes in its rent routing.
#[derive(Clone, Copy, Debug, PartialEq, Eq, Structural)]
pub struct RoutingTransfer {
    pub proration: YieldProrationData,
    /// The new holder's accumulation, starting empty.
    pub accumulation: YieldAccumulation,
    pub config: PaymentRoutingConfig,
}

/// The accumulation after `amount` is paid to `holder` at `now`; a lease with
/// no accumulation starts one for `holder`.
pub open spec fn accumulation_after(acc: Option<YieldAccumulation>, lease_id: u64, holder: AccountId, amount: i128, now: u64) -> YieldAccumulation {
    let base = match acc {
        Some(a) => a,
        None => YieldAccumulation {
            lease_id,
            holder,
            accumulated_yield: 0,
            accumulation_start: now,
            last_payment_timestamp: now,
            payment_count: 0,
        },
    };
    YieldAccumulation {
        accumulated_yield: (base.accumulated_yield + amount) as i128,
        last_payment_timestamp: now,
        payment_count: (base.payment_count + 1) as u32,
        ..base
    }
}

/// Whether a payment of `amount` can be added to `acc` without overflow.
pub open spec fn accumulation_fits(acc: Option<YieldAccumulation>, amount: i128) -> bool {
    match acc {
        Some(a) => fits_i128(a.accumulated_yield + amount) && a.payment_count < u32::MAX,
        None => true,
    }
}

/// The share of the billing cycle that has passed after `elapsed` seconds,
/// in basis points, rounded down and capped at a whole cycle.
pub open spec fn proration_ratio_spec(elapsed: u64) -> u32 {
    if elapsed < BILLING_CYCLE_SECONDS {
        ((elapsed * 10000) / (BILLING_CYCLE_SECONDS as int)) as u32
    } else {
        10000
    }
}

/// The outgoing holder's share of `accumulated` at a ratio in basis points,
/// rounded toward zero.
pub open spec fn prorated_share(accumulated: i128, ratio: u32) -> int {
    div_toward_zero(accumulated * ratio, 10000)
}

/// What the outgoing holder is owed when the token changes hands at `now`:
/// the prorated share of the accumulation for the part of the billing cycle
/// that has passed since it started.
pub open spec fn proration_on_transfer(a: YieldAccumulation, now: u64) -> YieldProrationData {
    let elapsed: u64 = if now >= a.accumulation_start { (now - a.accumulation_start) as u64 } else { 0 };
    YieldProrationData {
        accumulated_yield: a.accumulated_yield,
        proration_amount: prorated_share(a.accumulated_yield, proration_ratio_spec(elapsed)) as i128,
        elapsed_time: elapsed,
        proration_ratio: proration_ratio_spec(elapsed),
    }
}

/// The outgoing holder's share grows with the time held: before a full
/// billing cycle of 2 592 000 seconds has passed, the ratio is the elapsed
/// share of the cycle in basis points, rounded down, and so stays below
/// 10 000; only from a full cycle on is it the whole 10 000. The prorated
/// amount is that share of the accumulated yield.
pub proof fn lemma_proration_follows_elapsed_time(a: YieldAccumulation, now: u64)
    requires
        a.accumulation_start <= now,
    ensures
        ({
            let p = proration_on_transfer(a, now);
            let elapsed = now - a.accumulation_start;
            &&& p.elapsed_time == elapsed
            &&& elapsed < 2_592_000 ==> p.proration_ratio * 2_592_000 <= elapsed * 10000 < (p.proration_ratio + 1) * 2_592_000
            &&& elapsed < 2_592_000 ==> p.proration_ratio < 10000
            &&& elapsed >= 2_592_000 ==> p.proration_ratio == 10000
            &&& a.accumulated_yield >= 0 ==> p.proration_amount * 10000 <= a.accumulated_yield * p.proration_ratio
                < (p.proration_amount + 1) * 10000
        }),
{
    let e = (now - a.accumulation_start) as int;
    if e < 2_592_000 {
        let q = (e * 10000) / 2_592_000;
        assert(q * 2_592_000 <= e * 10000 < (q + 1) * 2_592_000 && q < 10000) by (nonlinear_arith)
            requires 0 <= e < 2_592_000, q == (e * 10000) / 2_592_000;
    }
    let p = proration_on_transfer(a, now);
    if a.accumulated_yield >= 0 {
        let y = a.accumulated_yield as int;
        let q = p.proration_ratio as int;
        let x = y * q;
        assert(x >= 0) by (nonlinear_arith) requires y >= 0, q >= 0, x == y * q;
        lemma_prorated_share_bounded(a.accumulated_yield, p.proration_ratio);
        assert((x / 10000) * 10000 <= x < (x / 10000 + 1) * 10000) by (nonlinear_arith) requires x >= 0;
    }
}

/// An empty accumulation for `holder`, starting at `now`.
pub open spec fn fresh_accumulation(lease_id: u64, holder: AccountId, now: u64) -> YieldAccumulation {
    YieldAccumulation {
        lease_id,
        holder,
        accumulated_yield: 0,
        accumulation_start: now,
        last_payment_timestamp: now,
        payment_count: 0,
    }
}

/// The routing of a lease's rent to `holder` from `now` on.
pub open spec fn routing_to(lease_id: u64, holder: AccountId, now: u64) -> PaymentRoutingConfig {
    PaymentRoutingConfig {
        lease_id,
        current_holder: holder,
        routing_enabled: true,
        last_routing_update: now,
        yield_accumulation_start: now,
    }
}

/// The prorated share never exceeds what was accumulated, and is not
/// negative when the accumulation is not.
pub proof fn lemma_prorated_share_bounded(accumulated: i128, ratio: u32)
    requires
        accumulated >= 0,
        ratio <= 10000,
    ensures
        0 <= prorated_share(accumulated, ratio) <= accumulated,
{
    crate::math::lemma_share_between_zero_and_total(accumulated as int, ratio as int);
}

impl LeaseContract {
    /// The current holder of a lease's lessor-rights token.
    pub fn get_current_nft_holder(token_id: Option<u128>, metadata: Option<&LessorRightsNFTMetadata>) -> (r: Result<AccountId, RoutingError>)
        ensures
            r is Ok <==> (token_id is Some && metadata is Some),
            r is Err ==> r->Err_0 == RoutingError::NFTNotFound,
            r is Ok ==> r->Ok_0 == metadata->0.current_holder,
    {
        match LessorRightsNFT::get_current_holder(token_id, metadata) {
            Ok(h) => Ok(h),
            Err(_) => Err(RoutingError::NFTNotFound),
        }
    }

    /// Adds a rent payment to the holder's accumulation.
    pub fn update_yield_accumulation(acc: Option<YieldAccumulation>, lease_id: u64, holder: AccountId, amount: i128, now: u64)
        -> (a: YieldAccumulation)
        requires
            accumulation_fits(acc, amount),
        ensures
            a == accumulation_after(acc, lease_id, holder, amount, now),
    {
        let mut a = match acc {
            Some(a) => a,
            None => YieldAccumulation {
                lease_id,
                holder,
                accumulated_yield: 0,
                accumulation_start: now,
                last_payment_timestamp: now,
                payment_count: 0,
            },
        };
        a.accumulated_yield = a.accumulated_yield + amount;
        a.last_payment_timestamp = now;
        a.payment_count = a.payment_count + 1;
        a
    }

    /// Pays rent on an active lease to the current holder of its
    /// lessor-rights token. The tenant or a payer the landlord authorized may
    /// pay.
    pub fn pay_lease_rent_with_nft_routing(
        lease: Option<&LeaseInstance>,
        lease_id: u64,
        payer: AccountId,
        payer_authorized: bool,
        token_id: Option<u128>,
        metadata: Option<&LessorRightsNFTMetadata>,
        acc: Option<YieldAccumulation>,
        payment_count: Option<u32>,
        amount: i128,
        now: u64,
    ) -> (r: Result<RentRouting, LeaseError>)
        requires
            lease is Some ==> lease->0.active,
            accumulation_fits(acc, amount),
            acc is Some ==> acc->0.accumulation_start <= now,
            payment_count is Some ==> payment_count->0 < u32::MAX,
        ensures
            lease is None ==> r == Err::<RentRouting, LeaseError>(LeaseError::LeaseNotFound),
            lease is Some && payer != lease->0.tenant && !payer_authorized
                ==> r == Err::<RentRouting, LeaseError>(LeaseError::Unauthorised),
            lease is Some && (payer == lease->0.tenant || payer_authorized) && (token_id is None || metadata is None)
                ==> r == Err::<RentRouting, LeaseError>(LeaseError::InvalidState),
            r is Ok <==> (lease is Some && (payer == lease->0.tenant || payer_authorized) && token_id is Some && metadata is Some),
            r is Ok ==> {
                let h = metadata->0.current_holder;
                let a = accumulation_after(acc, lease_id, h, amount, now);
                &&& r->Ok_0.holder == h
                &&& r->Ok_0.accumulation == a
                &&& r->Ok_0.accumulation_period == a.last_payment_timestamp - a.accumulation_start
                &&& r->Ok_0.payment_count == (match payment_count { Some(c) => c + 1, None => 1 })
                &&& r->Ok_0.paid_by_tenant == (payer == lease->0.tenant)
            },
    {
        let l = match lease {
            Some(l) => l,
            None => return Err(LeaseError::LeaseNotFound),
        };
        let is_primary = payer == l.tenant;
        if !is_primary && !payer_authorized {
            return Err(LeaseError::Unauthorised);
        }
        let holder = match Self::get_current_nft_holder(token_id, metadata) {
            Ok(h) => h,
            Err(_) => return Err(LeaseError::InvalidState),
        };
        let a = Self::update_yield_accumulation(acc, lease_id, holder, amount, now);
        let accumulation_period = a.last_payment_timestamp - a.accumulation_start;
        let count = match payment_count {
            Some(c) => c + 1,
            None => 1,
        };
        Ok(RentRouting { holder, accumulation: a, accumulation_period, payment_count: count, paid_by_tenant: is_primary })
    }

    /// Names the token holder a terminated or expired lease's deposit is
    /// refunded to, after the holder is confirmed for a deposit refund.
    pub fn refund_deposit_to_nft_holder(
        lease: Option<&LeaseInstance>,
        lease_id: u64,
        token_id: Option<u128>,
        metadata: Option<&LessorRightsNFTMetadata>,
        now: u64,
    ) -> (r: Result<AccountId, LeaseError>)
        ensures
            lease is None ==> r == Err::<AccountId, LeaseError>(LeaseError::LeaseNotFound),
            lease is Some && !(lease->0.status == LeaseStatus::Terminated || lease->0.status == LeaseStatus::Expired)
                ==> r == Err::<AccountId, LeaseError>(LeaseError::InvalidState),
            lease is Some && (token_id is None || metadata is None)
                ==> r == Err::<AccountId, LeaseError>(LeaseError::InvalidState),
            r is Ok <==> (lease is Some && (lease->0.status == LeaseStatus::Terminated || lease->0.status == LeaseStatus::Expired)
                && token_id is Some && metadata is Some),
            r is Ok ==> r->Ok_0 == metadata->0.current_holder,
    {
        let l = match lease {
            Some(l) => l,
            None => return Err(LeaseError::LeaseNotFound),
        };
        if !(l.status == LeaseStatus::Terminated || l.status == LeaseStatus::Expired) {
            return Err(LeaseError::InvalidState);
        }
        let holder = match Self::get_current_nft_holder(token_id, metadata) {
            Ok(h) => h,
            Err(_) => return Err(LeaseError::InvalidState),
        };
        let response = match LessorRightsNFT::verify_token_ownership(token_id, metadata, lease, lease_id, VerificationPurpose::DepositRefund, now) {
            Ok(resp) => resp,
            Err(_) => return Err(LeaseError::InvalidState),
        };
        if !response.is_valid || response.current_holder != holder {
            return Err(LeaseError::InvalidState);
        }
        Ok(holder)
    }

    /// Releases the whole escrow by agreement between the tenant and the
    /// current holder of the lessor-rights token (who may have bought the
    /// lessor's rights): `return_amount` to the tenant, `slash_amount` to the
    /// holder.
    pub fn mutual_release_with_nft_verification(
        lease: &mut LeaseInstance,
        lease_id: u64,
        lessee: AccountId,
        lessor: AccountId,
        holder: Option<AccountId>,
        return_amount: i128,
        slash_amount: i128,
    ) -> (r: Result<MutualLeaseFinalized, LeaseError>)
        requires
            lessee == old(lease).tenant && holder == Some(lessor) && releasable_status(old(lease).status) ==> {
                &&& fits_i128(total_escrowed_spec(*old(lease)))
                &&& fits_i128(return_amount + slash_amount)
            },
        ensures
            lessee != old(lease).tenant ==> r == Err::<MutualLeaseFinalized, LeaseError>(LeaseError::Unauthorised),
            lessee == old(lease).tenant && holder is None ==> r == Err::<MutualLeaseFinalized, LeaseError>(LeaseError::InvalidState),
            lessee == old(lease).tenant && holder is Some && holder != Some(lessor)
                ==> r == Err::<MutualLeaseFinalized, LeaseError>(LeaseError::Unauthorised),
            lessee == old(lease).tenant && holder == Some(lessor) && !releasable_status(old(lease).status)
                ==> r == Err::<MutualLeaseFinalized, LeaseError>(LeaseError::LeaseNotFound),
            lessee == old(lease).tenant && holder == Some(lessor) && releasable_status(old(lease).status)
                ==> (r is Ok <==> (return_amount + slash_amount == total_escrowed_spec(*old(lease))
                    && return_amount >= 0 && slash_amount >= 0)),
            lessee == old(lease).tenant && holder == Some(lessor) && releasable_status(old(lease).status) && r is Err
                ==> r == Err::<MutualLeaseFinalized, LeaseError>(LeaseError::InvalidReleaseMath),
            r is Err ==> *final(lease) == *old(lease),
            r is Ok ==> {
                &&& r->Ok_0 == (MutualLeaseFinalized {
                    lease_id,
                    return_amount,
                    slash_amount,
                    tenant_refund: return_amount,
                    landlord_payout: slash_amount,
                })
                &&& r->Ok_0.tenant_refund + r->Ok_0.landlord_payout == total_escrowed_spec(*old(lease))
                &&& *final(lease) == (LeaseInstance {
                    status: LeaseStatus::Terminated,
                    deposit_status: DepositStatus::Settled,
                    active: false,
                    ..*old(lease)
                })
            },
    {
        if lessee != lease.tenant {
            return Err(LeaseError::Unauthorised);
        }
        let current_holder = match holder {
            Some(h) => h,
            None => return Err(LeaseError::InvalidState),
        };
        if lessor != current_holder {
            return Err(LeaseError::Unauthorised);
        }
        if lease.status != LeaseStatus::Active && lease.status != LeaseStatus::Expired {
            return Err(LeaseError::LeaseNotFound);
        }
        let total_escrowed = lease.security_deposit + lease.deposit_amount;
        if return_amount + slash_amount != total_escrowed {
            return Err(LeaseError::InvalidReleaseMath);
        }
        if return_amount < 0 || slash_amount < 0 {
            return Err(LeaseError::InvalidReleaseMath);
        }
        lease.status = LeaseStatus::Terminated;
        lease.deposit_status = DepositStatus::Settled;
        lease.active = false;
        Ok(MutualLeaseFinalized {
            lease_id,
            return_amount,
            slash_amount,
            tenant_refund: return_amount,
            landlord_payout: slash_amount,
        })
    }

    /// The outgoing holder's share of the accumulated rent: the accumulation
    /// times the share of the 30-day cycle that has passed since it began
    /// (whole cycle once a cycle has passed), rounded toward zero.
    pub fn calculate_yield_proration_on_transfer(acc: Option<&YieldAccumulation>, now: u64) -> (r: Result<YieldProrationData, RoutingError>)
        requires
            acc is Some ==> fits_i128(acc->0.accumulated_yield * 10000),
        ensures
            r is Err <==> acc is None,
            r is Err ==> r->Err_0 == RoutingError::InsufficientYield,
            r is Ok ==> {
                let a = acc->0;
                let p = r->Ok_0;
                &&& p.accumulated_yield == a.accumulated_yield
                &&& p.elapsed_time == (if now >= a.accumulation_start { now - a.accumulation_start } else { 0 })
                &&& p.proration_ratio == proration_ratio_spec(p.elapsed_time)
                &&& p.proration_ratio <= 10000
                &&& p.proration_amount == prorated_share(a.accumulated_yield, p.proration_ratio)
                &&& p == proration_on_transfer(*a, now)
                &&& a.accumulated_yield >= 0 ==> 0 <= p.proration_amount <= a.accumulated_yield
            },
    {
        let a = match acc {
            Some(a) => a,
            None => return Err(RoutingError::InsufficientYield),
        };
        let elapsed_time = now.saturating_sub(a.accumulation_start);
        let proration_ratio: u32 = if elapsed_time < BILLING_CYCLE_SECONDS {
            let scaled: u64 = elapsed_time * 10000;
            (scaled / BILLING_CYCLE_SECONDS) as u32
        } else {
            10000
        };
        proof {
            assert(proration_ratio <= 10000);
            assert(fits_i128(a.accumulated_yield * proration_ratio)) by (nonlinear_arith)
                requires
                    fits_i128(a.accumulated_yield * 10000),
                    0 <= proration_ratio <= 10000;
        }
        let proration_amount = (a.accumulated_yield * (proration_ratio as i128)) / 10000;
        proof {
            if a.accumulated_yield >= 0 {
                lemma_prorated_share_bounded(a.accumulated_yield, proration_ratio);
            }
        }
        Ok(YieldProrationData {
            accumulated_yield: a.accumulated_yield,
            proration_amount,
            elapsed_time,
            proration_ratio,
        })
    }

    /// Re-routes a lease's rent when its token changes hands: the outgoing
    /// holder is owed the prorated share, the incoming holder starts an empty
    /// accumulation and receives the rent from now on.
    pub fn update_payment_routing_on_nft_transfer(
        lease_exists: bool,
        acc: Option<&YieldAccumulation>,
        lease_id: u64,
        new_holder: AccountId,
        now: u64,
    ) -> (r: Result<RoutingTransfer, LeaseError>)
        requires
            acc is Some ==> fits_i128(acc->0.accumulated_yield * 10000),
        ensures
            !lease_exists ==> r == Err::<RoutingTransfer, LeaseError>(LeaseError::LeaseNotFound),
            lease_exists && acc is None ==> r == Err::<RoutingTransfer, LeaseError>(LeaseError::InvalidState),
            r is Ok <==> (lease_exists && acc is Some),
            r is Ok ==> {
                &&& r->Ok_0.proration == proration_on_transfer(*acc->0, now)
                &&& r->Ok_0.accumulation == fresh_accumulation(lease_id, new_holder, now)
                &&& r->Ok_0.config == routing_to(lease_id, new_holder, now)
            },
    {
        if !lease_exists {
            return Err(LeaseError::LeaseNotFound);
        }
        let proration = match Self::calculate_yield_proration_on_transfer(acc, now) {
            Ok(p) => p,
            Err(_) => return Err(LeaseError::InvalidState),
        };
        let accumulation = YieldAccumulation {
            lease_id,
            holder: new_holder,
            accumulated_yield: 0,
            accumulation_start: now,
            last_payment_timestamp: now,
            payment_count: 0,
        };
        let config = PaymentRoutingConfig {
            lease_id,
            current_holder: new_holder,
            routing_enabled: true,
            last_routing_update: now,
            yield_accumulation_start: now,
        };
        Ok(RoutingTransfer { proration, accumulation, config })
    }

    /// The stored routing of a lease, or else routing to the current token
    /// holder from now on.
    pub fn get_payment_routing_config(
        stored: Option<PaymentRoutingConfig>,
        lease_id: u64,
        token_id: Option<u128>,
        metadata: Option<&LessorRightsNFTMetadata>,
        now: u64,
    ) -> (r: Result<PaymentRoutingConfig, LeaseError>)
        ensures
            stored is Some ==> r == Ok::<PaymentRoutingConfig, LeaseError>(stored->0),
            stored is None && (token_id is None || metadata is None)
                ==> r == Err::<PaymentRoutingConfig, LeaseError>(LeaseError::InvalidState),
            stored is None && token_id is Some && metadata is Some
                ==> r == Ok::<PaymentRoutingConfig, LeaseError>(routing_to(lease_id, metadata->0.current_holder, now)),
    {
        match stored {
            Some(c) => Ok(c),
            None => {
                let holder = match Self::get_current_nft_holder(token_id, metadata) {
                    Ok(h) => h,
                    Err(_) => return Err(LeaseError::InvalidState),
                };
                Ok(PaymentRoutingConfig {
                    lease_id,
                    current_holder: holder,
                    routing_enabled: true,
                    last_routing_update: now,
                    yield_accumulation_start: now,
                })
            },
        }
    }
}

} // verus!
