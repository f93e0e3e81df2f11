//! The decisions behind each lease operation: authorization, validation and
//! the new lease state, given what the ledger holds. The caller loads the
//! lease, hands it in, and then performs the transfers and notifications that
//! the returned outcome names.

use vstd::prelude::*;
use crate::math::{div_toward_zero, clamp_i128, saturating_mul_i128, saturating_sub_i128};
use crate::types::{
    AccountId, LeaseInstance, LeaseError, LeaseStatus, DepositStatus, RateType, DamageSeverity,
    MaintenanceStatus, OraclePayload, CreateLeaseParams, Lease, UsageRights, PaymentLate,
    MutualLeaseFinalized, LeaseEnded,
};

verus! {

/// Entry point type of lease operations.
pub struct LeaseContract;

/// A rate converted to a per-second rate (rounded toward zero).
pub open spec fn to_per_second_spec(rate: i128, rate_type: RateType) -> int {
    match rate_type {
        RateType::PerSecond => rate as int,
        RateType::PerHour => div_toward_zero(rate as int, 3600),
        RateType::PerDay => div_toward_zero(rate as int, 86400),
    }
}

/// Converts a rate quoted per second, hour or day into a per-second rate.
pub fn to_per_second(rate: i128, rate_type: RateType) -> (r: i128)
    ensures
        r == to_per_second_spec(rate, rate_type),
{
    match rate_type {
        RateType::PerSecond => rate,
        RateType::PerHour => rate / 3600,
        RateType::PerDay => rate / 86400,
    }
}

/// A basis-point share of `amount`, saturating the product, rounded toward zero.
pub open spec fn bps_share(amount: i128, bps: int) -> int {
    div_toward_zero(clamp_i128(amount * bps), 10000)
}

/// Percentage of the deposit forfeited for each damage grade.
pub open spec fn penalty_percentage_spec(severity: DamageSeverity) -> u32 {
    match severity {
        DamageSeverity::NormalWearAndTear => 0,
        DamageSeverity::Minor => 10,
        DamageSeverity::Moderate => 25,
        DamageSeverity::Major => 50,
        DamageSeverity::Severe => 75,
        DamageSeverity::Catastrophic => 100,
    }
}

/// Yield distribution conserves value: for a non-negative yield small enough
/// not to saturate, the three shares are non-negative, never exceed the
/// yield, and lose at most 2 units to rounding.
pub proof fn lemma_yield_shares_conserve(total_yield: i128)
    requires
        0 <= total_yield <= i128::MAX / 5000,
    ensures
        ({
            let sum = bps_share(total_yield, 5000) + bps_share(total_yield, 3000) + bps_share(total_yield, 2000);
            &&& bps_share(total_yield, 5000) >= 0
            &&& bps_share(total_yield, 3000) >= 0
            &&& bps_share(total_yield, 2000) >= 0
            &&& sum <= total_yield
            &&& total_yield - sum <= 2
        }),
{
    let t = total_yield as int;
    assert(0 <= t * 2000 <= t * 3000 <= t * 5000 <= i128::MAX) by (nonlinear_arith)
        requires 0 <= t <= i128::MAX / 5000;
    let a = (t * 5000) / 10000;
    let b = (t * 3000) / 10000;
    let c = (t * 2000) / 10000;
    assert(a * 10000 <= t * 5000 < a * 10000 + 10000) by (nonlinear_arith)
        requires a == (t * 5000) / 10000, t >= 0;
    assert(b * 10000 <= t * 3000 < b * 10000 + 10000) by (nonlinear_arith)
        requires b == (t * 3000) / 10000, t >= 0;
    assert(c * 10000 <= t * 2000 < c * 10000 + 10000) by (nonlinear_arith)
        requires c == (t * 2000) / 10000, t >= 0;
    assert(a + b + c <= t && t - (a + b + c) <= 2) by (nonlinear_arith)
        requires
            a * 10000 <= t * 5000 < a * 10000 + 10000,
            b * 10000 <= t * 3000 < b * 10000 + 10000,
            c * 10000 <= t * 2000 < c * 10000 + 10000;
    assert(a >= 0 && b >= 0 && c >= 0) by (nonlinear_arith)
        requires a == (t * 5000) / 10000, b == (t * 3000) / 10000, c == (t * 2000) / 10000, t >= 0;
}

/// What a deposit-asset conversion amounts to.
#[derive(Clone, Copy, Debug, PartialEq, Eq, Structural)]
pub enum DepositSwap {
    /// The deposit locks this amount without any exchange call.
    Locked(i128),
    /// The deposit must be exchanged through this exchange contract; the amount
    /// it hands back is the amount locked.
    ViaDex(AccountId),
}

/// The simulated conversion output: 99% of the amount.
pub open spec fn simulated_swap_output(amount: i128) -> int {
    bps_share(amount, 9900)
}

/// The least conversion output that a slippage tolerance accepts.
pub open spec fn min_swap_output(amount: i128, max_slippage_bps: u32) -> int {
    bps_share(amount, 10000 - max_slippage_bps)
}

impl LeaseContract {
    /// Yield shares: 50% to the lessee, 30% to the lessor and 20% to the DAO,
    /// each computed with a saturating product and rounded toward zero.
    pub fn calculate_yield_distribution(total_yield: i128) -> (r: (i128, i128, i128))
        ensures
            r.0 == bps_share(total_yield, 5000),
            r.1 == bps_share(total_yield, 3000),
            r.2 == bps_share(total_yield, 2000),
    {
        let lessee_share = saturating_mul_i128(total_yield, 5000) / 10000;
        let lessor_share = saturating_mul_i128(total_yield, 3000) / 10000;
        let dao_share = saturating_mul_i128(total_yield, 2000) / 10000;
        (lessee_share, lessor_share, dao_share)
    }

    /// Percentage of the deposit forfeited for a damage grade.
    pub fn calculate_penalty_percentage(severity: DamageSeverity) -> (p: u32)
        ensures
            p == penalty_percentage_spec(severity),
            p <= 100,
    {
        match severity {
            DamageSeverity::NormalWearAndTear => 0,
            DamageSeverity::Minor => 10,
            DamageSeverity::Moderate => 25,
            DamageSeverity::Major => 50,
            DamageSeverity::Severe => 75,
            DamageSeverity::Catastrophic => 100,
        }
    }

    /// Admin-only operations succeed exactly when the caller is the stored admin.
    pub fn require_admin(stored_admin: Option<AccountId>, caller: AccountId) -> (r: Result<(), LeaseError>)
        ensures
            r is Ok <==> stored_admin == Some(caller),
            r is Err ==> r == Err::<(), LeaseError>(LeaseError::Unauthorised),
    {
        match stored_admin {
            Some(admin) => {
                if admin == caller {
                    Ok(())
                } else {
                    Err(LeaseError::Unauthorised)
                }
            },
            None => Err(LeaseError::Unauthorised),
        }
    }

    /// Decides how a security deposit paid in `original_asset` is locked in
    /// `collateral_asset`: unchanged when the assets agree, through the given
    /// exchange when there is one, and otherwise by a simulated conversion at
    /// 99% that must respect the slippage tolerance.
    pub fn execute_deposit_swap(
        original_asset: AccountId,
        collateral_asset: AccountId,
        original_amount: i128,
        max_slippage_bps: u32,
        swap_path: &Vec<AccountId>,
        dex_contract: Option<AccountId>,
    ) -> (r: Result<DepositSwap, LeaseError>)
        ensures
            original_asset == collateral_asset ==> r == Ok::<DepositSwap, LeaseError>(DepositSwap::Locked(original_amount)),
            original_asset != collateral_asset && swap_path@.len() == 0
                ==> r == Err::<DepositSwap, LeaseError>(LeaseError::PathPaymentFailed),
            original_asset != collateral_asset && swap_path@.len() > 0 && dex_contract is Some
                ==> r == Ok::<DepositSwap, LeaseError>(DepositSwap::ViaDex(dex_contract->0)),
            original_asset != collateral_asset && swap_path@.len() > 0 && dex_contract is None ==> {
                if simulated_swap_output(original_amount) < min_swap_output(original_amount, max_slippage_bps) {
                    r == Err::<DepositSwap, LeaseError>(LeaseError::SlippageExceeded)
                } else {
                    r == Ok::<DepositSwap, LeaseError>(DepositSwap::Locked(simulated_swap_output(original_amount) as i128))
                }
            },
    {
        if original_asset == collateral_asset {
            return Ok(DepositSwap::Locked(original_amount));
        }
        if swap_path.len() == 0 {
            return Err(LeaseError::PathPaymentFailed);
        }
        match dex_contract {
            Some(dex) => Ok(DepositSwap::ViaDex(dex)),
            None => {
                let simulated_output = saturating_mul_i128(original_amount, 9900) / 10000;
                let min_out = saturating_mul_i128(original_amount, 10000i128 - max_slippage_bps as i128) / 10000i128;
                if simulated_output < min_out {
                    return Err(LeaseError::SlippageExceeded);
                }
                Ok(DepositSwap::Locked(simulated_output))
            },
        }
    }

    /// Settles a lease's deposit with a damage deduction chosen by its landlord
    /// and returns the amount refunded to the tenant.
    pub fn conclude_lease(lease: &mut LeaseInstance, landlord: AccountId, damage_deduction: i128) -> (r: Result<i128, LeaseError>)
        ensures
            landlord != old(lease).landlord ==> r == Err::<i128, LeaseError>(LeaseError::Unauthorised),
            landlord == old(lease).landlord && (damage_deduction < 0 || damage_deduction > old(lease).deposit_amount)
                ==> r == Err::<i128, LeaseError>(LeaseError::InvalidDeduction),
            landlord == old(lease).landlord && 0 <= damage_deduction <= old(lease).deposit_amount ==> r is Ok,
            r is Err ==> *final(lease) == *old(lease),
            r matches Ok(refund) ==> {
                &&& refund == old(lease).deposit_amount - damage_deduction
                &&& *final(lease) == (LeaseInstance { status: LeaseStatus::Terminated, deposit_status: DepositStatus::Settled, ..*old(lease) })
            },
    {
        if landlord != lease.landlord {
            return Err(LeaseError::Unauthorised);
        }
        if damage_deduction < 0 || damage_deduction > lease.deposit_amount {
            return Err(LeaseError::InvalidDeduction);
        }
        lease.status = LeaseStatus::Terminated;
        lease.deposit_status = DepositStatus::Settled;
        Ok(lease.deposit_amount - damage_deduction)
    }
}

/// Whether `caller` is the stored admin.
pub open spec fn is_admin_spec(admin: Option<AccountId>, caller: AccountId) -> bool {
    admin == Some(caller)
}

/// The platform-fee bounty paid to whoever terminates an expired lease: 10% of the fee.
pub open spec fn termination_bounty_spec(fee_amount: i128) -> int {
    div_toward_zero(fee_amount * 1000, 10000)
}

/// The total escrow of a lease: security deposit plus deposit.
pub open spec fn total_escrowed_spec(lease: LeaseInstance) -> int {
    lease.security_deposit + lease.deposit_amount
}

/// Whether a lease is in a state from which its deposit can be released by agreement.
pub open spec fn releasable_status(status: LeaseStatus) -> bool {
    status == LeaseStatus::Active || status == LeaseStatus::Expired
}

/// The result of a rent payment on a numbered lease.
#[derive(Clone, Copy, Debug, PartialEq, Eq, Structural)]
pub struct RentPayment {
    /// What the payer has paid on this lease so far, this payment included.
    pub payer_balance: i128,
    /// Whether cumulative payments reached the buyout price, ending the lease.
    pub bought_out: bool,
}

/// Whether `x` is in the range of `i128`.
pub open spec fn fits_i128(x: int) -> bool {
    i128::MIN <= x <= i128::MAX
}

impl LeaseContract {
    /// Ends an expired lease whose deposit is settled. The landlord, the tenant
    /// or the admin may call it. When a platform fee is configured, 10% of it is
    /// owed to the caller as a bounty; the result names that bounty when it is
    /// positive.
    pub fn terminate_lease(
        lease: &LeaseInstance,
        caller: AccountId,
        admin: Option<AccountId>,
        now: u64,
        platform_fee_amount: Option<i128>,
    ) -> (r: Result<Option<i128>, LeaseError>)
        requires
            platform_fee_amount matches Some(fee) ==> fits_i128(fee * 1000),
        ensures
            caller != lease.landlord && caller != lease.tenant && !is_admin_spec(admin, caller)
                ==> r == Err::<Option<i128>, LeaseError>(LeaseError::Unauthorised),
            (caller == lease.landlord || caller == lease.tenant || is_admin_spec(admin, caller)) && now < lease.end_date
                ==> r == Err::<Option<i128>, LeaseError>(LeaseError::LeaseNotExpired),
            (caller == lease.landlord || caller == lease.tenant || is_admin_spec(admin, caller)) && now >= lease.end_date
                && lease.deposit_status != DepositStatus::Settled
                ==> r == Err::<Option<i128>, LeaseError>(LeaseError::DepositNotSettled),
            (caller == lease.landlord || caller == lease.tenant || is_admin_spec(admin, caller)) && now >= lease.end_date
                && lease.deposit_status == DepositStatus::Settled ==> r == Ok::<Option<i128>, LeaseError>(
                match platform_fee_amount {
                    Some(fee) => if termination_bounty_spec(fee) > 0 { Some(termination_bounty_spec(fee) as i128) } else { None },
                    None => None,
                }),
    {
        let is_landlord = caller == lease.landlord;
        let is_tenant = caller == lease.tenant;
        let is_admin = match admin {
            Some(a) => a == caller,
            None => false,
        };
        if !is_landlord && !is_tenant && !is_admin {
            return Err(LeaseError::Unauthorised);
        }
        if now < lease.end_date {
            return Err(LeaseError::LeaseNotExpired);
        }
        if lease.deposit_status == DepositStatus::Held || lease.deposit_status == DepositStatus::Disputed {
            return Err(LeaseError::DepositNotSettled);
        }
        match platform_fee_amount {
            Some(fee_amount) => {
                let bounty = fee_amount * 1000 / 10000;
                if bounty > 0 {
                    Ok(Some(bounty))
                } else {
                    Ok(None)
                }
            },
            None => Ok(None),
        }
    }

    /// Only the landlord or the tenant may announce that the asset was reclaimed.
    pub fn reclaim_asset(lease: &LeaseInstance, caller: AccountId) -> (r: Result<(), LeaseError>)
        ensures
            r is Ok <==> (caller == lease.landlord || caller == lease.tenant),
            r is Err ==> r == Err::<(), LeaseError>(LeaseError::Unauthorised),
    {
        if caller != lease.landlord && caller != lease.tenant {
            return Err(LeaseError::Unauthorised);
        }
        Ok(())
    }

    /// The landlord or the tenant puts the deposit, and the lease, in dispute.
    pub fn dispute_deposit(lease: &mut LeaseInstance, caller: AccountId) -> (r: Result<(), LeaseError>)
        ensures
            r is Ok <==> (caller == old(lease).landlord || caller == old(lease).tenant),
            r is Err ==> r == Err::<(), LeaseError>(LeaseError::Unauthorised) && *final(lease) == *old(lease),
            r is Ok ==> *final(lease) == (LeaseInstance {
                deposit_status: DepositStatus::Disputed,
                status: LeaseStatus::Disputed,
                ..*old(lease)
            }),
    {
        if caller != lease.landlord && caller != lease.tenant {
            return Err(LeaseError::Unauthorised);
        }
        lease.deposit_status = DepositStatus::Disputed;
        lease.status = LeaseStatus::Disputed;
        Ok(())
    }

    /// Whether `who` is one of the lease's arbitrators.
    pub fn is_arbitrator(lease: &LeaseInstance, who: AccountId) -> (b: bool)
        ensures
            b <==> lease.arbitrators@.contains(who),
    {
        let n = lease.arbitrators.len();
        let mut i: usize = 0;
        while i < n
            invariant
                n == lease.arbitrators@.len(),
                0 <= i <= n,
                forall|j: int| 0 <= j < i ==> lease.arbitrators@[j] != who,
            decreases n - i,
        {
            if lease.arbitrators[i] == who {
                return true;
            }
            i = i + 1;
        }
        false
    }

    /// An arbitrator resolves a dispute by deducting damages from the security
    /// deposit; the lease ends with its deposit settled and the remainder is
    /// refunded to the tenant.
    pub fn resolve_dispute(lease: &mut LeaseInstance, arbitrator: AccountId, damage_deduction: i128) -> (r: Result<i128, LeaseError>)
        ensures
            !old(lease).arbitrators@.contains(arbitrator) ==> r == Err::<i128, LeaseError>(LeaseError::NotAnArbitrator),
            old(lease).arbitrators@.contains(arbitrator) && (damage_deduction < 0 || damage_deduction > old(lease).security_deposit)
                ==> r == Err::<i128, LeaseError>(LeaseError::InvalidDeduction),
            old(lease).arbitrators@.contains(arbitrator) && 0 <= damage_deduction <= old(lease).security_deposit ==> r is Ok,
            r is Err ==> *final(lease) == *old(lease),
            r matches Ok(refund) ==> {
                &&& refund == old(lease).security_deposit - damage_deduction
                &&& *final(lease) == (LeaseInstance { status: LeaseStatus::Terminated, deposit_status: DepositStatus::Settled, ..*old(lease) })
            },
    {
        if !Self::is_arbitrator(lease, arbitrator) {
            return Err(LeaseError::NotAnArbitrator);
        }
        if damage_deduction < 0 || damage_deduction > lease.security_deposit {
            return Err(LeaseError::InvalidDeduction);
        }
        let refund_amount = lease.security_deposit - damage_deduction;
        lease.status = LeaseStatus::Terminated;
        lease.deposit_status = DepositStatus::Settled;
        Ok(refund_amount)
    }

    /// Releases the whole escrow (security deposit plus deposit) when the
    /// tenant and the landlord agree on how to split it: `return_amount` to the
    /// tenant and `slash_amount` to the landlord. Returns the two payouts.
    pub fn mutual_deposit_release(
        lease: &mut LeaseInstance,
        lease_id: u64,
        lessee: AccountId,
        lessor: AccountId,
        return_amount: i128,
        slash_amount: i128,
    ) -> (r: Result<MutualLeaseFinalized, LeaseError>)
        requires
            lessee == old(lease).tenant && lessor == old(lease).landlord && releasable_status(old(lease).status) ==> {
                &&& fits_i128(total_escrowed_spec(*old(lease)))
                &&& fits_i128(return_amount + slash_amount)
            },
        ensures
            lessee != old(lease).tenant || lessor != old(lease).landlord
                ==> r == Err::<MutualLeaseFinalized, LeaseError>(LeaseError::Unauthorised),
            lessee == old(lease).tenant && lessor == old(lease).landlord && !releasable_status(old(lease).status)
                ==> r == Err::<MutualLeaseFinalized, LeaseError>(LeaseError::LeaseNotFound),
            lessee == old(lease).tenant && lessor == old(lease).landlord && releasable_status(old(lease).status)
                ==> (r is Ok <==> (return_amount + slash_amount == total_escrowed_spec(*old(lease))
                    && return_amount >= 0 && slash_amount >= 0)),
            lessee == old(lease).tenant && lessor == old(lease).landlord && releasable_status(old(lease).status) && r is Err
                ==> r == Err::<MutualLeaseFinalized, LeaseError>(LeaseError::InvalidReleaseMath),
            r is Err ==> *final(lease) == *old(lease),
            r matches Ok(fin) ==> {
                &&& fin == (MutualLeaseFinalized {
                    lease_id,
                    return_amount,
                    slash_amount,
                    tenant_refund: return_amount,
                    landlord_payout: slash_amount,
                })
                &&& fin.tenant_refund + fin.landlord_payout == total_escrowed_spec(*old(lease))
                &&& fin.tenant_refund >= 0 && fin.landlord_payout >= 0
                &&& *final(lease) == (LeaseInstance {
                    status: LeaseStatus::Terminated,
                    deposit_status: DepositStatus::Settled,
                    active: false,
                    ..*old(lease)
                })
            },
    {
        if lessee != lease.tenant || lessor != lease.landlord {
            return Err(LeaseError::Unauthorised);
        }
        if lease.status != LeaseStatus::Active && lease.status != LeaseStatus::Expired {
            return Err(LeaseError::LeaseNotFound);
        }
        let total_escrowed = lease.security_deposit + lease.deposit_amount;
        if return_amount + slash_amount != total_escrowed {
            return Err(LeaseError::InvalidReleaseMath);
        }
        if return_amount < 0 || slash_amount < 0 {
            return Err(LeaseError::InvalidReleaseMath);
        }
        lease.status = LeaseStatus::Terminated;
        lease.deposit_status = DepositStatus::Settled;
        lease.active = false;
        Ok(MutualLeaseFinalized {
            lease_id,
            return_amount,
            slash_amount,
            tenant_refund: return_amount,
            landlord_payout: slash_amount,
        })
    }

    /// One party proposes a split of the whole escrow; the proposal puts the
    /// deposit and the lease in dispute until it is settled.
    pub fn init_mutual_release_fb(
        lease: &mut LeaseInstance,
        initiator: AccountId,
        proposed_return_amount: i128,
        proposed_slash_amount: i128,
    ) -> (r: Result<(), LeaseError>)
        requires
            (initiator == old(lease).tenant || initiator == old(lease).landlord) && releasable_status(old(lease).status) ==> {
                &&& fits_i128(total_escrowed_spec(*old(lease)))
                &&& fits_i128(proposed_return_amount + proposed_slash_amount)
            },
        ensures
            initiator != old(lease).tenant && initiator != old(lease).landlord
                ==> r == Err::<(), LeaseError>(LeaseError::Unauthorised),
            (initiator == old(lease).tenant || initiator == old(lease).landlord) && !releasable_status(old(lease).status)
                ==> r == Err::<(), LeaseError>(LeaseError::LeaseNotFound),
            (initiator == old(lease).tenant || initiator == old(lease).landlord) && releasable_status(old(lease).status)
                ==> (r is Ok <==> (proposed_return_amount + proposed_slash_amount == total_escrowed_spec(*old(lease))
                    && proposed_return_amount >= 0 && proposed_slash_amount >= 0)),
            (initiator == old(lease).tenant || initiator == old(lease).landlord) && releasable_status(old(lease).status) && r is Err
                ==> r == Err::<(), LeaseError>(LeaseError::InvalidReleaseMath),
            r is Err ==> *final(lease) == *old(lease),
            r is Ok ==> *final(lease) == (LeaseInstance {
                deposit_status: DepositStatus::Disputed,
                status: LeaseStatus::Disputed,
                ..*old(lease)
            }),
    {
        if initiator != lease.tenant && initiator != lease.landlord {
            return Err(LeaseError::Unauthorised);
        }
        if lease.status != LeaseStatus::Active && lease.status != LeaseStatus::Expired {
            return Err(LeaseError::LeaseNotFound);
        }
        let total_escrowed = lease.security_deposit + lease.deposit_amount;
        if proposed_return_amount + proposed_slash_amount != total_escrowed {
            return Err(LeaseError::InvalidReleaseMath);
        }
        if proposed_return_amount < 0 || proposed_slash_amount < 0 {
            return Err(LeaseError::InvalidReleaseMath);
        }
        lease.deposit_status = DepositStatus::Disputed;
        lease.status = LeaseStatus::Disputed;
        Ok(())
    }

    /// Records a rent payment by the tenant or by a payer the landlord
    /// authorized. When cumulative payments reach the buyout price the lease
    /// ends (inactive and terminated).
    pub fn pay_lease_instance_rent(
        lease: &mut LeaseInstance,
        payer: AccountId,
        payer_is_authorized: bool,
        payer_balance: i128,
        payment_amount: i128,
    ) -> (r: Result<RentPayment, LeaseError>)
        requires
            old(lease).active,
            payer == old(lease).tenant || payer_is_authorized ==> {
                &&& fits_i128(payer_balance + payment_amount)
                &&& fits_i128(old(lease).cumulative_payments + payment_amount)
                &&& fits_i128(old(lease).rent_paid + payment_amount)
            },
        ensures
            r is Ok <==> (payer == old(lease).tenant || payer_is_authorized),
            r is Err ==> r == Err::<RentPayment, LeaseError>(LeaseError::Unauthorised) && *final(lease) == *old(lease),
            r matches Ok(receipt) ==> {
                let cumulative = (old(lease).cumulative_payments + payment_amount) as i128;
                let bought_out = match old(lease).buyout_price {
                    Some(price) => cumulative >= price,
                    None => false,
                };
                &&& receipt.payer_balance == payer_balance + payment_amount
                &&& receipt.bought_out == bought_out
                &&& *final(lease) == (LeaseInstance {
                    cumulative_payments: cumulative,
                    rent_paid: (old(lease).rent_paid + payment_amount) as i128,
                    active: !bought_out,
                    status: if bought_out { LeaseStatus::Terminated } else { old(lease).status },
                    ..*old(lease)
                })
            },
    {
        if payer != lease.tenant && !payer_is_authorized {
            return Err(LeaseError::Unauthorised);
        }
        let new_balance = payer_balance + payment_amount;
        lease.cumulative_payments = lease.cumulative_payments + payment_amount;
        lease.rent_paid = lease.rent_paid + payment_amount;
        let mut bought_out = false;
        match lease.buyout_price {
            Some(price) => {
                if lease.cumulative_payments >= price {
                    lease.active = false;
                    lease.status = LeaseStatus::Terminated;
                    bought_out = true;
                }
            },
            None => {},
        }
        Ok(RentPayment { payer_balance: new_balance, bought_out })
    }
}

/// The outcome of a tenant-default check.
#[derive(Clone, Copy, Debug, PartialEq, Eq, Structural)]
pub struct TenantDefault {
    /// Unpaid rent (never negative) plus accrued late fees.
    pub total_debt: i128,
    /// The late-payment notice, when the grace period is over.
    pub late_notice: Option<PaymentLate>,
    /// Whether the debt reached twice the rent amount.
    pub eviction_eligible: bool,
}

/// Whether the grace period of a lease is over at `now`.
pub open spec fn past_grace(lease: LeaseInstance, now: u64) -> bool {
    now > lease.grace_period_end
}

/// The debt once the flat late fee is charged (at most once).
pub open spec fn debt_after_flat_fee(lease: LeaseInstance, now: u64) -> int {
    if past_grace(lease, now) && !lease.flat_fee_applied {
        lease.debt + lease.late_fee_flat
    } else {
        lease.debt as int
    }
}

/// Late seconds not yet charged at `now`.
pub open spec fn newly_late_seconds(lease: LeaseInstance, now: u64) -> int {
    if past_grace(lease, now) && now - lease.grace_period_end > lease.seconds_late_charged {
        now - lease.grace_period_end - lease.seconds_late_charged
    } else {
        0
    }
}

/// The per-second late fee owed for the newly late seconds.
pub open spec fn newly_accrued_fee(lease: LeaseInstance, now: u64) -> int {
    newly_late_seconds(lease, now) * lease.late_fee_per_sec
}

/// The debt after a default check at `now`.
pub open spec fn debt_after_check(lease: LeaseInstance, now: u64) -> int {
    debt_after_flat_fee(lease, now) + newly_accrued_fee(lease, now)
}

/// Rent owed since the start date minus rent paid, saturating, never negative.
pub open spec fn unpaid_rent(lease: LeaseInstance, now: u64) -> int {
    let elapsed: int = if now >= lease.start_date { now - lease.start_date } else { 0 };
    let expected = clamp_i128(elapsed * lease.rent_per_sec);
    let unpaid = clamp_i128(expected - lease.rent_paid);
    if unpaid > 0 { unpaid } else { 0 }
}

/// Whether every sum and product of a default check fits in an `i128`.
pub open spec fn default_check_fits(lease: LeaseInstance, now: u64) -> bool {
    &&& fits_i128(debt_after_flat_fee(lease, now))
    &&& fits_i128(newly_accrued_fee(lease, now))
    &&& fits_i128(debt_after_check(lease, now))
    &&& fits_i128(unpaid_rent(lease, now) + debt_after_check(lease, now))
}

/// The lease after a default check at `now`: the late fees are charged and
/// remembered, so that no second is charged twice.
pub open spec fn lease_after_default_check(lease: LeaseInstance, now: u64) -> LeaseInstance {
    LeaseInstance {
        debt: debt_after_check(lease, now) as i128,
        flat_fee_applied: lease.flat_fee_applied || past_grace(lease, now),
        seconds_late_charged: if newly_late_seconds(lease, now) > 0 {
            (now - lease.grace_period_end) as u64
        } else {
            lease.seconds_late_charged
        },
        ..lease
    }
}

/// Late fees are never charged twice: a second default check at the same
/// time leaves the debt and the lease unchanged.
pub proof fn lemma_default_check_charges_once(lease: LeaseInstance, now: u64)
    requires
        default_check_fits(lease, now),
    ensures
        debt_after_check(lease_after_default_check(lease, now), now) == lease_after_default_check(lease, now).debt,
        lease_after_default_check(lease_after_default_check(lease, now), now) == lease_after_default_check(lease, now),
{
}

/// Late fees only grow the debt when the fees are non-negative: a later check
/// never reports less accrued debt than an earlier one.
pub proof fn lemma_default_debt_monotone(lease: LeaseInstance, t1: u64, t2: u64)
    requires
        t1 <= t2,
        lease.late_fee_flat >= 0,
        lease.late_fee_per_sec >= 0,
        default_check_fits(lease, t1),
        default_check_fits(lease_after_default_check(lease, t1), t2),
    ensures
        lease_after_default_check(lease, t1).debt <= lease_after_default_check(lease_after_default_check(lease, t1), t2).debt,
{
    let l1 = lease_after_default_check(lease, t1);
    assert(newly_accrued_fee(l1, t2) >= 0) by (nonlinear_arith)
        requires newly_late_seconds(l1, t2) >= 0, l1.late_fee_per_sec >= 0,
            newly_accrued_fee(l1, t2) == newly_late_seconds(l1, t2) * l1.late_fee_per_sec;
}

/// Rent already paid counts in full against the debt. For a lease with no
/// late fees, the debt a default check reports is the rent due since the
/// start date (seconds elapsed times the rent per second) less the rent
/// paid, and never below zero; a tenant whose payments cover the rent due
/// owes nothing and, with a positive rent, is not eligible for eviction.
pub proof fn lemma_rent_paid_reduces_debt(lease: LeaseInstance, now: u64)
    requires
        lease.debt == 0,
        lease.late_fee_flat == 0,
        lease.late_fee_per_sec == 0,
        now >= lease.start_date,
        fits_i128((now - lease.start_date) * lease.rent_per_sec),
        fits_i128((now - lease.start_date) * lease.rent_per_sec - lease.rent_paid),
    ensures
        ({
            let due = (now - lease.start_date) * lease.rent_per_sec;
            let total = unpaid_rent(lease, now) + debt_after_check(lease, now);
            &&& total == if due > lease.rent_paid { due - lease.rent_paid } else { 0 }
            &&& lease.rent_paid >= due ==> total == 0
            &&& lease.rent_paid >= due && lease.rent_amount > 0 ==> total < clamp_i128(lease.rent_amount * 2)
        }),
{
    let r = lease.rent_amount as int;
    assert(r > 0 ==> clamp_i128(r * 2) > 0);
}

/// Each further unit of rent paid lowers the reported unpaid rent by one
/// unit, until nothing is owed: two leases that differ only in the rent paid
/// owe amounts that differ by exactly the extra payment, floored at zero.
pub proof fn lemma_extra_rent_paid_lowers_debt(lease: LeaseInstance, now: u64, extra: i128)
    requires
        extra >= 0,
        now >= lease.start_date,
        fits_i128((now - lease.start_date) * lease.rent_per_sec),
        fits_i128((now - lease.start_date) * lease.rent_per_sec - lease.rent_paid),
        fits_i128(lease.rent_paid + extra),
        fits_i128((now - lease.start_date) * lease.rent_per_sec - (lease.rent_paid + extra)),
    ensures
        ({
            let paid_more = LeaseInstance { rent_paid: (lease.rent_paid + extra) as i128, ..lease };
            let before = unpaid_rent(lease, now);
            &&& unpaid_rent(paid_more, now) == if before > extra { before - extra } else { 0 }
        }),
{
}

/// The termination bounty is exactly a tenth of the platform fee, rounded
/// down, with no cap: it is positive from a fee of 10 on.
pub proof fn lemma_termination_bounty_is_tenth_of_fee(fee: i128)
    requires
        fee >= 0,
        fits_i128(fee * 1000),
    ensures
        termination_bounty_spec(fee) * 10 <= fee < termination_bounty_spec(fee) * 10 + 10,
        termination_bounty_spec(fee) > 0 <==> fee >= 10,
{
    let f = fee as int;
    assert((f * 1000) / 10000 == f / 10) by (nonlinear_arith) requires f >= 0;
    assert((f / 10) * 10 <= f < (f / 10) * 10 + 10) by (nonlinear_arith) requires f >= 0;
}

/// The split of a deposit after an oracle's damage report.
#[derive(Clone, Copy, Debug, PartialEq, Eq, Structural)]
pub struct SlashSettlement {
    pub penalty_amount: i128,
    pub tenant_refund: i128,
    pub landlord_payout: i128,
    /// Severe damage that consumed the whole deposit flags the tenant.
    pub flag_tenant: bool,
}

/// The penalty for a damage grade: a percentage of the total escrow
/// (saturating product, rounded toward zero).
pub open spec fn slash_penalty(total: i128, severity: DamageSeverity) -> int {
    if penalty_percentage_spec(severity) == 0 {
        0
    } else {
        div_toward_zero(clamp_i128(total * penalty_percentage_spec(severity)), 100)
    }
}

/// The largest age, in seconds, of an oracle report that is still accepted.
pub open spec fn max_report_age() -> int {
    86400
}

/// Harvested yield split between lessee, lessor and DAO.
#[derive(Clone, Copy, Debug, PartialEq, Eq, Structural)]
pub struct YieldHarvest {
    pub lessee_share: i128,
    pub lessor_share: i128,
    pub dao_share: i128,
    /// Yield harvested for the lease so far, this harvest included.
    pub accumulated_yield: i128,
}

impl LeaseContract {
    /// Computes a tenant's debt at `now`: unpaid rent since the start date plus
    /// late fees. Once the grace period is over, the flat late fee is charged
    /// once and the per-second late fee for every late second not charged yet.
    pub fn check_tenant_default(lease: &mut LeaseInstance, lease_id: u64, now: u64) -> (r: TenantDefault)
        requires
            default_check_fits(*old(lease), now),
        ensures
            r.total_debt == unpaid_rent(*old(lease), now) + debt_after_check(*old(lease), now),
            r.late_notice == (if past_grace(*old(lease), now) {
                Some(PaymentLate {
                    lease_id,
                    days_late: ((now - old(lease).grace_period_end) / 86400) as u64,
                    current_fine: debt_after_check(*old(lease), now) as i128,
                })
            } else {
                None
            }),
            r.eviction_eligible == (r.total_debt >= clamp_i128(old(lease).rent_amount * 2)),
            *final(lease) == lease_after_default_check(*old(lease), now),
    {
        let ghost start = *lease;
        let elapsed_secs = now.saturating_sub(lease.start_date);
        let expected_rent = saturating_mul_i128(elapsed_secs as i128, lease.rent_per_sec);
        let unpaid = saturating_sub_i128(expected_rent, lease.rent_paid);
        let mut total_debt: i128 = if unpaid > 0 { unpaid } else { 0 };
        let mut late_notice: Option<PaymentLate> = None;
        if now > lease.grace_period_end {
            let seconds_late = now - lease.grace_period_end;
            if !lease.flat_fee_applied {
                lease.debt = lease.debt + lease.late_fee_flat;
                lease.flat_fee_applied = true;
            }
            if seconds_late > lease.seconds_late_charged {
                let newly_accrued = seconds_late - lease.seconds_late_charged;
                assert(lease.debt == debt_after_flat_fee(start, now));
                let fee = (newly_accrued as i128) * lease.late_fee_per_sec;
                lease.debt = lease.debt + fee;
                lease.seconds_late_charged = seconds_late;
            }
            late_notice = Some(PaymentLate { lease_id, days_late: seconds_late / 86400, current_fine: lease.debt });
        }
        total_debt = total_debt + lease.debt;
        let eviction_threshold = saturating_mul_i128(lease.rent_amount, 2);
        TenantDefault { total_debt, late_notice, eviction_eligible: total_debt >= eviction_threshold }
    }

    /// Whether a default check of `lease` at `now` stays within `i128` (the
    /// late fees are charged with overflow checks, so a check that does not
    /// fit is refused).
    pub fn default_check_fits(lease: &LeaseInstance, now: u64) -> (b: bool)
        ensures
            b == default_check_fits(*lease, now),
    {
        let past = now > lease.grace_period_end;
        let debt_flat: i128 = if past && !lease.flat_fee_applied {
            match lease.debt.checked_add(lease.late_fee_flat) {
                Some(v) => v,
                None => return false,
            }
        } else {
            lease.debt
        };
        let newly: u64 = if past && now - lease.grace_period_end > lease.seconds_late_charged {
            now - lease.grace_period_end - lease.seconds_late_charged
        } else {
            0
        };
        let fee: i128 = match (newly as i128).checked_mul(lease.late_fee_per_sec) {
            Some(v) => v,
            None => return false,
        };
        let debt: i128 = match debt_flat.checked_add(fee) {
            Some(v) => v,
            None => return false,
        };
        let elapsed_secs = now.saturating_sub(lease.start_date);
        let expected_rent = saturating_mul_i128(elapsed_secs as i128, lease.rent_per_sec);
        let unpaid = saturating_sub_i128(expected_rent, lease.rent_paid);
        let unpaid_rent: i128 = if unpaid > 0 { unpaid } else { 0 };
        unpaid_rent.checked_add(debt).is_some()
    }

    /// Checks an oracle's damage report against the lease and the oracle's
    /// registration, in this order: the lease must be terminated or expired,
    /// its deposit not settled yet, the oracle whitelisted, the nonce above the
    /// last one used, and the report at most a day old and not from the future.
    pub fn validate_deposit_slash(
        lease: &LeaseInstance,
        oracle_whitelisted: bool,
        stored_nonce: u64,
        payload: &OraclePayload,
        now: u64,
    ) -> (r: Result<(), LeaseError>)
        ensures
            lease.status != LeaseStatus::Terminated && lease.status != LeaseStatus::Expired
                ==> r == Err::<(), LeaseError>(LeaseError::LeaseNotTerminated),
            (lease.status == LeaseStatus::Terminated || lease.status == LeaseStatus::Expired)
                && lease.deposit_status == DepositStatus::Settled
                ==> r == Err::<(), LeaseError>(LeaseError::DepositAlreadySettled),
            (lease.status == LeaseStatus::Terminated || lease.status == LeaseStatus::Expired)
                && lease.deposit_status != DepositStatus::Settled && !oracle_whitelisted
                ==> r == Err::<(), LeaseError>(LeaseError::OracleNotWhitelisted),
            (lease.status == LeaseStatus::Terminated || lease.status == LeaseStatus::Expired)
                && lease.deposit_status != DepositStatus::Settled && oracle_whitelisted && payload.nonce <= stored_nonce
                ==> r == Err::<(), LeaseError>(LeaseError::InvalidNonce),
            (lease.status == LeaseStatus::Terminated || lease.status == LeaseStatus::Expired)
                && lease.deposit_status != DepositStatus::Settled && oracle_whitelisted && payload.nonce > stored_nonce
                ==> (r is Ok <==> (payload.timestamp <= now && now - payload.timestamp <= max_report_age())),
            r is Err && (lease.status == LeaseStatus::Terminated || lease.status == LeaseStatus::Expired)
                && lease.deposit_status != DepositStatus::Settled && oracle_whitelisted && payload.nonce > stored_nonce
                ==> r == Err::<(), LeaseError>(LeaseError::InvalidSignature),
    {
        if lease.status != LeaseStatus::Terminated && lease.status != LeaseStatus::Expired {
            return Err(LeaseError::LeaseNotTerminated);
        }
        if lease.deposit_status == DepositStatus::Settled {
            return Err(LeaseError::DepositAlreadySettled);
        }
        if !oracle_whitelisted {
            return Err(LeaseError::OracleNotWhitelisted);
        }
        if payload.nonce <= stored_nonce {
            return Err(LeaseError::InvalidNonce);
        }
        if payload.timestamp > now || now - payload.timestamp > 86400 {
            return Err(LeaseError::InvalidSignature);
        }
        Ok(())
    }

    /// Settles the whole escrow after a verified damage report: the landlord
    /// receives the penalty for the damage grade and the tenant the rest. The
    /// deposit is settled and the lease becomes inactive.
    pub fn settle_deposit_slash(lease: &mut LeaseInstance, severity: DamageSeverity) -> (r: SlashSettlement)
        requires
            fits_i128(total_escrowed_spec(*old(lease))),
        ensures
            ({
                let total = total_escrowed_spec(*old(lease)) as i128;
                &&& r.penalty_amount == slash_penalty(total, severity)
                &&& r.landlord_payout == r.penalty_amount
                &&& r.tenant_refund == clamp_i128(total - r.penalty_amount)
                &&& r.flag_tenant == (severity.code_spec() >= 4 && r.penalty_amount >= total)
                &&& total >= 0 ==> 0 <= r.penalty_amount <= total && r.tenant_refund + r.landlord_payout == total
            }),
            *final(lease) == (LeaseInstance { deposit_status: DepositStatus::Settled, active: false, ..*old(lease) }),
    {
        let total_deposit = lease.security_deposit + lease.deposit_amount;
        let penalty_percentage = Self::calculate_penalty_percentage(severity);
        let penalty_amount = if penalty_percentage == 0 {
            0
        } else {
            saturating_mul_i128(total_deposit, penalty_percentage as i128) / 100
        };
        proof {
            if total_deposit >= 0 && penalty_percentage > 0 {
                let p = penalty_percentage as int;
                assert(0 <= total_deposit * p <= total_deposit * 100) by (nonlinear_arith)
                    requires total_deposit >= 0, 0 < p <= 100;
                assert((total_deposit * p) / 100 <= total_deposit) by (nonlinear_arith)
                    requires 0 <= total_deposit * p <= total_deposit * 100;
            }
        }
        let tenant_refund = saturating_sub_i128(total_deposit, penalty_amount);
        let flag_tenant = severity.code() >= 4 && penalty_amount >= total_deposit;
        lease.deposit_status = DepositStatus::Settled;
        lease.active = false;
        SlashSettlement { penalty_amount, tenant_refund, landlord_payout: penalty_amount, flag_tenant }
    }

    /// Checks that part of a lease's security deposit may be placed with a
    /// yield protocol: the protocol is whitelisted, and the deposit and the
    /// contract's liquidity buffer both cover the amount.
    pub fn validate_escrow_deployment(
        lease: &LeaseInstance,
        protocol_whitelisted: bool,
        liquidity_buffer: i128,
        deploy_amount: i128,
    ) -> (r: Result<(), LeaseError>)
        ensures
            !protocol_whitelisted ==> r == Err::<(), LeaseError>(LeaseError::YieldProtocolNotWhitelisted),
            protocol_whitelisted && lease.security_deposit < deploy_amount
                ==> r == Err::<(), LeaseError>(LeaseError::InvalidDeduction),
            protocol_whitelisted && lease.security_deposit >= deploy_amount && liquidity_buffer < deploy_amount
                ==> r == Err::<(), LeaseError>(LeaseError::InsufficientLiquidityBuffer),
            r is Ok <==> (protocol_whitelisted && lease.security_deposit >= deploy_amount && liquidity_buffer >= deploy_amount),
    {
        if !protocol_whitelisted {
            return Err(LeaseError::YieldProtocolNotWhitelisted);
        }
        if lease.security_deposit < deploy_amount {
            return Err(LeaseError::InvalidDeduction);
        }
        if liquidity_buffer < deploy_amount {
            return Err(LeaseError::InsufficientLiquidityBuffer);
        }
        Ok(())
    }

    /// Records a deployment once the protocol minted `lp_tokens` for
    /// `deploy_amount`: the LP tokens must respect the slippage tolerance; the
    /// amount leaves the security deposit and the liquidity buffer. Returns the
    /// deployment record and the new liquidity buffer.
    pub fn record_escrow_deployment(
        lease: &mut LeaseInstance,
        lease_id: u64,
        yield_protocol: AccountId,
        deploy_amount: i128,
        lp_tokens: i128,
        max_slippage_bps: u32,
        now: u64,
        liquidity_buffer: i128,
    ) -> (r: Result<(crate::types::YieldDeployment, i128), LeaseError>)
        requires
            fits_i128(old(lease).security_deposit - deploy_amount),
            fits_i128(liquidity_buffer - deploy_amount),
        ensures
            r is Err <==> lp_tokens < bps_share(deploy_amount, 10000 - max_slippage_bps),
            r is Err ==> r == Err::<(crate::types::YieldDeployment, i128), LeaseError>(LeaseError::SlippageExceeded)
                && *final(lease) == *old(lease),
            r matches Ok((deployment, buffer)) ==> {
                &&& deployment == (crate::types::YieldDeployment {
                    lease_id,
                    principal_amount: deploy_amount,
                    yield_protocol,
                    deployment_timestamp: now,
                    lp_tokens,
                    active: true,
                })
                &&& buffer == liquidity_buffer - deploy_amount
                &&& *final(lease) == (LeaseInstance {
                    security_deposit: (old(lease).security_deposit - deploy_amount) as i128,
                    ..*old(lease)
                })
            },
    {
        let min_lp = saturating_mul_i128(deploy_amount, 10000i128 - max_slippage_bps as i128) / 10000i128;
        if lp_tokens < min_lp {
            return Err(LeaseError::SlippageExceeded);
        }
        let deployment = crate::types::YieldDeployment {
            lease_id,
            principal_amount: deploy_amount,
            yield_protocol,
            deployment_timestamp: now,
            lp_tokens,
            active: true,
        };
        lease.security_deposit = lease.security_deposit - deploy_amount;
        Ok((deployment, liquidity_buffer - deploy_amount))
    }

    /// Only an active deployment can be harvested or withdrawn.
    pub fn require_active_deployment(deployment: &crate::types::YieldDeployment) -> (r: Result<(), LeaseError>)
        ensures
            r is Ok <==> deployment.active,
            r is Err ==> r == Err::<(), LeaseError>(LeaseError::LeaseNotFound),
    {
        if !deployment.active {
            return Err(LeaseError::LeaseNotFound);
        }
        Ok(())
    }

    /// Splits harvested yield 50/30/20 between lessee, lessor and DAO and adds
    /// it to the lease's accumulated yield. Nothing positive to harvest is an error.
    pub fn harvest_yield(total_yield: i128, accumulated_yield: i128) -> (r: Result<YieldHarvest, LeaseError>)
        requires
            total_yield > 0 ==> fits_i128(accumulated_yield + total_yield),
        ensures
            r is Err <==> total_yield <= 0,
            r is Err ==> r == Err::<YieldHarvest, LeaseError>(LeaseError::YieldUnderflow),
            r matches Ok(h) ==> {
                &&& h.lessee_share == bps_share(total_yield, 5000)
                &&& h.lessor_share == bps_share(total_yield, 3000)
                &&& h.dao_share == bps_share(total_yield, 2000)
                &&& h.accumulated_yield == accumulated_yield + total_yield
            },
    {
        if total_yield <= 0 {
            return Err(LeaseError::YieldUnderflow);
        }
        let (lessee_share, lessor_share, dao_share) = Self::calculate_yield_distribution(total_yield);
        Ok(YieldHarvest { lessee_share, lessor_share, dao_share, accumulated_yield: accumulated_yield + total_yield })
    }

    /// Checks what a yield protocol paid back on withdrawal: at least the
    /// principal, and at least the slippage-tolerant minimum.
    pub fn check_yield_withdrawal(
        deployment: &crate::types::YieldDeployment,
        withdrawn_amount: i128,
        max_slippage_bps: u32,
    ) -> (r: Result<(), LeaseError>)
        ensures
            withdrawn_amount < deployment.principal_amount ==> r == Err::<(), LeaseError>(LeaseError::YieldUnderflow),
            withdrawn_amount >= deployment.principal_amount
                && withdrawn_amount < bps_share(deployment.principal_amount, 10000 - max_slippage_bps)
                ==> r == Err::<(), LeaseError>(LeaseError::SlippageExceeded),
            r is Ok <==> (withdrawn_amount >= deployment.principal_amount
                && withdrawn_amount >= bps_share(deployment.principal_amount, 10000 - max_slippage_bps)),
    {
        if withdrawn_amount < deployment.principal_amount {
            return Err(LeaseError::YieldUnderflow);
        }
        let min_expected = saturating_mul_i128(deployment.principal_amount, 10000i128 - max_slippage_bps as i128) / 10000i128;
        if withdrawn_amount < min_expected {
            return Err(LeaseError::SlippageExceeded);
        }
        Ok(())
    }

    /// Returns withdrawn funds to the security deposit and the liquidity
    /// buffer, and closes the deployment. Returns the new liquidity buffer.
    pub fn record_yield_withdrawal(
        deployment: &mut crate::types::YieldDeployment,
        lease: &mut LeaseInstance,
        withdrawn_amount: i128,
        liquidity_buffer: i128,
    ) -> (buffer: i128)
        requires
            fits_i128(old(lease).security_deposit + withdrawn_amount),
            fits_i128(liquidity_buffer + withdrawn_amount),
        ensures
            buffer == liquidity_buffer + withdrawn_amount,
            *final(lease) == (LeaseInstance {
                security_deposit: (old(lease).security_deposit + withdrawn_amount) as i128,
                ..*old(lease)
            }),
            *final(deployment) == (crate::types::YieldDeployment { active: false, lp_tokens: 0, ..*old(deployment) }),
    {
        lease.security_deposit = lease.security_deposit + withdrawn_amount;
        deployment.active = false;
        deployment.lp_tokens = 0;
        liquidity_buffer + withdrawn_amount
    }
}

impl LeaseContract {
    /// The landlord names who inspects repairs.
    pub fn set_inspector(lease: &mut LeaseInstance, landlord: AccountId, inspector: AccountId) -> (r: Result<(), LeaseError>)
        ensures
            r is Ok <==> landlord == old(lease).landlord,
            r is Err ==> r == Err::<(), LeaseError>(LeaseError::Unauthorised) && *final(lease) == *old(lease),
            r is Ok ==> *final(lease) == (LeaseInstance { inspector: Some(inspector), ..*old(lease) }),
    {
        if lease.landlord != landlord {
            return Err(LeaseError::Unauthorised);
        }
        lease.inspector = Some(inspector);
        Ok(())
    }

    /// The tenant reports a maintenance issue.
    pub fn report_maintenance_issue(lease: &mut LeaseInstance, tenant: AccountId) -> (r: Result<(), LeaseError>)
        ensures
            r is Ok <==> tenant == old(lease).tenant,
            r is Err ==> r == Err::<(), LeaseError>(LeaseError::Unauthorised) && *final(lease) == *old(lease),
            r is Ok ==> *final(lease) == (LeaseInstance { maintenance_status: MaintenanceStatus::Reported, ..*old(lease) }),
    {
        if lease.tenant != tenant {
            return Err(LeaseError::Unauthorised);
        }
        lease.maintenance_status = MaintenanceStatus::Reported;
        Ok(())
    }

    /// The landlord submits proof that a reported issue was repaired.
    pub fn submit_repair_proof(lease: &mut LeaseInstance, landlord: AccountId, proof_hash: [u8; 32]) -> (r: Result<(), LeaseError>)
        requires
            landlord == old(lease).landlord ==> old(lease).maintenance_status == MaintenanceStatus::Reported,
        ensures
            r is Ok <==> landlord == old(lease).landlord,
            r is Err ==> r == Err::<(), LeaseError>(LeaseError::Unauthorised) && *final(lease) == *old(lease),
            r is Ok ==> *final(lease) == (LeaseInstance {
                maintenance_status: MaintenanceStatus::Fixed,
                repair_proof_hash: Some(proof_hash),
                ..*old(lease)
            }),
    {
        if lease.landlord != landlord {
            return Err(LeaseError::Unauthorised);
        }
        lease.maintenance_status = MaintenanceStatus::Fixed;
        lease.repair_proof_hash = Some(proof_hash);
        Ok(())
    }

    /// The inspector confirms a repair: rent withheld during the issue is
    /// released into the payments. Returns the released amount.
    pub fn verify_repair(lease: &mut LeaseInstance, inspector: AccountId) -> (r: Result<i128, LeaseError>)
        requires
            old(lease).inspector == Some(inspector) ==> {
                &&& old(lease).maintenance_status == MaintenanceStatus::Fixed
                &&& fits_i128(old(lease).cumulative_payments + old(lease).withheld_rent)
                &&& fits_i128(old(lease).rent_paid + old(lease).withheld_rent)
            },
        ensures
            r is Ok <==> old(lease).inspector == Some(inspector),
            r is Err ==> r == Err::<i128, LeaseError>(LeaseError::Unauthorised) && *final(lease) == *old(lease),
            r matches Ok(released) ==> {
                &&& released == old(lease).withheld_rent
                &&& *final(lease) == (LeaseInstance {
                    cumulative_payments: (old(lease).cumulative_payments + released) as i128,
                    rent_paid: (old(lease).rent_paid + released) as i128,
                    withheld_rent: 0,
                    maintenance_status: MaintenanceStatus::Verified,
                    ..*old(lease)
                })
            },
    {
        match lease.inspector {
            Some(expected) => {
                if expected != inspector {
                    return Err(LeaseError::Unauthorised);
                }
            },
            None => {
                return Err(LeaseError::Unauthorised);
            },
        }
        let released = lease.withheld_rent;
        lease.cumulative_payments = lease.cumulative_payments + released;
        lease.rent_paid = lease.rent_paid + released;
        lease.withheld_rent = 0;
        lease.maintenance_status = MaintenanceStatus::Verified;
        Ok(released)
    }

    /// The landlord or the admin takes the asset back from a lease whose
    /// deposit has run dry; the lease ends.
    pub fn reclaim(lease: &mut LeaseInstance, caller: AccountId, admin: Option<AccountId>) -> (r: Result<(), LeaseError>)
        ensures
            caller != old(lease).landlord && !is_admin_spec(admin, caller)
                ==> r == Err::<(), LeaseError>(LeaseError::Unauthorised),
            (caller == old(lease).landlord || is_admin_spec(admin, caller)) && old(lease).deposit_amount > 0
                ==> r == Err::<(), LeaseError>(LeaseError::DepositNotSettled),
            r is Ok <==> ((caller == old(lease).landlord || is_admin_spec(admin, caller)) && old(lease).deposit_amount <= 0),
            r is Err ==> *final(lease) == *old(lease),
            r is Ok ==> *final(lease) == (LeaseInstance { status: LeaseStatus::Terminated, active: false, ..*old(lease) }),
    {
        let is_landlord = caller == lease.landlord;
        let is_admin = match admin {
            Some(a) => a == caller,
            None => false,
        };
        if !is_landlord && !is_admin {
            return Err(LeaseError::Unauthorised);
        }
        if lease.deposit_amount > 0 {
            return Err(LeaseError::DepositNotSettled);
        }
        lease.status = LeaseStatus::Terminated;
        lease.active = false;
        Ok(())
    }

    /// Only the landlord may authorize another payer of rent.
    pub fn add_authorized_payer(lease: &LeaseInstance, landlord: AccountId) -> (r: Result<(), LeaseError>)
        ensures
            r is Ok <==> landlord == lease.landlord,
            r is Err ==> r == Err::<(), LeaseError>(LeaseError::Unauthorised),
    {
        if lease.landlord != landlord {
            return Err(LeaseError::Unauthorised);
        }
        Ok(())
    }

    /// The landlord sets the price at which cumulative payments buy the asset out.
    pub fn set_lease_instance_buyout_price(lease: &mut LeaseInstance, landlord: AccountId, buyout_price: i128) -> (r: Result<(), LeaseError>)
        ensures
            r is Ok <==> landlord == old(lease).landlord,
            r is Err ==> r == Err::<(), LeaseError>(LeaseError::Unauthorised) && *final(lease) == *old(lease),
            r is Ok ==> *final(lease) == (LeaseInstance { buyout_price: Some(buyout_price), ..*old(lease) }),
    {
        if lease.landlord != landlord {
            return Err(LeaseError::Unauthorised);
        }
        lease.buyout_price = Some(buyout_price);
        Ok(())
    }

    /// Records where the landlord's rent is withdrawn to.
    pub fn set_withdrawal_address(lease: &mut LeaseInstance, withdrawal_address: AccountId)
        ensures
            *final(lease) == (LeaseInstance { withdrawal_address: Some(withdrawal_address), ..*old(lease) }),
    {
        lease.withdrawal_address = Some(withdrawal_address);
    }

    /// Marks all rent paid so far as withdrawn and returns the amount not
    /// withdrawn before; a withdrawal address must be set.
    pub fn withdraw_rent(lease: &mut LeaseInstance) -> (r: Result<i128, LeaseError>)
        requires
            old(lease).withdrawal_address is Some ==> fits_i128(old(lease).rent_paid - old(lease).rent_withdrawn),
        ensures
            r is Ok <==> old(lease).withdrawal_address is Some,
            r is Err ==> r == Err::<i128, LeaseError>(LeaseError::WithdrawalAddressNotSet) && *final(lease) == *old(lease),
            r matches Ok(amount) ==> {
                &&& amount == old(lease).rent_paid - old(lease).rent_withdrawn
                &&& *final(lease) == (LeaseInstance { rent_withdrawn: old(lease).rent_paid, ..*old(lease) })
            },
    {
        if lease.withdrawal_address.is_none() {
            return Err(LeaseError::WithdrawalAddressNotSet);
        }
        let amount = lease.rent_paid - lease.rent_withdrawn;
        lease.rent_withdrawn = lease.rent_withdrawn + amount;
        Ok(amount)
    }

    /// An upgrade must name the current terms hash, when one is set.
    pub fn check_terms_hash(stored_terms_hash: Option<[u8; 32]>, expected_terms_hash: [u8; 32]) -> (r: Result<(), LeaseError>)
        ensures
            r is Ok <==> (match stored_terms_hash {
                Some(h) => h@ == expected_terms_hash@,
                None => true,
            }),
            r is Err ==> r == Err::<(), LeaseError>(LeaseError::UpgradeNotAllowed),
    {
        match stored_terms_hash {
            Some(h) => {
                let mut i: usize = 0;
                while i < 32
                    invariant
                        0 <= i <= 32,
                        stored_terms_hash == Some(h),
                        h@.len() == 32,
                        expected_terms_hash@.len() == 32,
                        forall|j: int| 0 <= j < i ==> h@[j] == expected_terms_hash@[j],
                    decreases 32 - i,
                {
                    if h[i] != expected_terms_hash[i] {
                        assert(h@[i as int] != expected_terms_hash@[i as int]);
                        return Err(LeaseError::UpgradeNotAllowed);
                    }
                    i = i + 1;
                }
                assert(h@ =~= expected_terms_hash@);
                Ok(())
            },
            None => Ok(()),
        }
    }

    /// Only assets on the allowed list can be used for payment.
    pub fn require_stablecoin(asset_allowed: bool) -> (r: Result<(), LeaseError>)
        ensures
            r is Ok <==> asset_allowed,
            r is Err ==> r == Err::<(), LeaseError>(LeaseError::InvalidAsset),
    {
        if !asset_allowed {
            return Err(LeaseError::InvalidAsset);
        }
        Ok(())
    }

    /// When a KYC provider is configured, both parties must be verified by it
    /// (`landlord_verified` and `tenant_verified` are the provider's answers);
    /// without one, no check is made.
    pub fn require_kyc(provider_configured: bool, landlord_verified: bool, tenant_verified: bool) -> (r: Result<(), LeaseError>)
        ensures
            r is Ok <==> (!provider_configured || (landlord_verified && tenant_verified)),
            r is Err ==> r == Err::<(), LeaseError>(LeaseError::KycRequired),
    {
        if provider_configured && (!landlord_verified || !tenant_verified) {
            return Err(LeaseError::KycRequired);
        }
        Ok(())
    }
}

/// The numbered lease that `create_lease_instance` builds.
pub open spec fn new_lease_instance(landlord: AccountId, params: CreateLeaseParams, locked_security_deposit: i128) -> LeaseInstance {
    LeaseInstance {
        landlord,
        tenant: params.tenant,
        rent_amount: params.rent_amount,
        deposit_amount: params.deposit_amount,
        security_deposit: locked_security_deposit,
        start_date: params.start_date,
        end_date: params.end_date,
        property_uri: params.property_uri,
        status: LeaseStatus::Pending,
        nft_contract: None,
        token_id: None,
        active: true,
        rent_paid: 0,
        expiry_time: params.end_date,
        buyout_price: None,
        cumulative_payments: 0,
        debt: 0,
        rent_paid_through: 0,
        deposit_status: DepositStatus::Held,
        rent_per_sec: params.rent_per_sec,
        grace_period_end: params.grace_period_end,
        late_fee_flat: params.late_fee_flat,
        late_fee_per_sec: params.late_fee_per_sec,
        flat_fee_applied: false,
        seconds_late_charged: 0,
        withdrawal_address: None,
        rent_withdrawn: 0,
        arbitrators: params.arbitrators,
        maintenance_status: MaintenanceStatus::NoIssue,
        withheld_rent: 0,
        repair_proof_hash: None,
        inspector: None,
        paused: false,
        pause_reason: None,
        paused_at: None,
        pause_initiator: None,
        total_paused_duration: 0,
        rent_pull_authorized_amount: None,
        last_rent_pull_timestamp: None,
        billing_cycle_duration: 2592000,
        yield_delegation_enabled: params.yield_delegation_enabled,
        yield_accumulated: 0,
        equity_balance: 0,
        equity_percentage_bps: params.equity_percentage_bps,
        had_late_payment: false,
        has_pet: params.has_pet,
        pet_deposit_amount: params.pet_deposit_amount,
        pet_rent_amount: params.pet_rent_amount,
        payment_token: params.payment_token,
    }
}

/// `a + b` for `u64`, saturating at `u64::MAX`.
pub open spec fn saturating_add_u64(a: u64, b: u64) -> u64 {
    if a + b > u64::MAX { u64::MAX } else { (a + b) as u64 }
}

/// A pending symbol-keyed lease with no rent schedule yet.
pub open spec fn pending_lease(
    landlord: AccountId,
    tenant: AccountId,
    deposit_amount: i128,
    start_date: u64,
    end_date: u64,
    property_uri: String,
    payment_token: AccountId,
) -> Lease {
    Lease {
        landlord,
        tenant,
        rent_per_sec: 0,
        late_fee_per_sec: 0,
        deposit_amount,
        start_date,
        end_date,
        property_uri,
        status: LeaseStatus::Pending,
        nft_contract: None,
        token_id: None,
        active: true,
        grace_period_end: end_date,
        late_fee_flat: 0,
        debt: 0,
        flat_fee_applied: false,
        seconds_late_charged: 0,
        rent_paid: 0,
        expiry_time: end_date,
        buyout_price: None,
        cumulative_payments: 0,
        payment_token,
    }
}

impl LeaseContract {
    /// Builds a new numbered lease from the signed terms, with the security
    /// deposit that was actually locked (after any asset conversion). The lease
    /// starts pending, active, with its deposit held and nothing paid.
    pub fn create_lease_instance(landlord: AccountId, params: CreateLeaseParams, locked_security_deposit: i128) -> (lease: LeaseInstance)
        ensures
            lease == new_lease_instance(landlord, params, locked_security_deposit),
    {
        LeaseInstance {
            landlord,
            tenant: params.tenant,
            rent_amount: params.rent_amount,
            deposit_amount: params.deposit_amount,
            security_deposit: locked_security_deposit,
            start_date: params.start_date,
            end_date: params.end_date,
            property_uri: params.property_uri,
            status: LeaseStatus::Pending,
            nft_contract: None,
            token_id: None,
            active: true,
            rent_paid: 0,
            expiry_time: params.end_date,
            buyout_price: None,
            cumulative_payments: 0,
            debt: 0,
            rent_paid_through: 0,
            deposit_status: DepositStatus::Held,
            rent_per_sec: params.rent_per_sec,
            grace_period_end: params.grace_period_end,
            late_fee_flat: params.late_fee_flat,
            late_fee_per_sec: params.late_fee_per_sec,
            flat_fee_applied: false,
            seconds_late_charged: 0,
            withdrawal_address: None,
            rent_withdrawn: 0,
            arbitrators: params.arbitrators,
            maintenance_status: MaintenanceStatus::NoIssue,
            withheld_rent: 0,
            repair_proof_hash: None,
            inspector: None,
            paused: false,
            pause_reason: None,
            paused_at: None,
            pause_initiator: None,
            total_paused_duration: 0,
            rent_pull_authorized_amount: None,
            last_rent_pull_timestamp: None,
            billing_cycle_duration: 2592000,
            yield_delegation_enabled: params.yield_delegation_enabled,
            yield_accumulated: 0,
            equity_balance: 0,
            equity_percentage_bps: params.equity_percentage_bps,
            had_late_payment: false,
            has_pet: params.has_pet,
            pet_deposit_amount: params.pet_deposit_amount,
            pet_rent_amount: params.pet_rent_amount,
            payment_token: params.payment_token,
        }
    }

    /// Builds a pending lease that starts `now` and ends `duration` seconds
    /// later (saturating), once both parties pass the KYC check (when a KYC
    /// provider is configured) and the payment token is an allowed asset.
    pub fn initialize_lease(
        landlord: AccountId,
        tenant: AccountId,
        deposit_amount: i128,
        duration: u64,
        property_uri: String,
        payment_token: AccountId,
        now: u64,
        kyc_provider_configured: bool,
        landlord_verified: bool,
        tenant_verified: bool,
        payment_token_allowed: bool,
    ) -> (r: Result<Lease, LeaseError>)
        ensures
            kyc_provider_configured && !(landlord_verified && tenant_verified)
                ==> r == Err::<Lease, LeaseError>(LeaseError::KycRequired),
            (!kyc_provider_configured || (landlord_verified && tenant_verified)) && !payment_token_allowed
                ==> r == Err::<Lease, LeaseError>(LeaseError::InvalidAsset),
            r is Ok <==> ((!kyc_provider_configured || (landlord_verified && tenant_verified)) && payment_token_allowed),
            r is Ok ==> r->Ok_0 == pending_lease(landlord, tenant, deposit_amount, now, saturating_add_u64(now, duration), property_uri, payment_token),
    {
        Self::require_kyc(kyc_provider_configured, landlord_verified, tenant_verified)?;
        Self::require_stablecoin(payment_token_allowed)?;
        let end_date = now.saturating_add(duration);
        Ok(Lease {
            landlord,
            tenant,
            rent_per_sec: 0,
            late_fee_per_sec: 0,
            deposit_amount,
            start_date: now,
            end_date,
            property_uri,
            status: LeaseStatus::Pending,
            nft_contract: None,
            token_id: None,
            active: true,
            grace_period_end: end_date,
            late_fee_flat: 0,
            debt: 0,
            flat_fee_applied: false,
            seconds_late_charged: 0,
            rent_paid: 0,
            expiry_time: end_date,
            buyout_price: None,
            cumulative_payments: 0,
            payment_token,
        })
    }

    /// The receipt for a month's rent, dated `now`.
    pub fn pay_rent_receipt(lease_id: String, month: u32, amount: i128, now: u64) -> (r: crate::types::Receipt)
        ensures
            r == (crate::types::Receipt { lease_id, month, amount, date: now }),
    {
        crate::types::Receipt { lease_id, month, amount, date: now }
    }

    /// The history record of a lease that `caller` ended at `now`.
    pub fn archive_lease(lease: LeaseInstance, caller: AccountId, now: u64) -> (h: crate::types::HistoricalLease)
        ensures
            h == (crate::types::HistoricalLease { lease, terminated_by: caller, terminated_at: now }),
    {
        crate::types::HistoricalLease { lease, terminated_by: caller, terminated_at: now }
    }

    /// A numbered lease can be created only under an id that is not taken.
    pub fn require_new_lease(lease_exists: bool) -> (r: Result<(), LeaseError>)
        ensures
            r is Ok <==> !lease_exists,
            r is Err ==> r == Err::<(), LeaseError>(LeaseError::LeaseAlreadyExists),
    {
        if lease_exists {
            return Err(LeaseError::LeaseAlreadyExists);
        }
        Ok(())
    }

    /// Builds a pending lease with no deposit, end date or property yet.
    pub fn create_lease(landlord: AccountId, tenant: AccountId, payment_token: AccountId, now: u64) -> (lease: Lease)
        ensures
            lease == pending_lease(landlord, tenant, 0, now, 0, lease.property_uri, payment_token),
            lease.property_uri@.len() == 0,
    {
        Lease {
            landlord,
            tenant,
            rent_per_sec: 0,
            late_fee_per_sec: 0,
            deposit_amount: 0,
            start_date: now,
            end_date: 0,
            property_uri: String::new(),
            status: LeaseStatus::Pending,
            nft_contract: None,
            token_id: None,
            active: true,
            grace_period_end: 0,
            late_fee_flat: 0,
            debt: 0,
            flat_fee_applied: false,
            seconds_late_charged: 0,
            rent_paid: 0,
            expiry_time: 0,
            buyout_price: None,
            cumulative_payments: 0,
            payment_token,
        }
    }

    /// Builds an active lease of an NFT held in escrow: rent and late fees are
    /// converted to per-second rates, and the tenant receives usage rights
    /// until the lease expires `duration` seconds (saturating) after `now`.
    pub fn create_lease_with_nft(
        lease_id: String,
        landlord: AccountId,
        tenant: AccountId,
        rent_amount: i128,
        rent_rate_type: RateType,
        duration: u64,
        grace_period_end: u64,
        late_fee_flat: i128,
        late_fee_amount: i128,
        late_fee_rate_type: RateType,
        nft_contract_addr: AccountId,
        token_id: u128,
        payment_token: AccountId,
        now: u64,
    ) -> (r: (Lease, UsageRights))
        ensures
            ({
                let expiry = saturating_add_u64(now, duration);
                &&& r.0.landlord == landlord
                &&& r.0.tenant == tenant
                &&& r.0.rent_per_sec == to_per_second_spec(rent_amount, rent_rate_type)
                &&& r.0.late_fee_per_sec == to_per_second_spec(late_fee_amount, late_fee_rate_type)
                &&& r.0.deposit_amount == 0
                &&& r.0.start_date == now
                &&& r.0.end_date == expiry
                &&& r.0.property_uri@.len() == 0
                &&& r.0.status == LeaseStatus::Active
                &&& r.0.nft_contract == Some(nft_contract_addr)
                &&& r.0.token_id == Some(token_id)
                &&& r.0.active
                &&& r.0.grace_period_end == grace_period_end
                &&& r.0.late_fee_flat == late_fee_flat
                &&& r.0.debt == 0
                &&& !r.0.flat_fee_applied
                &&& r.0.seconds_late_charged == 0
                &&& r.0.rent_paid == 0
                &&& r.0.expiry_time == expiry
                &&& r.0.buyout_price is None
                &&& r.0.cumulative_payments == 0
                &&& r.0.payment_token == payment_token
                &&& r.1.renter == tenant
                &&& r.1.nft_contract == nft_contract_addr
                &&& r.1.token_id == token_id
                &&& r.1.lease_id@ == lease_id@
                &&& r.1.valid_until == expiry
            }),
    {
        let expiry_time = now.saturating_add(duration);
        let lease = Lease {
            landlord,
            tenant,
            rent_per_sec: to_per_second(rent_amount, rent_rate_type),
            late_fee_per_sec: to_per_second(late_fee_amount, late_fee_rate_type),
            deposit_amount: 0,
            start_date: now,
            end_date: expiry_time,
            property_uri: String::new(),
            status: LeaseStatus::Active,
            nft_contract: Some(nft_contract_addr),
            token_id: Some(token_id),
            active: true,
            grace_period_end,
            late_fee_flat,
            debt: 0,
            flat_fee_applied: false,
            seconds_late_charged: 0,
            rent_paid: 0,
            expiry_time,
            buyout_price: None,
            cumulative_payments: 0,
            payment_token,
        };
        let rights = UsageRights {
            renter: tenant,
            nft_contract: nft_contract_addr,
            token_id,
            lease_id,
            valid_until: expiry_time,
        };
        (lease, rights)
    }

    /// The tenant activates a symbol-keyed lease.
    pub fn activate_lease(lease: &mut Lease, tenant: AccountId)
        requires
            old(lease).tenant == tenant,
        ensures
            *final(lease) == (Lease { status: LeaseStatus::Active, ..*old(lease) }),
    {
        lease.status = LeaseStatus::Active;
    }

    /// Records a payment on an active symbol-keyed lease; reaching the buyout
    /// price ends the lease. Returns whether it was bought out.
    pub fn pay_rent(lease: &mut Lease, payment_amount: i128) -> (bought_out: bool)
        requires
            old(lease).active,
            fits_i128(old(lease).cumulative_payments + payment_amount),
        ensures
            ({
                let cumulative = (old(lease).cumulative_payments + payment_amount) as i128;
                &&& bought_out == (match old(lease).buyout_price {
                    Some(price) => cumulative >= price,
                    None => false,
                })
                &&& *final(lease) == (Lease {
                    cumulative_payments: cumulative,
                    active: !bought_out,
                    status: if bought_out { LeaseStatus::Terminated } else { old(lease).status },
                    ..*old(lease)
                })
            }),
    {
        lease.cumulative_payments = lease.cumulative_payments + payment_amount;
        match lease.buyout_price {
            Some(price) => {
                if lease.cumulative_payments >= price {
                    lease.active = false;
                    lease.status = LeaseStatus::Terminated;
                    return true;
                }
            },
            None => {},
        }
        false
    }

    /// The landlord sets the buyout price of a symbol-keyed lease.
    pub fn set_buyout_price(lease: &mut Lease, landlord: AccountId, buyout_price: i128)
        requires
            old(lease).landlord == landlord,
        ensures
            *final(lease) == (Lease { buyout_price: Some(buyout_price), ..*old(lease) }),
    {
        lease.buyout_price = Some(buyout_price);
    }

    /// The landlord or the tenant ends a symbol-keyed lease; the notice says
    /// how long it ran and what was paid (its id is the time of ending).
    pub fn end_lease(lease: &mut Lease, caller: AccountId, now: u64) -> (ended: LeaseEnded)
        requires
            old(lease).landlord == caller || old(lease).tenant == caller,
            now >= old(lease).start_date,
        ensures
            ended == (LeaseEnded {
                id: now,
                duration: (now - old(lease).start_date) as u64,
                total_paid: old(lease).cumulative_payments,
            }),
            *final(lease) == (Lease { status: LeaseStatus::Terminated, active: false, ..*old(lease) }),
    {
        lease.status = LeaseStatus::Terminated;
        lease.active = false;
        LeaseEnded { id: now, duration: now - lease.start_date, total_paid: lease.cumulative_payments }
    }

    /// Usage rights are returned only to their renter, and only until they expire.
    pub fn check_usage_rights(rights: Option<UsageRights>, user: AccountId, now: u64) -> (r: Option<UsageRights>)
        ensures
            r is Some <==> (rights matches Some(u) && u.renter == user && now <= u.valid_until),
            r is Some ==> r == rights,
    {
        match rights {
            Some(u) => {
                if u.renter == user && now <= u.valid_until {
                    Some(u)
                } else {
                    None
                }
            },
            None => None,
        }
    }
}

} // verus!
