//! Escrow solvency accounting. The escrow's total must always equal the sum
//! of active deposits, pending yield and disputed funds, and the vault must
//! record the same total. Every operation updates the components in a fixed
//! order with checked arithmetic and ends by checking the invariant. An
//! operation that fails leaves the escrow exactly as it was, by design: a
//! failed step or a failed final check must never leave a half-updated,
//! insolvent escrow behind.

use vstd::prelude::*;
use crate::math::div_toward_zero;

verus! {

/// Whether `x` is in the range of `i128`.
pub open spec fn fits(x: int) -> bool {
    i128::MIN <= x <= i128::MAX
}

/// Escrow accounting state.
#[derive(Clone, Copy, Debug, PartialEq, Eq, Structural)]
pub struct EscrowInvariant {
    /// Total amount escrowed across all leases.
    pub total_escrowed: i128,
    /// Active deposits available for operations.
    pub active_deposits: i128,
    /// Yield waiting to be claimed or reinvested.
    pub pending_yield: i128,
    /// Funds locked in disputes or arbitration.
    pub disputed_funds: i128,
    /// The vault's recorded total (must equal `total_escrowed`).
    pub vault_total_locked: i128,
    /// Number of active leases.
    pub lease_count: u64,
    /// Cumulative precision loss recorded for large operations.
    pub precision_loss_cumulative: i128,
    /// Dust tracked from fractional operations.
    pub dust_cumulative: i128,
}

/// Why the escrow accounting is, or would become, inconsistent.
#[derive(Clone, Copy, Debug, PartialEq, Eq, Structural)]
pub enum InvariantViolation {
    CoreInvariantViolated {
        expected_total: i128,
        calculated_total: i128,
        active_deposits: i128,
        pending_yield: i128,
        disputed_funds: i128,
        precision_loss: i128,
        dust_tracked: i128,
    },
    VaultSynchronizationLost { vault_recorded: i128, invariant_total: i128 },
    NegativeComponentValues { total: i128, active: i128, pending: i128, disputed: i128, vault: i128 },
    LeaseCountMismatch { lease_count: u64, total_escrowed: i128 },
    NegativeDepositAmount(i128),
    NegativeYieldAmount(i128),
    NegativeDisputeAmount(i128),
    NegativeSettlementAmounts { tenant_refund: i128, landlord_payout: i128, protocol_fee: i128 },
    NegativeReleaseAmounts { return_amount: i128, slash_amount: i128 },
    InsufficientActiveDeposits { requested: i128, available: i128 },
    InsufficientFundsForDispute { requested: i128, available: i128 },
    InsufficientFundsForSettlement { requested: i128, available: i128 },
    MutualReleaseMathMismatch { expected_total: i128, release_total: i128, return_amount: i128, slash_amount: i128 },
    ComponentSumMismatch { expected_sum: i128, actual_sum: i128, active: i128, pending: i128, disputed: i128 },
    DustAccountingError { expected_settlement: i128, actual_sources: i128, dust_amount: i128 },
    InvalidSlashPercentage(u32),
    SlashExceedsTotal { slash_amount: i128, total_escrowed: i128 },
    CalculationOverflow,
}

/// A snapshot of the escrow accounting with the checks' verdicts.
#[derive(Clone, Copy, Debug, PartialEq, Eq, Structural)]
pub struct InvariantReport {
    pub total_escrowed: i128,
    pub active_deposits: i128,
    pub pending_yield: i128,
    pub disputed_funds: i128,
    pub vault_total_locked: i128,
    pub lease_count: u64,
    pub precision_loss_cumulative: i128,
    pub dust_cumulative: i128,
    pub component_sum: i128,
    pub invariant_holds: bool,
    pub vault_synchronized: bool,
    pub all_components_non_negative: bool,
}

/// Checked addition: the sum, or `CalculationOverflow`.
pub open spec fn add_spec(a: i128, b: i128) -> Result<i128, InvariantViolation> {
    if fits(a + b) { Ok((a + b) as i128) } else { Err(InvariantViolation::CalculationOverflow) }
}

/// Checked subtraction: the difference, or `CalculationOverflow`.
pub open spec fn sub_spec(a: i128, b: i128) -> Result<i128, InvariantViolation> {
    if fits(a - b) { Ok((a - b) as i128) } else { Err(InvariantViolation::CalculationOverflow) }
}

/// Addition that reports overflow as `CalculationOverflow`.
pub fn safe_add(a: i128, b: i128) -> (r: Result<i128, InvariantViolation>)
    ensures
        r == add_spec(a, b),
{
    match a.checked_add(b) {
        Some(v) => Ok(v),
        None => Err(InvariantViolation::CalculationOverflow),
    }
}

/// Subtraction that reports overflow as `CalculationOverflow`.
pub fn safe_sub(a: i128, b: i128) -> (r: Result<i128, InvariantViolation>)
    ensures
        r == sub_spec(a, b),
{
    match a.checked_sub(b) {
        Some(v) => Ok(v),
        None => Err(InvariantViolation::CalculationOverflow),
    }
}

/// Multiplication that reports overflow as `CalculationOverflow`.
pub fn safe_mul(a: i128, b: i128) -> (r: Result<i128, InvariantViolation>)
    ensures
        fits(a * b) ==> r == Ok::<i128, InvariantViolation>((a * b) as i128),
        !fits(a * b) ==> r == Err::<i128, InvariantViolation>(InvariantViolation::CalculationOverflow),
{
    match a.checked_mul(b) {
        Some(v) => Ok(v),
        None => Err(InvariantViolation::CalculationOverflow),
    }
}

/// The precision loss recorded for an amount: one millionth of it, when positive.
pub open spec fn precision_loss_spec(amount: i128) -> int {
    if amount > 0 { amount / 1_000_000 } else { 0 }
}

/// The precision loss recorded for an amount.
pub fn simulate_soroban_precision_loss(amount: i128) -> (r: i128)
    ensures
        r == precision_loss_spec(amount),
        0 <= r,
{
    if amount > 0 {
        amount / 1_000_000
    } else {
        0
    }
}

/// Dust left by a settlement: what remains escrowed beyond the settled amount.
pub fn calculate_settlement_dust(total_settlement: i128, total_escrowed: i128) -> (r: i128)
    requires
        total_settlement != total_escrowed ==> fits(total_escrowed - total_settlement),
    ensures
        r == total_escrowed - total_settlement,
{
    if total_settlement == total_escrowed {
        0
    } else {
        total_escrowed - total_settlement
    }
}

/// `min(a, b)`.
pub open spec fn min_spec(a: int, b: int) -> int {
    if a <= b { a } else { b }
}

/// Where a settlement is drawn from: disputed funds first, then pending
/// yield, then active deposits, each as far as it goes.
pub open spec fn settlement_sources_spec(total: int, disputed: int, pending: int, active: int) -> (int, int, int) {
    let from_disputed = min_spec(total, disputed);
    let remaining = total - from_disputed;
    let from_pending = min_spec(remaining, pending);
    let final_remaining = remaining - from_pending;
    (from_disputed, from_pending, min_spec(final_remaining, active))
}

/// Whether drawing a settlement from the components stays within `i128`.
pub open spec fn settlement_sources_fit(total: i128, disputed: i128, pending: i128) -> bool {
    let from_disputed = min_spec(total as int, disputed as int);
    let remaining = total - from_disputed;
    &&& fits(remaining)
    &&& fits(remaining - min_spec(remaining, pending as int))
}

/// Splits a settlement over disputed funds, pending yield and active deposits.
pub fn calculate_settlement_sources(total_settlement: i128, disputed: i128, pending: i128, active: i128) -> (r: (i128, i128, i128))
    requires
        settlement_sources_fit(total_settlement, disputed, pending),
    ensures
        (r.0 as int, r.1 as int, r.2 as int) == settlement_sources_spec(total_settlement as int, disputed as int, pending as int, active as int),
{
    let from_disputed = if total_settlement <= disputed { total_settlement } else { disputed };
    let remaining = total_settlement - from_disputed;
    let from_pending = if remaining <= pending { remaining } else { pending };
    let final_remaining = remaining - from_pending;
    let from_active = if final_remaining <= active { final_remaining } else { active };
    (from_disputed, from_pending, from_active)
}

/// Drawing a settlement that the components cover takes exactly the
/// settlement, and never more from a component than it holds.
pub proof fn lemma_settlement_sources_cover(total: int, disputed: int, pending: int, active: int)
    requires
        0 <= disputed,
        0 <= pending,
        0 <= active,
        0 <= total <= disputed + pending + active,
    ensures
        ({
            let (d, p, a) = settlement_sources_spec(total, disputed, pending, active);
            &&& d + p + a == total
            &&& 0 <= d <= disputed
            &&& 0 <= p <= pending
            &&& 0 <= a <= active
        }),
{
}

impl EscrowInvariant {
    /// Sum of the three components, as an integer.
    pub open spec fn component_sum_spec(self) -> int {
        self.active_deposits + self.pending_yield + self.disputed_funds
    }

    /// What `verify_core_invariant` reports for a state.
    pub open spec fn core_check(self) -> Result<(), InvariantViolation> {
        let ap = self.active_deposits + self.pending_yield;
        if !fits(ap) || !fits(ap + self.disputed_funds) {
            Err(InvariantViolation::CalculationOverflow)
        } else if ap + self.disputed_funds != self.total_escrowed {
            Err(InvariantViolation::CoreInvariantViolated {
                expected_total: self.total_escrowed,
                calculated_total: (ap + self.disputed_funds) as i128,
                active_deposits: self.active_deposits,
                pending_yield: self.pending_yield,
                disputed_funds: self.disputed_funds,
                precision_loss: self.precision_loss_cumulative,
                dust_tracked: self.dust_cumulative,
            })
        } else if self.vault_total_locked != self.total_escrowed {
            Err(InvariantViolation::VaultSynchronizationLost {
                vault_recorded: self.vault_total_locked,
                invariant_total: self.total_escrowed,
            })
        } else if self.total_escrowed < 0 || self.active_deposits < 0 || self.pending_yield < 0
            || self.disputed_funds < 0 || self.vault_total_locked < 0 {
            Err(InvariantViolation::NegativeComponentValues {
                total: self.total_escrowed,
                active: self.active_deposits,
                pending: self.pending_yield,
                disputed: self.disputed_funds,
                vault: self.vault_total_locked,
            })
        } else if self.lease_count > 0 && self.total_escrowed == 0 {
            Err(InvariantViolation::LeaseCountMismatch { lease_count: self.lease_count, total_escrowed: self.total_escrowed })
        } else {
            Ok(())
        }
    }

    /// The solvency invariant, stated directly.
    pub open spec fn solvent(self) -> bool {
        &&& self.total_escrowed == self.component_sum_spec()
        &&& self.vault_total_locked == self.total_escrowed
        &&& self.active_deposits >= 0
        &&& self.pending_yield >= 0
        &&& self.disputed_funds >= 0
        &&& !(self.lease_count > 0 && self.total_escrowed == 0)
    }

    /// The check passes exactly when the state is solvent.
    pub proof fn lemma_core_check_is_solvency(self)
        ensures
            self.core_check() is Ok <==> self.solvent(),
    {
    }

    /// An empty escrow.
    pub fn new() -> (s: Self)
        ensures
            s == (EscrowInvariant {
                total_escrowed: 0,
                active_deposits: 0,
                pending_yield: 0,
                disputed_funds: 0,
                vault_total_locked: 0,
                lease_count: 0,
                precision_loss_cumulative: 0,
                dust_cumulative: 0,
            }),
            s.solvent(),
    {
        EscrowInvariant {
            total_escrowed: 0,
            active_deposits: 0,
            pending_yield: 0,
            disputed_funds: 0,
            vault_total_locked: 0,
            lease_count: 0,
            precision_loss_cumulative: 0,
            dust_cumulative: 0,
        }
    }

    /// Checks the solvency invariant: components sum to the total, the vault
    /// agrees, nothing is negative, and leases imply a non-empty escrow.
    pub fn verify_core_invariant(&self) -> (r: Result<(), InvariantViolation>)
        ensures
            r == self.core_check(),
    {
        let ap = match self.active_deposits.checked_add(self.pending_yield) {
            Some(v) => v,
            None => return Err(InvariantViolation::CalculationOverflow),
        };
        let calculated_total = match ap.checked_add(self.disputed_funds) {
            Some(v) => v,
            None => return Err(InvariantViolation::CalculationOverflow),
        };
        if calculated_total != self.total_escrowed {
            return Err(InvariantViolation::CoreInvariantViolated {
                expected_total: self.total_escrowed,
                calculated_total,
                active_deposits: self.active_deposits,
                pending_yield: self.pending_yield,
                disputed_funds: self.disputed_funds,
                precision_loss: self.precision_loss_cumulative,
                dust_tracked: self.dust_cumulative,
            });
        }
        if self.vault_total_locked != self.total_escrowed {
            return Err(InvariantViolation::VaultSynchronizationLost {
                vault_recorded: self.vault_total_locked,
                invariant_total: self.total_escrowed,
            });
        }
        if self.total_escrowed < 0 || self.active_deposits < 0 || self.pending_yield < 0
            || self.disputed_funds < 0 || self.vault_total_locked < 0 {
            return Err(InvariantViolation::NegativeComponentValues {
                total: self.total_escrowed,
                active: self.active_deposits,
                pending: self.pending_yield,
                disputed: self.disputed_funds,
                vault: self.vault_total_locked,
            });
        }
        if self.lease_count > 0 && self.total_escrowed == 0 {
            return Err(InvariantViolation::LeaseCountMismatch {
                lease_count: self.lease_count,
                total_escrowed: self.total_escrowed,
            });
        }
        Ok(())
    }
}

/// Outcome of `apply_lease_creation`: the result and the state it leaves.
pub open spec fn lease_creation_outcome(s: EscrowInvariant, dep: i128) -> (Result<(), InvariantViolation>, EscrowInvariant) {
    if dep < 0 {
        (Err(InvariantViolation::NegativeDepositAmount(dep)), s)
    } else if !fits(s.total_escrowed + dep) {
        (Err(InvariantViolation::CalculationOverflow), s)
    } else {
        let s1 = EscrowInvariant { total_escrowed: (s.total_escrowed + dep) as i128, ..s };
        if !fits(s.active_deposits + dep) {
            (Err(InvariantViolation::CalculationOverflow), s1)
        } else {
            let s2 = EscrowInvariant { active_deposits: (s.active_deposits + dep) as i128, ..s1 };
            if !fits(s.vault_total_locked + dep) {
                (Err(InvariantViolation::CalculationOverflow), s2)
            } else {
                let s3 = EscrowInvariant {
                    vault_total_locked: (s.vault_total_locked + dep) as i128,
                    lease_count: (s.lease_count + 1) as u64,
                    ..s2
                };
                if dep > 1_000_000 && !fits(s.precision_loss_cumulative + precision_loss_spec(dep)) {
                    (Err(InvariantViolation::CalculationOverflow), s3)
                } else {
                    let s4 = if dep > 1_000_000 {
                        EscrowInvariant {
                            precision_loss_cumulative: (s.precision_loss_cumulative + precision_loss_spec(dep)) as i128,
                            ..s3
                        }
                    } else {
                        s3
                    };
                    (s4.core_check(), s4)
                }
            }
        }
    }
}

/// Whether a creation reaches the lease-count increment.
pub open spec fn creation_counts_lease(s: EscrowInvariant, dep: i128) -> bool {
    dep >= 0 && fits(s.total_escrowed + dep) && fits(s.active_deposits + dep) && fits(s.vault_total_locked + dep)
}

/// Outcome of `apply_yield_accumulation`.
pub open spec fn yield_accumulation_outcome(s: EscrowInvariant, y: i128) -> (Result<(), InvariantViolation>, EscrowInvariant) {
    if y < 0 {
        (Err(InvariantViolation::NegativeYieldAmount(y)), s)
    } else if y > s.active_deposits {
        (Err(InvariantViolation::InsufficientActiveDeposits { requested: y, available: s.active_deposits }), s)
    } else {
        let s1 = EscrowInvariant { active_deposits: (s.active_deposits - y) as i128, ..s };
        if !fits(s.pending_yield + y) {
            (Err(InvariantViolation::CalculationOverflow), s1)
        } else {
            let s2 = EscrowInvariant { pending_yield: (s.pending_yield + y) as i128, ..s1 };
            if !fits(s.precision_loss_cumulative + precision_loss_spec(y)) {
                (Err(InvariantViolation::CalculationOverflow), s2)
            } else {
                let s3 = EscrowInvariant {
                    precision_loss_cumulative: (s.precision_loss_cumulative + precision_loss_spec(y)) as i128,
                    ..s2
                };
                (s3.core_check(), s3)
            }
        }
    }
}

/// Outcome of `apply_dispute_initiation`.
pub open spec fn dispute_initiation_outcome(s: EscrowInvariant, d: i128) -> (Result<(), InvariantViolation>, EscrowInvariant) {
    if d < 0 {
        (Err(InvariantViolation::NegativeDisputeAmount(d)), s)
    } else if !fits(s.active_deposits + s.pending_yield) {
        (Err(InvariantViolation::CalculationOverflow), s)
    } else if d > s.active_deposits + s.pending_yield {
        (Err(InvariantViolation::InsufficientFundsForDispute {
            requested: d,
            available: (s.active_deposits + s.pending_yield) as i128,
        }), s)
    } else {
        let from_pending = min_spec(d as int, s.pending_yield as int);
        let from_active = d - from_pending;
        if !fits(from_active) {
            (Err(InvariantViolation::CalculationOverflow), s)
        } else {
            let s1 = EscrowInvariant { pending_yield: (s.pending_yield - from_pending) as i128, ..s };
            if !fits(s.active_deposits - from_active) {
                (Err(InvariantViolation::CalculationOverflow), s1)
            } else {
                let s2 = EscrowInvariant { active_deposits: (s.active_deposits - from_active) as i128, ..s1 };
                if !fits(s.disputed_funds + d) {
                    (Err(InvariantViolation::CalculationOverflow), s2)
                } else {
                    let s3 = EscrowInvariant { disputed_funds: (s.disputed_funds + d) as i128, ..s2 };
                    (s3.core_check(), s3)
                }
            }
        }
    }
}

impl EscrowInvariant {
    /// The steps of `apply_lease_creation` applied in place, each one as it runs.
    fn run_lease_creation(&mut self, deposit_amount: i128) -> (r: Result<(), InvariantViolation>)
        requires
            creation_counts_lease(*old(self), deposit_amount) ==> old(self).lease_count < u64::MAX,
        ensures
            (r, *final(self)) == lease_creation_outcome(*old(self), deposit_amount),
            r is Ok ==> final(self).solvent(),
    {
        if deposit_amount < 0 {
            return Err(InvariantViolation::NegativeDepositAmount(deposit_amount));
        }
        self.total_escrowed = safe_add(self.total_escrowed, deposit_amount)?;
        self.active_deposits = safe_add(self.active_deposits, deposit_amount)?;
        self.vault_total_locked = safe_add(self.vault_total_locked, deposit_amount)?;
        self.lease_count = self.lease_count + 1;
        if deposit_amount > 1_000_000 {
            let precision_loss = simulate_soroban_precision_loss(deposit_amount);
            self.precision_loss_cumulative = safe_add(self.precision_loss_cumulative, precision_loss)?;
        }
        self.verify_core_invariant()
    }

    /// The steps of `apply_yield_accumulation` applied in place, each one as it runs.
    fn run_yield_accumulation(&mut self, yield_amount: i128) -> (r: Result<(), InvariantViolation>)
        ensures
            (r, *final(self)) == yield_accumulation_outcome(*old(self), yield_amount),
            r is Ok ==> final(self).solvent(),
    {
        if yield_amount < 0 {
            return Err(InvariantViolation::NegativeYieldAmount(yield_amount));
        }
        if yield_amount > self.active_deposits {
            return Err(InvariantViolation::InsufficientActiveDeposits {
                requested: yield_amount,
                available: self.active_deposits,
            });
        }
        self.active_deposits = safe_sub(self.active_deposits, yield_amount)?;
        self.pending_yield = safe_add(self.pending_yield, yield_amount)?;
        let precision_loss = simulate_soroban_precision_loss(yield_amount);
        self.precision_loss_cumulative = safe_add(self.precision_loss_cumulative, precision_loss)?;
        self.verify_core_invariant()
    }

    /// The steps of `apply_dispute_initiation` applied in place, each one as it runs.
    fn run_dispute_initiation(&mut self, dispute_amount: i128) -> (r: Result<(), InvariantViolation>)
        ensures
            (r, *final(self)) == dispute_initiation_outcome(*old(self), dispute_amount),
            r is Ok ==> final(self).solvent(),
    {
        if dispute_amount < 0 {
            return Err(InvariantViolation::NegativeDisputeAmount(dispute_amount));
        }
        let available_for_dispute = safe_add(self.active_deposits, self.pending_yield)?;
        if dispute_amount > available_for_dispute {
            return Err(InvariantViolation::InsufficientFundsForDispute {
                requested: dispute_amount,
                available: available_for_dispute,
            });
        }
        let from_pending = if dispute_amount <= self.pending_yield { dispute_amount } else { self.pending_yield };
        let from_active = safe_sub(dispute_amount, from_pending)?;
        self.pending_yield = safe_sub(self.pending_yield, from_pending)?;
        self.active_deposits = safe_sub(self.active_deposits, from_active)?;
        self.disputed_funds = safe_add(self.disputed_funds, dispute_amount)?;
        self.verify_core_invariant()
    }
}

/// Outcome of `apply_lease_settlement`.
pub open spec fn lease_settlement_outcome(s: EscrowInvariant, t: i128, l: i128, f: i128) -> (Result<(), InvariantViolation>, EscrowInvariant) {
    if t < 0 || l < 0 || f < 0 {
        (Err(InvariantViolation::NegativeSettlementAmounts { tenant_refund: t, landlord_payout: l, protocol_fee: f }), s)
    } else if !fits(t + l) || !fits(t + l + f) {
        (Err(InvariantViolation::CalculationOverflow), s)
    } else if t + l + f > s.total_escrowed {
        (Err(InvariantViolation::InsufficientFundsForSettlement { requested: (t + l + f) as i128, available: s.total_escrowed }), s)
    } else {
        let ts = t + l + f;
        let dust = s.total_escrowed - ts;
        if !fits(s.dust_cumulative + dust) {
            (Err(InvariantViolation::CalculationOverflow), s)
        } else {
            let s1 = EscrowInvariant { dust_cumulative: (s.dust_cumulative + dust) as i128, ..s };
            let (fd, fp, fa) = settlement_sources_spec(ts, s.disputed_funds as int, s.pending_yield as int, s.active_deposits as int);
            if !fits(fd + fp) || !fits(fd + fp + fa) {
                (Err(InvariantViolation::CalculationOverflow), s1)
            } else if fd + fp + fa != ts {
                (Err(InvariantViolation::DustAccountingError {
                    expected_settlement: ts as i128,
                    actual_sources: (fd + fp + fa) as i128,
                    dust_amount: dust as i128,
                }), s1)
            } else if !fits(s.disputed_funds - fd) {
                (Err(InvariantViolation::CalculationOverflow), s1)
            } else {
                let s2 = EscrowInvariant { disputed_funds: (s.disputed_funds - fd) as i128, ..s1 };
                if !fits(s.pending_yield - fp) {
                    (Err(InvariantViolation::CalculationOverflow), s2)
                } else {
                    let s3 = EscrowInvariant { pending_yield: (s.pending_yield - fp) as i128, ..s2 };
                    if !fits(s.active_deposits - fa) {
                        (Err(InvariantViolation::CalculationOverflow), s3)
                    } else {
                        let s4 = EscrowInvariant { active_deposits: (s.active_deposits - fa) as i128, ..s3 };
                        let s5 = EscrowInvariant { total_escrowed: (s.total_escrowed - ts) as i128, ..s4 };
                        if !fits(s.vault_total_locked - ts) {
                            (Err(InvariantViolation::CalculationOverflow), s5)
                        } else {
                            let s6 = EscrowInvariant {
                                vault_total_locked: (s.vault_total_locked - ts) as i128,
                                lease_count: if ts > 0 && s.lease_count > 0 { (s.lease_count - 1) as u64 } else { s.lease_count },
                                ..s5
                            };
                            (s6.core_check(), s6)
                        }
                    }
                }
            }
        }
    }
}

/// Whether a settlement reaches the drawing of its sources.
pub open spec fn settlement_draws_sources(s: EscrowInvariant, t: i128, l: i128, f: i128) -> bool {
    &&& t >= 0 && l >= 0 && f >= 0
    &&& fits(t + l + f)
    &&& t + l + f <= s.total_escrowed
}

/// What a mutual release must account for: everything escrowed together with
/// the yield accrued on it.
pub open spec fn releasable_spec(s: EscrowInvariant) -> int {
    s.total_escrowed + s.pending_yield
}

/// Outcome of `apply_mutual_release`.
pub open spec fn mutual_release_outcome(s: EscrowInvariant, ret: i128, slash: i128) -> (Result<(), InvariantViolation>, EscrowInvariant) {
    if ret < 0 || slash < 0 {
        (Err(InvariantViolation::NegativeReleaseAmounts { return_amount: ret, slash_amount: slash }), s)
    } else if !fits(ret + slash) || !fits(releasable_spec(s)) {
        (Err(InvariantViolation::CalculationOverflow), s)
    } else if ret + slash != releasable_spec(s) {
        (Err(InvariantViolation::MutualReleaseMathMismatch {
            expected_total: releasable_spec(s) as i128,
            release_total: (ret + slash) as i128,
            return_amount: ret,
            slash_amount: slash,
        }), s)
    } else if !fits(s.active_deposits + s.pending_yield) || !fits(s.component_sum_spec()) {
        (Err(InvariantViolation::CalculationOverflow), s)
    } else if s.component_sum_spec() != s.total_escrowed {
        (Err(InvariantViolation::ComponentSumMismatch {
            expected_sum: s.total_escrowed,
            actual_sum: s.component_sum_spec() as i128,
            active: s.active_deposits,
            pending: s.pending_yield,
            disputed: s.disputed_funds,
        }), s)
    } else {
        let s1 = EscrowInvariant {
            active_deposits: 0,
            pending_yield: 0,
            disputed_funds: 0,
            total_escrowed: 0,
            vault_total_locked: 0,
            lease_count: if s.lease_count > 0 { (s.lease_count - 1) as u64 } else { 0 },
            ..s
        };
        (s1.core_check(), s1)
    }
}

/// The slash amount of a partial slash: `total * bps / 10000`, rounded toward zero.
pub open spec fn slash_amount_spec(total: i128, bps: u32) -> int {
    div_toward_zero(total * bps, 10000)
}

/// The slash ratio, in basis points of the total, used to slash each component.
pub open spec fn slash_ratio_spec(s: EscrowInvariant, bps: u32) -> int {
    if s.total_escrowed > 0 {
        (slash_amount_spec(s.total_escrowed, bps) * 10000) / (s.total_escrowed as int)
    } else {
        0
    }
}

/// The part of a component a slash removes (the component read as unsigned).
pub open spec fn component_slash(component: i128, ratio: int) -> int {
    ((component as u128) as int * ratio) / 10000
}

/// Whether the unsigned arithmetic of a partial slash stays in range.
pub open spec fn partial_slash_fits(s: EscrowInvariant, bps: u32) -> bool {
    let slash = slash_amount_spec(s.total_escrowed, bps);
    let ratio = slash_ratio_spec(s, bps);
    &&& s.total_escrowed > 0 ==> slash * 10000 <= u128::MAX
    &&& (s.active_deposits as u128) as int * ratio <= u128::MAX
    &&& (s.pending_yield as u128) as int * ratio <= u128::MAX
    &&& (s.disputed_funds as u128) as int * ratio <= u128::MAX
    &&& fits(s.active_deposits - (component_slash(s.active_deposits, ratio) as i128))
    &&& fits(s.pending_yield - (component_slash(s.pending_yield, ratio) as i128))
    &&& fits(s.disputed_funds - (component_slash(s.disputed_funds, ratio) as i128))
    &&& fits(s.total_escrowed - slash)
    &&& fits(s.vault_total_locked - slash)
}

/// Whether a partial slash reaches its proportional arithmetic.
pub open spec fn partial_slash_applies(s: EscrowInvariant, bps: u32) -> bool {
    &&& bps <= 10000
    &&& s.total_escrowed != 0
    &&& fits(s.total_escrowed * bps)
    &&& slash_amount_spec(s.total_escrowed, bps) <= s.total_escrowed
}

/// The state right after the proportional deductions of a partial slash.
pub open spec fn slashed_state(s: EscrowInvariant, bps: u32) -> EscrowInvariant {
    let slash = slash_amount_spec(s.total_escrowed, bps);
    let ratio = slash_ratio_spec(s, bps);
    EscrowInvariant {
        active_deposits: (s.active_deposits - (component_slash(s.active_deposits, ratio) as i128)) as i128,
        pending_yield: (s.pending_yield - (component_slash(s.pending_yield, ratio) as i128)) as i128,
        disputed_funds: (s.disputed_funds - (component_slash(s.disputed_funds, ratio) as i128)) as i128,
        total_escrowed: (s.total_escrowed - slash) as i128,
        vault_total_locked: (s.vault_total_locked - slash) as i128,
        ..s
    }
}

/// Outcome of `apply_partial_slashing`.
pub open spec fn partial_slashing_outcome(s: EscrowInvariant, bps: u32) -> (Result<(), InvariantViolation>, EscrowInvariant) {
    if bps > 10000 {
        (Err(InvariantViolation::InvalidSlashPercentage(bps)), s)
    } else if s.total_escrowed == 0 {
        (Ok(()), s)
    } else if !fits(s.total_escrowed * bps) {
        (Err(InvariantViolation::CalculationOverflow), s)
    } else if slash_amount_spec(s.total_escrowed, bps) > s.total_escrowed {
        (Err(InvariantViolation::SlashExceedsTotal {
            slash_amount: slash_amount_spec(s.total_escrowed, bps) as i128,
            total_escrowed: s.total_escrowed,
        }), s)
    } else {
        let slash = slash_amount_spec(s.total_escrowed, bps);
        let ratio = slash_ratio_spec(s, bps);
        let s1 = slashed_state(s, bps);
        let a = (component_slash(s.active_deposits, ratio) as i128) as int;
        let p = (component_slash(s.pending_yield, ratio) as i128) as int;
        let d = (component_slash(s.disputed_funds, ratio) as i128) as int;
        if !fits(a + p) || !fits(a + p + d) {
            (Err(InvariantViolation::CalculationOverflow), s1)
        } else if a + p + d < slash {
            if !fits(s.dust_cumulative + (slash - (a + p + d))) {
                (Err(InvariantViolation::CalculationOverflow), s1)
            } else {
                let s2 = EscrowInvariant { dust_cumulative: (s.dust_cumulative + (slash - (a + p + d))) as i128, ..s1 };
                truncation_dust_step(s2, s.total_escrowed, bps)
            }
        } else {
            truncation_dust_step(s1, s.total_escrowed, bps)
        }
    }
}

/// Whether rounding the slash of `total` at `bps` toward zero leaves part of
/// a unit unslashed, that is whether `total * bps` is not a whole multiple of
/// 10 000.
pub open spec fn slash_truncated(total: i128, bps: u32) -> bool {
    slash_amount_spec(total, bps) * 10000 != total * bps
}

/// The last step of a partial slash: a slash that was rounded toward zero
/// records the unslashed fraction as one unit of dust; then the invariant is
/// checked.
pub open spec fn truncation_dust_step(s: EscrowInvariant, total: i128, bps: u32) -> (Result<(), InvariantViolation>, EscrowInvariant) {
    if !slash_truncated(total, bps) {
        (s.core_check(), s)
    } else if !fits(s.dust_cumulative + 1) {
        (Err(InvariantViolation::CalculationOverflow), s)
    } else {
        let s2 = EscrowInvariant { dust_cumulative: (s.dust_cumulative + 1) as i128, ..s };
        (s2.core_check(), s2)
    }
}

/// A slash rounded toward zero is no larger in size than the exact product.
proof fn lemma_slash_times_scale_bounded(raw: int)
    ensures
        -(if raw >= 0 { raw } else { -raw }) <= div_toward_zero(raw, 10000) * 10000 <= (if raw >= 0 { raw } else { -raw }),
{
    if raw >= 0 {
        assert(0 <= (raw / 10000) * 10000 <= raw) by (nonlinear_arith) requires raw >= 0;
    } else {
        let n = -raw;
        assert(0 <= (n / 10000) * 10000 <= n) by (nonlinear_arith) requires n >= 0;
        assert(div_toward_zero(raw, 10000) * 10000 == -((n / 10000) * 10000));
    }
}


/// The precision loss a deposit records: one millionth of deposits above one million.
pub open spec fn creation_loss(dep: i128) -> int {
    if dep > 1_000_000 { precision_loss_spec(dep) } else { 0 }
}

/// The escrow after a deposit of `dep`: the total, the active deposits and
/// the vault each grow by the deposit, one more lease is counted, and the
/// deposit's precision loss is recorded.
pub open spec fn escrow_after_creation(s: EscrowInvariant, dep: i128) -> EscrowInvariant {
    EscrowInvariant {
        total_escrowed: (s.total_escrowed + dep) as i128,
        active_deposits: (s.active_deposits + dep) as i128,
        vault_total_locked: (s.vault_total_locked + dep) as i128,
        lease_count: (s.lease_count + 1) as u64,
        precision_loss_cumulative: (s.precision_loss_cumulative + creation_loss(dep)) as i128,
        ..s
    }
}

/// The escrow after `y` of yield accrues: `y` moves from active deposits to
/// pending yield and its precision loss is recorded.
pub open spec fn escrow_after_yield(s: EscrowInvariant, y: i128) -> EscrowInvariant {
    EscrowInvariant {
        active_deposits: (s.active_deposits - y) as i128,
        pending_yield: (s.pending_yield + y) as i128,
        precision_loss_cumulative: (s.precision_loss_cumulative + precision_loss_spec(y)) as i128,
        ..s
    }
}

/// The escrow after a dispute over `d`: `d` becomes disputed, taken from
/// pending yield as far as it goes and then from active deposits.
pub open spec fn escrow_after_dispute(s: EscrowInvariant, d: i128) -> EscrowInvariant {
    let from_pending = min_spec(d as int, s.pending_yield as int);
    EscrowInvariant {
        pending_yield: (s.pending_yield - from_pending) as i128,
        active_deposits: (s.active_deposits - (d - from_pending)) as i128,
        disputed_funds: (s.disputed_funds + d) as i128,
        ..s
    }
}

/// The escrow after settling `ts`: the settlement leaves the total and the
/// vault and is drawn from disputed funds, then pending yield, then active
/// deposits; what stayed escrowed beyond it is added to the dust, and a
/// positive settlement closes a lease.
pub open spec fn escrow_after_settlement(s: EscrowInvariant, ts: int) -> EscrowInvariant {
    let (fd, fp, fa) = settlement_sources_spec(ts, s.disputed_funds as int, s.pending_yield as int, s.active_deposits as int);
    EscrowInvariant {
        dust_cumulative: (s.dust_cumulative + (s.total_escrowed - ts)) as i128,
        disputed_funds: (s.disputed_funds - fd) as i128,
        pending_yield: (s.pending_yield - fp) as i128,
        active_deposits: (s.active_deposits - fa) as i128,
        total_escrowed: (s.total_escrowed - ts) as i128,
        vault_total_locked: (s.vault_total_locked - ts) as i128,
        lease_count: if ts > 0 && s.lease_count > 0 { (s.lease_count - 1) as u64 } else { s.lease_count },
        ..s
    }
}

/// The escrow after a mutual release: everything is cleared and one lease closes.
pub open spec fn escrow_after_release(s: EscrowInvariant) -> EscrowInvariant {
    EscrowInvariant {
        active_deposits: 0,
        pending_yield: 0,
        disputed_funds: 0,
        total_escrowed: 0,
        vault_total_locked: 0,
        lease_count: if s.lease_count > 0 { (s.lease_count - 1) as u64 } else { 0 },
        ..s
    }
}

/// The dust a partial slash records: the shortfall of the rounded-down
/// component slashes against the slash, plus one unit when the slash itself
/// was rounded.
pub open spec fn slash_dust(s: EscrowInvariant, bps: u32) -> int {
    let slash = slash_amount_spec(s.total_escrowed, bps);
    let ratio = slash_ratio_spec(s, bps);
    let taken = component_slash(s.active_deposits, ratio) + component_slash(s.pending_yield, ratio)
        + component_slash(s.disputed_funds, ratio);
    (if taken < slash { slash - taken } else { 0 }) + (if slash_truncated(s.total_escrowed, bps) { 1int } else { 0int })
}

/// The escrow after a partial slash of a non-empty escrow.
pub open spec fn escrow_after_slash(s: EscrowInvariant, bps: u32) -> EscrowInvariant {
    EscrowInvariant { dust_cumulative: (s.dust_cumulative + slash_dust(s, bps)) as i128, ..slashed_state(s, bps) }
}

impl EscrowInvariant {
    /// The steps of `apply_lease_settlement` applied in place, each one as it runs.
    fn run_lease_settlement(&mut self, tenant_refund: i128, landlord_payout: i128, protocol_fee: i128) -> (r: Result<(), InvariantViolation>)
        requires
            settlement_draws_sources(*old(self), tenant_refund, landlord_payout, protocol_fee)
                ==> settlement_sources_fit((tenant_refund + landlord_payout + protocol_fee) as i128,
                    old(self).disputed_funds, old(self).pending_yield),
        ensures
            (r, *final(self)) == lease_settlement_outcome(*old(self), tenant_refund, landlord_payout, protocol_fee),
            r is Ok ==> final(self).solvent(),
    {
        if tenant_refund < 0 || landlord_payout < 0 || protocol_fee < 0 {
            return Err(InvariantViolation::NegativeSettlementAmounts { tenant_refund, landlord_payout, protocol_fee });
        }
        let total_settlement = safe_add(safe_add(tenant_refund, landlord_payout)?, protocol_fee)?;
        if total_settlement > self.total_escrowed {
            return Err(InvariantViolation::InsufficientFundsForSettlement {
                requested: total_settlement,
                available: self.total_escrowed,
            });
        }
        let dust = calculate_settlement_dust(total_settlement, self.total_escrowed);
        self.dust_cumulative = safe_add(self.dust_cumulative, dust)?;
        let (from_disputed, from_pending, from_active) = calculate_settlement_sources(
            total_settlement,
            self.disputed_funds,
            self.pending_yield,
            self.active_deposits,
        );
        let source_total = safe_add(safe_add(from_disputed, from_pending)?, from_active)?;
        if source_total != total_settlement {
            return Err(InvariantViolation::DustAccountingError {
                expected_settlement: total_settlement,
                actual_sources: source_total,
                dust_amount: dust,
            });
        }
        self.disputed_funds = safe_sub(self.disputed_funds, from_disputed)?;
        self.pending_yield = safe_sub(self.pending_yield, from_pending)?;
        self.active_deposits = safe_sub(self.active_deposits, from_active)?;
        self.total_escrowed = safe_sub(self.total_escrowed, total_settlement)?;
        self.vault_total_locked = safe_sub(self.vault_total_locked, total_settlement)?;
        if total_settlement > 0 {
            self.lease_count = self.lease_count.saturating_sub(1);
        }
        self.verify_core_invariant()
    }

    /// The steps of `apply_mutual_release` applied in place, each one as it runs.
    fn run_mutual_release(&mut self, return_amount: i128, slash_amount: i128) -> (r: Result<(), InvariantViolation>)
        ensures
            (r, *final(self)) == mutual_release_outcome(*old(self), return_amount, slash_amount),
            r is Ok ==> final(self).solvent(),
    {
        if return_amount < 0 || slash_amount < 0 {
            return Err(InvariantViolation::NegativeReleaseAmounts { return_amount, slash_amount });
        }
        let total_release = safe_add(return_amount, slash_amount)?;
        let releasable = safe_add(self.total_escrowed, self.pending_yield)?;
        if total_release != releasable {
            return Err(InvariantViolation::MutualReleaseMathMismatch {
                expected_total: releasable,
                release_total: total_release,
                return_amount,
                slash_amount,
            });
        }
        let component_sum = safe_add(safe_add(self.active_deposits, self.pending_yield)?, self.disputed_funds)?;
        if component_sum != self.total_escrowed {
            return Err(InvariantViolation::ComponentSumMismatch {
                expected_sum: self.total_escrowed,
                actual_sum: component_sum,
                active: self.active_deposits,
                pending: self.pending_yield,
                disputed: self.disputed_funds,
            });
        }
        self.active_deposits = 0;
        self.pending_yield = 0;
        self.disputed_funds = 0;
        self.total_escrowed = 0;
        self.vault_total_locked = 0;
        self.lease_count = self.lease_count.saturating_sub(1);
        self.verify_core_invariant()
    }

    /// The steps of `apply_partial_slashing` applied in place, each one as it runs.
    fn run_partial_slashing(&mut self, slash_percentage_bps: u32) -> (r: Result<(), InvariantViolation>)
        requires
            partial_slash_applies(*old(self), slash_percentage_bps) ==> partial_slash_fits(*old(self), slash_percentage_bps),
        ensures
            (r, *final(self)) == partial_slashing_outcome(*old(self), slash_percentage_bps),
            r is Ok && old(self).total_escrowed != 0 ==> final(self).solvent(),
    {
        if slash_percentage_bps > 10000 {
            return Err(InvariantViolation::InvalidSlashPercentage(slash_percentage_bps));
        }
        if self.total_escrowed == 0 {
            return Ok(());
        }
        let ghost s0 = *self;
        let raw_amount = safe_mul(self.total_escrowed, slash_percentage_bps as i128)?;
        let slash_amount = raw_amount / 10000i128;
        if slash_amount > self.total_escrowed {
            return Err(InvariantViolation::SlashExceedsTotal { slash_amount, total_escrowed: self.total_escrowed });
        }
        let slash_ratio: u128 = if self.total_escrowed > 0 {
            (slash_amount as u128 * 10000) / self.total_escrowed as u128
        } else {
            0
        };
        assert(slash_ratio == slash_ratio_spec(s0, slash_percentage_bps));
        let active_slash = (self.active_deposits as u128 * slash_ratio) / 10000;
        let pending_slash = (self.pending_yield as u128 * slash_ratio) / 10000;
        let disputed_slash = (self.disputed_funds as u128 * slash_ratio) / 10000;
        self.active_deposits = self.active_deposits - active_slash as i128;
        self.pending_yield = self.pending_yield - pending_slash as i128;
        self.disputed_funds = self.disputed_funds - disputed_slash as i128;
        self.total_escrowed = self.total_escrowed - slash_amount;
        self.vault_total_locked = self.vault_total_locked - slash_amount;
        assert(*self == slashed_state(s0, slash_percentage_bps));
        let actual_slash_total = safe_add(safe_add(active_slash as i128, pending_slash as i128)?, disputed_slash as i128)?;
        if actual_slash_total < slash_amount {
            let truncation_dust = safe_sub(slash_amount, actual_slash_total)?;
            self.dust_cumulative = safe_add(self.dust_cumulative, truncation_dust)?;
        }
        proof {
            lemma_slash_times_scale_bounded(raw_amount as int);
        }
        if slash_amount * 10000 != raw_amount {
            self.dust_cumulative = safe_add(self.dust_cumulative, 1)?;
        }
        self.verify_core_invariant()
    }

    /// A snapshot of the accounting with each check's verdict. The component
    /// sum reads `i128::MIN` when it overflows.
    pub fn get_invariant_report(&self) -> (r: InvariantReport)
        ensures
            r.total_escrowed == self.total_escrowed,
            r.active_deposits == self.active_deposits,
            r.pending_yield == self.pending_yield,
            r.disputed_funds == self.disputed_funds,
            r.vault_total_locked == self.vault_total_locked,
            r.lease_count == self.lease_count,
            r.precision_loss_cumulative == self.precision_loss_cumulative,
            r.dust_cumulative == self.dust_cumulative,
            r.component_sum == (if fits(self.active_deposits + self.pending_yield) && fits(self.component_sum_spec()) {
                self.component_sum_spec()
            } else {
                i128::MIN as int
            }),
            r.invariant_holds == self.solvent(),
            r.vault_synchronized == (self.vault_total_locked == self.total_escrowed),
            r.all_components_non_negative == (self.total_escrowed >= 0 && self.active_deposits >= 0
                && self.pending_yield >= 0 && self.disputed_funds >= 0 && self.vault_total_locked >= 0),
    {
        let component_sum = match safe_add(self.active_deposits, self.pending_yield) {
            Ok(ap) => match safe_add(ap, self.disputed_funds) {
                Ok(v) => v,
                Err(_) => i128::MIN,
            },
            Err(_) => i128::MIN,
        };
        let invariant_holds = self.verify_core_invariant().is_ok();
        InvariantReport {
            total_escrowed: self.total_escrowed,
            active_deposits: self.active_deposits,
            pending_yield: self.pending_yield,
            disputed_funds: self.disputed_funds,
            vault_total_locked: self.vault_total_locked,
            lease_count: self.lease_count,
            precision_loss_cumulative: self.precision_loss_cumulative,
            dust_cumulative: self.dust_cumulative,
            component_sum,
            invariant_holds,
            vault_synchronized: self.vault_total_locked == self.total_escrowed,
            all_components_non_negative: self.total_escrowed >= 0 && self.active_deposits >= 0
                && self.pending_yield >= 0 && self.disputed_funds >= 0 && self.vault_total_locked >= 0,
        }
    }
}

impl EscrowInvariant {
    /// A new lease escrows `deposit_amount`: it joins the total, the active
    /// deposits and the vault, and the lease count grows by one. Deposits above
    /// one million also record one millionth of themselves as precision loss.
    /// A failed operation leaves the escrow unchanged.
    pub fn apply_lease_creation(&mut self, deposit_amount: i128) -> (r: Result<(), InvariantViolation>)
        requires
            creation_counts_lease(*old(self), deposit_amount) ==> old(self).lease_count < u64::MAX,
        ensures
            r == lease_creation_outcome(*old(self), deposit_amount).0,
            r is Ok ==> *final(self) == lease_creation_outcome(*old(self), deposit_amount).1,
            r is Err ==> *final(self) == *old(self),
            r is Ok ==> final(self).solvent(),
            r is Ok ==> *final(self) == escrow_after_creation(*old(self), deposit_amount),
    {
        let mut next = *self;
        let r = next.run_lease_creation(deposit_amount);
        if r.is_ok() {
            *self = next;
        }
        r
    }

    /// Moves `yield_amount` from active deposits to pending yield, recording
    /// its precision loss. The total escrowed does not change.
    /// A failed operation leaves the escrow unchanged.
    pub fn apply_yield_accumulation(&mut self, yield_amount: i128) -> (r: Result<(), InvariantViolation>)
        ensures
            r == yield_accumulation_outcome(*old(self), yield_amount).0,
            r is Ok ==> *final(self) == yield_accumulation_outcome(*old(self), yield_amount).1,
            r is Err ==> *final(self) == *old(self),
            r is Ok ==> final(self).solvent(),
            r is Ok ==> *final(self) == escrow_after_yield(*old(self), yield_amount),
    {
        let mut next = *self;
        let r = next.run_yield_accumulation(yield_amount);
        if r.is_ok() {
            *self = next;
        }
        r
    }

    /// Locks `dispute_amount` as disputed funds, taken from pending yield
    /// first and then from active deposits. The total escrowed does not change.
    /// A failed operation leaves the escrow unchanged.
    pub fn apply_dispute_initiation(&mut self, dispute_amount: i128) -> (r: Result<(), InvariantViolation>)
        ensures
            r == dispute_initiation_outcome(*old(self), dispute_amount).0,
            r is Ok ==> *final(self) == dispute_initiation_outcome(*old(self), dispute_amount).1,
            r is Err ==> *final(self) == *old(self),
            r is Ok ==> final(self).solvent(),
            r is Ok ==> *final(self) == escrow_after_dispute(*old(self), dispute_amount),
    {
        let mut next = *self;
        let r = next.run_dispute_initiation(dispute_amount);
        if r.is_ok() {
            *self = next;
        }
        r
    }

    /// Settles a lease: the tenant refund, landlord payout and protocol fee
    /// leave the escrow, drawn from disputed funds, then pending yield, then
    /// active deposits. What stays escrowed beyond the settlement is added to
    /// the dust record, and a positive settlement closes one lease.
    /// A failed operation leaves the escrow unchanged.
    pub fn apply_lease_settlement(&mut self, tenant_refund: i128, landlord_payout: i128, protocol_fee: i128) -> (r: Result<(), InvariantViolation>)
        requires
            settlement_draws_sources(*old(self), tenant_refund, landlord_payout, protocol_fee)
                ==> settlement_sources_fit((tenant_refund + landlord_payout + protocol_fee) as i128,
                    old(self).disputed_funds, old(self).pending_yield),
        ensures
            r == lease_settlement_outcome(*old(self), tenant_refund, landlord_payout, protocol_fee).0,
            r is Ok ==> *final(self) == lease_settlement_outcome(*old(self), tenant_refund, landlord_payout, protocol_fee).1,
            r is Err ==> *final(self) == *old(self),
            r is Ok ==> final(self).solvent(),
            r is Ok ==> *final(self) == escrow_after_settlement(*old(self), tenant_refund + landlord_payout + protocol_fee),
    {
        let mut next = *self;
        let r = next.run_lease_settlement(tenant_refund, landlord_payout, protocol_fee);
        if r.is_ok() {
            *self = next;
        }
        r
    }

    /// Releases the whole escrow by mutual agreement: the returned and slashed
    /// amounts must account for all funds, that is everything escrowed
    /// together with the yield accrued on it; the components must add up to
    /// the total escrowed; then every component is cleared and one lease
    /// closes.
    /// A failed operation leaves the escrow unchanged.
    pub fn apply_mutual_release(&mut self, return_amount: i128, slash_amount: i128) -> (r: Result<(), InvariantViolation>)
        ensures
            r == mutual_release_outcome(*old(self), return_amount, slash_amount).0,
            r is Ok ==> *final(self) == mutual_release_outcome(*old(self), return_amount, slash_amount).1,
            r is Err ==> *final(self) == *old(self),
            r is Ok ==> final(self).solvent(),
            r is Ok ==> return_amount + slash_amount == old(self).total_escrowed + old(self).pending_yield,
            r is Ok ==> *final(self) == escrow_after_release(*old(self)),
    {
        let mut next = *self;
        let r = next.run_mutual_release(return_amount, slash_amount);
        if r.is_ok() {
            *self = next;
        }
        r
    }

    /// Slashes `slash_percentage_bps` of the escrow. The slash amount
    /// (rounded toward zero) leaves the total and the vault; each component
    /// loses its proportional share, rounded down, and any shortfall between
    /// the two is recorded as dust. When rounding the slash itself dropped a
    /// fraction of a unit, that fraction is recorded as one more unit of dust.
    /// An empty escrow is left as it is.
    /// A failed operation leaves the escrow unchanged.
    pub fn apply_partial_slashing(&mut self, slash_percentage_bps: u32) -> (r: Result<(), InvariantViolation>)
        requires
            partial_slash_applies(*old(self), slash_percentage_bps) ==> partial_slash_fits(*old(self), slash_percentage_bps),
        ensures
            r == partial_slashing_outcome(*old(self), slash_percentage_bps).0,
            r is Ok ==> *final(self) == partial_slashing_outcome(*old(self), slash_percentage_bps).1,
            r is Err ==> *final(self) == *old(self),
            r is Ok && old(self).total_escrowed != 0 ==> final(self).solvent(),
            r is Ok && old(self).total_escrowed != 0 ==> *final(self) == escrow_after_slash(*old(self), slash_percentage_bps),
            r is Ok && old(self).total_escrowed == 0 ==> *final(self) == *old(self),
    {
        let mut next = *self;
        let r = next.run_partial_slashing(slash_percentage_bps);
        if r.is_ok() {
            *self = next;
        }
        r
    }
}

/// A new lease's deposit keeps a solvent escrow solvent, adding exactly the
/// deposit to the total, the active deposits and the vault.
pub proof fn lemma_creation_preserves_solvency(s: EscrowInvariant, dep: i128)
    requires
        s.solvent(),
        dep >= 0,
        s.total_escrowed + dep > 0,
        fits(s.total_escrowed + dep),
        s.lease_count < u64::MAX,
        fits(s.precision_loss_cumulative + precision_loss_spec(dep)),
    ensures
        lease_creation_outcome(s, dep).0 is Ok,
        lease_creation_outcome(s, dep).1.solvent(),
        lease_creation_outcome(s, dep).1.total_escrowed == s.total_escrowed + dep,
        lease_creation_outcome(s, dep).1.active_deposits == s.active_deposits + dep,
        lease_creation_outcome(s, dep).1.lease_count == s.lease_count + 1,
{
}

/// Accruing yield moves funds from active deposits to pending yield: a
/// solvent escrow stays solvent and its total does not change.
pub proof fn lemma_yield_accumulation_preserves_solvency(s: EscrowInvariant, y: i128)
    requires
        s.solvent(),
        0 <= y <= s.active_deposits,
        fits(s.precision_loss_cumulative + precision_loss_spec(y)),
    ensures
        yield_accumulation_outcome(s, y).0 is Ok,
        yield_accumulation_outcome(s, y).1.solvent(),
        yield_accumulation_outcome(s, y).1.total_escrowed == s.total_escrowed,
        yield_accumulation_outcome(s, y).1.vault_total_locked == s.vault_total_locked,
{
}

/// Opening a dispute moves funds into disputed funds: a solvent escrow stays
/// solvent and its total does not change.
pub proof fn lemma_dispute_preserves_solvency(s: EscrowInvariant, d: i128)
    requires
        s.solvent(),
        0 <= d <= s.active_deposits + s.pending_yield,
    ensures
        dispute_initiation_outcome(s, d).0 is Ok,
        dispute_initiation_outcome(s, d).1.solvent(),
        dispute_initiation_outcome(s, d).1.total_escrowed == s.total_escrowed,
        dispute_initiation_outcome(s, d).1.disputed_funds == s.disputed_funds + d,
{
}

/// A covered settlement from a solvent escrow keeps the components summing
/// to the total and the vault in step: the settlement leaves all three
/// exactly, and the only check that can still fail is the one on leases
/// remaining with an empty escrow.
pub proof fn lemma_settlement_preserves_solvency(s: EscrowInvariant, t: i128, l: i128, f: i128)
    requires
        s.solvent(),
        t >= 0,
        l >= 0,
        f >= 0,
        t + l + f <= s.total_escrowed,
        fits(s.dust_cumulative + (s.total_escrowed - (t + l + f))),
    ensures
        ({
            let (r, s2) = lease_settlement_outcome(s, t, l, f);
            &&& s2.total_escrowed == s.total_escrowed - (t + l + f)
            &&& s2.total_escrowed == s2.component_sum_spec()
            &&& s2.vault_total_locked == s2.total_escrowed
            &&& (r is Ok || r == Err::<(), InvariantViolation>(InvariantViolation::LeaseCountMismatch {
                lease_count: s2.lease_count,
                total_escrowed: 0,
            }))
        }),
{
    let ts = t + l + f;
    lemma_settlement_sources_cover(ts, s.disputed_funds as int, s.pending_yield as int, s.active_deposits as int);
}

/// Moving funds between components never changes what is escrowed.
pub proof fn lemma_internal_moves_keep_total(s: EscrowInvariant, amount: i128)
    ensures
        yield_accumulation_outcome(s, amount).1.total_escrowed == s.total_escrowed,
        yield_accumulation_outcome(s, amount).1.vault_total_locked == s.vault_total_locked,
        dispute_initiation_outcome(s, amount).1.total_escrowed == s.total_escrowed,
        dispute_initiation_outcome(s, amount).1.vault_total_locked == s.vault_total_locked,
{
}

} // verus!
