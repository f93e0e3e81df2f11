//! A compact model of escrow solvency: deposits, yield, disputes and
//! settlements move funds between components whose sum must always be the
//! escrowed total, which the vault must also record. An operation that fails,
//! at any step or at the final check, leaves the escrow exactly as it was,
//! by design, so that a failed operation never leaves it insolvent.

use vstd::prelude::*;
use crate::escrow::{fits, min_spec};

verus! {

/// Escrow components and totals.
#[derive(Clone, Copy, Debug, PartialEq, Eq, Structural)]
pub struct EscrowState {
    pub total_escrowed: i128,
    pub active_deposits: i128,
    pub pending_yield: i128,
    pub disputed_funds: i128,
    pub vault_total_locked: i128,
    pub lease_count: u64,
}

/// Why an escrow operation failed or left the escrow insolvent.
#[derive(Clone, Copy, Debug, PartialEq, Eq)]
pub enum SolvencyError {
    InvariantViolation { expected: i128, actual: i128, component_breakdown: (i128, i128, i128) },
    VaultMismatch { vault_total: i128, escrow_total: i128 },
    NegativeValues,
    Overflow,
    Underflow,
    NegativeDeposit,
    NegativeYield,
    NegativeDispute,
    NegativeSettlement,
    DustAccountingError { expected: i128, actual: i128 },
}

impl EscrowState {
    /// Whether the component sum fits in an `i128`.
    pub open spec fn sums_fit(self) -> bool {
        &&& fits(self.active_deposits + self.pending_yield)
        &&& fits(self.active_deposits + self.pending_yield + self.disputed_funds)
    }

    /// What `verify_solvency_invariant` reports.
    pub open spec fn solvency_check(self) -> Result<(), SolvencyError> {
        let sum = self.active_deposits + self.pending_yield + self.disputed_funds;
        if sum != self.total_escrowed {
            Err(SolvencyError::InvariantViolation {
                expected: self.total_escrowed,
                actual: sum as i128,
                component_breakdown: (self.active_deposits, self.pending_yield, self.disputed_funds),
            })
        } else if self.vault_total_locked != self.total_escrowed {
            Err(SolvencyError::VaultMismatch { vault_total: self.vault_total_locked, escrow_total: self.total_escrowed })
        } else if self.total_escrowed < 0 || self.active_deposits < 0 || self.pending_yield < 0
            || self.disputed_funds < 0 || self.vault_total_locked < 0 {
            Err(SolvencyError::NegativeValues)
        } else {
            Ok(())
        }
    }

    /// Solvency stated directly: components sum to the total, the vault
    /// agrees, and nothing is negative.
    pub open spec fn solvent(self) -> bool {
        &&& self.active_deposits + self.pending_yield + self.disputed_funds == self.total_escrowed
        &&& self.vault_total_locked == self.total_escrowed
        &&& self.active_deposits >= 0
        &&& self.pending_yield >= 0
        &&& self.disputed_funds >= 0
    }

    /// An empty escrow.
    pub fn new() -> (s: Self)
        ensures
            s == (EscrowState {
                total_escrowed: 0,
                active_deposits: 0,
                pending_yield: 0,
                disputed_funds: 0,
                vault_total_locked: 0,
                lease_count: 0,
            }),
            s.solvent(),
    {
        EscrowState {
            total_escrowed: 0,
            active_deposits: 0,
            pending_yield: 0,
            disputed_funds: 0,
            vault_total_locked: 0,
            lease_count: 0,
        }
    }

    /// The vault's recorded total.
    pub fn vault_total_locked(&self) -> (v: i128)
        ensures
            v == self.vault_total_locked,
    {
        self.vault_total_locked
    }

    /// The number of leases with escrowed funds.
    pub fn lease_count(&self) -> (c: u64)
        ensures
            c == self.lease_count,
    {
        self.lease_count
    }

    /// Checks solvency: components sum to the total, the vault agrees, and
    /// nothing is negative.
    pub fn verify_solvency_invariant(&self) -> (r: Result<(), SolvencyError>)
        requires
            self.sums_fit(),
        ensures
            r == self.solvency_check(),
            r is Ok <==> self.solvent(),
    {
        let calculated_total = self.active_deposits + self.pending_yield + self.disputed_funds;
        if calculated_total != self.total_escrowed {
            return Err(SolvencyError::InvariantViolation {
                expected: self.total_escrowed,
                actual: calculated_total,
                component_breakdown: (self.active_deposits, self.pending_yield, self.disputed_funds),
            });
        }
        if self.vault_total_locked != self.total_escrowed {
            return Err(SolvencyError::VaultMismatch {
                vault_total: self.vault_total_locked,
                escrow_total: self.total_escrowed,
            });
        }
        if self.total_escrowed < 0 || self.active_deposits < 0 || self.pending_yield < 0
            || self.disputed_funds < 0 || self.vault_total_locked < 0 {
            return Err(SolvencyError::NegativeValues);
        }
        Ok(())
    }
}

/// The steps of a deposit before the final check: an early error, or none
/// and the state to check.
pub open spec fn deposit_steps(s: EscrowState, amount: i128) -> (Option<SolvencyError>, EscrowState) {
    if amount < 0 {
        (Some(SolvencyError::NegativeDeposit), s)
    } else if !fits(s.total_escrowed + amount) {
        (Some(SolvencyError::Overflow), s)
    } else {
        let s1 = EscrowState { total_escrowed: (s.total_escrowed + amount) as i128, ..s };
        if !fits(s.active_deposits + amount) {
            (Some(SolvencyError::Overflow), s1)
        } else {
            let s2 = EscrowState { active_deposits: (s.active_deposits + amount) as i128, ..s1 };
            if !fits(s.vault_total_locked + amount) {
                (Some(SolvencyError::Overflow), s2)
            } else {
                (None, EscrowState {
                    vault_total_locked: (s.vault_total_locked + amount) as i128,
                    lease_count: (s.lease_count + 1) as u64,
                    ..s2
                })
            }
        }
    }
}

/// The steps of a yield accrual before the final check.
pub open spec fn yield_steps(s: EscrowState, y: i128) -> (Option<SolvencyError>, EscrowState) {
    if y < 0 {
        (Some(SolvencyError::NegativeYield), s)
    } else if !fits(s.active_deposits - y) {
        (Some(SolvencyError::Underflow), s)
    } else {
        let s1 = EscrowState { active_deposits: (s.active_deposits - y) as i128, ..s };
        if !fits(s.pending_yield + y) {
            (Some(SolvencyError::Overflow), s1)
        } else {
            (None, EscrowState { pending_yield: (s.pending_yield + y) as i128, ..s1 })
        }
    }
}

/// The steps of a dispute before the final check.
pub open spec fn dispute_steps(s: EscrowState, d: i128) -> (Option<SolvencyError>, EscrowState) {
    if d < 0 {
        (Some(SolvencyError::NegativeDispute), s)
    } else if !fits(s.active_deposits - d) {
        (Some(SolvencyError::Underflow), s)
    } else {
        let s1 = EscrowState { active_deposits: (s.active_deposits - d) as i128, ..s };
        if !fits(s.disputed_funds + d) {
            (Some(SolvencyError::Overflow), s1)
        } else {
            (None, EscrowState { disputed_funds: (s.disputed_funds + d) as i128, ..s1 })
        }
    }
}

/// Where a settlement is drawn from, as (active, pending, disputed): disputed
/// funds first when there are any, then pending yield when there is any, then
/// active deposits.
pub open spec fn settlement_draw(s: EscrowState, ts: int) -> (int, int, int) {
    if s.disputed_funds > 0 {
        let from_disputed = min_spec(ts, s.disputed_funds as int);
        let remaining = ts - from_disputed;
        let from_pending = min_spec(remaining, s.pending_yield as int);
        let final_remaining = remaining - from_pending;
        (min_spec(final_remaining, s.active_deposits as int), from_pending, from_disputed)
    } else if s.pending_yield > 0 {
        let from_pending = min_spec(ts, s.pending_yield as int);
        let remaining = ts - from_pending;
        (min_spec(remaining, s.active_deposits as int), from_pending, 0)
    } else {
        (min_spec(ts, s.active_deposits as int), 0, 0)
    }
}

/// Whether drawing a settlement stays within `i128`.
pub open spec fn settlement_draw_fits(s: EscrowState, ts: int) -> bool {
    let (a, p, d) = settlement_draw(s, ts);
    &&& s.disputed_funds > 0 ==> fits(ts - d - p)
    &&& fits(a + p)
    &&& fits(a + p + d)
}

/// Whether a settlement reaches the drawing of its sources.
pub open spec fn settlement_reaches_draw(s: EscrowState, t: i128, l: i128, f: i128) -> bool {
    t >= 0 && l >= 0 && f >= 0 && fits(t + l) && fits(t + l + f) && t + l + f <= s.total_escrowed
}

/// The steps of a settlement before the final check.
pub open spec fn settlement_steps(s: EscrowState, t: i128, l: i128, f: i128) -> (Option<SolvencyError>, EscrowState) {
    if t < 0 || l < 0 || f < 0 {
        (Some(SolvencyError::NegativeSettlement), s)
    } else if !fits(t + l) || !fits(t + l + f) {
        (Some(SolvencyError::Overflow), s)
    } else if t + l + f > s.total_escrowed {
        (Some(SolvencyError::Underflow), s)
    } else {
        let ts = t + l + f;
        let (a, p, d) = settlement_draw(s, ts);
        if a + p + d != ts {
            (Some(SolvencyError::DustAccountingError { expected: ts as i128, actual: (a + p + d) as i128 }), s)
        } else if !fits(s.active_deposits - a) {
            (Some(SolvencyError::Underflow), s)
        } else {
            let s1 = EscrowState { active_deposits: (s.active_deposits - a) as i128, ..s };
            if !fits(s.pending_yield - p) {
                (Some(SolvencyError::Underflow), s1)
            } else {
                let s2 = EscrowState { pending_yield: (s.pending_yield - p) as i128, ..s1 };
                if !fits(s.disputed_funds - d) {
                    (Some(SolvencyError::Underflow), s2)
                } else {
                    let s3 = EscrowState { disputed_funds: (s.disputed_funds - d) as i128, ..s2 };
                    if !fits(s.total_escrowed - ts) {
                        (Some(SolvencyError::Underflow), s3)
                    } else {
                        let s4 = EscrowState { total_escrowed: (s.total_escrowed - ts) as i128, ..s3 };
                        if !fits(s.vault_total_locked - ts) {
                            (Some(SolvencyError::Underflow), s4)
                        } else {
                            (None, EscrowState {
                                vault_total_locked: (s.vault_total_locked - ts) as i128,
                                lease_count: if ts > 0 && s.lease_count > 0 { (s.lease_count - 1) as u64 } else { s.lease_count },
                                ..s4
                            })
                        }
                    }
                }
            }
        }
    }
}

/// The escrow after a deposit: the total, the active deposits and the vault
/// each grow by the amount, and one more lease is counted.
pub open spec fn state_after_deposit(s: EscrowState, amount: i128) -> EscrowState {
    EscrowState {
        total_escrowed: (s.total_escrowed + amount) as i128,
        active_deposits: (s.active_deposits + amount) as i128,
        vault_total_locked: (s.vault_total_locked + amount) as i128,
        lease_count: (s.lease_count + 1) as u64,
        ..s
    }
}

/// The escrow after yield accrues: the amount moves from active deposits to
/// pending yield.
pub open spec fn state_after_yield(s: EscrowState, y: i128) -> EscrowState {
    EscrowState {
        active_deposits: (s.active_deposits - y) as i128,
        pending_yield: (s.pending_yield + y) as i128,
        ..s
    }
}

/// The escrow after a dispute: the amount moves from active deposits to
/// disputed funds.
pub open spec fn state_after_dispute(s: EscrowState, d: i128) -> EscrowState {
    EscrowState {
        active_deposits: (s.active_deposits - d) as i128,
        disputed_funds: (s.disputed_funds + d) as i128,
        ..s
    }
}

/// The escrow after a settlement of `ts`: it leaves the total and the vault,
/// is drawn from the components as `settlement_draw` says, and a positive
/// settlement closes a lease.
pub open spec fn state_after_settlement(s: EscrowState, ts: int) -> EscrowState {
    let (a, p, d) = settlement_draw(s, ts);
    EscrowState {
        active_deposits: (s.active_deposits - a) as i128,
        pending_yield: (s.pending_yield - p) as i128,
        disputed_funds: (s.disputed_funds - d) as i128,
        total_escrowed: (s.total_escrowed - ts) as i128,
        vault_total_locked: (s.vault_total_locked - ts) as i128,
        lease_count: if ts > 0 && s.lease_count > 0 { (s.lease_count - 1) as u64 } else { s.lease_count },
    }
}

/// The result of an operation given its steps: the early error, or the
/// verdict of the final check.
pub open spec fn finish(steps: (Option<SolvencyError>, EscrowState)) -> Result<(), SolvencyError> {
    match steps.0 {
        Some(e) => Err(e),
        None => steps.1.solvency_check(),
    }
}

/// Whether an operation that reaches its final check can sum the components.
pub open spec fn check_fits(steps: (Option<SolvencyError>, EscrowState)) -> bool {
    steps.0 is None ==> steps.1.sums_fit()
}

impl EscrowState {
    /// The steps of `apply_deposit` applied in place, each one as it runs.
    fn run_deposit(&mut self, amount: i128) -> (r: Result<(), SolvencyError>)
        requires
            deposit_steps(*old(self), amount).0 is None ==> old(self).lease_count < u64::MAX,
            check_fits(deposit_steps(*old(self), amount)),
        ensures
            r == finish(deposit_steps(*old(self), amount)),
            *final(self) == deposit_steps(*old(self), amount).1,
    {
        if amount < 0 {
            return Err(SolvencyError::NegativeDeposit);
        }
        self.total_escrowed = match self.total_escrowed.checked_add(amount) {
            Some(v) => v,
            None => return Err(SolvencyError::Overflow),
        };
        self.active_deposits = match self.active_deposits.checked_add(amount) {
            Some(v) => v,
            None => return Err(SolvencyError::Overflow),
        };
        self.vault_total_locked = match self.vault_total_locked.checked_add(amount) {
            Some(v) => v,
            None => return Err(SolvencyError::Overflow),
        };
        self.lease_count = self.lease_count + 1;
        self.verify_solvency_invariant()
    }

    /// The steps of `apply_yield_accumulation` applied in place, each one as it runs.
    fn run_yield_accumulation(&mut self, yield_amount: i128) -> (r: Result<(), SolvencyError>)
        requires
            check_fits(yield_steps(*old(self), yield_amount)),
        ensures
            r == finish(yield_steps(*old(self), yield_amount)),
            *final(self) == yield_steps(*old(self), yield_amount).1,
    {
        if yield_amount < 0 {
            return Err(SolvencyError::NegativeYield);
        }
        self.active_deposits = match self.active_deposits.checked_sub(yield_amount) {
            Some(v) => v,
            None => return Err(SolvencyError::Underflow),
        };
        self.pending_yield = match self.pending_yield.checked_add(yield_amount) {
            Some(v) => v,
            None => return Err(SolvencyError::Overflow),
        };
        self.verify_solvency_invariant()
    }

    /// The steps of `apply_dispute` applied in place, each one as it runs.
    fn run_dispute(&mut self, disputed_amount: i128) -> (r: Result<(), SolvencyError>)
        requires
            check_fits(dispute_steps(*old(self), disputed_amount)),
        ensures
            r == finish(dispute_steps(*old(self), disputed_amount)),
            *final(self) == dispute_steps(*old(self), disputed_amount).1,
    {
        if disputed_amount < 0 {
            return Err(SolvencyError::NegativeDispute);
        }
        self.active_deposits = match self.active_deposits.checked_sub(disputed_amount) {
            Some(v) => v,
            None => return Err(SolvencyError::Underflow),
        };
        self.disputed_funds = match self.disputed_funds.checked_add(disputed_amount) {
            Some(v) => v,
            None => return Err(SolvencyError::Overflow),
        };
        self.verify_solvency_invariant()
    }

    /// The steps of `apply_settlement` applied in place, each one as it runs.
    fn run_settlement(&mut self, tenant_refund: i128, landlord_payout: i128, protocol_fee: i128) -> (r: Result<(), SolvencyError>)
        requires
            settlement_reaches_draw(*old(self), tenant_refund, landlord_payout, protocol_fee)
                ==> settlement_draw_fits(*old(self), tenant_refund + landlord_payout + protocol_fee),
            check_fits(settlement_steps(*old(self), tenant_refund, landlord_payout, protocol_fee)),
        ensures
            r == finish(settlement_steps(*old(self), tenant_refund, landlord_payout, protocol_fee)),
            *final(self) == settlement_steps(*old(self), tenant_refund, landlord_payout, protocol_fee).1,
    {
        if tenant_refund < 0 || landlord_payout < 0 || protocol_fee < 0 {
            return Err(SolvencyError::NegativeSettlement);
        }
        let tl = match tenant_refund.checked_add(landlord_payout) {
            Some(v) => v,
            None => return Err(SolvencyError::Overflow),
        };
        let total_settlement = match tl.checked_add(protocol_fee) {
            Some(v) => v,
            None => return Err(SolvencyError::Overflow),
        };
        if total_settlement > self.total_escrowed {
            return Err(SolvencyError::Underflow);
        }
        let (source_active, source_pending, source_disputed) = if self.disputed_funds > 0 {
            let taken_from_disputed = if total_settlement <= self.disputed_funds { total_settlement } else { self.disputed_funds };
            let remaining = total_settlement - taken_from_disputed;
            let taken_from_pending = if remaining <= self.pending_yield { remaining } else { self.pending_yield };
            let final_remaining = remaining - taken_from_pending;
            let taken_from_active = if final_remaining <= self.active_deposits { final_remaining } else { self.active_deposits };
            (taken_from_active, taken_from_pending, taken_from_disputed)
        } else if self.pending_yield > 0 {
            let taken_from_pending = if total_settlement <= self.pending_yield { total_settlement } else { self.pending_yield };
            let remaining = total_settlement - taken_from_pending;
            let taken_from_active = if remaining <= self.active_deposits { remaining } else { self.active_deposits };
            (taken_from_active, taken_from_pending, 0)
        } else {
            let taken_from_active = if total_settlement <= self.active_deposits { total_settlement } else { self.active_deposits };
            (taken_from_active, 0, 0)
        };
        if source_active + source_pending + source_disputed != total_settlement {
            return Err(SolvencyError::DustAccountingError {
                expected: total_settlement,
                actual: source_active + source_pending + source_disputed,
            });
        }
        self.active_deposits = match self.active_deposits.checked_sub(source_active) {
            Some(v) => v,
            None => return Err(SolvencyError::Underflow),
        };
        self.pending_yield = match self.pending_yield.checked_sub(source_pending) {
            Some(v) => v,
            None => return Err(SolvencyError::Underflow),
        };
        self.disputed_funds = match self.disputed_funds.checked_sub(source_disputed) {
            Some(v) => v,
            None => return Err(SolvencyError::Underflow),
        };
        self.total_escrowed = match self.total_escrowed.checked_sub(total_settlement) {
            Some(v) => v,
            None => return Err(SolvencyError::Underflow),
        };
        self.vault_total_locked = match self.vault_total_locked.checked_sub(total_settlement) {
            Some(v) => v,
            None => return Err(SolvencyError::Underflow),
        };
        if total_settlement > 0 {
            self.lease_count = self.lease_count.saturating_sub(1);
        }
        self.verify_solvency_invariant()
    }
}

impl EscrowState {
    /// Escrows a new deposit: it joins the total, the active deposits and the
    /// vault, and one more lease is counted.
    /// An operation that fails, or would leave the escrow insolvent, leaves
    /// it unchanged.
    pub fn apply_deposit(&mut self, amount: i128) -> (r: Result<(), SolvencyError>)
        requires
            deposit_steps(*old(self), amount).0 is None ==> old(self).lease_count < u64::MAX,
            check_fits(deposit_steps(*old(self), amount)),
        ensures
            r == finish(deposit_steps(*old(self), amount)),
            r is Ok ==> *final(self) == deposit_steps(*old(self), amount).1,
            r is Err ==> *final(self) == *old(self),
            r is Ok ==> *final(self) == state_after_deposit(*old(self), amount) && final(self).solvent(),
    {
        let mut next = *self;
        let r = next.run_deposit(amount);
        if r.is_ok() {
            *self = next;
        }
        r
    }

    /// Moves accrued yield from active deposits to pending yield.
    /// An operation that fails, or would leave the escrow insolvent, leaves
    /// it unchanged.
    pub fn apply_yield_accumulation(&mut self, yield_amount: i128) -> (r: Result<(), SolvencyError>)
        requires
            check_fits(yield_steps(*old(self), yield_amount)),
        ensures
            r == finish(yield_steps(*old(self), yield_amount)),
            r is Ok ==> *final(self) == yield_steps(*old(self), yield_amount).1,
            r is Err ==> *final(self) == *old(self),
            r is Ok ==> *final(self) == state_after_yield(*old(self), yield_amount) && final(self).solvent(),
    {
        let mut next = *self;
        let r = next.run_yield_accumulation(yield_amount);
        if r.is_ok() {
            *self = next;
        }
        r
    }

    /// Moves disputed funds from active deposits into disputed funds.
    /// An operation that fails, or would leave the escrow insolvent, leaves
    /// it unchanged.
    pub fn apply_dispute(&mut self, disputed_amount: i128) -> (r: Result<(), SolvencyError>)
        requires
            check_fits(dispute_steps(*old(self), disputed_amount)),
        ensures
            r == finish(dispute_steps(*old(self), disputed_amount)),
            r is Ok ==> *final(self) == dispute_steps(*old(self), disputed_amount).1,
            r is Err ==> *final(self) == *old(self),
            r is Ok ==> *final(self) == state_after_dispute(*old(self), disputed_amount) && final(self).solvent(),
    {
        let mut next = *self;
        let r = next.run_dispute(disputed_amount);
        if r.is_ok() {
            *self = next;
        }
        r
    }

    /// Pays out a settlement (tenant refund, landlord payout and protocol fee)
    /// drawn from disputed funds, then pending yield, then active deposits.
    /// A settlement larger than the escrow underflows; the sources must cover
    /// the settlement exactly.
    /// An operation that fails, or would leave the escrow insolvent, leaves
    /// it unchanged.
    pub fn apply_settlement(&mut self, tenant_refund: i128, landlord_payout: i128, protocol_fee: i128) -> (r: Result<(), SolvencyError>)
        requires
            settlement_reaches_draw(*old(self), tenant_refund, landlord_payout, protocol_fee)
                ==> settlement_draw_fits(*old(self), tenant_refund + landlord_payout + protocol_fee),
            check_fits(settlement_steps(*old(self), tenant_refund, landlord_payout, protocol_fee)),
        ensures
            r == finish(settlement_steps(*old(self), tenant_refund, landlord_payout, protocol_fee)),
            r is Ok ==> *final(self) == settlement_steps(*old(self), tenant_refund, landlord_payout, protocol_fee).1,
            r is Err ==> *final(self) == *old(self),
            r is Ok ==> *final(self) == state_after_settlement(*old(self), tenant_refund + landlord_payout + protocol_fee)
                && final(self).solvent(),
    {
        let mut next = *self;
        let r = next.run_settlement(tenant_refund, landlord_payout, protocol_fee);
        if r.is_ok() {
            *self = next;
        }
        r
    }
}

/// From a solvent escrow, a settlement that the escrow covers succeeds,
/// keeps the escrow solvent, and takes exactly the settled amount out of the
/// total and the vault.
pub proof fn lemma_settlement_covered_succeeds(s: EscrowState, t: i128, l: i128, f: i128)
    requires
        s.solvent(),
        t >= 0,
        l >= 0,
        f >= 0,
        t + l + f <= s.total_escrowed,
    ensures
        finish(settlement_steps(s, t, l, f)) is Ok,
        settlement_steps(s, t, l, f).1.solvent(),
        settlement_steps(s, t, l, f).1.total_escrowed == s.total_escrowed - (t + l + f),
        settlement_steps(s, t, l, f).1.vault_total_locked == s.vault_total_locked - (t + l + f),
{
}

/// A non-negative deposit that fits keeps a solvent escrow solvent and adds
/// exactly its amount to the total, the active deposits and the vault.
pub proof fn lemma_deposit_preserves_solvency(s: EscrowState, amount: i128)
    requires
        s.solvent(),
        amount >= 0,
        fits(s.total_escrowed + amount),
    ensures
        finish(deposit_steps(s, amount)) is Ok,
        deposit_steps(s, amount).1.solvent(),
        deposit_steps(s, amount).1.total_escrowed == s.total_escrowed + amount,
        deposit_steps(s, amount).1.active_deposits == s.active_deposits + amount,
        deposit_steps(s, amount).1.vault_total_locked == s.vault_total_locked + amount,
{
}

/// Yield accrual and disputes within the active deposits keep a solvent
/// escrow solvent and never change its total.
pub proof fn lemma_internal_moves_preserve_solvency(s: EscrowState, amount: i128)
    requires
        s.solvent(),
        0 <= amount <= s.active_deposits,
    ensures
        finish(yield_steps(s, amount)) is Ok,
        yield_steps(s, amount).1.solvent(),
        yield_steps(s, amount).1.total_escrowed == s.total_escrowed,
        finish(dispute_steps(s, amount)) is Ok,
        dispute_steps(s, amount).1.solvent(),
        dispute_steps(s, amount).1.total_escrowed == s.total_escrowed,
{
}

} // verus!
