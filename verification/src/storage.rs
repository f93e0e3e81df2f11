//! Storage housekeeping for finalized leases: who may prune, when a lease may
//! be pruned, legal holds that block pruning, tombstones that keep a lease's
//! history, and the figures used to monitor storage use.

use vstd::prelude::*;
use crate::contract::LeaseContract;
use crate::types::{AccountId, LeaseInstance, LeaseStatus};

verus! {

/// Seconds a lease must have ended before its data may be pruned (60 days).
pub const PRUNE_COOLDOWN_SECONDS: u64 = 5_184_000;

/// Why a storage clean-up operation was refused.
#[derive(Clone, Copy, Debug, PartialEq, Eq, Structural)]
pub enum CleanupError {
    LeaseNotFound,
    LeaseNotFinalized,
    PruneCooldownNotMet,
    ActiveLegalHold,
    ActiveStatePruneAttempt,
    TombstoneExists,
    NotAuthorized,
    StorageCleanupFailed,
    InvalidTimestamp,
    HashComputationFailed,
}

impl CleanupError {
    /// The stable numeric code of an error (1001 to 1010, in declaration order).
    pub open spec fn code_spec(self) -> u32 {
        match self {
            CleanupError::LeaseNotFound => 1001,
            CleanupError::LeaseNotFinalized => 1002,
            CleanupError::PruneCooldownNotMet => 1003,
            CleanupError::ActiveLegalHold => 1004,
            CleanupError::ActiveStatePruneAttempt => 1005,
            CleanupError::TombstoneExists => 1006,
            CleanupError::NotAuthorized => 1007,
            CleanupError::StorageCleanupFailed => 1008,
            CleanupError::InvalidTimestamp => 1009,
            CleanupError::HashComputationFailed => 1010,
        }
    }

    /// The stable numeric code of an error.
    pub fn code(&self) -> (c: u32)
        ensures
            c == self.code_spec(),
    {
        match self {
            CleanupError::LeaseNotFound => 1001,
            CleanupError::LeaseNotFinalized => 1002,
            CleanupError::PruneCooldownNotMet => 1003,
            CleanupError::ActiveLegalHold => 1004,
            CleanupError::ActiveStatePruneAttempt => 1005,
            CleanupError::TombstoneExists => 1006,
            CleanupError::NotAuthorized => 1007,
            CleanupError::StorageCleanupFailed => 1008,
            CleanupError::InvalidTimestamp => 1009,
            CleanupError::HashComputationFailed => 1010,
        }
    }
}

/// The kind of legal hold placed on a lease.
#[derive(Clone, Copy, Debug, PartialEq, Eq, Structural)]
pub enum LegalHoldType {
    Appeal,
    RegulatoryHold,
    CourtOrder,
    Investigation,
}

/// A legal hold that keeps a lease's data from being pruned.
#[derive(Debug)]
pub struct LegalHold {
    pub lease_id: u64,
    pub hold_type: LegalHoldType,
    pub initiated_by: AccountId,
    pub initiated_at: u64,
    pub reason: String,
    pub expires_at: Option<u64>,
}

/// What remains of a pruned lease: hashes of its data and its final figures.
#[derive(Clone, Copy, Debug, PartialEq, Eq)]
pub struct LeaseTombstone {
    pub lease_id: u64,
    pub original_hash: [u8; 32],
    pub terminated_at: u64,
    pub terminated_by: AccountId,
    pub final_status: LeaseStatus,
    pub total_rent_paid: i128,
    pub total_deposits: i128,
    pub property_uri_hash: [u8; 32],
    pub tenant_anonymous_hash: [u8; 32],
    pub landlord_anonymous_hash: [u8; 32],
    pub created_at: u64,
    pub pruned_at: u64,
    pub pruned_by: AccountId,
    pub bytes_recovered: u32,
}

/// Running totals of storage clean-up.
#[derive(Clone, Copy, Debug, PartialEq, Eq, Structural)]
pub struct StorageMetrics {
    pub total_leases_pruned: u64,
    pub total_bytes_recovered: u64,
    pub total_tombstones_created: u64,
    pub active_legal_holds: u64,
    pub last_prune_timestamp: u64,
    pub average_lease_size_bytes: u32,
}

impl StorageMetrics {
    /// Metrics before any clean-up.
    pub fn new() -> (m: Self)
        ensures
            m == (StorageMetrics {
                total_leases_pruned: 0,
                total_bytes_recovered: 0,
                total_tombstones_created: 0,
                active_legal_holds: 0,
                last_prune_timestamp: 0,
                average_lease_size_bytes: 0,
            }),
    {
        StorageMetrics {
            total_leases_pruned: 0,
            total_bytes_recovered: 0,
            total_tombstones_created: 0,
            active_legal_holds: 0,
            last_prune_timestamp: 0,
            average_lease_size_bytes: 0,
        }
    }
}

/// Whether the caller is the stored admin.
pub open spec fn admin_is(admin: Option<AccountId>, caller: AccountId) -> bool {
    admin == Some(caller)
}

/// Storage size estimated for a lease with `n` arbitrators: a base of 512
/// bytes, 32 per arbitrator, 16 for each of 8 optional fields and 64 for each
/// of 4 strings.
pub open spec fn lease_storage_size_spec(n: int) -> int {
    512 + 32 * n + 8 * 16 + 4 * 64
}

impl LeaseContract {
    /// Pruning is for whitelisted callers and the admin.
    pub fn verify_prune_authorization(caller_whitelisted: bool, admin: Option<AccountId>, caller: AccountId) -> (r: Result<(), CleanupError>)
        ensures
            r is Ok <==> (caller_whitelisted || admin_is(admin, caller)),
            r is Err ==> r == Err::<(), CleanupError>(CleanupError::NotAuthorized),
    {
        if caller_whitelisted {
            return Ok(());
        }
        match admin {
            Some(a) => if a == caller { Ok(()) } else { Err(CleanupError::NotAuthorized) },
            None => Err(CleanupError::NotAuthorized),
        }
    }

    /// Only the admin holds legal authority (to place and release holds and to
    /// manage the pruning whitelist).
    pub fn verify_legal_authority(admin: Option<AccountId>, caller: AccountId) -> (r: Result<(), CleanupError>)
        ensures
            r is Ok <==> admin_is(admin, caller),
            r is Err ==> r == Err::<(), CleanupError>(CleanupError::NotAuthorized),
    {
        match admin {
            Some(a) => if a == caller { Ok(()) } else { Err(CleanupError::NotAuthorized) },
            None => Err(CleanupError::NotAuthorized),
        }
    }

    /// Only terminated leases are final: an expired lease that was never
    /// terminated may still be settled, so its data is kept.
    pub fn verify_lease_finalized(lease: &LeaseInstance) -> (r: Result<(), CleanupError>)
        ensures
            r is Ok <==> lease.status == LeaseStatus::Terminated,
            r is Err ==> r == Err::<(), CleanupError>(CleanupError::LeaseNotFinalized),
    {
        match lease.status {
            LeaseStatus::Terminated => Ok(()),
            _ => Err(CleanupError::LeaseNotFinalized),
        }
    }

    /// A lease may be pruned 60 days after its end date, not before.
    pub fn verify_prune_cooldown(lease: &LeaseInstance, now: u64) -> (r: Result<(), CleanupError>)
        requires
            lease.end_date + PRUNE_COOLDOWN_SECONDS <= u64::MAX,
        ensures
            r is Ok <==> now >= lease.end_date + PRUNE_COOLDOWN_SECONDS,
            r is Err ==> r == Err::<(), CleanupError>(CleanupError::PruneCooldownNotMet),
    {
        if now < lease.end_date + PRUNE_COOLDOWN_SECONDS {
            return Err(CleanupError::PruneCooldownNotMet);
        }
        Ok(())
    }

    /// A lease under a legal hold may not be pruned.
    pub fn verify_no_legal_holds(has_legal_hold: bool) -> (r: Result<(), CleanupError>)
        ensures
            r is Ok <==> !has_legal_hold,
            r is Err ==> r == Err::<(), CleanupError>(CleanupError::ActiveLegalHold),
    {
        if has_legal_hold {
            return Err(CleanupError::ActiveLegalHold);
        }
        Ok(())
    }

    /// The checks that pruning a lease must pass, in order: the caller may
    /// prune, the lease exists, it is terminated, 60 days have passed since it
    /// ended, and no legal hold is placed on it.
    pub fn check_prune_finalized_lease(
        caller_whitelisted: bool,
        admin: Option<AccountId>,
        caller: AccountId,
        lease: Option<&LeaseInstance>,
        now: u64,
        has_legal_hold: bool,
    ) -> (r: Result<(), CleanupError>)
        requires
            lease matches Some(l) ==> l.end_date + PRUNE_COOLDOWN_SECONDS <= u64::MAX,
        ensures
            !(caller_whitelisted || admin_is(admin, caller)) ==> r == Err::<(), CleanupError>(CleanupError::NotAuthorized),
            (caller_whitelisted || admin_is(admin, caller)) && lease is None
                ==> r == Err::<(), CleanupError>(CleanupError::LeaseNotFound),
            (caller_whitelisted || admin_is(admin, caller)) && lease is Some ==> ({
                let l = lease->0;
                if l.status != LeaseStatus::Terminated {
                    r == Err::<(), CleanupError>(CleanupError::LeaseNotFinalized)
                } else if now < l.end_date + PRUNE_COOLDOWN_SECONDS {
                    r == Err::<(), CleanupError>(CleanupError::PruneCooldownNotMet)
                } else if has_legal_hold {
                    r == Err::<(), CleanupError>(CleanupError::ActiveLegalHold)
                } else {
                    r is Ok
                }
            }),
    {
        Self::verify_prune_authorization(caller_whitelisted, admin, caller)?;
        let l = match lease {
            Some(l) => l,
            None => return Err(CleanupError::LeaseNotFound),
        };
        Self::verify_lease_finalized(l)?;
        Self::verify_prune_cooldown(l, now)?;
        Self::verify_no_legal_holds(has_legal_hold)?;
        Ok(())
    }

    /// Estimated storage size of a lease, 0 when there is none.
    pub fn calculate_lease_storage_size(lease: Option<&LeaseInstance>) -> (size: u32)
        requires
            lease matches Some(l) ==> lease_storage_size_spec(l.arbitrators@.len() as int) <= u32::MAX,
        ensures
            size == (match lease {
                Some(l) => lease_storage_size_spec(l.arbitrators@.len() as int),
                None => 0,
            }),
    {
        match lease {
            Some(l) => {
                let arbitrators_count = l.arbitrators.len() as u32;
                512 + arbitrators_count * 32 + 8 * 16 + 4 * 64
            },
            None => 0,
        }
    }

    /// Estimated size of a tombstone.
    pub fn calculate_tombstone_size() -> (size: u32)
        ensures
            size == 128,
    {
        128
    }

    /// Bytes recovered by replacing a lease of `bytes_before` with a tombstone.
    pub fn pruning_bytes_recovered(bytes_before: u32) -> (recovered: u32)
        ensures
            recovered == (if bytes_before >= 128 { bytes_before - 128 } else { 0 }),
    {
        bytes_before.saturating_sub(Self::calculate_tombstone_size())
    }

    /// The tombstone of a pruned lease, from the hashes of its data.
    pub fn create_tombstone(
        lease: &LeaseInstance,
        lease_id: u64,
        caller: AccountId,
        now: u64,
        original_hash: [u8; 32],
        property_uri_hash: [u8; 32],
        tenant_anonymous_hash: [u8; 32],
        landlord_anonymous_hash: [u8; 32],
    ) -> (t: LeaseTombstone)
        requires
            i128::MIN <= lease.deposit_amount + lease.security_deposit <= i128::MAX,
        ensures
            t == (LeaseTombstone {
                lease_id,
                original_hash,
                terminated_at: lease.end_date,
                terminated_by: caller,
                final_status: lease.status,
                total_rent_paid: lease.rent_paid,
                total_deposits: (lease.deposit_amount + lease.security_deposit) as i128,
                property_uri_hash,
                tenant_anonymous_hash,
                landlord_anonymous_hash,
                created_at: lease.start_date,
                pruned_at: now,
                pruned_by: caller,
                bytes_recovered: 0,
            }),
    {
        LeaseTombstone {
            lease_id,
            original_hash,
            terminated_at: lease.end_date,
            terminated_by: caller,
            final_status: lease.status,
            total_rent_paid: lease.rent_paid,
            total_deposits: lease.deposit_amount + lease.security_deposit,
            property_uri_hash,
            tenant_anonymous_hash,
            landlord_anonymous_hash,
            created_at: lease.start_date,
            pruned_at: now,
            pruned_by: caller,
            bytes_recovered: 0,
        }
    }

    /// Records a pruning: one more lease pruned and tombstone created, the
    /// recovered bytes added, the time noted and the average recomputed.
    pub fn update_storage_metrics(metrics: &mut StorageMetrics, bytes_recovered: u32, now: u64)
        requires
            old(metrics).total_leases_pruned < u64::MAX,
            old(metrics).total_tombstones_created < u64::MAX,
            old(metrics).total_bytes_recovered + bytes_recovered <= u64::MAX,
        ensures
            final(metrics).total_leases_pruned == old(metrics).total_leases_pruned + 1,
            final(metrics).total_bytes_recovered == old(metrics).total_bytes_recovered + bytes_recovered,
            final(metrics).total_tombstones_created == old(metrics).total_tombstones_created + 1,
            final(metrics).active_legal_holds == old(metrics).active_legal_holds,
            final(metrics).last_prune_timestamp == now,
            final(metrics).average_lease_size_bytes
                == ((final(metrics).total_bytes_recovered / final(metrics).total_leases_pruned) as u32),
    {
        metrics.total_leases_pruned = metrics.total_leases_pruned + 1;
        metrics.total_bytes_recovered = metrics.total_bytes_recovered + bytes_recovered as u64;
        metrics.total_tombstones_created = metrics.total_tombstones_created + 1;
        metrics.last_prune_timestamp = now;
        if metrics.total_leases_pruned > 0 {
            metrics.average_lease_size_bytes = (metrics.total_bytes_recovered / metrics.total_leases_pruned) as u32;
        }
    }

    /// Counts one more active legal hold.
    pub fn increment_legal_holds(metrics: &mut StorageMetrics)
        requires
            old(metrics).active_legal_holds < u64::MAX,
        ensures
            *final(metrics) == (StorageMetrics { active_legal_holds: (old(metrics).active_legal_holds + 1) as u64, ..*old(metrics) }),
    {
        metrics.active_legal_holds = metrics.active_legal_holds + 1;
    }

    /// Counts one less active legal hold, never below zero.
    pub fn decrement_legal_holds(metrics: &mut StorageMetrics)
        ensures
            *final(metrics) == (StorageMetrics {
                active_legal_holds: if old(metrics).active_legal_holds > 0 { (old(metrics).active_legal_holds - 1) as u64 } else { 0 },
                ..*old(metrics)
            }),
    {
        metrics.active_legal_holds = metrics.active_legal_holds.saturating_sub(1);
    }

    /// Places a legal hold on an existing lease without one; only the admin may.
    pub fn place_legal_hold(
        admin: Option<AccountId>,
        caller: AccountId,
        lease_exists: bool,
        hold_exists: bool,
        lease_id: u64,
        hold_type: LegalHoldType,
        reason: String,
        expires_at: Option<u64>,
        now: u64,
    ) -> (r: Result<LegalHold, CleanupError>)
        ensures
            !admin_is(admin, caller) ==> r == Err::<LegalHold, CleanupError>(CleanupError::NotAuthorized),
            admin_is(admin, caller) && !lease_exists ==> r == Err::<LegalHold, CleanupError>(CleanupError::LeaseNotFound),
            admin_is(admin, caller) && lease_exists && hold_exists ==> r == Err::<LegalHold, CleanupError>(CleanupError::ActiveLegalHold),
            r is Ok <==> (admin_is(admin, caller) && lease_exists && !hold_exists),
            r matches Ok(h) ==> {
                &&& h.lease_id == lease_id
                &&& h.hold_type == hold_type
                &&& h.initiated_by == caller
                &&& h.initiated_at == now
                &&& h.reason == reason
                &&& h.expires_at == expires_at
            },
    {
        Self::verify_legal_authority(admin, caller)?;
        if !lease_exists {
            return Err(CleanupError::LeaseNotFound);
        }
        if hold_exists {
            return Err(CleanupError::ActiveLegalHold);
        }
        Ok(LegalHold { lease_id, hold_type, initiated_by: caller, initiated_at: now, reason, expires_at })
    }

    /// Releases a legal hold; only the admin may, and the hold must exist.
    pub fn release_legal_hold(admin: Option<AccountId>, caller: AccountId, hold: Option<&LegalHold>) -> (r: Result<(), CleanupError>)
        ensures
            !admin_is(admin, caller) ==> r == Err::<(), CleanupError>(CleanupError::NotAuthorized),
            admin_is(admin, caller) && hold is None ==> r == Err::<(), CleanupError>(CleanupError::LeaseNotFound),
            r is Ok <==> (admin_is(admin, caller) && hold is Some),
    {
        Self::verify_legal_authority(admin, caller)?;
        let h = match hold {
            Some(h) => h,
            None => return Err(CleanupError::LeaseNotFound),
        };
        let is_admin = match admin {
            Some(a) => a == caller,
            None => false,
        };
        if h.initiated_by != caller && !is_admin {
            return Err(CleanupError::NotAuthorized);
        }
        Ok(())
    }
}

} // verus!
