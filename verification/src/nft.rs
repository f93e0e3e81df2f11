//! Tokenized lessor rights: a lease's rent stream held as a transferable
//! token, with rent prorated between holders when it changes hands mid-cycle
//! and a lock that keeps it in place while the lease is live or disputed.

use vstd::prelude::*;
use crate::access_token::{lease_token_id, LesseeAccessTokenManager};
use crate::types::{AccountId, LeaseInstance, LeaseStatus};

verus! {

/// Seconds in a billing cycle (30 days).
pub const BILLING_CYCLE_SECONDS: u64 = 2_592_000;

/// Why another contract asks who holds a lease's token.
#[derive(Clone, Copy, Debug, PartialEq, Eq, Structural)]
pub enum VerificationPurpose {
    RentPayment,
    DepositRefund,
    Slashing,
    Buyout,
    Termination,
}

/// Why a token is locked against transfer.
#[derive(Clone, Copy, Debug, PartialEq, Eq, Structural)]
pub enum LockReason {
    LeaseActive,
    LeaseDisputed,
    ArbitrationInProgress,
    RegulatoryHold,
}

/// Why a lessor-rights token operation was refused.
#[derive(Clone, Copy, Debug, PartialEq, Eq, Structural)]
pub enum NFTError {
    LeaseNotFound,
    NFTAlreadyExists,
    InvalidLeaseState,
    UnauthorizedTransfer,
    NFTNotFound,
    TransferDuringLock,
    InvalidProration,
    OwnershipVerificationFailed,
    CrossContractCallFailed,
    InsufficientYield,
    TokenIndestructible,
    MetadataCorruption,
}

impl NFTError {
    /// The stable numeric code of an error (2001 to 2012, in declaration order).
    pub open spec fn code_spec(self) -> u32 {
        match self {
            NFTError::LeaseNotFound => 2001,
            NFTError::NFTAlreadyExists => 2002,
            NFTError::InvalidLeaseState => 2003,
            NFTError::UnauthorizedTransfer => 2004,
            NFTError::NFTNotFound => 2005,
            NFTError::TransferDuringLock => 2006,
            NFTError::InvalidProration => 2007,
            NFTError::OwnershipVerificationFailed => 2008,
            NFTError::CrossContractCallFailed => 2009,
            NFTError::InsufficientYield => 2010,
            NFTError::TokenIndestructible => 2011,
            NFTError::MetadataCorruption => 2012,
        }
    }

    /// The stable numeric code of an error.
    pub fn code(&self) -> (c: u32)
        ensures
            c == self.code_spec(),
    {
        match self {
            NFTError::LeaseNotFound => 2001,
            NFTError::NFTAlreadyExists => 2002,
            NFTError::InvalidLeaseState => 2003,
            NFTError::UnauthorizedTransfer => 2004,
            NFTError::NFTNotFound => 2005,
            NFTError::TransferDuringLock => 2006,
            NFTError::InvalidProration => 2007,
            NFTError::OwnershipVerificationFailed => 2008,
            NFTError::CrossContractCallFailed => 2009,
            NFTError::InsufficientYield => 2010,
            NFTError::TokenIndestructible => 2011,
            NFTError::MetadataCorruption => 2012,
        }
    }
}

/// What a lessor-rights token records of its lease and its holders.
#[derive(Clone, Copy, Debug, PartialEq, Eq)]
pub struct LessorRightsNFTMetadata {
    pub lease_id: u64,
    pub original_lessor: AccountId,
    pub current_holder: AccountId,
    pub lease_start: u64,
    pub lease_end: u64,
    pub monthly_rent: i128,
    pub security_deposit: i128,
    /// Hash of the property URI (the URI itself is kept private).
    pub property_hash: [u8; 32],
    pub minted_at: u64,
    pub last_transfer: u64,
    pub transfer_count: u32,
    pub pending_yield: i128,
    /// Start of the billing cycle that rent is prorated over.
    pub billing_cycle_start: u64,
}

/// A record of one transfer and the rent owed to the previous holder.
#[derive(Clone, Copy, Debug, PartialEq, Eq, Structural)]
pub struct NFTTransferRecord {
    pub token_id: u128,
    pub from_holder: AccountId,
    pub to_holder: AccountId,
    pub transfer_timestamp: u64,
    pub accrued_rent_at_transfer: i128,
    pub proration_amount: i128,
    pub billing_cycle_remaining: u64,
}

/// The answer to an ownership check from another contract.
#[derive(Clone, Copy, Debug, PartialEq, Eq, Structural)]
pub struct OwnershipVerificationResponse {
    pub is_valid: bool,
    pub current_holder: AccountId,
    pub verification_timestamp: u64,
    pub lease_id: u64,
    pub token_id: u128,
}

/// A lock that keeps a lease's token from being transferred.
#[derive(Clone, Copy, Debug, PartialEq, Eq, Structural)]
pub struct NFTIndestructibilityLock {
    pub lease_id: u64,
    pub token_id: u128,
    pub lock_reason: LockReason,
    pub locked_at: u64,
    pub expires_at: Option<u64>,
}

/// The rent accrued in the current billing cycle when a token changes hands.
#[derive(Clone, Copy, Debug, PartialEq, Eq, Structural)]
pub struct YieldProrationData {
    pub accrued_rent: i128,
    pub proration_amount: i128,
    pub billing_cycle_remaining: u64,
    pub time_elapsed: u64,
}

/// Issues and moves lessor-rights tokens.
pub struct LessorRightsNFT;

/// Active and pending leases may be tokenized.
pub open spec fn tokenizable_spec(status: LeaseStatus) -> bool {
    status == LeaseStatus::Active || status == LeaseStatus::Pending
}

/// Seconds of the billing cycle that have passed at `now` (0 before it starts).
pub open spec fn elapsed_in_cycle(cycle_start: u64, now: u64) -> u64 {
    if now >= cycle_start { (now - cycle_start) as u64 } else { 0 }
}

/// Rent accrued over `elapsed` seconds at `monthly_rent` per billing cycle,
/// rounded toward zero.
pub open spec fn accrued_rent_spec(elapsed: u64, monthly_rent: i128) -> int {
    crate::math::div_toward_zero(elapsed * monthly_rent, BILLING_CYCLE_SECONDS as int)
}

/// Whether the accrual product fits in an `i128`.
pub open spec fn accrual_fits(elapsed: u64, monthly_rent: i128) -> bool {
    i128::MIN <= elapsed * monthly_rent <= i128::MAX
}

/// The metadata of the token minted for a lease.
pub open spec fn new_metadata(lease: LeaseInstance, lease_id: u64, lessor: AccountId, property_hash: [u8; 32], now: u64) -> LessorRightsNFTMetadata {
    LessorRightsNFTMetadata {
        lease_id,
        original_lessor: lessor,
        current_holder: lessor,
        lease_start: lease.start_date,
        lease_end: lease.end_date,
        monthly_rent: lease.rent_amount,
        security_deposit: (lease.deposit_amount + lease.security_deposit) as i128,
        property_hash,
        minted_at: now,
        last_transfer: now,
        transfer_count: 0,
        pending_yield: 0,
        billing_cycle_start: lease.start_date,
    }
}

/// Whether a lease in `status` may be checked for `purpose`: rent and buyouts
/// need a live lease, refunds, slashing and termination an ended one.
pub open spec fn purpose_valid_spec(status: LeaseStatus, purpose: VerificationPurpose) -> bool {
    match purpose {
        VerificationPurpose::RentPayment => status == LeaseStatus::Active,
        VerificationPurpose::Buyout => status == LeaseStatus::Active,
        _ => status == LeaseStatus::Terminated || status == LeaseStatus::Expired,
    }
}

/// Within a billing cycle the rent accrued to a holder is never negative
/// and never more than the cycle's rent (for a non-negative rent).
pub proof fn lemma_accrued_rent_within_cycle(elapsed: u64, monthly_rent: i128)
    requires
        elapsed <= BILLING_CYCLE_SECONDS,
        monthly_rent >= 0,
    ensures
        0 <= accrued_rent_spec(elapsed, monthly_rent) <= monthly_rent,
{
    assert(0 <= elapsed * monthly_rent <= BILLING_CYCLE_SECONDS * monthly_rent) by (nonlinear_arith)
        requires elapsed <= BILLING_CYCLE_SECONDS, monthly_rent >= 0, elapsed >= 0;
    assert((elapsed * monthly_rent) / (BILLING_CYCLE_SECONDS as int) <= monthly_rent) by (nonlinear_arith)
        requires 0 <= elapsed * monthly_rent <= BILLING_CYCLE_SECONDS * monthly_rent;
}

impl LessorRightsNFT {
    /// Whether a lease may be tokenized.
    pub fn is_lease_tokenizable(lease: &LeaseInstance) -> (b: bool)
        ensures
            b == tokenizable_spec(lease.status),
    {
        match lease.status {
            LeaseStatus::Active | LeaseStatus::Pending => true,
            _ => false,
        }
    }

    /// The id of the token minted for `lease_id` at `timestamp`.
    pub fn generate_unique_token_id(lease_id: u64, timestamp: u64) -> (id: u128)
        ensures
            id == lease_token_id(lease_id, timestamp),
    {
        LesseeAccessTokenManager::generate_unique_token_id(lease_id, timestamp)
    }

    /// The token's record of a lease, held first by the lessor; the deposit
    /// figure is the sum of both deposits.
    pub fn create_nft_metadata(lease: &LeaseInstance, lease_id: u64, lessor: AccountId, property_hash: [u8; 32], now: u64)
        -> (m: LessorRightsNFTMetadata)
        requires
            i128::MIN <= lease.deposit_amount + lease.security_deposit <= i128::MAX,
        ensures
            m == new_metadata(*lease, lease_id, lessor, property_hash, now),
    {
        LessorRightsNFTMetadata {
            lease_id,
            original_lessor: lessor,
            current_holder: lessor,
            lease_start: lease.start_date,
            lease_end: lease.end_date,
            monthly_rent: lease.rent_amount,
            security_deposit: lease.deposit_amount + lease.security_deposit,
            property_hash,
            minted_at: now,
            last_transfer: now,
            transfer_count: 0,
            pending_yield: 0,
            billing_cycle_start: lease.start_date,
        }
    }

    /// A lock on a lease's token, taken at `now`.
    pub fn new_lock(lease_id: u64, token_id: u128, lock_reason: LockReason, now: u64, expires_at: Option<u64>)
        -> (lock: NFTIndestructibilityLock)
        ensures
            lock == (NFTIndestructibilityLock { lease_id, token_id, lock_reason, locked_at: now, expires_at }),
    {
        NFTIndestructibilityLock { lease_id, token_id, lock_reason, locked_at: now, expires_at }
    }

    /// Mints the lessor-rights token of an active or pending lease that has
    /// none yet, with a lock that lasts while the lease is active.
    pub fn mint_lessor_rights_token(
        lease: Option<&LeaseInstance>,
        lease_id: u64,
        nft_exists: bool,
        lessor: AccountId,
        property_hash: [u8; 32],
        now: u64,
    ) -> (r: Result<(u128, LessorRightsNFTMetadata, NFTIndestructibilityLock), NFTError>)
        requires
            lease is Some ==> i128::MIN <= lease->0.deposit_amount + lease->0.security_deposit <= i128::MAX,
        ensures
            lease is None ==> r is Err && r->Err_0 == NFTError::LeaseNotFound,
            lease is Some && !tokenizable_spec(lease->0.status) ==> r is Err && r->Err_0 == NFTError::InvalidLeaseState,
            lease is Some && tokenizable_spec(lease->0.status) && nft_exists ==> r is Err && r->Err_0 == NFTError::NFTAlreadyExists,
            r is Ok <==> (lease is Some && tokenizable_spec(lease->0.status) && !nft_exists),
            r is Ok ==> {
                let (id, m, lock) = r->Ok_0;
                &&& id == lease_token_id(lease_id, now)
                &&& m == new_metadata(*lease->0, lease_id, lessor, property_hash, now)
                &&& lock == (NFTIndestructibilityLock {
                    lease_id,
                    token_id: id,
                    lock_reason: LockReason::LeaseActive,
                    locked_at: now,
                    expires_at: None,
                })
            },
    {
        let l = match lease {
            Some(l) => l,
            None => return Err(NFTError::LeaseNotFound),
        };
        if !Self::is_lease_tokenizable(l) {
            return Err(NFTError::InvalidLeaseState);
        }
        if nft_exists {
            return Err(NFTError::NFTAlreadyExists);
        }
        let token_id = Self::generate_unique_token_id(lease_id, now);
        let metadata = Self::create_nft_metadata(l, lease_id, lessor, property_hash, now);
        let lock = Self::new_lock(lease_id, token_id, LockReason::LeaseActive, now, None);
        Ok((token_id, metadata, lock))
    }

    /// Rent accrued to the holder since the billing cycle began: elapsed
    /// seconds times the monthly rent over a 30-day cycle, rounded toward
    /// zero; all of it is owed to the outgoing holder.
    pub fn calculate_yield_proration(metadata: &LessorRightsNFTMetadata, now: u64) -> (p: YieldProrationData)
        requires
            accrual_fits(elapsed_in_cycle(metadata.billing_cycle_start, now), metadata.monthly_rent),
        ensures
            p.time_elapsed == elapsed_in_cycle(metadata.billing_cycle_start, now),
            p.accrued_rent == accrued_rent_spec(p.time_elapsed, metadata.monthly_rent),
            p.proration_amount == p.accrued_rent,
            p.billing_cycle_remaining == (if p.time_elapsed < BILLING_CYCLE_SECONDS {
                BILLING_CYCLE_SECONDS - p.time_elapsed
            } else {
                0
            }),
    {
        let time_elapsed = now.saturating_sub(metadata.billing_cycle_start);
        let product: i128 = (time_elapsed as i128) * metadata.monthly_rent;
        let accrued_rent = product / (BILLING_CYCLE_SECONDS as i128);
        let billing_cycle_remaining = BILLING_CYCLE_SECONDS.saturating_sub(time_elapsed);
        YieldProrationData {
            accrued_rent,
            proration_amount: accrued_rent,
            billing_cycle_remaining,
            time_elapsed,
        }
    }

    /// Transfers a token that is not locked from its holder to a new holder:
    /// the rent accrued so far is recorded as owed to the outgoing holder and
    /// a new billing cycle starts for the incoming one.
    pub fn transfer_nft(
        metadata: Option<LessorRightsNFTMetadata>,
        token_id: u128,
        from_holder: AccountId,
        to_holder: AccountId,
        locked: bool,
        now: u64,
    ) -> (r: Result<(NFTTransferRecord, LessorRightsNFTMetadata), NFTError>)
        requires
            metadata is Some ==> accrual_fits(elapsed_in_cycle(metadata->0.billing_cycle_start, now), metadata->0.monthly_rent),
            metadata is Some ==> metadata->0.transfer_count < u32::MAX,
        ensures
            metadata is None ==> r is Err && r->Err_0 == NFTError::NFTNotFound,
            metadata is Some && metadata->0.current_holder != from_holder
                ==> r is Err && r->Err_0 == NFTError::UnauthorizedTransfer,
            metadata is Some && metadata->0.current_holder == from_holder && locked
                ==> r is Err && r->Err_0 == NFTError::TransferDuringLock,
            r is Ok <==> (metadata is Some && metadata->0.current_holder == from_holder && !locked),
            r is Ok ==> {
                let m = metadata->0;
                let elapsed = elapsed_in_cycle(m.billing_cycle_start, now);
                let (rec, m2) = r->Ok_0;
                &&& rec.token_id == token_id
                &&& rec.from_holder == from_holder
                &&& rec.to_holder == to_holder
                &&& rec.transfer_timestamp == now
                &&& rec.accrued_rent_at_transfer == accrued_rent_spec(elapsed, m.monthly_rent)
                &&& rec.proration_amount == rec.accrued_rent_at_transfer
                &&& rec.billing_cycle_remaining == (if elapsed < BILLING_CYCLE_SECONDS { BILLING_CYCLE_SECONDS - elapsed } else { 0 })
                &&& m2 == (LessorRightsNFTMetadata {
                    current_holder: to_holder,
                    last_transfer: now,
                    transfer_count: (m.transfer_count + 1) as u32,
                    pending_yield: 0,
                    billing_cycle_start: now,
                    ..m
                })
            },
    {
        let mut m = match metadata {
            Some(m) => m,
            None => return Err(NFTError::NFTNotFound),
        };
        if m.current_holder != from_holder {
            return Err(NFTError::UnauthorizedTransfer);
        }
        if locked {
            return Err(NFTError::TransferDuringLock);
        }
        let p = Self::calculate_yield_proration(&m, now);
        let record = NFTTransferRecord {
            token_id,
            from_holder,
            to_holder,
            transfer_timestamp: now,
            accrued_rent_at_transfer: p.accrued_rent,
            proration_amount: p.proration_amount,
            billing_cycle_remaining: p.billing_cycle_remaining,
        };
        m.current_holder = to_holder;
        m.last_transfer = now;
        m.transfer_count = m.transfer_count + 1;
        m.pending_yield = 0;
        m.billing_cycle_start = now;
        Ok((record, m))
    }

    /// Checks that a lease is in a state in which its holder may be asked
    /// about for `purpose`.
    pub fn verify_purpose_validity(lease: Option<&LeaseInstance>, purpose: VerificationPurpose) -> (r: Result<(), NFTError>)
        ensures
            lease is None ==> r == Err::<(), NFTError>(NFTError::LeaseNotFound),
            lease is Some && !purpose_valid_spec(lease->0.status, purpose)
                ==> r == Err::<(), NFTError>(NFTError::InvalidLeaseState),
            r is Ok <==> (lease is Some && purpose_valid_spec(lease->0.status, purpose)),
    {
        let l = match lease {
            Some(l) => l,
            None => return Err(NFTError::LeaseNotFound),
        };
        let ok = match purpose {
            VerificationPurpose::RentPayment => l.status == LeaseStatus::Active,
            VerificationPurpose::Buyout => l.status == LeaseStatus::Active,
            _ => l.status == LeaseStatus::Terminated || l.status == LeaseStatus::Expired,
        };
        if !ok {
            return Err(NFTError::InvalidLeaseState);
        }
        Ok(())
    }

    /// Tells another contract who holds a lease's token, when the lease's
    /// state fits the purpose of the question.
    pub fn verify_token_ownership(
        token_id: Option<u128>,
        metadata: Option<&LessorRightsNFTMetadata>,
        lease: Option<&LeaseInstance>,
        lease_id: u64,
        purpose: VerificationPurpose,
        now: u64,
    ) -> (r: Result<OwnershipVerificationResponse, NFTError>)
        ensures
            (token_id is None || metadata is None) ==> r == Err::<OwnershipVerificationResponse, NFTError>(NFTError::NFTNotFound),
            token_id is Some && metadata is Some && lease is None
                ==> r == Err::<OwnershipVerificationResponse, NFTError>(NFTError::LeaseNotFound),
            token_id is Some && metadata is Some && lease is Some && !purpose_valid_spec(lease->0.status, purpose)
                ==> r == Err::<OwnershipVerificationResponse, NFTError>(NFTError::InvalidLeaseState),
            r is Ok <==> (token_id is Some && metadata is Some && lease is Some && purpose_valid_spec(lease->0.status, purpose)),
            r is Ok ==> r->Ok_0 == (OwnershipVerificationResponse {
                is_valid: true,
                current_holder: metadata->0.current_holder,
                verification_timestamp: now,
                lease_id,
                token_id: token_id->0,
            }),
    {
        let id = match token_id {
            Some(id) => id,
            None => return Err(NFTError::NFTNotFound),
        };
        let m = match metadata {
            Some(m) => m,
            None => return Err(NFTError::NFTNotFound),
        };
        Self::verify_purpose_validity(lease, purpose)?;
        Ok(OwnershipVerificationResponse {
            is_valid: true,
            current_holder: m.current_holder,
            verification_timestamp: now,
            lease_id,
            token_id: id,
        })
    }

    /// The holder of a lease's token.
    pub fn get_current_holder(token_id: Option<u128>, metadata: Option<&LessorRightsNFTMetadata>) -> (r: Result<AccountId, NFTError>)
        ensures
            r is Ok <==> (token_id is Some && metadata is Some),
            r is Err ==> r->Err_0 == NFTError::NFTNotFound,
            r is Ok ==> r->Ok_0 == metadata->0.current_holder,
    {
        if token_id.is_none() {
            return Err(NFTError::NFTNotFound);
        }
        match metadata {
            Some(m) => Ok(m.current_holder),
            None => Err(NFTError::NFTNotFound),
        }
    }
}

} // verus!
