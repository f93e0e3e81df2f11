use leaseflow::nft::{LessorRightsNFT, LessorRightsNFTMetadata, LockReason, NFTError, VerificationPurpose, BILLING_CYCLE_SECONDS};
use leaseflow::types::{AccountId, DepositStatus, LeaseInstance, LeaseStatus, MaintenanceStatus};

const NOW: u64 = 1_700_000_000;
const MONTH: u64 = 30 * 24 * 60 * 60;

fn acct(id: u64) -> AccountId {
    AccountId { id }
}

fn make_lease(landlord: AccountId, tenant: AccountId) -> LeaseInstance {
    LeaseInstance {
        landlord,
        tenant,
        rent_amount: 1000,
        deposit_amount: 500,
        security_deposit: 200,
        start_date: NOW,
        end_date: NOW + MONTH,
        property_uri: String::from("test_property"),
        status: LeaseStatus::Active,
        nft_contract: None,
        token_id: None,
        active: true,
        rent_paid: 0,
        expiry_time: NOW + MONTH,
        buyout_price: None,
        cumulative_payments: 0,
        debt: 0,
        rent_paid_through: NOW,
        deposit_status: DepositStatus::Held,
        rent_per_sec: 0,
        grace_period_end: NOW + MONTH,
        late_fee_flat: 0,
        late_fee_per_sec: 0,
        flat_fee_applied: false,
        seconds_late_charged: 0,
        withdrawal_address: None,
        rent_withdrawn: 0,
        arbitrators: Vec::new(),
        maintenance_status: MaintenanceStatus::NoIssue,
        withheld_rent: 0,
        repair_proof_hash: None,
        inspector: None,
        paused: false,
        pause_reason: None,
        paused_at: None,
        pause_initiator: None,
        total_paused_duration: 0,
        rent_pull_authorized_amount: None,
        last_rent_pull_timestamp: None,
        billing_cycle_duration: MONTH,
        yield_delegation_enabled: false,
        yield_accumulated: 0,
        equity_balance: 0,
        equity_percentage_bps: 0,
        had_late_payment: false,
        has_pet: false,
        pet_deposit_amount: 0,
        pet_rent_amount: 0,
        payment_token: acct(900),
    }
}

const HASH: [u8; 32] = [7u8; 32];

fn mint_for(lease: &LeaseInstance, lease_id: u64, lessor: AccountId) -> (u128, LessorRightsNFTMetadata) {
    let (token_id, metadata, _lock) =
        LessorRightsNFT::mint_lessor_rights_token(Some(lease), lease_id, false, lessor, HASH, NOW).unwrap();
    (token_id, metadata)
}

#[test]
fn test_mint_lessor_rights_nft() {
    let lessor = acct(1);
    let lease = make_lease(lessor, acct(2));
    let lease_id = 1u64;
    let (token_id, metadata, lock) =
        LessorRightsNFT::mint_lessor_rights_token(Some(&lease), lease_id, false, lessor, HASH, NOW).unwrap();
    assert_eq!(metadata.lease_id, lease_id);
    assert_eq!(metadata.original_lessor, lessor);
    assert_eq!(metadata.current_holder, lessor);
    assert_eq!(metadata.monthly_rent, 1000);
    assert_eq!(metadata.security_deposit, 700);
    assert_eq!(metadata.property_hash, HASH);
    assert_eq!(token_id, LessorRightsNFT::generate_unique_token_id(lease_id, NOW));
    assert_eq!(lock.lock_reason, LockReason::LeaseActive);
    assert_eq!(lock.token_id, token_id);
    assert_eq!(lock.expires_at, None);
}

#[test]
fn test_nft_transfer_with_proration() {
    let lessor = acct(1);
    let new_holder = acct(3);
    let lease = make_lease(lessor, acct(2));
    let (token_id, metadata) = mint_for(&lease, 2, lessor);
    // The lock taken at minting is released before the token can move.
    let half_cycle = NOW + BILLING_CYCLE_SECONDS / 2;
    let (record, moved) =
        LessorRightsNFT::transfer_nft(Some(metadata), token_id, lessor, new_holder, false, half_cycle).unwrap();
    assert_eq!(moved.current_holder, new_holder);
    assert_eq!(moved.transfer_count, 1);
    assert_eq!(moved.billing_cycle_start, half_cycle);
    assert_eq!(moved.pending_yield, 0);
    assert_eq!(record.accrued_rent_at_transfer, 500);
    assert_eq!(record.proration_amount, 500);
    assert_eq!(record.billing_cycle_remaining, BILLING_CYCLE_SECONDS / 2);
    assert_eq!(record.from_holder, lessor);
    assert_eq!(record.to_holder, new_holder);
}

#[test]
fn test_token_ownership_verification() {
    let lessor = acct(1);
    let lease = make_lease(lessor, acct(2));
    let lease_id = 3u64;
    let (token_id, metadata) = mint_for(&lease, lease_id, lessor);
    let response = LessorRightsNFT::verify_token_ownership(
        Some(token_id),
        Some(&metadata),
        Some(&lease),
        lease_id,
        VerificationPurpose::RentPayment,
        NOW,
    )
    .unwrap();
    assert!(response.is_valid);
    assert_eq!(response.current_holder, lessor);
    assert_eq!(response.lease_id, lease_id);
    assert_eq!(response.token_id, token_id);
}

#[test]
fn test_nft_indestructibility_lock() {
    let lessor = acct(1);
    let new_holder = acct(4);
    let lease = make_lease(lessor, acct(2));
    let (token_id, metadata) = mint_for(&lease, 4, lessor);
    let locked = LessorRightsNFT::transfer_nft(Some(metadata), token_id, lessor, new_holder, true, NOW);
    assert_eq!(locked.err(), Some(NFTError::TransferDuringLock));
    let released = LessorRightsNFT::transfer_nft(Some(metadata), token_id, lessor, new_holder, false, NOW);
    assert!(released.is_ok());
}

#[test]
fn test_get_current_holder() {
    let lessor = acct(1);
    let lease = make_lease(lessor, acct(2));
    let (token_id, metadata) = mint_for(&lease, 5, lessor);
    assert_eq!(LessorRightsNFT::get_current_holder(Some(token_id), Some(&metadata)), Ok(lessor));
    assert_eq!(LessorRightsNFT::get_current_holder(None, Some(&metadata)), Err(NFTError::NFTNotFound));
}

#[test]
fn test_get_holder_nfts() {
    let lessor = acct(1);
    let lease = make_lease(lessor, acct(2));
    let mut holder_nfts: Vec<u128> = Vec::new();
    for i in 0..3u64 {
        let (token_id, _) = mint_for(&lease, 10 + i, lessor);
        holder_nfts.push(token_id);
    }
    assert_eq!(holder_nfts.len(), 3);
}

#[test]
fn test_nft_mint_refusals() {
    let lessor = acct(1);
    let mut lease = make_lease(lessor, acct(2));
    assert_eq!(
        LessorRightsNFT::mint_lessor_rights_token(None, 1, false, lessor, HASH, NOW).err(),
        Some(NFTError::LeaseNotFound)
    );
    assert_eq!(
        LessorRightsNFT::mint_lessor_rights_token(Some(&lease), 1, true, lessor, HASH, NOW).err(),
        Some(NFTError::NFTAlreadyExists)
    );
    lease.status = LeaseStatus::Terminated;
    assert!(!LessorRightsNFT::is_lease_tokenizable(&lease));
    assert_eq!(
        LessorRightsNFT::mint_lessor_rights_token(Some(&lease), 1, false, lessor, HASH, NOW).err(),
        Some(NFTError::InvalidLeaseState)
    );
    lease.status = LeaseStatus::Pending;
    assert!(LessorRightsNFT::is_lease_tokenizable(&lease));
}

#[test]
fn test_nft_transfer_refusals() {
    let lessor = acct(1);
    let lease = make_lease(lessor, acct(2));
    let (token_id, metadata) = mint_for(&lease, 6, lessor);
    assert_eq!(
        LessorRightsNFT::transfer_nft(None, token_id, lessor, acct(3), false, NOW).err(),
        Some(NFTError::NFTNotFound)
    );
    assert_eq!(
        LessorRightsNFT::transfer_nft(Some(metadata), token_id, acct(9), acct(3), false, NOW).err(),
        Some(NFTError::UnauthorizedTransfer)
    );
}

#[test]
fn test_yield_proration_formula() {
    let lessor = acct(1);
    let lease = make_lease(lessor, acct(2));
    let (_, mut metadata) = mint_for(&lease, 7, lessor);
    // A third of a cycle at 1000 a cycle accrues 333 (rounded toward zero).
    let p = LessorRightsNFT::calculate_yield_proration(&metadata, NOW + BILLING_CYCLE_SECONDS / 3);
    assert_eq!(p.accrued_rent, 333);
    assert_eq!(p.time_elapsed, BILLING_CYCLE_SECONDS / 3);
    // Before the cycle starts nothing has accrued.
    let early = LessorRightsNFT::calculate_yield_proration(&metadata, NOW - 10);
    assert_eq!(early.accrued_rent, 0);
    assert_eq!(early.billing_cycle_remaining, BILLING_CYCLE_SECONDS);
    // Past a whole cycle nothing remains and accrual keeps growing.
    let late = LessorRightsNFT::calculate_yield_proration(&metadata, NOW + 2 * BILLING_CYCLE_SECONDS);
    assert_eq!(late.billing_cycle_remaining, 0);
    assert_eq!(late.accrued_rent, 2000);
    // A negative rent rounds toward zero.
    metadata.monthly_rent = -1000;
    let neg = LessorRightsNFT::calculate_yield_proration(&metadata, NOW + BILLING_CYCLE_SECONDS / 3);
    assert_eq!(neg.accrued_rent, -333);
}

#[test]
fn test_purpose_validity() {
    let mut lease = make_lease(acct(1), acct(2));
    assert!(LessorRightsNFT::verify_purpose_validity(Some(&lease), VerificationPurpose::Buyout).is_ok());
    assert_eq!(
        LessorRightsNFT::verify_purpose_validity(Some(&lease), VerificationPurpose::DepositRefund),
        Err(NFTError::InvalidLeaseState)
    );
    lease.status = LeaseStatus::Expired;
    assert!(LessorRightsNFT::verify_purpose_validity(Some(&lease), VerificationPurpose::Slashing).is_ok());
    assert!(LessorRightsNFT::verify_purpose_validity(Some(&lease), VerificationPurpose::Termination).is_ok());
    assert_eq!(
        LessorRightsNFT::verify_purpose_validity(Some(&lease), VerificationPurpose::RentPayment),
        Err(NFTError::InvalidLeaseState)
    );
    assert_eq!(
        LessorRightsNFT::verify_purpose_validity(None, VerificationPurpose::RentPayment),
        Err(NFTError::LeaseNotFound)
    );
    assert_eq!(NFTError::LeaseNotFound.code(), 2001);
    assert_eq!(NFTError::MetadataCorruption.code(), 2012);
}
