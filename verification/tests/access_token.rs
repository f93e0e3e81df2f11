use leaseflow::access_token::{
    AccessError, AccessLevel, AssetType, LesseeAccessToken, LesseeAccessTokenManager, RevocationReason,
};
use leaseflow::types::{AccountId, DepositStatus, LeaseInstance, LeaseStatus, MaintenanceStatus};

const NOW: u64 = 1_700_000_000;
const MONTH: u64 = 30 * 24 * 60 * 60;

fn acct(id: u64) -> AccountId {
    AccountId { id }
}

fn make_lease(landlord: AccountId, tenant: AccountId) -> LeaseInstance {
    LeaseInstance {
        landlord,
        tenant,
        rent_amount: 1000,
        deposit_amount: 500,
        security_deposit: 200,
        start_date: NOW,
        end_date: NOW + MONTH,
        property_uri: String::from("test_property"),
        status: LeaseStatus::Active,
        nft_contract: None,
        token_id: None,
        active: true,
        rent_paid: 0,
        expiry_time: NOW + MONTH,
        buyout_price: None,
        cumulative_payments: 0,
        debt: 0,
        rent_paid_through: NOW,
        deposit_status: DepositStatus::Held,
        rent_per_sec: 0,
        grace_period_end: NOW + MONTH,
        late_fee_flat: 0,
        late_fee_per_sec: 0,
        flat_fee_applied: false,
        seconds_late_charged: 0,
        withdrawal_address: None,
        rent_withdrawn: 0,
        arbitrators: Vec::new(),
        maintenance_status: MaintenanceStatus::NoIssue,
        withheld_rent: 0,
        repair_proof_hash: None,
        inspector: None,
        paused: false,
        pause_reason: None,
        paused_at: None,
        pause_initiator: None,
        total_paused_duration: 0,
        rent_pull_authorized_amount: None,
        last_rent_pull_timestamp: None,
        billing_cycle_duration: MONTH,
        yield_delegation_enabled: false,
        yield_accumulated: 0,
        equity_balance: 0,
        equity_percentage_bps: 0,
        had_late_payment: false,
        has_pet: false,
        pet_deposit_amount: 0,
        pet_rent_amount: 0,
        payment_token: acct(900),
    }
}

fn mint(lease_id: u64, asset: &str, asset_type: AssetType, level: AccessLevel, transferable: bool) -> (u128, LesseeAccessToken) {
    let lease = make_lease(acct(1), acct(2));
    LesseeAccessTokenManager::mint_lessee_access_token(
        Some(&lease),
        lease_id,
        false,
        String::from(asset),
        asset_type,
        level,
        transferable,
        NOW,
    )
    .unwrap()
}

#[test]
fn test_mint_lessee_access_token() {
    let lessee = acct(2);
    let mut lease = make_lease(acct(1), lessee);
    let lease_id = 1u64;
    let (token_id, token) = LesseeAccessTokenManager::mint_lessee_access_token(
        Some(&lease),
        lease_id,
        false,
        String::from("smart_lock_123"),
        AssetType::IoT,
        AccessLevel::Full,
        false,
        NOW,
    )
    .unwrap();
    assert_eq!(token.lease_id, lease_id);
    assert_eq!(token.lessee, lessee);
    assert_eq!(token.asset_identifier, "smart_lock_123");
    assert_eq!(token.asset_type, AssetType::IoT);
    assert_eq!(token.access_level, AccessLevel::Full);
    assert!(!token.transferable);
    assert!(!token.revoked);
    assert_eq!(token.expiration_timestamp, NOW + MONTH);

    let contract = acct(777);
    LesseeAccessTokenManager::link_lease_to_token(&mut lease, contract, token_id);
    assert_eq!(lease.nft_contract, Some(contract));
    assert_eq!(lease.token_id, Some(token_id));
}

#[test]
fn test_access_token_verification() {
    let (token_id, token) = mint(2, "door_lock_456", AssetType::Physical, AccessLevel::Full, true);
    let (response, recorded) = LesseeAccessTokenManager::verify_access_token(Some(token), token_id, NOW).unwrap();
    assert!(response.is_valid);
    assert_eq!(response.lessee, acct(2));
    assert_eq!(response.asset_identifier, "door_lock_456");
    assert_eq!(response.access_level, AccessLevel::Full);
    assert!(response.transferable);
    assert!(response.remaining_time > 0);
    assert_eq!(response.remaining_time, MONTH);
    assert_eq!(recorded.verification_count, 1);
    assert_eq!(recorded.last_verified, NOW);
}

#[test]
fn test_access_token_revocation() {
    let (token_id, token) = mint(3, "server_789", AssetType::Digital, AccessLevel::Limited, false);
    let revoked = LesseeAccessTokenManager::revoke_access_token(Some(token), RevocationReason::LeaseTerminated, NOW + 10).unwrap();
    assert!(revoked.revoked);
    assert!(matches!(revoked.revocation_reason, Some(RevocationReason::LeaseTerminated)));
    assert_eq!(revoked.revoked_at, Some(NOW + 10));

    let (response, _) = LesseeAccessTokenManager::verify_access_token(Some(revoked), token_id, NOW + 20).unwrap();
    assert!(!response.is_valid);
}

#[test]
fn test_access_token_transfer() {
    let lessee = acct(2);
    let sublessee = acct(3);
    let (token_id, token) = mint(4, "car_key_101", AssetType::Physical, AccessLevel::Full, true);
    let moved = LesseeAccessTokenManager::transfer_access_token(Some(token), lessee, sublessee, NOW).unwrap();
    assert_eq!(moved.lessee, sublessee);
    assert_eq!(moved.transfer_count, 1);

    let lessee_tokens = vec![token_id, 99];
    let mut sublessee_tokens: Vec<u128> = Vec::new();
    let remaining = LesseeAccessTokenManager::move_token(&lessee_tokens, &mut sublessee_tokens, token_id);
    assert!(!remaining.contains(&token_id));
    assert_eq!(remaining, vec![99]);
    assert!(sublessee_tokens.contains(&token_id));
}

#[test]
fn test_access_token_renewal() {
    let (_, token) = mint(5, "vpn_access_202", AssetType::Digital, AccessLevel::TimeBased, false);
    let original_expiration = token.expiration_timestamp;
    let new_expiration = original_expiration + MONTH;
    let renewed = LesseeAccessTokenManager::renew_access_token(Some(token), new_expiration).unwrap();
    assert_eq!(renewed.expiration_timestamp, new_expiration);
    assert!(renewed.expiration_timestamp > original_expiration);
}

#[test]
fn test_non_transferable_token() {
    let lessee = acct(2);
    let (_, token) = mint(6, "exclusive_access_303", AssetType::Hybrid, AccessLevel::Conditional, false);
    let result = LesseeAccessTokenManager::transfer_access_token(Some(token.clone()), lessee, acct(3), NOW);
    assert_eq!(result.err(), Some(AccessError::TransferNotAllowed));
    assert_eq!(token.lessee, lessee);
    assert_eq!(token.transfer_count, 0);
}

#[test]
fn test_lease_state_change_revocation() {
    let (_, token) = mint(7, "storage_unit_404", AssetType::Physical, AccessLevel::Full, true);
    let reason = LesseeAccessTokenManager::revocation_for_status(LeaseStatus::Terminated).unwrap();
    let revoked = LesseeAccessTokenManager::revoke_access_token(Some(token), reason, NOW).unwrap();
    assert!(revoked.revoked);
    assert!(matches!(revoked.revocation_reason, Some(RevocationReason::LeaseTerminated)));
    assert!(LesseeAccessTokenManager::revocation_for_status(LeaseStatus::Active).is_none());
    assert!(matches!(
        LesseeAccessTokenManager::revocation_for_status(LeaseStatus::Disputed),
        Some(RevocationReason::LeaseDisputed)
    ));
}

#[test]
fn test_get_tokens_by_lessee_and_asset() {
    let mut lessee_tokens: Vec<u128> = Vec::new();
    let mut asset_one_tokens: Vec<u128> = Vec::new();
    for i in 0..3u64 {
        let asset = format!("asset_{}", i);
        let (token_id, token) = mint(10 + i, &asset, AssetType::IoT, AccessLevel::Full, true);
        lessee_tokens.push(token_id);
        if token.asset_identifier == "asset_1" {
            asset_one_tokens.push(token_id);
        }
    }
    assert_eq!(lessee_tokens.len(), 3);
    assert_eq!(asset_one_tokens.len(), 1);
}

#[test]
fn test_token_id_layout_and_uniqueness() {
    let id = LesseeAccessTokenManager::generate_unique_token_id(7, 1234);
    assert_eq!(id, (7u128 << 64) | 1234);
    assert_eq!(id, 7u128 * (1u128 << 64) + 1234);
    assert_ne!(
        LesseeAccessTokenManager::generate_unique_token_id(1, 0),
        LesseeAccessTokenManager::generate_unique_token_id(0, 1)
    );
    assert_eq!(LesseeAccessTokenManager::generate_unique_token_id(u64::MAX, u64::MAX), u128::MAX);
}

#[test]
fn test_mint_refusals() {
    let mut lease = make_lease(acct(1), acct(2));
    let mint_with = |lease: Option<&LeaseInstance>, exists: bool| {
        LesseeAccessTokenManager::mint_lessee_access_token(
            lease,
            1,
            exists,
            String::from("lock"),
            AssetType::IoT,
            AccessLevel::Full,
            false,
            NOW,
        )
        .err()
    };
    assert_eq!(mint_with(None, false), Some(AccessError::LeaseNotFound));
    assert_eq!(mint_with(Some(&lease), true), Some(AccessError::TokenAlreadyExists));
    lease.deposit_status = DepositStatus::Disputed;
    assert_eq!(mint_with(Some(&lease), false), Some(AccessError::InvalidLeaseState));
    lease.deposit_status = DepositStatus::Held;
    lease.status = LeaseStatus::Pending;
    assert_eq!(mint_with(Some(&lease), false), Some(AccessError::InvalidLeaseState));
}

#[test]
fn test_transfer_refusals_and_validity() {
    let lessee = acct(2);
    let (_, token) = mint(8, "gate", AssetType::IoT, AccessLevel::Full, true);
    assert_eq!(
        LesseeAccessTokenManager::transfer_access_token(None, lessee, acct(3), NOW).err(),
        Some(AccessError::TokenNotFound)
    );
    assert_eq!(
        LesseeAccessTokenManager::transfer_access_token(Some(token.clone()), acct(9), acct(3), NOW).err(),
        Some(AccessError::UnauthorizedTransfer)
    );
    assert_eq!(
        LesseeAccessTokenManager::transfer_access_token(Some(token.clone()), lessee, acct(3), NOW + MONTH + 1).err(),
        Some(AccessError::TokenExpired)
    );
    let revoked = LesseeAccessTokenManager::revoke_access_token(Some(token.clone()), RevocationReason::CourtOrder, NOW).unwrap();
    assert_eq!(
        LesseeAccessTokenManager::transfer_access_token(Some(revoked.clone()), lessee, acct(3), NOW).err(),
        Some(AccessError::TokenRevoked)
    );
    assert_eq!(
        LesseeAccessTokenManager::renew_access_token(Some(revoked), NOW + 2 * MONTH).err(),
        Some(AccessError::TokenRevoked)
    );
    assert_eq!(LesseeAccessTokenManager::renew_access_token(None, NOW).err(), Some(AccessError::TokenNotFound));
    assert_eq!(
        LesseeAccessTokenManager::revoke_access_token(None, RevocationReason::Other(String::from("x")), NOW).err(),
        Some(AccessError::TokenNotFound)
    );
    assert_eq!(
        LesseeAccessTokenManager::verify_access_token(None, 1, NOW).err(),
        Some(AccessError::TokenNotFound)
    );
    assert!(LesseeAccessTokenManager::is_token_valid(&token, NOW + MONTH));
    assert!(!LesseeAccessTokenManager::is_token_valid(&token, NOW + MONTH + 1));
    assert_eq!(LesseeAccessTokenManager::remaining_time(NOW + 5, NOW), 5);
    assert_eq!(LesseeAccessTokenManager::remaining_time(NOW, NOW + 5), 0);
    assert_eq!(LesseeAccessTokenManager::token_ttl(NOW + 100, NOW), 100);
}

#[test]
fn test_access_error_codes() {
    assert_eq!(AccessError::LeaseNotFound.code(), 5001);
    assert_eq!(AccessError::TransferNotAllowed.code(), 5008);
    assert_eq!(AccessError::CrossContractCallFailed.code(), 5014);
}
