use leaseflow::access_token::{
    AccessError, AccessLevel, AssetType, LesseeAccessTokenManager, RevocationReason,
};
use leaseflow::iot::{
    AccessMethod, AccessUrgency, DeviceCapabilities, DeviceStatus, EncryptionLevel, IoTDeviceType,
    IoTIntegrationManager,
};
use leaseflow::types::{AccountId, DepositStatus, LeaseInstance, LeaseStatus, MaintenanceStatus};
use proptest::test_runner::{Config, TestCaseError, TestRunner};

const NOW: u64 = 1_700_000_000;
const DAY: u64 = 24 * 60 * 60;

fn acct(id: u64) -> AccountId {
    AccountId { id }
}

fn lease_for_days(landlord: AccountId, tenant: AccountId, days: u64) -> LeaseInstance {
    LeaseInstance {
        landlord,
        tenant,
        rent_amount: 1000,
        deposit_amount: 500,
        security_deposit: 200,
        start_date: NOW,
        end_date: NOW + days * DAY,
        property_uri: String::from("test_property"),
        status: LeaseStatus::Active,
        nft_contract: None,
        token_id: None,
        active: true,
        rent_paid: 0,
        expiry_time: NOW + days * DAY,
        buyout_price: None,
        cumulative_payments: 0,
        debt: 0,
        rent_paid_through: NOW,
        deposit_status: DepositStatus::Held,
        rent_per_sec: 0,
        grace_period_end: NOW + days * DAY,
        late_fee_flat: 0,
        late_fee_per_sec: 0,
        flat_fee_applied: false,
        seconds_late_charged: 0,
        withdrawal_address: None,
        rent_withdrawn: 0,
        arbitrators: Vec::new(),
        maintenance_status: MaintenanceStatus::NoIssue,
        withheld_rent: 0,
        repair_proof_hash: None,
        inspector: None,
        paused: false,
        pause_reason: None,
        paused_at: None,
        pause_initiator: None,
        total_paused_duration: 0,
        rent_pull_authorized_amount: None,
        last_rent_pull_timestamp: None,
        billing_cycle_duration: 30 * DAY,
        yield_delegation_enabled: false,
        yield_accumulated: 0,
        equity_balance: 0,
        equity_percentage_bps: 0,
        had_late_payment: false,
        has_pet: false,
        pet_deposit_amount: 0,
        pet_rent_amount: 0,
        payment_token: acct(900),
    }
}

fn check(cond: bool, what: &'static str) -> Result<(), TestCaseError> {
    if cond {
        Ok(())
    } else {
        Err(TestCaseError::fail(what))
    }
}

fn access_token_lifecycle_properties() {
    let mut runner = TestRunner::new(Config::with_cases(100));
    runner
        .run(
            &(1u64..=1000u64, 1u64..=365u64, proptest::bool::ANY, 0u32..=3u32, 0u32..=3u32, 1u32..=10u32),
            |(lease_id, duration_days, transferable, asset_type, access_level, num_verifications)| {
                let lessor = acct(1);
                let lessee = acct(2);
                let asset_type = match asset_type {
                    0 => AssetType::Physical,
                    1 => AssetType::Digital,
                    2 => AssetType::IoT,
                    _ => AssetType::Hybrid,
                };
                let access_level = match access_level {
                    0 => AccessLevel::Full,
                    1 => AccessLevel::Limited,
                    2 => AccessLevel::TimeBased,
                    _ => AccessLevel::Conditional,
                };
                let lease = lease_for_days(lessor, lessee, duration_days);
                let (token_id, mut token) = LesseeAccessTokenManager::mint_lessee_access_token(
                    Some(&lease),
                    lease_id,
                    false,
                    String::from("test_asset"),
                    asset_type,
                    access_level,
                    transferable,
                    NOW,
                )
                .unwrap();

                // A freshly minted token is live and belongs to the lessee.
                check(!token.revoked, "Token should not be revoked after minting")?;
                check(NOW <= token.expiration_timestamp, "Token should not be expired")?;
                check(token.lessee == lessee, "Token should belong to lessee")?;
                check(token.transfer_count == 0, "Transfer count should be zero initially")?;

                // Repeated verifications succeed.
                for _ in 0..num_verifications {
                    let (response, recorded) =
                        LesseeAccessTokenManager::verify_access_token(Some(token.clone()), token_id, NOW).unwrap();
                    check(response.is_valid, "Token should be valid during verification")?;
                    check(response.lessee == lessee, "Response should identify correct lessee")?;
                    token = recorded;
                }

                // Transfers succeed exactly for transferable tokens.
                let new_lessee = acct(3);
                let transferred = LesseeAccessTokenManager::transfer_access_token(Some(token.clone()), lessee, new_lessee, NOW);
                if transferable {
                    let updated = transferred.unwrap();
                    check(updated.lessee == new_lessee, "Token should belong to new lessee after transfer")?;
                    check(updated.transfer_count == 1, "Transfer count should increase")?;
                    token = updated;
                } else {
                    check(
                        transferred.err() == Some(AccessError::TransferNotAllowed),
                        "Transfer should fail if token is not transferable",
                    )?;
                }

                // Revocation sticks, and a revoked token no longer verifies.
                let revoked =
                    LesseeAccessTokenManager::revoke_access_token(Some(token), RevocationReason::LeaseTerminated, NOW)
                        .unwrap();
                check(revoked.revoked, "Token should be revoked")?;
                check(
                    matches!(revoked.revocation_reason, Some(RevocationReason::LeaseTerminated)),
                    "Revocation reason should be recorded",
                )?;
                let (response, _) = LesseeAccessTokenManager::verify_access_token(Some(revoked), token_id, NOW).unwrap();
                check(!response.is_valid, "Verification should fail for revoked token")?;
                Ok(())
            },
        )
        .unwrap();
}

fn iot_device_integration_properties() {
    let mut runner = TestRunner::new(Config::with_cases(100));
    runner
        .run(
            &(0u32..=8u32, proptest::bool::ANY, 0u32..=4u32, 1u32..=5u32, 0u32..=3u32),
            |(device_type, supports_remote, encryption_level, num_access_requests, urgency_level)| {
                let owner = acct(1);
                let device_type = match device_type {
                    0 => IoTDeviceType::SmartLock,
                    1 => IoTDeviceType::AccessGate,
                    2 => IoTDeviceType::SmartKey,
                    3 => IoTDeviceType::Biometric,
                    4 => IoTDeviceType::RFID,
                    5 => IoTDeviceType::QRCode,
                    6 => IoTDeviceType::NFC,
                    7 => IoTDeviceType::Bluetooth,
                    _ => IoTDeviceType::Hybrid,
                };
                let encryption_level = match encryption_level {
                    0 => EncryptionLevel::NoEncryption,
                    1 => EncryptionLevel::Basic,
                    2 => EncryptionLevel::Standard,
                    3 => EncryptionLevel::High,
                    _ => EncryptionLevel::Military,
                };
                let urgency = match urgency_level {
                    0 => AccessUrgency::Low,
                    1 => AccessUrgency::Medium,
                    2 => AccessUrgency::High,
                    _ => AccessUrgency::Critical,
                };
                let capabilities = DeviceCapabilities {
                    device_type,
                    supports_remote,
                    supports_offline: !supports_remote,
                    supports_audit: true,
                    supports_time_based: true,
                    supports_multi_user: false,
                    max_concurrent_access: 1,
                    battery_backup: true,
                    encryption_level,
                };

                // Registration succeeds and keeps what was registered.
                let device = IoTIntegrationManager::register_device(
                    false,
                    String::from("device_001"),
                    device_type,
                    owner,
                    String::from("Test Location"),
                    capabilities,
                    String::from("v1.0.0"),
                    String::from("v2.0"),
                    NOW,
                );
                check(device.is_ok(), "Device registration should succeed")?;
                let device = device.unwrap();
                check(device.device_type == device_type, "Device type should be preserved")?;
                check(device.owner == owner, "Device owner should be preserved")?;
                check(device.status == DeviceStatus::Online, "Device should be online after registration")?;

                // Health is reported while the device is online.
                let health = IoTIntegrationManager::perform_health_check(Some(&device), NOW);
                check(health.is_ok(), "Health check should succeed")?;
                let health = health.unwrap();
                check(health.device_id == device.device_id, "Health check should return correct device")?;
                check(health.is_online, "Device should be online")?;

                // Access requests without any token are refused.
                for _ in 0..num_access_requests {
                    let response = IoTIntegrationManager::process_access_request(
                        Some(&device),
                        AccessMethod::MobileApp,
                        urgency,
                        &Vec::new(),
                        NOW,
                        1,
                    );
                    check(response.is_err(), "An access request without a token should be refused")?;
                }

                // The owner can put the device into maintenance.
                let updated = IoTIntegrationManager::update_device_status(Some(device), DeviceStatus::Maintenance, owner, NOW);
                check(updated.is_ok(), "Device status update should succeed")?;
                check(updated.unwrap().0.status == DeviceStatus::Maintenance, "Device status should be updated")?;

                // Validity queries for an unknown token fail.
                let query = IoTIntegrationManager::query_token_validity(None, 12345, NOW);
                check(query.is_err(), "Query should fail for non-existent token")?;
                Ok(())
            },
        )
        .unwrap();
}

#[test]
fn lessee_access_token_tests_test_property_based_verification() {
    access_token_lifecycle_properties();
    iot_device_integration_properties();
}
