use leaseflow::contract::LeaseContract;
use leaseflow::nft::{LessorRightsNFT, LessorRightsNFTMetadata, BILLING_CYCLE_SECONDS};
use leaseflow::router::{RoutingError, YieldAccumulation};
use leaseflow::types::{AccountId, DepositStatus, LeaseError, LeaseInstance, LeaseStatus, MaintenanceStatus};

const NOW: u64 = 1_700_000_000;
const MONTH: u64 = 30 * 24 * 60 * 60;

fn acct(id: u64) -> AccountId {
    AccountId { id }
}

fn make_lease(landlord: AccountId, tenant: AccountId) -> LeaseInstance {
    LeaseInstance {
        landlord,
        tenant,
        rent_amount: 1000,
        deposit_amount: 500,
        security_deposit: 200,
        start_date: NOW,
        end_date: NOW + MONTH,
        property_uri: String::from("test_property"),
        status: LeaseStatus::Active,
        nft_contract: None,
        token_id: None,
        active: true,
        rent_paid: 0,
        expiry_time: NOW + MONTH,
        buyout_price: None,
        cumulative_payments: 0,
        debt: 0,
        rent_paid_through: NOW,
        deposit_status: DepositStatus::Held,
        rent_per_sec: 0,
        grace_period_end: NOW + MONTH,
        late_fee_flat: 0,
        late_fee_per_sec: 0,
        flat_fee_applied: false,
        seconds_late_charged: 0,
        withdrawal_address: None,
        rent_withdrawn: 0,
        arbitrators: Vec::new(),
        maintenance_status: MaintenanceStatus::NoIssue,
        withheld_rent: 0,
        repair_proof_hash: None,
        inspector: None,
        paused: false,
        pause_reason: None,
        paused_at: None,
        pause_initiator: None,
        total_paused_duration: 0,
        rent_pull_authorized_amount: None,
        last_rent_pull_timestamp: None,
        billing_cycle_duration: MONTH,
        yield_delegation_enabled: false,
        yield_accumulated: 0,
        equity_balance: 0,
        equity_percentage_bps: 0,
        had_late_payment: false,
        has_pet: false,
        pet_deposit_amount: 0,
        pet_rent_amount: 0,
        payment_token: acct(900),
    }
}

fn minted(lease: &LeaseInstance, lease_id: u64, lessor: AccountId) -> (u128, LessorRightsNFTMetadata) {
    let (token_id, metadata, _) =
        LessorRightsNFT::mint_lessor_rights_token(Some(lease), lease_id, false, lessor, [0u8; 32], NOW).unwrap();
    (token_id, metadata)
}

#[test]
fn test_nft_based_payment_routing() {
    let lessor = acct(1);
    let tenant = acct(2);
    let lease = make_lease(lessor, tenant);
    let lease_id = 1u64;
    let (token_id, metadata) = minted(&lease, lease_id, lessor);
    let routed = LeaseContract::pay_lease_rent_with_nft_routing(
        Some(&lease), lease_id, tenant, false, Some(token_id), Some(&metadata), None, None, 1000, NOW,
    )
    .unwrap();
    assert_eq!(routed.holder, lessor);
    assert!(routed.paid_by_tenant);
    assert_eq!(routed.accumulation.accumulated_yield, 1000);
    assert_eq!(routed.accumulation.payment_count, 1);
    assert_eq!(routed.payment_count, 1);
    let config = LeaseContract::get_payment_routing_config(None, lease_id, Some(token_id), Some(&metadata), NOW).unwrap();
    assert_eq!(config.current_holder, lessor);
    assert!(config.routing_enabled);
}

#[test]
fn lease_payment_router_test_deposit_refund_to_nft_holder() {
    let lessor = acct(1);
    let mut lease = make_lease(lessor, acct(2));
    let lease_id = 2u64;
    let (token_id, metadata) = minted(&lease, lease_id, lessor);
    lease.status = LeaseStatus::Terminated;
    let holder = LeaseContract::refund_deposit_to_nft_holder(Some(&lease), lease_id, Some(token_id), Some(&metadata), NOW).unwrap();
    assert_eq!(holder, lessor);
    lease.status = LeaseStatus::Active;
    assert_eq!(
        LeaseContract::refund_deposit_to_nft_holder(Some(&lease), lease_id, Some(token_id), Some(&metadata), NOW),
        Err(LeaseError::InvalidState)
    );
    assert_eq!(
        LeaseContract::refund_deposit_to_nft_holder(None, lease_id, Some(token_id), Some(&metadata), NOW),
        Err(LeaseError::LeaseNotFound)
    );
}

#[test]
fn lease_payment_router_test_mutual_release_with_nft_verification() {
    let lessor = acct(1);
    let tenant = acct(2);
    let mut lease = make_lease(lessor, tenant);
    let lease_id = 3u64;
    let (_, metadata) = minted(&lease, lease_id, lessor);
    let fin = LeaseContract::mutual_release_with_nft_verification(
        &mut lease, lease_id, tenant, lessor, Some(metadata.current_holder), 500, 200,
    )
    .unwrap();
    assert_eq!(fin.tenant_refund, 500);
    assert_eq!(fin.landlord_payout, 200);
    assert_eq!(lease.status, LeaseStatus::Terminated);
    assert_eq!(lease.deposit_status, DepositStatus::Settled);
    assert!(!lease.active);
}

#[test]
fn test_payment_routing_update_on_transfer() {
    let lessor = acct(1);
    let new_holder = acct(5);
    let lease = make_lease(lessor, acct(2));
    let lease_id = 4u64;
    let (token_id, metadata) = minted(&lease, lease_id, lessor);
    let (_, moved) = LessorRightsNFT::transfer_nft(Some(metadata), token_id, lessor, new_holder, false, NOW).unwrap();
    let acc = YieldAccumulation {
        lease_id,
        holder: lessor,
        accumulated_yield: 1000,
        accumulation_start: NOW,
        last_payment_timestamp: NOW,
        payment_count: 1,
    };
    let update = LeaseContract::update_payment_routing_on_nft_transfer(true, Some(&acc), lease_id, new_holder, NOW).unwrap();
    assert_eq!(update.config.current_holder, new_holder);
    assert_eq!(update.accumulation.holder, new_holder);
    assert_eq!(update.accumulation.accumulated_yield, 0);
    let config = LeaseContract::get_payment_routing_config(Some(update.config), lease_id, Some(token_id), Some(&moved), NOW).unwrap();
    assert_eq!(config.current_holder, new_holder);
}

#[test]
fn lease_payment_router_test_yield_accumulation_tracking() {
    let lessor = acct(1);
    let tenant = acct(2);
    let lease = make_lease(lessor, tenant);
    let lease_id = 5u64;
    let (token_id, metadata) = minted(&lease, lease_id, lessor);
    let mut acc: Option<YieldAccumulation> = None;
    let mut count: Option<u32> = None;
    for i in 0..3u64 {
        let routed = LeaseContract::pay_lease_rent_with_nft_routing(
            Some(&lease), lease_id, tenant, false, Some(token_id), Some(&metadata), acc, count, 1000, NOW + i,
        )
        .unwrap();
        acc = Some(routed.accumulation);
        count = Some(routed.payment_count);
    }
    let a = acc.unwrap();
    assert_eq!(a.accumulated_yield, 3000);
    assert_eq!(a.payment_count, 3);
    assert_eq!(a.accumulation_start, NOW);
    assert_eq!(a.last_payment_timestamp, NOW + 2);
    assert_eq!(count, Some(3));
    let config = LeaseContract::get_payment_routing_config(None, lease_id, Some(token_id), Some(&metadata), NOW).unwrap();
    assert!(config.yield_accumulation_start > 0);
}

#[test]
fn test_routing_refusals() {
    let lessor = acct(1);
    let tenant = acct(2);
    let mut lease = make_lease(lessor, tenant);
    let (token_id, metadata) = minted(&lease, 6, lessor);
    assert_eq!(
        LeaseContract::pay_lease_rent_with_nft_routing(None, 6, tenant, false, Some(token_id), Some(&metadata), None, None, 10, NOW).err(),
        Some(LeaseError::LeaseNotFound)
    );
    assert_eq!(
        LeaseContract::pay_lease_rent_with_nft_routing(Some(&lease), 6, acct(9), false, Some(token_id), Some(&metadata), None, None, 10, NOW).err(),
        Some(LeaseError::Unauthorised)
    );
    let by_roommate = LeaseContract::pay_lease_rent_with_nft_routing(
        Some(&lease), 6, acct(9), true, Some(token_id), Some(&metadata), None, Some(4), 10, NOW,
    )
    .unwrap();
    assert!(!by_roommate.paid_by_tenant);
    assert_eq!(by_roommate.payment_count, 5);
    assert_eq!(
        LeaseContract::pay_lease_rent_with_nft_routing(Some(&lease), 6, tenant, false, None, Some(&metadata), None, None, 10, NOW).err(),
        Some(LeaseError::InvalidState)
    );
    assert_eq!(
        LeaseContract::mutual_release_with_nft_verification(&mut lease, 6, acct(9), lessor, Some(lessor), 500, 200).err(),
        Some(LeaseError::Unauthorised)
    );
    assert_eq!(
        LeaseContract::mutual_release_with_nft_verification(&mut lease, 6, tenant, lessor, None, 500, 200).err(),
        Some(LeaseError::InvalidState)
    );
    assert_eq!(
        LeaseContract::mutual_release_with_nft_verification(&mut lease, 6, tenant, lessor, Some(acct(8)), 500, 200).err(),
        Some(LeaseError::Unauthorised)
    );
    assert_eq!(
        LeaseContract::mutual_release_with_nft_verification(&mut lease, 6, tenant, lessor, Some(lessor), 500, 100).err(),
        Some(LeaseError::InvalidReleaseMath)
    );
    assert_eq!(
        LeaseContract::mutual_release_with_nft_verification(&mut lease, 6, tenant, lessor, Some(lessor), 800, -100).err(),
        Some(LeaseError::InvalidReleaseMath)
    );
    assert_eq!(lease.status, LeaseStatus::Active);
    lease.status = LeaseStatus::Pending;
    assert_eq!(
        LeaseContract::mutual_release_with_nft_verification(&mut lease, 6, tenant, lessor, Some(lessor), 500, 200).err(),
        Some(LeaseError::LeaseNotFound)
    );
    assert_eq!(
        LeaseContract::update_payment_routing_on_nft_transfer(false, None, 6, acct(5), NOW).err(),
        Some(LeaseError::LeaseNotFound)
    );
    assert_eq!(
        LeaseContract::update_payment_routing_on_nft_transfer(true, None, 6, acct(5), NOW).err(),
        Some(LeaseError::InvalidState)
    );
    assert_eq!(LeaseError::InvalidState.code(), 29);
    assert_eq!(RoutingError::LeaseNotFound.code(), 3001);
    assert_eq!(RoutingError::PaymentRoutingDisabled.code(), 3008);
}

#[test]
fn test_proration_on_transfer() {
    let acc = YieldAccumulation {
        lease_id: 1,
        holder: acct(1),
        accumulated_yield: 1000,
        accumulation_start: NOW,
        last_payment_timestamp: NOW,
        payment_count: 1,
    };
    let quarter = LeaseContract::calculate_yield_proration_on_transfer(Some(&acc), NOW + BILLING_CYCLE_SECONDS / 4).unwrap();
    assert_eq!(quarter.proration_ratio, 2500);
    assert_eq!(quarter.proration_amount, 250);
    let full = LeaseContract::calculate_yield_proration_on_transfer(Some(&acc), NOW + 2 * BILLING_CYCLE_SECONDS).unwrap();
    assert_eq!(full.proration_ratio, 10000);
    assert_eq!(full.proration_amount, 1000);
    let none = LeaseContract::calculate_yield_proration_on_transfer(Some(&acc), NOW - 5).unwrap();
    assert_eq!(none.elapsed_time, 0);
    assert_eq!(none.proration_amount, 0);
    // 7 seconds is 7 * 10000 / 2592000 = 0 basis points.
    let tiny = LeaseContract::calculate_yield_proration_on_transfer(Some(&acc), NOW + 7).unwrap();
    assert_eq!(tiny.proration_ratio, 0);
    assert_eq!(
        LeaseContract::calculate_yield_proration_on_transfer(None, NOW).err(),
        Some(RoutingError::InsufficientYield)
    );
}
