use leaseflow::escrow::{
    calculate_settlement_dust, calculate_settlement_sources, safe_add, safe_mul, safe_sub, simulate_soroban_precision_loss,
    EscrowInvariant, InvariantViolation,
};

#[test]
fn test_core_invariant_basic() {
    let mut invariant = EscrowInvariant::new();

    invariant.apply_lease_creation(1000).unwrap();
    assert_eq!(invariant.total_escrowed, 1000);
    assert_eq!(invariant.active_deposits, 1000);
    assert_eq!(invariant.vault_total_locked, 1000);
    assert_eq!(invariant.lease_count, 1);

    invariant.apply_yield_accumulation(100).unwrap();
    assert_eq!(invariant.total_escrowed, 1000);
    assert_eq!(invariant.active_deposits, 900);
    assert_eq!(invariant.pending_yield, 100);

    invariant.apply_lease_settlement(600, 300, 100).unwrap();
    assert_eq!(invariant.total_escrowed, 0);
    assert_eq!(invariant.vault_total_locked, 0);
    assert_eq!(invariant.lease_count, 0);
}

#[test]
fn test_dust_accounting() {
    let mut invariant = EscrowInvariant::new();
    invariant.apply_lease_creation(1001).unwrap();
    invariant.apply_lease_settlement(334, 334, 333).unwrap();
    assert_eq!(invariant.total_escrowed, 0);
    assert_eq!(invariant.dust_cumulative, 0);
}

#[test]
fn test_mutual_release_math() {
    let mut invariant = EscrowInvariant::new();
    invariant.apply_lease_creation(1000).unwrap();
    invariant.apply_yield_accumulation(200).unwrap();
    // Mutual release must account for all funds.
    invariant.apply_mutual_release(600, 600).unwrap();
    assert_eq!(invariant.total_escrowed, 0);
}

#[test]
fn test_mutual_release_must_account_for_yield() {
    let mut invariant = EscrowInvariant::new();
    invariant.apply_lease_creation(1000).unwrap();
    invariant.apply_yield_accumulation(200).unwrap();
    let before = invariant;
    assert_eq!(
        invariant.apply_mutual_release(600, 400),
        Err(InvariantViolation::MutualReleaseMathMismatch {
            expected_total: 1200,
            release_total: 1000,
            return_amount: 600,
            slash_amount: 400,
        })
    );
    assert_eq!(invariant, before);
    // Without accrued yield the release is exactly what is escrowed.
    let mut plain = EscrowInvariant::new();
    plain.apply_lease_creation(1000).unwrap();
    assert_eq!(plain.apply_mutual_release(700, 300), Ok(()));
    assert_eq!(plain.total_escrowed, 0);
    assert_eq!(plain.vault_total_locked, 0);
    assert_eq!(plain.lease_count, 0);
}

#[test]
fn test_partial_slashing_truncation() {
    let mut invariant = EscrowInvariant::new();
    invariant.apply_lease_creation(1000).unwrap();
    // 33.33% of 1000 is 333.3: 333 is slashed and the dropped fraction is dust.
    invariant.apply_partial_slashing(3333).unwrap();
    assert!(invariant.dust_cumulative > 0);
    assert!(invariant.total_escrowed < 1000);
    assert_eq!(invariant.total_escrowed, 667);
    assert_eq!(invariant.active_deposits, 667);
    assert_eq!(invariant.dust_cumulative, 1);
    // A slash that is a whole number of units leaves no dust.
    let mut exact = EscrowInvariant::new();
    exact.apply_lease_creation(1000).unwrap();
    exact.apply_partial_slashing(2500).unwrap();
    assert_eq!(exact.total_escrowed, 750);
    assert_eq!(exact.dust_cumulative, 0);
    assert_eq!(invariant.apply_partial_slashing(10001), Err(InvariantViolation::InvalidSlashPercentage(10001)));

    // Uneven components: the rounded-down component slashes fall short of the
    // slash, the sums no longer match, and the failed slash leaves the escrow
    // as it was.
    let mut uneven = EscrowInvariant::new();
    uneven.apply_lease_creation(1001).unwrap();
    uneven.apply_yield_accumulation(501).unwrap();
    let before = uneven;
    let r = uneven.apply_partial_slashing(3333);
    assert!(matches!(r, Err(InvariantViolation::CoreInvariantViolated { .. })));
    assert_eq!(uneven, before);
    assert_eq!(uneven.total_escrowed, 1001);

    // An empty escrow is left as it is.
    let mut empty = EscrowInvariant::new();
    assert_eq!(empty.apply_partial_slashing(5000), Ok(()));
    assert_eq!(empty, EscrowInvariant::new());
}

#[test]
fn test_escrow_error_variants() {
    let mut inv = EscrowInvariant::new();
    assert_eq!(inv.apply_lease_creation(-1), Err(InvariantViolation::NegativeDepositAmount(-1)));
    assert_eq!(inv.apply_yield_accumulation(-1), Err(InvariantViolation::NegativeYieldAmount(-1)));
    assert_eq!(inv.apply_dispute_initiation(-1), Err(InvariantViolation::NegativeDisputeAmount(-1)));
    assert_eq!(
        inv.apply_yield_accumulation(1),
        Err(InvariantViolation::InsufficientActiveDeposits { requested: 1, available: 0 })
    );
    assert_eq!(
        inv.apply_dispute_initiation(1),
        Err(InvariantViolation::InsufficientFundsForDispute { requested: 1, available: 0 })
    );
    assert_eq!(
        inv.apply_lease_settlement(-1, 0, 0),
        Err(InvariantViolation::NegativeSettlementAmounts { tenant_refund: -1, landlord_payout: 0, protocol_fee: 0 })
    );
    assert_eq!(
        inv.apply_lease_settlement(1, 0, 0),
        Err(InvariantViolation::InsufficientFundsForSettlement { requested: 1, available: 0 })
    );
    assert_eq!(
        inv.apply_mutual_release(-1, 1),
        Err(InvariantViolation::NegativeReleaseAmounts { return_amount: -1, slash_amount: 1 })
    );
    // A zero deposit counts a lease on an empty escrow.
    assert_eq!(
        inv.apply_lease_creation(0),
        Err(InvariantViolation::LeaseCountMismatch { lease_count: 1, total_escrowed: 0 })
    );

    let mut broken = EscrowInvariant::new();
    broken.total_escrowed = 10;
    assert!(matches!(broken.verify_core_invariant(), Err(InvariantViolation::CoreInvariantViolated { .. })));
    broken.active_deposits = 10;
    assert_eq!(
        broken.verify_core_invariant(),
        Err(InvariantViolation::VaultSynchronizationLost { vault_recorded: 0, invariant_total: 10 })
    );
    let mut negative = EscrowInvariant::new();
    negative.active_deposits = -5;
    negative.pending_yield = 5;
    assert!(matches!(negative.verify_core_invariant(), Err(InvariantViolation::NegativeComponentValues { .. })));
    let mut overflow = EscrowInvariant::new();
    overflow.active_deposits = i128::MAX;
    overflow.pending_yield = 1;
    assert_eq!(overflow.verify_core_invariant(), Err(InvariantViolation::CalculationOverflow));

    let mut comp = EscrowInvariant::new();
    comp.total_escrowed = 10;
    comp.vault_total_locked = 10;
    comp.active_deposits = 4;
    assert_eq!(
        comp.apply_mutual_release(5, 5),
        Err(InvariantViolation::ComponentSumMismatch { expected_sum: 10, actual_sum: 4, active: 4, pending: 0, disputed: 0 })
    );
    let mut big = EscrowInvariant::new();
    big.total_escrowed = i128::MAX;
    big.vault_total_locked = i128::MAX;
    big.active_deposits = i128::MAX;
    assert_eq!(
        big.apply_partial_slashing(2),
        Err(InvariantViolation::CalculationOverflow)
    );
    let mut neg = EscrowInvariant::new();
    neg.total_escrowed = -10000;
    assert_eq!(
        neg.apply_partial_slashing(5000),
        Err(InvariantViolation::SlashExceedsTotal { slash_amount: -5000, total_escrowed: -10000 })
    );
}

#[test]
fn test_dispute_takes_pending_first() {
    let mut inv = EscrowInvariant::new();
    inv.apply_lease_creation(1000).unwrap();
    inv.apply_yield_accumulation(300).unwrap();
    inv.apply_dispute_initiation(400).unwrap();
    assert_eq!(inv.pending_yield, 0);
    assert_eq!(inv.active_deposits, 600);
    assert_eq!(inv.disputed_funds, 400);
    assert_eq!(inv.total_escrowed, 1000);
    // Settlement draws disputed funds first.
    inv.apply_lease_settlement(300, 0, 0).unwrap();
    assert_eq!(inv.disputed_funds, 100);
    assert_eq!(inv.active_deposits, 600);
    assert_eq!(inv.dust_cumulative, 700);
}

#[test]
fn test_precision_loss_tracking() {
    let mut inv = EscrowInvariant::new();
    inv.apply_lease_creation(5_000_000).unwrap();
    assert_eq!(inv.precision_loss_cumulative, 5);
    inv.apply_yield_accumulation(2_000_000).unwrap();
    assert_eq!(inv.precision_loss_cumulative, 7);
    assert_eq!(simulate_soroban_precision_loss(999_999), 0);
    assert_eq!(simulate_soroban_precision_loss(-5_000_000), 0);
}

#[test]
fn test_invariant_report() {
    let mut inv = EscrowInvariant::new();
    inv.apply_lease_creation(1000).unwrap();
    let report = inv.get_invariant_report();
    assert_eq!(report.component_sum, 1000);
    assert!(report.invariant_holds && report.vault_synchronized && report.all_components_non_negative);
    inv.active_deposits = i128::MAX;
    inv.pending_yield = 1;
    let report = inv.get_invariant_report();
    assert_eq!(report.component_sum, i128::MIN);
    assert!(!report.invariant_holds);
}

#[test]
fn test_safe_arithmetic_and_sources() {
    assert_eq!(safe_add(i128::MAX, 1), Err(InvariantViolation::CalculationOverflow));
    assert_eq!(safe_sub(i128::MIN, 1), Err(InvariantViolation::CalculationOverflow));
    assert_eq!(safe_mul(i128::MAX, 2), Err(InvariantViolation::CalculationOverflow));
    assert_eq!(safe_add(2, 3), Ok(5));
    assert_eq!(safe_sub(2, 3), Ok(-1));
    assert_eq!(safe_mul(-2, 3), Ok(-6));
    assert_eq!(calculate_settlement_sources(500, 100, 150, 1000), (100, 150, 250));
    assert_eq!(calculate_settlement_sources(500, 100, 150, 200), (100, 150, 200));
    assert_eq!(calculate_settlement_dust(600, 1000), 400);
    assert_eq!(calculate_settlement_dust(1000, 1000), 0);
}
