use leaseflow::solvency::{EscrowState, SolvencyError};
use proptest::test_runner::{Config, TestRunner};

#[test]
fn test_escrow_solvency_invariant_basic() {
    let mut state = EscrowState::new();
    state.apply_deposit(1000).unwrap();
    assert_eq!(state.total_escrowed, 1000);
    assert_eq!(state.active_deposits, 1000);
    assert_eq!(state.vault_total_locked(), 1000);
    assert_eq!(state.lease_count(), 1);

    state.apply_yield_accumulation(100).unwrap();
    assert_eq!(state.total_escrowed, 1000);
    assert_eq!(state.active_deposits, 900);
    assert_eq!(state.pending_yield, 100);

    state.apply_settlement(500, 400, 100).unwrap();
    assert_eq!(state.total_escrowed, 0);
    assert_eq!(state.vault_total_locked(), 0);
    assert_eq!(state.lease_count(), 0);
}

#[test]
fn test_dust_accounting_precision() {
    let mut state = EscrowState::new();
    state.apply_deposit(1001).unwrap();
    state.apply_settlement(334, 334, 333).unwrap();
    assert_eq!(state.total_escrowed, 0);
    assert_eq!(state.vault_total_locked(), 0);
}

#[test]
fn test_overflow_protection() {
    let mut state = EscrowState::new();
    let result = state.apply_deposit(i128::MAX - 1000);
    assert!(result.is_ok());
    let overflow_result = state.apply_deposit(2000);
    assert!(matches!(overflow_result, Err(SolvencyError::Overflow)));
}

#[test]
fn test_underflow_protection() {
    let mut state = EscrowState::new();
    state.apply_deposit(1000).unwrap();
    let result = state.apply_settlement(2000, 0, 0);
    assert!(matches!(result, Err(SolvencyError::Underflow)));
}

#[test]
fn test_solvency_errors_and_moves() {
    let mut state = EscrowState::new();
    assert_eq!(state.apply_deposit(-1), Err(SolvencyError::NegativeDeposit));
    assert_eq!(state.apply_yield_accumulation(-1), Err(SolvencyError::NegativeYield));
    assert_eq!(state.apply_dispute(-1), Err(SolvencyError::NegativeDispute));
    assert_eq!(state.apply_settlement(0, -1, 0), Err(SolvencyError::NegativeSettlement));
    state.apply_deposit(1000).unwrap();
    state.apply_dispute(300).unwrap();
    state.apply_yield_accumulation(200).unwrap();
    assert_eq!((state.active_deposits, state.pending_yield, state.disputed_funds), (500, 200, 300));
    // Settlement draws disputed funds, then pending yield, then active deposits.
    state.apply_settlement(400, 0, 0).unwrap();
    assert_eq!((state.active_deposits, state.pending_yield, state.disputed_funds), (500, 100, 0));
    // Yield beyond the active deposits leaves them negative and insolvent.
    assert_eq!(state.apply_yield_accumulation(600), Err(SolvencyError::NegativeValues));
    let mut mismatched = EscrowState::new();
    mismatched.total_escrowed = 5;
    assert!(matches!(mismatched.verify_solvency_invariant(), Err(SolvencyError::InvariantViolation { .. })));
    mismatched.active_deposits = 5;
    assert_eq!(
        mismatched.verify_solvency_invariant(),
        Err(SolvencyError::VaultMismatch { vault_total: 0, escrow_total: 5 })
    );
}

#[test]
fn test_deposit_sequence_totals() {
    let deposits = [17i128, 1, 999_999, 42, 5000];
    let mut state = EscrowState::new();
    let mut sum = 0i128;
    for (i, d) in deposits.iter().enumerate() {
        state.apply_deposit(*d).unwrap();
        sum += d;
        assert_eq!(state.total_escrowed, sum);
        assert_eq!(state.active_deposits, sum);
        assert_eq!(state.vault_total_locked(), sum);
        assert_eq!(state.lease_count() as usize, i + 1);
    }
}

fn check(cond: bool, what: &'static str) -> Result<(), proptest::test_runner::TestCaseError> {
    if cond { Ok(()) } else { Err(proptest::test_runner::TestCaseError::fail(what)) }
}

#[test]
fn run_property_based_tests() {

    // Escrow solvency through deposits, yield, disputes and settlements.
    let mut runner = TestRunner::new(Config::with_cases(200));
    runner
        .run(
            &(
               proptest::collection::vec(1i128..=1_000_000i128, 1..100),
               proptest::collection::vec(0u32..=10000u32, 1..100),
                proptest::bool::ANY,
               proptest::collection::vec(0i128..=500_000i128, 1..100),
               proptest::collection::vec(0u32..=10000u32, 1..100),
            ),
            |(deposit_amounts, yield_rates_bps, dispute_flags, dispute_amounts, settlement_ratios)| {
                let mut state = EscrowState::new();
                for (i, &amount) in deposit_amounts.iter().enumerate() {
                    state.apply_deposit(amount).unwrap();
                    state.verify_solvency_invariant().unwrap();
                    let expected_total: i128 = deposit_amounts[0..=i].iter().sum();
                    check(state.total_escrowed == expected_total, "total tracks deposits")?;
                    check(state.active_deposits == expected_total, "active tracks deposits")?;
                    check(state.vault_total_locked() == expected_total, "vault tracks deposits")?;
                    check(state.lease_count() as usize == i + 1, "lease count")?;
                }
                for (i, &yield_bps) in yield_rates_bps.iter().enumerate() {
                    if i < deposit_amounts.len() && yield_bps > 0 {
                        let yield_amount = deposit_amounts[i].checked_mul(yield_bps as i128).unwrap() / 10000i128;
                        if yield_amount > 0 && yield_amount <= state.active_deposits {
                            state.apply_yield_accumulation(yield_amount).unwrap();
                            check(state.total_escrowed == deposit_amounts.iter().sum::<i128>(), "yield keeps total")?;
                            check(state.vault_total_locked() == state.total_escrowed, "yield keeps vault")?;
                        }
                    }
                }
                if dispute_flags && !dispute_amounts.is_empty() {
                    for &dispute_amount in dispute_amounts.iter().take(5) {
                        if dispute_amount <= state.active_deposits + state.pending_yield {
                            let result = state.apply_dispute(dispute_amount.min(state.active_deposits + state.pending_yield));
                            if result.is_ok() {
                                state.verify_solvency_invariant().unwrap();
                            }
                        }
                    }
                }
                for (i, &ratio) in settlement_ratios.iter().enumerate() {
                    if state.total_escrowed > 0 && i < 10 {
                        let total_to_settle = state.total_escrowed.checked_div(10).unwrap_or(1);
                        let landlord_share = total_to_settle.checked_mul(ratio as i128).unwrap() / 10000i128;
                        let tenant_share = total_to_settle.checked_sub(landlord_share).unwrap_or(0);
                        if tenant_share + landlord_share <= state.total_escrowed {
                            let result = state.apply_settlement(tenant_share, landlord_share, 0);
                            if result.is_ok() {
                                state.verify_solvency_invariant().unwrap();
                            }
                        }
                    }
                }
                state.verify_solvency_invariant().unwrap();
                Ok(())
            },
        )
        .unwrap();

    // Integer division never creates tokens, and rounding up covers the numerator.
    let mut runner = TestRunner::new(Config::with_cases(500));
    runner
        .run(&(1i128..=i128::MAX, 1i128..=i128::MAX, 0u32..=10000u32), |(numerator, denominator, bps)| {
            let truncated = numerator / denominator;
            check(truncated * denominator <= numerator, "phantom tokens")?;
            let bps_result = numerator.checked_mul(bps as i128).unwrap_or(i128::MAX) / 10000i128;
            check(bps_result <= numerator, "bps exceeds numerator")?;
            let remainder = numerator % denominator;
            let ceiling = if remainder > 0 { truncated + 1 } else { truncated };
            check(ceiling >= truncated, "ceiling below floor")?;
            check((ceiling as i128).checked_mul(denominator).map_or(true, |p| p >= numerator), "ceiling too small")?;
            Ok(())
        })
        .unwrap();

    // Multi-signer refunds: the last signer takes the dust, so nothing is lost.
    let mut runner = TestRunner::new(Config::with_cases(500));
    runner
        .run(&(1i128..=1_000_000i128, 2u32..=10u32,proptest::collection::vec(0u32..=10000u32, 2..=10)), |(total_amount, signer_count, split_ratios)| {
            let actual_signers = signer_count.min(split_ratios.len() as u32) as usize;
            let used_ratios = &split_ratios[0..actual_signers];
            let mut shares: Vec<i128> = Vec::new();
            let mut allocated_sum = 0i128;
            for (i, &ratio) in used_ratios.iter().enumerate() {
                let share = if i == actual_signers - 1 {
                    total_amount - allocated_sum
                } else {
                    total_amount.checked_mul(ratio as i128).unwrap() / 10000i128
                };
                shares.push(share);
                allocated_sum = allocated_sum.checked_add(share).unwrap();
            }
            check(shares.iter().sum::<i128>() == total_amount, "dust lost")?;
            Ok(())
        })
        .unwrap();

    // Extreme values fail safely and leave the invariant intact.
    let mut runner = TestRunner::new(Config::with_cases(200));
    runner
        .run(&(proptest::option::of(0i128..=i128::MAX), 1usize..=1000usize), |(amount, iterations)| {
            let mut state = EscrowState::new();
            if let Some(amt) = amount {
                let result = state.apply_deposit(amt);
                if amt == i128::MAX {
                    check(result.is_ok() || matches!(result, Err(SolvencyError::Overflow)), "max deposit")?;
                }
                for _ in 0..iterations.min(100) {
                    if state.total_escrowed > 0 {
                        let yield_amount = state.active_deposits.checked_div(1000).unwrap_or(1);
                        let _ = state.apply_yield_accumulation(yield_amount);
                        state.verify_solvency_invariant().unwrap();
                    }
                }
            }
            let zero_result = state.apply_deposit(0);
            check(zero_result.is_ok() || matches!(zero_result, Err(SolvencyError::NegativeDeposit)), "zero deposit")?;
            for i in 0..iterations.min(50) {
                let small_amount = (i as i128 + 1) * 1000;
                if state.apply_deposit(small_amount).is_ok() {
                    state.verify_solvency_invariant().unwrap();
                }
            }
            Ok(())
        })
        .unwrap();
}
