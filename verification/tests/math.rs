use leaseflow::math::{calculate_deposit_split, calculate_total_cost, saturating_mul_i128, saturating_sub_i128};
use proptest::test_runner::{Config, TestCaseError, TestRunner};

#[test]
fn test_deposit_split_always_equals_total() {
    let mut runner = TestRunner::new(Config::with_cases(2000));
    runner
        .run(&(0..i128::MAX / 10000, 0..10000u32), |(total, bps)| {
            let result = calculate_deposit_split(total, bps);
            if result.is_none() {
                return Err(TestCaseError::fail("split overflowed"));
            }
            let (landlord, tenant) = result.unwrap();
            if landlord + tenant != total || landlord < 0 || tenant < 0 {
                return Err(TestCaseError::fail("conservation broken"));
            }
            if landlord != (total * bps as i128) / 10000 {
                return Err(TestCaseError::fail("landlord share not proportional"));
            }
            Ok(())
        })
        .unwrap();
}

#[test]
fn test_extreme_amounts_caught_by_checked_math() {
    let mut runner = TestRunner::new(Config::with_cases(2000));
    runner
        .run(&(i128::MAX - 10000..i128::MAX, 2..10000u32), |(total, bps)| {
            if calculate_deposit_split(total, bps).is_some() {
                return Err(TestCaseError::fail("overflow not reported"));
            }
            Ok(())
        })
        .unwrap();
    // At a single basis point the product still fits, so the split succeeds.
    let near_max = i128::MAX - 5000;
    assert_eq!(calculate_deposit_split(near_max, 1), Some((near_max / 10000, near_max - near_max / 10000)));
}

#[test]
fn test_deposit_split_examples() {
    assert_eq!(calculate_deposit_split(1000, 2500), Some((250, 750)));
    assert_eq!(calculate_deposit_split(1001, 5000), Some((500, 501)));
    // Basis points are capped at 100%.
    assert_eq!(calculate_deposit_split(1000, 20000), Some((1000, 0)));
    assert_eq!(calculate_deposit_split(1000, 0), Some((0, 1000)));
    // Negative deposits round toward zero and still add up.
    assert_eq!(calculate_deposit_split(-1001, 5000), Some((-500, -501)));
    assert_eq!(calculate_deposit_split(i128::MIN, 2), None);
}

#[test]
fn test_total_cost() {
    assert_eq!(calculate_total_cost(3600, 5), Some(18000));
    assert_eq!(calculate_total_cost(0, u64::MAX), Some(0));
    assert_eq!(calculate_total_cost(u64::MAX, 2), None);
}

#[test]
fn test_saturating_helpers() {
    assert_eq!(saturating_mul_i128(i128::MAX, 2), i128::MAX);
    assert_eq!(saturating_mul_i128(i128::MAX, -2), i128::MIN);
    assert_eq!(saturating_mul_i128(-3, 4), -12);
    assert_eq!(saturating_sub_i128(i128::MIN, 1), i128::MIN);
    assert_eq!(saturating_sub_i128(i128::MAX, -1), i128::MAX);
    assert_eq!(saturating_sub_i128(10, 3), 7);
}
