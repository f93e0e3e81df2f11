use leaseflow::division::{DivisionSafety, DivisionSafetyError};

/// Truncation loss of a basis-point division, measured in floating point.
fn bps_loss(amount: i128, bps: u32, result: i128) -> i128 {
    let exact = amount as f64 * (bps as f64 / 10000.0);
    (exact - result as f64) as i128
}

/// Truncation loss of a ratio division, measured in floating point.
fn ratio_loss(numerator: i128, denominator: i128, result: i128) -> i128 {
    let exact = numerator as f64 / denominator as f64;
    (exact - result as f64) as i128
}

fn bps(safety: &mut DivisionSafety, amount: i128, bps: u32) -> Result<i128, DivisionSafetyError> {
    let result = DivisionSafety::bps_division_result(amount, bps)?;
    let loss = bps_loss(amount, bps, result);
    safety.record_bps_division(amount, bps, result, loss)
}

fn ratio(safety: &mut DivisionSafety, numerator: i128, denominator: i128) -> Result<i128, DivisionSafetyError> {
    let result = DivisionSafety::ratio_division_result(numerator, denominator)?;
    let loss = ratio_loss(numerator, denominator, result);
    safety.record_ratio_division(numerator, denominator, result, loss)
}

#[test]
fn test_basic_division_safety() {
    let mut safety = DivisionSafety::new();
    let result = bps(&mut safety, 1000, 5000);
    assert!(result.is_ok());
    assert_eq!(result.unwrap(), 500);

    let result = ratio(&mut safety, 1000, 3);
    assert!(result.is_ok());
    assert_eq!(result.unwrap(), 333);

    let result = safety.verify_fixed_point_division_safety(1000, 100);
    assert!(result.is_ok());
    assert_eq!(result.unwrap(), 10);

    let result = safety.verify_ceiling_division_safety(1000, 3);
    assert!(result.is_ok());
    assert_eq!(result.unwrap(), 334);
}

#[test]
fn test_error_conditions() {
    let mut safety = DivisionSafety::new();
    let result = bps(&mut safety, -100, 5000);
    assert!(matches!(result, Err(DivisionSafetyError::NegativeAmount(-100))));
    let result = bps(&mut safety, 1000, 10001);
    assert!(matches!(result, Err(DivisionSafetyError::InvalidBps(10001))));
    let result = ratio(&mut safety, 1000, 0);
    assert!(matches!(result, Err(DivisionSafetyError::DivisionByZero)));
}

#[test]
fn division_safety_test_property_based_verification() {
    // Extreme values.
    let mut safety = DivisionSafety::new();
    let max_amount = i128::MAX / 10000;
    assert!(bps(&mut safety, max_amount, 10000).is_ok());
    let edge_cases = [(1, 1), (1, 9999), (9999, 1), (10000, 10000), (i128::MAX / 10000, 1), (1, 10000)];
    for (amount, b) in edge_cases {
        assert!(bps(&mut safety, amount, b).is_ok(), "failed for amount {}, bps {}", amount, b);
    }
    for denominator in [1, 2, 3] {
        assert!(ratio(&mut safety, i128::MAX / 1000, denominator).is_ok());
    }
    let report = safety.get_safety_report();
    assert!(report.safety_verified);
    assert!(report.cumulative_truncation_loss >= 0);
    assert!(report.division_dust >= 0);

    // Properties over a grid of inputs small enough for exact floating point.
    let mut safety = DivisionSafety::new();
    for amount in [1i128, 7, 999, 10_000, 123_456_789, 1_000_000_000_000] {
        for b in [1u32, 3, 100, 3333, 5000, 9999, 10000] {
            let result = bps(&mut safety, amount, b).unwrap();
            assert!(result >= 0 && result <= amount);
            assert!((result * 10000) / b as i128 <= amount);
        }
        for denominator in [1i128, 2, 3, 10, 1000] {
            let result = ratio(&mut safety, amount, denominator).unwrap();
            assert!(result * denominator <= amount);
            let fixed = safety.verify_fixed_point_division_safety(amount, denominator).unwrap();
            assert_eq!(fixed * denominator + amount % denominator, amount);
            let ceiling = safety.verify_ceiling_division_safety(amount, denominator).unwrap();
            let floor = amount / denominator;
            assert!(ceiling >= floor && ceiling <= floor + 1);
            assert!(ceiling * denominator >= amount);
        }
    }
    let report = safety.get_safety_report();
    assert!(report.safety_verified);
}

#[test]
fn test_remainders_become_dust() {
    let mut safety = DivisionSafety::new();
    assert_eq!(safety.verify_fixed_point_division_safety(1000, 3), Ok(333));
    assert_eq!(safety.verify_ceiling_division_safety(10, 4), Ok(3));
    assert_eq!(safety.verify_ceiling_division_safety(0, 4), Ok(0));
    let report = safety.get_safety_report();
    assert_eq!(report.division_dust, 1 + 2);
    assert_eq!(report.division_count, 3);
    assert_eq!(report.average_truncation_loss, 0);
    assert_eq!(
        safety.verify_fixed_point_division_safety(-1, 3),
        Err(DivisionSafetyError::NegativeInputs { numerator: -1, denominator: 3 })
    );
    assert_eq!(safety.verify_ceiling_division_safety(1, 0), Err(DivisionSafetyError::DivisionByZero));
    // The ceiling of the largest numerator cannot be bounded.
    assert_eq!(safety.verify_ceiling_division_safety(i128::MAX, 1), Err(DivisionSafetyError::CalculationOverflow));
    safety.reset();
    assert_eq!(safety, DivisionSafety::new());
}

#[test]
fn test_division_property_violations() {
    let safety = DivisionSafety::new();
    assert_eq!(
        safety.verify_division_properties(100, 10, -1, 0),
        Err(DivisionSafetyError::NegativeResult(-1))
    );
    assert_eq!(
        safety.verify_division_properties(100, 10, 101, 0),
        Err(DivisionSafetyError::ResultExceedsAmount { result: 101, amount: 100 })
    );
    assert_eq!(
        safety.verify_division_properties(100, 10, 5, 10),
        Err(DivisionSafetyError::ExcessiveTruncationLoss { loss: 10, max_allowed: 9 })
    );
    assert_eq!(
        safety.verify_division_properties(100, 10, 1, 0),
        Err(DivisionSafetyError::ReconstructionExceedsOriginal { reconstructed: 1000, original: 100 })
    );
    assert_eq!(
        safety.verify_ratio_properties(10, 3, 4, 0),
        Err(DivisionSafetyError::MultiplicationExceedsNumerator { result: 4, denominator: 3, numerator: 10 })
    );
    assert_eq!(
        safety.verify_ratio_properties(10, 3, 3, 3),
        Err(DivisionSafetyError::ExcessiveTruncationLoss { loss: 3, max_allowed: 2 })
    );
}

#[test]
fn test_zero_bps_division() {
    let mut safety = DivisionSafety::new();
    assert_eq!(bps(&mut safety, 1000, 0), Ok(0));
    assert_eq!(safety.division_count, 1);
    assert_eq!(safety.cumulative_truncation_loss, 0);
}
