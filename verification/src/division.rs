//! Integer division safety: divisions never create value, remainders are
//! tracked as dust, and ceiling division stays within one of the floor.

use vstd::prelude::*;
use crate::escrow::fits;
use crate::math::div_toward_zero;

verus! {

/// Running record of truncation losses and division dust.
#[derive(Clone, Copy, Debug, PartialEq, Eq, Structural)]
pub struct DivisionSafety {
    /// Cumulative truncation loss.
    pub cumulative_truncation_loss: i128,
    /// Dust from division remainders.
    pub division_dust: i128,
    /// Number of divisions recorded.
    pub division_count: u64,
    /// Largest truncation loss recorded.
    pub max_truncation_loss: i128,
}

/// Summary of the recorded divisions.
#[derive(Clone, Copy, Debug, PartialEq, Eq, Structural)]
pub struct DivisionSafetyReport {
    pub cumulative_truncation_loss: i128,
    pub division_dust: i128,
    pub division_count: u64,
    pub max_truncation_loss: i128,
    pub average_truncation_loss: i128,
    pub safety_verified: bool,
}

/// Why a division was refused or found unsafe.
#[derive(Clone, Copy, Debug, PartialEq, Eq, Structural)]
pub enum DivisionSafetyError {
    NegativeAmount(i128),
    InvalidBps(u32),
    DivisionByZero,
    NegativeInputs { numerator: i128, denominator: i128 },
    NegativeResult(i128),
    ResultExceedsAmount { result: i128, amount: i128 },
    ExcessiveTruncationLoss { loss: i128, max_allowed: i128 },
    ReconstructionExceedsOriginal { reconstructed: i128, original: i128 },
    MultiplicationExceedsNumerator { result: i128, denominator: i128, numerator: i128 },
    InvalidRemainder { remainder: i128, scale: i128 },
    ReconstructionMismatch { value: i128, result: i128, scale: i128, remainder: i128, reconstructed: i128 },
    CeilingLessThanFloor { ceiling: i128, floor: i128 },
    CeilingExceedsBound { ceiling: i128, floor: i128 },
    ZeroRemainderCeilingMismatch { ceiling: i128, floor: i128 },
    CeilingMultiplicationInsufficient { ceiling: i128, denominator: i128, numerator: i128 },
    /// A running total would leave the range of `i128`.
    CalculationOverflow,
}

/// `max(a, b)`.
pub open spec fn max_spec(a: i128, b: i128) -> i128 {
    if a >= b { a } else { b }
}

/// The record after one more division with the given loss and dust.
pub open spec fn after_recorded(s: DivisionSafety, loss: i128, dust: i128, with_loss: bool) -> DivisionSafety {
    if with_loss {
        DivisionSafety {
            cumulative_truncation_loss: (s.cumulative_truncation_loss + loss) as i128,
            division_dust: (s.division_dust + loss) as i128,
            division_count: (s.division_count + 1) as u64,
            max_truncation_loss: max_spec(s.max_truncation_loss, loss),
        }
    } else {
        DivisionSafety {
            division_dust: (s.division_dust + dust) as i128,
            division_count: (s.division_count + 1) as u64,
            ..s
        }
    }
}

/// What `verify_division_properties` reports.
pub open spec fn bps_properties(amount: i128, bps: u32, result: i128, loss: i128) -> Result<(), DivisionSafetyError> {
    if result < 0 {
        Err(DivisionSafetyError::NegativeResult(result))
    } else if result > amount {
        Err(DivisionSafetyError::ResultExceedsAmount { result, amount })
    } else if loss > (if bps > 0 { bps - 1 } else { 0 }) {
        Err(DivisionSafetyError::ExcessiveTruncationLoss { loss, max_allowed: (if bps > 0 { bps - 1 } else { 0 }) as i128 })
    } else if bps > 0 && (result * 10000) / (bps as int) > amount {
        Err(DivisionSafetyError::ReconstructionExceedsOriginal {
            reconstructed: ((result * 10000) / (bps as int)) as i128,
            original: amount,
        })
    } else {
        Ok(())
    }
}

/// The same error, in a result of another type.
pub open spec fn same_error<T>(r: Result<(), DivisionSafetyError>) -> Result<T, DivisionSafetyError> {
    match r {
        Ok(_) => Err(DivisionSafetyError::CalculationOverflow),
        Err(e) => Err(e),
    }
}

impl DivisionSafety {
    /// An empty record.
    pub fn new() -> (s: Self)
        ensures
            s == (DivisionSafety { cumulative_truncation_loss: 0, division_dust: 0, division_count: 0, max_truncation_loss: 0 }),
    {
        DivisionSafety { cumulative_truncation_loss: 0, division_dust: 0, division_count: 0, max_truncation_loss: 0 }
    }

    /// Clears the record.
    pub fn reset(&mut self)
        ensures
            *final(self) == (DivisionSafety { cumulative_truncation_loss: 0, division_dust: 0, division_count: 0, max_truncation_loss: 0 }),
    {
        *self = Self::new();
    }

    /// Validates a basis-point division and computes `amount * bps / 10000`.
    pub fn bps_division_result(amount: i128, bps: u32) -> (r: Result<i128, DivisionSafetyError>)
        requires
            amount >= 0 && bps <= 10000 ==> fits(amount * bps),
        ensures
            amount < 0 ==> r == Err::<i128, DivisionSafetyError>(DivisionSafetyError::NegativeAmount(amount)),
            amount >= 0 && bps > 10000 ==> r == Err::<i128, DivisionSafetyError>(DivisionSafetyError::InvalidBps(bps)),
            amount >= 0 && bps <= 10000 ==> r == Ok::<i128, DivisionSafetyError>(((amount * bps) / 10000) as i128),
    {
        if amount < 0 {
            return Err(DivisionSafetyError::NegativeAmount(amount));
        }
        if bps > 10000 {
            return Err(DivisionSafetyError::InvalidBps(bps));
        }
        Ok((amount * bps as i128) / 10000i128)
    }

    /// The properties a basis-point division must have: a non-negative result
    /// no larger than the amount, a truncation loss below `bps`, and a
    /// reconstruction `result * 10000 / bps` no larger than the amount.
    pub fn verify_division_properties(&self, amount: i128, bps: u32, result: i128, truncation_loss: i128) -> (r: Result<(), DivisionSafetyError>)
        requires
            result >= 0 && result <= amount && bps != 0 ==> fits(result * 10000),
        ensures
            r == bps_properties(amount, bps, result, truncation_loss),
    {
        if result < 0 {
            return Err(DivisionSafetyError::NegativeResult(result));
        }
        if result > amount {
            return Err(DivisionSafetyError::ResultExceedsAmount { result, amount });
        }
        let max_possible_loss: i128 = if bps > 0 { bps as i128 - 1 } else { 0 };
        if truncation_loss > max_possible_loss {
            return Err(DivisionSafetyError::ExcessiveTruncationLoss { loss: truncation_loss, max_allowed: max_possible_loss });
        }
        if bps > 0 {
            let reconstructed = (result * 10000i128) / bps as i128;
            if reconstructed > amount {
                return Err(DivisionSafetyError::ReconstructionExceedsOriginal { reconstructed, original: amount });
            }
        }
        Ok(())
    }

    /// Records a basis-point division whose truncation loss has been
    /// measured: checks its properties, then adds the loss to the cumulative
    /// loss and the dust, counts the division and updates the largest loss.
    /// Returns the division's result.
    pub fn record_bps_division(&mut self, amount: i128, bps: u32, result: i128, truncation_loss: i128) -> (r: Result<i128, DivisionSafetyError>)
        requires
            result >= 0 && result <= amount && bps != 0 ==> fits(result * 10000),
            old(self).division_count < u64::MAX,
        ensures
            bps_properties(amount, bps, result, truncation_loss) is Err
                ==> r == same_error::<i128>(bps_properties(amount, bps, result, truncation_loss)) && *final(self) == *old(self),
            bps_properties(amount, bps, result, truncation_loss) is Ok ==> {
                if !fits(old(self).cumulative_truncation_loss + truncation_loss) {
                    r == Err::<i128, DivisionSafetyError>(DivisionSafetyError::CalculationOverflow) && *final(self) == *old(self)
                } else if !fits(old(self).division_dust + truncation_loss) {
                    r == Err::<i128, DivisionSafetyError>(DivisionSafetyError::CalculationOverflow)
                        && *final(self) == (DivisionSafety {
                            cumulative_truncation_loss: (old(self).cumulative_truncation_loss + truncation_loss) as i128,
                            ..*old(self)
                        })
                } else {
                    r == Ok::<i128, DivisionSafetyError>(result) && *final(self) == after_recorded(*old(self), truncation_loss, 0, true)
                }
            },
    {
        match self.verify_division_properties(amount, bps, result, truncation_loss) {
            Ok(()) => {},
            Err(e) => return Err(e),
        }
        self.cumulative_truncation_loss = match self.cumulative_truncation_loss.checked_add(truncation_loss) {
            Some(v) => v,
            None => return Err(DivisionSafetyError::CalculationOverflow),
        };
        self.division_dust = match self.division_dust.checked_add(truncation_loss) {
            Some(v) => v,
            None => return Err(DivisionSafetyError::CalculationOverflow),
        };
        self.division_count = self.division_count + 1;
        self.max_truncation_loss = if self.max_truncation_loss >= truncation_loss { self.max_truncation_loss } else { truncation_loss };
        Ok(result)
    }
}

/// What `verify_ratio_properties` reports.
pub open spec fn ratio_properties(numerator: i128, denominator: i128, result: i128, loss: i128) -> Result<(), DivisionSafetyError> {
    if result < 0 {
        Err(DivisionSafetyError::NegativeResult(result))
    } else if !fits(result * denominator) {
        Err(DivisionSafetyError::CalculationOverflow)
    } else if result * denominator > numerator {
        Err(DivisionSafetyError::MultiplicationExceedsNumerator { result, denominator, numerator })
    } else if loss >= denominator {
        Err(DivisionSafetyError::ExcessiveTruncationLoss { loss, max_allowed: (denominator - 1) as i128 })
    } else {
        Ok(())
    }
}

/// The fixed-point division of a valid value by a valid scale, with its remainder.
pub open spec fn fixed_point_parts(value: i128, scale: i128) -> (int, int) {
    ((value as int) / (scale as int), (value as int) % (scale as int))
}

/// The ceiling of `numerator / denominator` for non-negative inputs.
pub open spec fn ceiling_spec(numerator: i128, denominator: i128) -> int {
    if numerator % denominator > 0 { (numerator / denominator) as int + 1 } else { (numerator / denominator) as int }
}

impl DivisionSafety {
    /// Validates a ratio division and computes `numerator / denominator`.
    pub fn ratio_division_result(numerator: i128, denominator: i128) -> (r: Result<i128, DivisionSafetyError>)
        ensures
            denominator == 0 ==> r == Err::<i128, DivisionSafetyError>(DivisionSafetyError::DivisionByZero),
            denominator != 0 && (numerator < 0 || denominator < 0)
                ==> r == Err::<i128, DivisionSafetyError>(DivisionSafetyError::NegativeInputs { numerator, denominator }),
            denominator > 0 && numerator >= 0 ==> r == Ok::<i128, DivisionSafetyError>((numerator / denominator) as i128),
    {
        if denominator == 0 {
            return Err(DivisionSafetyError::DivisionByZero);
        }
        if numerator < 0 || denominator < 0 {
            return Err(DivisionSafetyError::NegativeInputs { numerator, denominator });
        }
        Ok(numerator / denominator)
    }

    /// The properties a ratio division must have: a non-negative result whose
    /// product with the denominator does not exceed the numerator, and a
    /// truncation loss below the denominator.
    pub fn verify_ratio_properties(&self, numerator: i128, denominator: i128, result: i128, truncation_loss: i128) -> (r: Result<(), DivisionSafetyError>)
        requires
            fits(denominator - 1),
        ensures
            r == ratio_properties(numerator, denominator, result, truncation_loss),
    {
        if result < 0 {
            return Err(DivisionSafetyError::NegativeResult(result));
        }
        let product = match result.checked_mul(denominator) {
            Some(v) => v,
            None => return Err(DivisionSafetyError::CalculationOverflow),
        };
        if product > numerator {
            return Err(DivisionSafetyError::MultiplicationExceedsNumerator { result, denominator, numerator });
        }
        if truncation_loss >= denominator {
            return Err(DivisionSafetyError::ExcessiveTruncationLoss { loss: truncation_loss, max_allowed: denominator - 1 });
        }
        Ok(())
    }

    /// Records a ratio division whose truncation loss has been measured: checks
    /// its properties, then adds the loss to the cumulative loss and the dust,
    /// counts the division and updates the largest loss. Returns the result.
    pub fn record_ratio_division(&mut self, numerator: i128, denominator: i128, result: i128, truncation_loss: i128) -> (r: Result<i128, DivisionSafetyError>)
        requires
            fits(denominator - 1),
            old(self).division_count < u64::MAX,
        ensures
            ratio_properties(numerator, denominator, result, truncation_loss) is Err
                ==> r == same_error::<i128>(ratio_properties(numerator, denominator, result, truncation_loss)) && *final(self) == *old(self),
            ratio_properties(numerator, denominator, result, truncation_loss) is Ok ==> {
                if !fits(old(self).cumulative_truncation_loss + truncation_loss) {
                    r == Err::<i128, DivisionSafetyError>(DivisionSafetyError::CalculationOverflow) && *final(self) == *old(self)
                } else if !fits(old(self).division_dust + truncation_loss) {
                    r == Err::<i128, DivisionSafetyError>(DivisionSafetyError::CalculationOverflow)
                        && *final(self) == (DivisionSafety {
                            cumulative_truncation_loss: (old(self).cumulative_truncation_loss + truncation_loss) as i128,
                            ..*old(self)
                        })
                } else {
                    r == Ok::<i128, DivisionSafetyError>(result) && *final(self) == after_recorded(*old(self), truncation_loss, 0, true)
                }
            },
    {
        match self.verify_ratio_properties(numerator, denominator, result, truncation_loss) {
            Ok(()) => {},
            Err(e) => return Err(e),
        }
        self.cumulative_truncation_loss = match self.cumulative_truncation_loss.checked_add(truncation_loss) {
            Some(v) => v,
            None => return Err(DivisionSafetyError::CalculationOverflow),
        };
        self.division_dust = match self.division_dust.checked_add(truncation_loss) {
            Some(v) => v,
            None => return Err(DivisionSafetyError::CalculationOverflow),
        };
        self.division_count = self.division_count + 1;
        self.max_truncation_loss = if self.max_truncation_loss >= truncation_loss { self.max_truncation_loss } else { truncation_loss };
        Ok(result)
    }

    /// Divides a non-negative fixed-point value by a positive scale, adding the
    /// remainder to the dust. The properties checked (remainder below the
    /// scale, `result * scale + remainder == value`) always hold.
    pub fn verify_fixed_point_division_safety(&mut self, value: i128, scale: i128) -> (r: Result<i128, DivisionSafetyError>)
        requires
            scale > 0 && value >= 0 ==> old(self).division_count < u64::MAX,
        ensures
            scale == 0 ==> r == Err::<i128, DivisionSafetyError>(DivisionSafetyError::DivisionByZero),
            scale != 0 && (value < 0 || scale < 0)
                ==> r == Err::<i128, DivisionSafetyError>(DivisionSafetyError::NegativeInputs { numerator: value, denominator: scale }),
            r is Err && !(scale > 0 && value >= 0) ==> *final(self) == *old(self),
            scale > 0 && value >= 0 ==> {
                let (q, rem) = fixed_point_parts(value, scale);
                &&& q * scale + rem == value
                &&& 0 <= rem < scale
                &&& if fits(old(self).division_dust + rem) {
                    r == Ok::<i128, DivisionSafetyError>(q as i128) && *final(self) == after_recorded(*old(self), 0, rem as i128, false)
                } else {
                    r == Err::<i128, DivisionSafetyError>(DivisionSafetyError::CalculationOverflow) && *final(self) == *old(self)
                }
            },
    {
        if scale == 0 {
            return Err(DivisionSafetyError::DivisionByZero);
        }
        if value < 0 || scale < 0 {
            return Err(DivisionSafetyError::NegativeInputs { numerator: value, denominator: scale });
        }
        let result = value / scale;
        let remainder = value % scale;
        proof {
            assert(result * scale + remainder == value) by (nonlinear_arith)
                requires result == value / scale, remainder == value % scale, scale > 0;
            assert(0 <= result * scale <= value) by (nonlinear_arith)
                requires result == value / scale, value >= 0, scale > 0, result * scale + remainder == value, 0 <= remainder;
        }
        if result < 0 {
            return Err(DivisionSafetyError::NegativeResult(result));
        }
        if remainder >= scale {
            return Err(DivisionSafetyError::InvalidRemainder { remainder, scale });
        }
        let reconstructed = match result.checked_mul(scale) {
            Some(v) => v,
            None => return Err(DivisionSafetyError::CalculationOverflow),
        };
        let sum = match reconstructed.checked_add(remainder) {
            Some(v) => v,
            None => return Err(DivisionSafetyError::CalculationOverflow),
        };
        if sum != value {
            return Err(DivisionSafetyError::ReconstructionMismatch { value, result, scale, remainder, reconstructed });
        }
        self.division_dust = match self.division_dust.checked_add(remainder) {
            Some(v) => v,
            None => return Err(DivisionSafetyError::CalculationOverflow),
        };
        self.division_count = self.division_count + 1;
        Ok(result)
    }

    /// Ceiling division of a non-negative numerator by a positive denominator
    /// (rounding in the protocol's favour), adding the remainder to the dust.
    /// The properties checked (ceiling within one above the floor, equal to it
    /// without remainder, and `ceiling * denominator >= numerator`) always hold.
    pub fn verify_ceiling_division_safety(&mut self, numerator: i128, denominator: i128) -> (r: Result<i128, DivisionSafetyError>)
        requires
            denominator > 0 && numerator >= 0 ==> old(self).division_count < u64::MAX,
        ensures
            denominator == 0 ==> r == Err::<i128, DivisionSafetyError>(DivisionSafetyError::DivisionByZero),
            denominator != 0 && (numerator < 0 || denominator < 0)
                ==> r == Err::<i128, DivisionSafetyError>(DivisionSafetyError::NegativeInputs { numerator, denominator }),
            r is Err && !(denominator > 0 && numerator >= 0) ==> *final(self) == *old(self),
            denominator > 0 && numerator >= 0 ==> {
                let c = ceiling_spec(numerator, denominator);
                &&& numerator / denominator <= c <= numerator / denominator + 1
                &&& c * denominator >= numerator
                &&& (c - 1) * denominator < numerator || numerator == 0
                &&& if !fits(numerator / denominator + 1) || !fits(c * denominator) {
                    r == Err::<i128, DivisionSafetyError>(DivisionSafetyError::CalculationOverflow) && *final(self) == *old(self)
                } else if fits(old(self).division_dust + numerator % denominator) {
                    r == Ok::<i128, DivisionSafetyError>(c as i128)
                        && *final(self) == after_recorded(*old(self), 0, (numerator % denominator) as i128, false)
                } else {
                    r == Err::<i128, DivisionSafetyError>(DivisionSafetyError::CalculationOverflow) && *final(self) == *old(self)
                }
            },
    {
        if denominator == 0 {
            return Err(DivisionSafetyError::DivisionByZero);
        }
        if numerator < 0 || denominator < 0 {
            return Err(DivisionSafetyError::NegativeInputs { numerator, denominator });
        }
        let floor_result = numerator / denominator;
        let remainder = numerator % denominator;
        proof {
            assert(floor_result * denominator + remainder == numerator) by (nonlinear_arith)
                requires floor_result == numerator / denominator, remainder == numerator % denominator, denominator > 0;
            assert(0 <= floor_result * denominator <= numerator) by (nonlinear_arith)
                requires floor_result == numerator / denominator, numerator >= 0, denominator > 0,
                    floor_result * denominator + remainder == numerator, 0 <= remainder;
            assert(floor_result >= 0) by (nonlinear_arith)
                requires floor_result == numerator / denominator, numerator >= 0, denominator > 0;
            if remainder > 0 {
                assert((floor_result + 1) * denominator >= numerator) by (nonlinear_arith)
                    requires floor_result * denominator + remainder == numerator, remainder < denominator;
                assert((floor_result + 1) * denominator <= numerator + denominator) by (nonlinear_arith)
                    requires floor_result * denominator + remainder == numerator, remainder > 0;
                assert(floor_result * denominator < numerator);
            } else {
                assert((floor_result - 1) * denominator < numerator || numerator == 0) by (nonlinear_arith)
                    requires floor_result * denominator == numerator, denominator > 0, numerator >= 0;
            }
        }
        let ceiling_result = if remainder > 0 {
            match floor_result.checked_add(1) {
                Some(v) => v,
                None => return Err(DivisionSafetyError::CalculationOverflow),
            }
        } else {
            floor_result
        };
        if ceiling_result < floor_result {
            return Err(DivisionSafetyError::CeilingLessThanFloor { ceiling: ceiling_result, floor: floor_result });
        }
        let bound = match floor_result.checked_add(1) {
            Some(v) => v,
            None => return Err(DivisionSafetyError::CalculationOverflow),
        };
        if ceiling_result > bound {
            return Err(DivisionSafetyError::CeilingExceedsBound { ceiling: ceiling_result, floor: floor_result });
        }
        if remainder == 0 && ceiling_result != floor_result {
            return Err(DivisionSafetyError::ZeroRemainderCeilingMismatch { ceiling: ceiling_result, floor: floor_result });
        }
        let product = match ceiling_result.checked_mul(denominator) {
            Some(v) => v,
            None => return Err(DivisionSafetyError::CalculationOverflow),
        };
        if product < numerator {
            return Err(DivisionSafetyError::CeilingMultiplicationInsufficient { ceiling: ceiling_result, denominator, numerator });
        }
        self.division_dust = match self.division_dust.checked_add(remainder) {
            Some(v) => v,
            None => return Err(DivisionSafetyError::CalculationOverflow),
        };
        self.division_count = self.division_count + 1;
        Ok(ceiling_result)
    }

    /// Summary of the record: the average loss per division (rounded toward
    /// zero, 0 without divisions) and whether neither the loss nor the dust is
    /// negative.
    pub fn get_safety_report(&self) -> (r: DivisionSafetyReport)
        ensures
            r.cumulative_truncation_loss == self.cumulative_truncation_loss,
            r.division_dust == self.division_dust,
            r.division_count == self.division_count,
            r.max_truncation_loss == self.max_truncation_loss,
            r.average_truncation_loss == (if self.division_count > 0 {
                div_toward_zero(self.cumulative_truncation_loss as int, self.division_count as int)
            } else {
                0
            }),
            r.safety_verified == (self.cumulative_truncation_loss >= 0 && self.division_dust >= 0),
    {
        let average_truncation_loss = if self.division_count > 0 {
            self.cumulative_truncation_loss / self.division_count as i128
        } else {
            0
        };
        DivisionSafetyReport {
            cumulative_truncation_loss: self.cumulative_truncation_loss,
            division_dust: self.division_dust,
            division_count: self.division_count,
            max_truncation_loss: self.max_truncation_loss,
            average_truncation_loss,
            safety_verified: self.cumulative_truncation_loss >= 0 && self.division_dust >= 0,
        }
    }
}

/// Division never creates value: a basis-point share of a non-negative
/// amount (at most 100%) lies between zero and the amount, and truncating a
/// ratio loses less than one denominator and never rounds up.
pub proof fn lemma_divisions_never_create_value(amount: i128, bps: u32, numerator: i128, denominator: i128)
    requires
        amount >= 0,
        bps <= 10000,
        numerator >= 0,
        denominator > 0,
    ensures
        0 <= (amount * bps) / 10000 <= amount,
        (numerator / denominator) * denominator <= numerator,
        numerator - (numerator / denominator) * denominator < denominator,
        ceiling_spec(numerator, denominator) * denominator >= numerator,
{
    crate::math::lemma_share_between_zero_and_total(amount as int, bps as int);
    assert((numerator / denominator) * denominator + numerator % denominator == numerator) by (nonlinear_arith)
        requires denominator > 0;
    assert(0 <= numerator % denominator < denominator) by (nonlinear_arith)
        requires denominator > 0;
    assert(ceiling_spec(numerator, denominator) * denominator >= numerator) by (nonlinear_arith)
        requires
            denominator > 0,
            (numerator / denominator) * denominator + numerator % denominator == numerator,
            0 <= numerator % denominator < denominator,
            ceiling_spec(numerator, denominator) == (if numerator % denominator > 0 { (numerator / denominator) as int + 1 } else { (numerator / denominator) as int });
}

} // verus!
