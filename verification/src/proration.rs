//! Calendar arithmetic and first-month rent proration.

use vstd::prelude::*;
use crate::math::{clamp_i128, div_toward_zero, saturating_mul_i128};

verus! {

/// Gregorian leap years: divisible by 4 but not by 100, or divisible by 400.
pub open spec fn is_leap_year_spec(year: int) -> bool {
    (year % 4 == 0 && year % 100 != 0) || year % 400 == 0
}

/// Days in a month; any month number other than 2, 4, 6, 9 and 11 counts 31 days.
pub open spec fn days_in_month_spec(year: int, month: int) -> int {
    if month == 4 || month == 6 || month == 9 || month == 11 {
        30
    } else if month == 2 {
        if is_leap_year_spec(year) { 29 } else { 28 }
    } else {
        31
    }
}

/// Year of an era (of 400 years starting on 1 March) for a day of the era.
pub open spec fn year_of_era(doe: int) -> int {
    (doe - doe / 1460 + doe / 36524 - doe / 146096) / 365
}

/// Day of the March-based year for a day of the era.
pub open spec fn day_of_year(doe: int) -> int {
    let yoe = year_of_era(doe);
    doe - (365 * yoe + yoe / 4 - yoe / 100)
}

/// March-based month index (0 for March, 11 for February) of a day of the year.
pub open spec fn month_index(doy: int) -> int {
    (5 * doy + 2) / 153
}

/// The civil date `(year, month, day)` of a day count since 1970-01-01, by
/// eras of 400 years starting on 1 March of year 0.
pub open spec fn civil_from_days(days: int) -> (int, int, int) {
    let z = days + 719468;
    let era = z / 146097;
    let doe = z - era * 146097;
    let yoe = year_of_era(doe);
    let y = yoe + era * 400;
    let doy = day_of_year(doe);
    let mp = month_index(doy);
    let d = doy - (153 * mp + 2) / 5 + 1;
    let m = if mp < 10 { mp + 3 } else { mp - 9 };
    (if m <= 2 { y + 1 } else { y }, m, d)
}

/// Within an era, the year of the era is at most 399, the day of the year at
/// most 365, and day 365 only occurs in a leap year.
proof fn lemma_era_day(doe: u32)
    requires
        doe < 146097,
    ensures
        0 <= year_of_era(doe as int) <= 399,
        0 <= day_of_year(doe as int) <= 365,
        day_of_year(doe as int) == 365 ==> is_leap_year_spec(year_of_era(doe as int) + 1),
{
    assert(doe < 146097 ==> ({
        let yoe = (doe - doe / 1460 + doe / 36524 - doe / 146096) / 365;
        &&& yoe <= 399
        &&& 365 * yoe + yoe / 4 - yoe / 100 <= doe
        &&& doe - (365 * yoe + yoe / 4 - yoe / 100) <= 365
        &&& (doe - (365 * yoe + yoe / 4 - yoe / 100) == 365 ==> (((yoe + 1) % 4 == 0 && (yoe + 1) % 100 != 0) || (yoe + 1) % 400 == 0))
    })) by (bit_vector);
}

/// The month and day decoded from a day of the March-based year form a
/// valid date: months with 30 days stop at 30, and February at 29, which is
/// the last day of the year.
proof fn lemma_year_day(doy: u32)
    requires
        doy <= 365,
    ensures
        ({
            let mp = month_index(doy as int);
            let d = doy - (153 * mp + 2) / 5 + 1;
            &&& 0 <= mp <= 11
            &&& 1 <= d <= 31
            &&& (mp == 1 || mp == 3 || mp == 6 || mp == 8) ==> d <= 30
            &&& mp == 11 ==> (d <= 29 && (d == 29 ==> doy == 365))
        }),
{
    assert(doy <= 365 ==> ({
        let mp = (5 * doy + 2) / 153;
        let d = doy - (153 * mp + 2) / 5 + 1;
        &&& mp <= 11
        &&& (153 * mp + 2) / 5 <= doy
        &&& 1 <= d <= 31
        &&& (mp == 1 || mp == 3 || mp == 6 || mp == 8) ==> d <= 30
        &&& mp == 11 ==> (d <= 29 && (d == 29 ==> doy == 365))
    })) by (bit_vector);
}

/// Leap years repeat every 400 years.
proof fn lemma_leap_period(y: int, k: int)
    requires
        k >= 0,
    ensures
        is_leap_year_spec(y + 400 * k) == is_leap_year_spec(y),
{
    assert((y + 400 * k) % 4 == y % 4) by {
        vstd::arithmetic::div_mod::lemma_mod_multiples_vanish(100 * k, y, 4);
    }
    assert((y + 400 * k) % 100 == y % 100) by {
        vstd::arithmetic::div_mod::lemma_mod_multiples_vanish(4 * k, y, 100);
    }
    assert((y + 400 * k) % 400 == y % 400) by {
        vstd::arithmetic::div_mod::lemma_mod_multiples_vanish(k, y, 400);
    }
}

/// Every decoded day count is a valid date.
pub proof fn lemma_civil_date_valid(days: int)
    requires
        days >= 0,
    ensures
        1 <= civil_from_days(days).1 <= 12,
        1 <= civil_from_days(days).2 <= days_in_month_spec(civil_from_days(days).0, civil_from_days(days).1),
        civil_from_days(days).0 >= 0,
{
    let z = days + 719468;
    let era = z / 146097;
    let doe = z - era * 146097;
    assert(0 <= doe < 146097 && era >= 0) by (nonlinear_arith)
        requires z >= 0, era == z / 146097, doe == z - era * 146097;
    lemma_era_day(doe as u32);
    let doy = day_of_year(doe);
    lemma_year_day(doy as u32);
    let yoe = year_of_era(doe);
    let mp = month_index(doy);
    if mp == 11 && doy - (153 * mp + 2) / 5 + 1 == 29 {
        lemma_leap_period(yoe + 1, era);
        assert(yoe + era * 400 + 1 == (yoe + 1) + 400 * era);
    }
}

/// The number of leap years among the years 1 to `n`.
pub open spec fn leap_years_through(n: int) -> int {
    n / 4 - n / 100 + n / 400
}

/// Days from 1 January to the first of `month` in a common year.
pub open spec fn common_days_before_month(month: int) -> int {
    if month <= 1 { 0 }
    else if month == 2 { 31 }
    else if month == 3 { 59 }
    else if month == 4 { 90 }
    else if month == 5 { 120 }
    else if month == 6 { 151 }
    else if month == 7 { 181 }
    else if month == 8 { 212 }
    else if month == 9 { 243 }
    else if month == 10 { 273 }
    else if month == 11 { 304 }
    else { 334 }
}

/// Days from 1 January of `year` to the first of `month`.
pub open spec fn days_before_month(year: int, month: int) -> int {
    common_days_before_month(month) + if month > 2 && is_leap_year_spec(year) { 1int } else { 0int }
}

/// Days from 1970-01-01 to 1 January of `year`: 365 a year plus one for each
/// leap year in between.
pub open spec fn days_before_year(year: int) -> int {
    365 * (year - 1970) + leap_years_through(year - 1) - leap_years_through(1969)
}

/// The number of days from 1970-01-01 to the date `(year, month, day)`.
pub open spec fn days_from_civil(year: int, month: int, day: int) -> int {
    days_before_year(year) + days_before_month(year, month) + day - 1
}

/// Counting one more year adds one exactly when that year is a leap year.
proof fn lemma_leap_step(n: int)
    requires
        n >= 0,
    ensures
        leap_years_through(n) == leap_years_through(n - 1) + if is_leap_year_spec(n) { 1int } else { 0int },
{
    assert(n / 4 - (n - 1) / 4 == if n % 4 == 0 { 1int } else { 0int }) by (nonlinear_arith) requires n >= 0;
    assert(n / 100 - (n - 1) / 100 == if n % 100 == 0 { 1int } else { 0int }) by (nonlinear_arith) requires n >= 0;
    assert(n / 400 - (n - 1) / 400 == if n % 400 == 0 { 1int } else { 0int }) by (nonlinear_arith) requires n >= 0;
    assert(n % 400 == 0 ==> n % 100 == 0) by (nonlinear_arith) requires n >= 0;
    assert(n % 100 == 0 ==> n % 4 == 0) by (nonlinear_arith) requires n >= 0;
}

/// Each full era of 400 years holds 97 leap years.
proof fn lemma_leap_years_in_eras(era: int, yoe: int)
    requires
        era >= 0,
        0 <= yoe < 400,
    ensures
        leap_years_through(400 * era + yoe) == 97 * era + yoe / 4 - yoe / 100,
{
    assert((400 * era + yoe) / 4 == 100 * era + yoe / 4) by (nonlinear_arith) requires era >= 0, 0 <= yoe < 400;
    assert((400 * era + yoe) / 100 == 4 * era + yoe / 100) by (nonlinear_arith) requires era >= 0, 0 <= yoe < 400;
    assert((400 * era + yoe) / 400 == era) by (nonlinear_arith) requires era >= 0, 0 <= yoe < 400;
}

/// The days before each month, counted from 1 March (month index 0) or from
/// 1 January.
proof fn lemma_month_offsets(mp: int)
    requires
        0 <= mp <= 11,
    ensures
        mp < 10 ==> common_days_before_month(mp + 3) == 59 + (153 * mp + 2) / 5,
        mp >= 10 ==> common_days_before_month(mp - 9) == (153 * mp + 2) / 5 - 306,
{
    if mp == 0 {} else if mp == 1 {} else if mp == 2 {} else if mp == 3 {} else if mp == 4 {}
    else if mp == 5 {} else if mp == 6 {} else if mp == 7 {} else if mp == 8 {} else if mp == 9 {}
    else if mp == 10 {} else {}
}

/// Decoding a day count gives the date that lies exactly that many days
/// after 1970-01-01.
pub proof fn lemma_days_from_civil_inverse(days: int)
    requires
        days >= 0,
    ensures
        days_from_civil(civil_from_days(days).0, civil_from_days(days).1, civil_from_days(days).2) == days,
{
    let z = days + 719468;
    let era = z / 146097;
    let doe = z - era * 146097;
    assert(0 <= doe < 146097 && era >= 4 && z == era * 146097 + doe) by (nonlinear_arith)
        requires z >= 719468, era == z / 146097, doe == z - era * 146097;
    lemma_era_day(doe as u32);
    let yoe = year_of_era(doe);
    let doy = day_of_year(doe);
    lemma_year_day(doy as u32);
    let mp = month_index(doy);
    let big_y = yoe + era * 400;
    lemma_leap_years_in_eras(era, yoe);
    assert(big_y == 400 * era + yoe);
    lemma_leap_step(big_y);
    lemma_month_offsets(mp);
    assert(leap_years_through(1969) == 477);
}

/// The number of leap years among the `n` years starting with `year`.
pub open spec fn leap_count(year: int, n: nat) -> int
    decreases n,
{
    if n == 0 {
        0
    } else {
        leap_count(year, (n - 1) as nat) + if is_leap_year_spec(year + n - 1) { 1int } else { 0int }
    }
}

/// Counting leap years over a run of years is a difference of totals.
proof fn lemma_leap_count_difference(year: int, n: nat)
    requires
        year >= 0,
    ensures
        leap_count(year, n) == leap_years_through(year + n - 1) - leap_years_through(year - 1),
    decreases n,
{
    if n > 0 {
        lemma_leap_count_difference(year, (n - 1) as nat);
        lemma_leap_step(year + n - 1);
    }
}

/// The Gregorian calendar repeats every 400 years: a year is a leap year
/// exactly when the year 400 later is, and every 400 consecutive years hold
/// exactly 97 leap years.
pub proof fn lemma_leap_years_per_400(year: int)
    requires
        year >= 0,
    ensures
        is_leap_year_spec(year + 400) == is_leap_year_spec(year),
        leap_count(year, 400) == 97,
{
    lemma_leap_period(year, 1);
    lemma_leap_count_difference(year, 400);
    if year == 0 {
        assert(leap_years_through(-1) == -1);
        assert(leap_years_through(399) == 96);
    } else {
        let e = (year - 1) / 400;
        let k = (year - 1) % 400;
        assert(year - 1 == 400 * e + k && e >= 0 && 0 <= k < 400) by (nonlinear_arith)
            requires year >= 1, e == (year - 1) / 400, k == (year - 1) % 400;
        lemma_leap_years_in_eras(e, k);
        lemma_leap_years_in_eras(e + 1, k);
        assert(year + 400 - 1 == 400 * (e + 1) + k);
    }
}

/// The number of days in `year`.
pub open spec fn days_in_year(year: int) -> int {
    if is_leap_year_spec(year) { 366 } else { 365 }
}

/// A year starts right after the previous one ends.
proof fn lemma_year_step(year: int)
    requires
        year >= 1,
    ensures
        days_before_year(year + 1) == days_before_year(year) + days_in_year(year),
{
    lemma_leap_step(year);
}

/// Later years start later: at least 365 days a year.
proof fn lemma_years_ordered(y1: int, y2: int)
    requires
        1 <= y1 < y2,
    ensures
        days_before_year(y1) + days_in_year(y1) <= days_before_year(y2),
    decreases y2 - y1,
{
    lemma_year_step(y1);
    if y2 > y1 + 1 {
        lemma_years_ordered(y1 + 1, y2);
    }
}

/// A month starts right after the previous one ends, and December ends the year.
proof fn lemma_month_step(year: int, month: int)
    requires
        1 <= month <= 12,
    ensures
        month < 12 ==> days_before_month(year, month + 1) == days_before_month(year, month) + days_in_month_spec(year, month),
        month == 12 ==> days_before_month(year, 12) + days_in_month_spec(year, 12) == days_in_year(year),
{
}

/// Later months of a year start later.
proof fn lemma_months_ordered(year: int, m1: int, m2: int)
    requires
        1 <= m1 < m2 <= 12,
    ensures
        days_before_month(year, m1) + days_in_month_spec(year, m1) <= days_before_month(year, m2),
    decreases m2 - m1,
{
    lemma_month_step(year, m1);
    if m2 > m1 + 1 {
        lemma_months_ordered(year, m1 + 1, m2);
    }
}

/// Whether `(year, month, day)` is a date of the calendar from year 1 on.
pub open spec fn valid_date(year: int, month: int, day: int) -> bool {
    year >= 1 && 1 <= month <= 12 && 1 <= day <= days_in_month_spec(year, month)
}

/// A valid date falls within its year.
proof fn lemma_date_in_year(year: int, month: int, day: int)
    requires
        valid_date(year, month, day),
    ensures
        days_before_year(year) <= days_from_civil(year, month, day) < days_before_year(year) + days_in_year(year),
{
    lemma_month_step(year, 12);
    if month < 12 {
        lemma_months_ordered(year, month, 12);
    }
}

/// Different valid dates lie a different number of days after 1970-01-01.
pub proof fn lemma_days_from_civil_injective(y1: int, m1: int, d1: int, y2: int, m2: int, d2: int)
    requires
        valid_date(y1, m1, d1),
        valid_date(y2, m2, d2),
        days_from_civil(y1, m1, d1) == days_from_civil(y2, m2, d2),
    ensures
        y1 == y2 && m1 == m2 && d1 == d2,
{
    lemma_date_in_year(y1, m1, d1);
    lemma_date_in_year(y2, m2, d2);
    if y1 < y2 {
        lemma_years_ordered(y1, y2);
    } else if y2 < y1 {
        lemma_years_ordered(y2, y1);
    }
    if m1 < m2 {
        lemma_months_ordered(y1, m1, m2);
    } else if m2 < m1 {
        lemma_months_ordered(y1, m2, m1);
    }
}

/// The date after `(year, month, day)`.
pub open spec fn next_date(year: int, month: int, day: int) -> (int, int, int) {
    if day < days_in_month_spec(year, month) {
        (year, month, day + 1)
    } else if month < 12 {
        (year, month + 1, 1)
    } else {
        (year + 1, 1, 1)
    }
}

/// The date of the next day: one more day of the month, else the first of
/// the next month, else New Year's Day.
pub proof fn lemma_next_day(days: int)
    requires
        days >= 0,
    ensures
        civil_from_days(days + 1) == next_date(civil_from_days(days).0, civil_from_days(days).1, civil_from_days(days).2),
{
    let (y, m, d) = civil_from_days(days);
    let (y2, m2, d2) = civil_from_days(days + 1);
    lemma_civil_date_valid(days);
    lemma_civil_date_valid(days + 1);
    lemma_days_from_civil_inverse(days);
    lemma_days_from_civil_inverse(days + 1);
    let (ny, nm, nd) = next_date(y, m, d);
    lemma_month_step(y, m);
    if d >= days_in_month_spec(y, m) && m == 12 {
        lemma_year_step(y);
    }
    assert(valid_date(ny, nm, nd));
    assert(days_from_civil(ny, nm, nd) == days + 1);
    lemma_days_from_civil_injective(y2, m2, d2, ny, nm, nd);
}

/// Whether `year` is a leap year.
pub fn is_leap_year(year: u64) -> (b: bool)
    ensures
        b == is_leap_year_spec(year as int),
{
    (year % 4 == 0 && year % 100 != 0) || (year % 400 == 0)
}

/// Number of days in a month of a year (31 for month numbers outside 1..=12
/// other than the 30-day months and February).
pub fn days_in_month(year: u64, month: u8) -> (d: u64)
    ensures
        d == days_in_month_spec(year as int, month as int),
        28 <= d <= 31,
{
    if month == 4 || month == 6 || month == 9 || month == 11 {
        30
    } else if month == 2 {
        if is_leap_year(year) { 29 } else { 28 }
    } else {
        31
    }
}

/// Converts a Unix timestamp to its civil `(year, month, day)` in UTC: the
/// valid date that lies `timestamp / 86400` days after 1970-01-01.
pub fn timestamp_to_ymd(timestamp: u64) -> (r: (u64, u8, u8))
    ensures
        days_from_civil(r.0 as int, r.1 as int, r.2 as int) == timestamp as int / 86400,
        1 <= r.1 <= 12,
        1 <= r.2 <= days_in_month_spec(r.0 as int, r.1 as int),
        r.0 >= 1970,
        (r.0 as int, r.1 as int, r.2 as int) == civil_from_days(timestamp as int / 86400),
{
    let days_since_epoch = timestamp / 86400;
    let z = days_since_epoch + 719468;
    let era = z / 146097;
    proof {
        assert(era * 146097 <= z < era * 146097 + 146097) by (nonlinear_arith)
            requires era == z / 146097, z >= 0;
    }
    let doe = z - era * 146097;
    proof {
        lemma_era_day(doe as u32);
        lemma_civil_date_valid(days_since_epoch as int);
        lemma_days_from_civil_inverse(days_since_epoch as int);
    }
    let yoe = (doe - doe / 1460 + doe / 36524 - doe / 146096) / 365;
    let y = yoe + era * 400;
    let doy = doe - (365 * yoe + yoe / 4 - yoe / 100);
    proof {
        lemma_year_day(doy as u32);
    }
    let mp = (5 * doy + 2) / 153;
    let d = doy - (153 * mp + 2) / 5 + 1;
    let m = if mp < 10 { mp + 3 } else { mp - 9 };
    let year = if m <= 2 { y + 1 } else { y };
    (year, m as u8, d as u8)
}

/// The seconds of the start month that the tenant occupies: from the start
/// time to the end of the month.
pub open spec fn occupied_seconds(start_date: u64) -> int {
    let (year, month, day) = civil_from_days(start_date as int / 86400);
    days_in_month_spec(year, month) * 86400 - ((day - 1) * 86400 + start_date as int % 86400)
}

/// The seconds in the start month.
pub open spec fn month_seconds(start_date: u64) -> int {
    let (year, month, day) = civil_from_days(start_date as int / 86400);
    days_in_month_spec(year, month) * 86400
}

/// First-month rent: the monthly rent prorated to the second over the part
/// of the start month that is occupied (saturating product, rounded toward zero).
pub open spec fn first_month_rent_spec(start_date: u64, rent_amount: i128) -> int {
    div_toward_zero(clamp_i128(rent_amount * occupied_seconds(start_date)), month_seconds(start_date))
}

/// Prorates the first month's rent to the second, from the start time to
/// the end of its month, taking month lengths and leap years into account.
pub fn calculate_first_month_rent(start_date: u64, rent_amount: i128) -> (r: i128)
    ensures
        r == first_month_rent_spec(start_date, rent_amount),
        0 < occupied_seconds(start_date) <= month_seconds(start_date),
{
    let (year, month, day) = timestamp_to_ymd(start_date);
    let total_days = days_in_month(year, month);
    let total_month_secs = total_days * 86400;
    let days_elapsed = (day as u64) - 1;
    let secs_in_current_day_elapsed = start_date % 86400;
    let elapsed_secs = days_elapsed * 86400 + secs_in_current_day_elapsed;
    let occupied_secs = total_month_secs.saturating_sub(elapsed_secs);
    saturating_mul_i128(rent_amount, occupied_secs as i128) / (total_month_secs as i128)
}

/// Prorated first-month rent never exceeds the monthly rent and is never
/// negative for a non-negative rent that does not saturate.
pub proof fn lemma_first_month_rent_bounded(start_date: u64, rent_amount: i128)
    requires
        rent_amount >= 0,
        rent_amount * 2678400 <= i128::MAX,
    ensures
        0 <= first_month_rent_spec(start_date, rent_amount) <= rent_amount,
{
    lemma_civil_date_valid(start_date as int / 86400);
    let o = occupied_seconds(start_date);
    let t = month_seconds(start_date);
    let r = rent_amount as int;
    assert(0 < o <= t <= 2678400);
    assert(0 <= r * o <= r * t <= r * 2678400) by (nonlinear_arith)
        requires 0 < o <= t <= 2678400, r >= 0;
    assert((r * o) / t <= r) by (nonlinear_arith)
        requires 0 <= r * o <= r * t, t > 0, r >= 0;
    assert((r * o) / t >= 0) by (nonlinear_arith)
        requires 0 <= r * o, t > 0;
}

/// Moving in later within the same month never costs more: the first
/// month's rent falls as the start time moves towards the end of the month.
pub proof fn lemma_first_month_rent_monotone(s1: u64, s2: u64, rent_amount: i128)
    requires
        s1 <= s2,
        civil_from_days(s1 as int / 86400).0 == civil_from_days(s2 as int / 86400).0,
        civil_from_days(s1 as int / 86400).1 == civil_from_days(s2 as int / 86400).1,
        rent_amount >= 0,
    ensures
        first_month_rent_spec(s1, rent_amount) >= first_month_rent_spec(s2, rent_amount),
{
    let n1 = s1 as int / 86400;
    let n2 = s2 as int / 86400;
    lemma_civil_date_valid(n1);
    lemma_civil_date_valid(n2);
    lemma_days_from_civil_inverse(n1);
    lemma_days_from_civil_inverse(n2);
    let (y, m, d1) = civil_from_days(n1);
    let d2 = civil_from_days(n2).2;
    assert(s1 as int == 86400 * n1 + s1 as int % 86400) by (nonlinear_arith) requires n1 == s1 as int / 86400;
    assert(s2 as int == 86400 * n2 + s2 as int % 86400) by (nonlinear_arith) requires n2 == s2 as int / 86400;
    let base = days_before_year(y) + days_before_month(y, m);
    assert(d1 - 1 == n1 - base);
    assert(d2 - 1 == n2 - base);
    assert((d1 - 1) * 86400 + s1 as int % 86400 == s1 - 86400 * base) by (nonlinear_arith)
        requires d1 - 1 == n1 - base, s1 as int == 86400 * n1 + s1 as int % 86400;
    assert((d2 - 1) * 86400 + s2 as int % 86400 == s2 - 86400 * base) by (nonlinear_arith)
        requires d2 - 1 == n2 - base, s2 as int == 86400 * n2 + s2 as int % 86400;
    let o1 = occupied_seconds(s1);
    let o2 = occupied_seconds(s2);
    let t = month_seconds(s1);
    assert(t == month_seconds(s2));
    assert(o1 >= o2);
    assert(0 < t);
    let r = rent_amount as int;
    assert(r * o1 >= r * o2) by (nonlinear_arith) requires o1 >= o2, r >= 0;
    let c1 = clamp_i128(r * o1);
    let c2 = clamp_i128(r * o2);
    assert(c1 >= c2);
    assert(c2 >= 0) by {
        assert(o2 > 0) by (nonlinear_arith)
            requires o2 == days_in_month_spec(y, m) * 86400 - (s2 - 86400 * base),
                d2 <= days_in_month_spec(y, m), (d2 - 1) * 86400 + s2 as int % 86400 == s2 - 86400 * base,
                0 <= s2 as int % 86400 < 86400;
        assert(r * o2 >= 0) by (nonlinear_arith) requires o2 > 0, r >= 0;
    }
    assert(c1 / t >= c2 / t) by (nonlinear_arith) requires c1 >= c2, c2 >= 0, t > 0;
}

} // verus!
