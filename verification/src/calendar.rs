//! The Gregorian calendar: the civil date of a day counted from
//! 1 January 1970, the first day of Unix time.
use vstd::prelude::*;

verus! {

/// A leap year of the Gregorian calendar.
pub open spec fn is_leap_year(y: nat) -> bool {
    y % 4 == 0 && (y % 100 != 0 || y % 400 == 0)
}

/// The number of days of year `y`.
pub open spec fn year_length(y: nat) -> nat {
    if is_leap_year(y) {
        366
    } else {
        365
    }
}

/// The number of days of month `m` (1 to 12) of year `y`.
pub open spec fn month_length(y: nat, m: nat) -> nat {
    if m == 2 {
        if is_leap_year(y) {
            29
        } else {
            28
        }
    } else if m == 4 || m == 6 || m == 9 || m == 11 {
        30
    } else {
        31
    }
}

/// The year, and the day within it counted from 0, of the day that lies
/// `days` days after 1 January of year `y`.
pub open spec fn year_and_day(y: nat, days: nat) -> (nat, nat)
    decreases days,
{
    if days < year_length(y) {
        (y, days)
    } else {
        year_and_day(y + 1, (days - year_length(y)) as nat)
    }
}

/// The month, and the day of the month counted from 1, of the day that lies
/// `day` days after the first of month `m` of year `y`; December takes
/// what is left.
pub open spec fn month_and_day(y: nat, m: nat, day: nat) -> (nat, nat)
    decreases 12 - m,
{
    if m >= 12 || day < month_length(y, m) {
        (m, day + 1)
    } else {
        month_and_day(y, m + 1, (day - month_length(y, m)) as nat)
    }
}

/// The civil date (year, month, day) of the day `days` days after
/// 1 January 1970.
pub open spec fn civil_date(days: nat) -> (nat, nat, nat) {
    let (y, d) = year_and_day(1970, days);
    let (m, dd) = month_and_day(y, 1, d);
    (y, m, dd)
}

/// The number of days of the `n` years from year `y` on.
pub open spec fn years_length(y: nat, n: nat) -> nat
    decreases n,
{
    if n == 0 {
        0
    } else {
        year_length(y) + years_length(y + 1, (n - 1) as nat)
    }
}

/// The number of days from the first of month `m` of year `y` to the end of
/// the year.
pub open spec fn rest_of_year(y: nat, m: nat) -> nat
    decreases 13 - m,
{
    if m >= 13 {
        0
    } else {
        month_length(y, m) + rest_of_year(y, m + 1)
    }
}

/// Skipping whole years moves the same day into a later year.
proof fn lemma_skip_years(y: nat, d: nat, n: nat)
    ensures
        year_and_day(y, d + years_length(y, n)) == year_and_day(y + n, d),
    decreases n,
{
    if n > 0 {
        lemma_skip_years(y + 1, d, (n - 1) as nat);
        assert(d + years_length(y, n) >= year_length(y));
        assert((d + years_length(y, n) - year_length(y)) as nat == d + years_length(
            y + 1,
            (n - 1) as nat,
        ));
    }
}

proof fn lemma_years_length_split(y: nat, a: nat, b: nat)
    ensures
        years_length(y, a + b) == years_length(y, a) + years_length(y + a, b),
    decreases a,
{
    if a > 0 {
        lemma_years_length_split(y + 1, (a - 1) as nat, b);
        assert((a + b - 1) as nat == (a - 1) as nat + b);
    }
}

/// Four years from a year divisible by four: one leap day at most.
proof fn lemma_four_years(y: nat)
    requires
        y % 4 == 0,
    ensures
        years_length(y, 4) == 1460 + (if is_leap_year(y) {
            1nat
        } else {
            0nat
        }),
{
    reveal_with_fuel(years_length, 5);
    assert(!is_leap_year(y + 1) && !is_leap_year(y + 2) && !is_leap_year(y + 3));
}

/// Blocks of four years inside a century, none starting at its first year:
/// each holds one leap day.
proof fn lemma_leap_blocks(y: nat, k: nat)
    requires
        y % 4 == 0,
        y % 100 != 0,
        y % 100 + 4 * k <= 100,
    ensures
        years_length(y, 4 * k) == 1461 * k,
    decreases k,
{
    if k > 0 {
        lemma_years_length_split(y, 4, (4 * k - 4) as nat);
        lemma_four_years(y);
        if k > 1 {
            assert((y + 4) % 100 == y % 100 + 4);
            lemma_leap_blocks(y + 4, (k - 1) as nat);
            assert(4 * (k - 1) == (4 * k - 4) as nat);
        }
    }
}

/// A century has a leap day in every fourth year but its first, which has
/// one only when it is divisible by 400.
proof fn lemma_century(y: nat)
    requires
        y % 100 == 0,
    ensures
        years_length(y, 100) == 36524 + (if y % 400 == 0 {
            1nat
        } else {
            0nat
        }),
{
    assert(y % 4 == 0);
    lemma_years_length_split(y, 4, 96);
    lemma_four_years(y);
    assert((y + 4) % 100 == 4);
    lemma_leap_blocks(y + 4, 24);
}

proof fn lemma_four_centuries_aligned(y: nat)
    requires
        y % 400 == 0,
    ensures
        years_length(y, 400) == 146097,
{
    lemma_years_length_split(y, 100, 300);
    lemma_years_length_split(y + 100, 100, 200);
    lemma_years_length_split(y + 200, 100, 100);
    assert((y + 100) % 100 == 0 && (y + 100) % 400 != 0);
    assert((y + 200) % 100 == 0 && (y + 200) % 400 != 0);
    assert((y + 300) % 100 == 0 && (y + 300) % 400 != 0);
    lemma_century(y);
    lemma_century(y + 100);
    lemma_century(y + 200);
    lemma_century(y + 300);
}

/// Law: any 400 consecutive years have 146097 days.
pub proof fn lemma_four_centuries(y: nat)
    ensures
        years_length(y, 400) == 146097,
    decreases y % 400,
{
    if y % 400 == 0 {
        lemma_four_centuries_aligned(y);
    } else {
        let x = (y - 1) as nat;
        assert(x % 400 == y % 400 - 1);
        lemma_four_centuries(x);
        lemma_years_length_split(x, 400, 1);
        assert(x + 1 == y);
        assert(is_leap_year(x + 400) == is_leap_year(x));
        reveal_with_fuel(years_length, 2);
        assert(years_length(x + 400, 1) == year_length(x + 400));
    }
}

/// Skipping whole cycles of 400 years moves the same day 400 years on.
proof fn lemma_skip_cycles(y: nat, d: nat, c: nat)
    ensures
        year_and_day(y, d + 146097 * c) == year_and_day(y + 400 * c, d),
    decreases c,
{
    if c > 0 {
        lemma_skip_cycles(y + 400, d, (c - 1) as nat);
        lemma_four_centuries(y);
        lemma_skip_years(y, (d + 146097 * (c - 1)) as nat, 400);
        assert(d + 146097 * c == d + 146097 * (c - 1) + 146097);
        assert(y + 400 + 400 * (c - 1) == y + 400 * c);
    }
}

proof fn lemma_year_and_day_bounds(y: nat, days: nat)
    ensures
        year_and_day(y, days).0 >= y,
        year_and_day(y, days).1 < year_length(year_and_day(y, days).0),
    decreases days,
{
    if days >= year_length(y) {
        lemma_year_and_day_bounds(y + 1, (days - year_length(y)) as nat);
    }
}

proof fn lemma_rest_of_year_is_year(y: nat)
    ensures
        rest_of_year(y, 1) == year_length(y),
{
    reveal_with_fuel(rest_of_year, 13);
}

proof fn lemma_month_and_day_bounds(y: nat, m: nat, day: nat)
    requires
        1 <= m <= 12,
        day < rest_of_year(y, m),
    ensures
        1 <= month_and_day(y, m, day).0 <= 12,
        1 <= month_and_day(y, m, day).1 <= month_length(y, month_and_day(y, m, day).0),
    decreases 12 - m,
{
    if m < 12 && day >= month_length(y, m) {
        lemma_month_and_day_bounds(y, m + 1, (day - month_length(y, m)) as nat);
    } else if m == 12 {
        reveal_with_fuel(rest_of_year, 2);
    }
}

/// Law: the civil date is a date of the calendar: a year from 1970 on, a
/// month from 1 to 12, and a day that month has.
pub proof fn lemma_civil_date_valid(days: nat)
    ensures
        civil_date(days).0 >= 1970,
        1 <= civil_date(days).1 <= 12,
        1 <= civil_date(days).2 <= month_length(civil_date(days).0, civil_date(days).1),
{
    let (y, d) = year_and_day(1970, days);
    lemma_year_and_day_bounds(1970, days);
    lemma_rest_of_year_is_year(y);
    lemma_month_and_day_bounds(y, 1, d);
}

/// Law: the rules of the Gregorian calendar: a year divisible by 4 is a
/// leap year unless it is divisible by 100 and not by 400; a leap year has
/// 366 days, any other 365; January, March, May, July, August, October and
/// December have 31 days, April, June, September and November 30, February
/// 29 in a leap year and 28 otherwise.  Day 0 is 1 January 1970.
pub proof fn lemma_gregorian_rules(y: nat)
    ensures
        is_leap_year(y) <==> (y % 4 == 0 && y % 100 != 0) || y % 400 == 0,
        year_length(y) == if is_leap_year(y) { 366nat } else { 365nat },
        month_length(y, 1) == 31 && month_length(y, 3) == 31 && month_length(y, 5) == 31,
        month_length(y, 7) == 31 && month_length(y, 8) == 31 && month_length(y, 10) == 31,
        month_length(y, 12) == 31,
        month_length(y, 4) == 30 && month_length(y, 6) == 30 && month_length(y, 9) == 30,
        month_length(y, 11) == 30,
        month_length(y, 2) == if is_leap_year(y) { 29nat } else { 28nat },
        civil_date(0) == (1970nat, 1nat, 1nat),
        is_leap_year(2000) && !is_leap_year(1900) && is_leap_year(2024) && !is_leap_year(2023),
{
    assert(year_and_day(1970, 0) == (1970nat, 0nat));
    assert(month_and_day(1970, 1, 0) == (1nat, 1nat));
}

proof fn lemma_year_and_day_next(y: nat, days: nat)
    ensures
        ({
            let (yy, k) = year_and_day(y, days);
            year_and_day(y, days + 1) == if k + 1 < year_length(yy) {
                (yy, k + 1)
            } else {
                (yy + 1, 0nat)
            }
        }),
    decreases days,
{
    if days >= year_length(y) {
        lemma_year_and_day_next(y + 1, (days - year_length(y)) as nat);
        assert((days + 1 - year_length(y)) as nat == (days - year_length(y)) as nat + 1);
    } else if days + 1 >= year_length(y) {
        assert(year_and_day(y + 1, 0) == (y + 1, 0nat));
    }
}

proof fn lemma_month_and_day_next(y: nat, m: nat, k: nat)
    requires
        1 <= m <= 12,
        k + 1 < rest_of_year(y, m),
    ensures
        ({
            let (mm, dd) = month_and_day(y, m, k);
            &&& month_and_day(y, m, k + 1) == if dd < month_length(y, mm) {
                (mm, dd + 1)
            } else {
                (mm + 1, 1nat)
            }
            &&& mm == 12 ==> dd < month_length(y, 12)
        }),
    decreases 12 - m,
{
    if m >= 12 {
        reveal_with_fuel(rest_of_year, 2);
    } else if k < month_length(y, m) {
        if k + 1 >= month_length(y, m) {
            assert(month_and_day(y, m + 1, 0) == (m + 1, 1nat));
        }
    } else {
        lemma_month_and_day_next(y, m + 1, (k - month_length(y, m)) as nat);
        assert((k + 1 - month_length(y, m)) as nat == (k - month_length(y, m)) as nat + 1);
    }
}

proof fn lemma_last_day_of_year(y: nat)
    ensures
        month_and_day(y, 1, (year_length(y) - 1) as nat) == (12nat, 31nat),
{
    reveal_with_fuel(month_and_day, 13);
}

/// Law: the day after a date: the next day of the month, else the first of
/// the next month, else 1 January of the next year.
pub proof fn lemma_next_day(days: nat)
    ensures
        ({
            let (y, m, d) = civil_date(days);
            civil_date(days + 1) == if d < month_length(y, m) {
                (y, m, d + 1)
            } else if m < 12 {
                (y, m + 1, 1nat)
            } else {
                (y + 1, 1nat, 1nat)
            }
        }),
{
    let (y, k) = year_and_day(1970, days);
    lemma_year_and_day_next(1970, days);
    lemma_year_and_day_bounds(1970, days);
    if k + 1 < year_length(y) {
        lemma_rest_of_year_is_year(y);
        lemma_month_and_day_next(y, 1, k);
        lemma_month_and_day_bounds(y, 1, k);
    } else {
        lemma_last_day_of_year(y);
        assert(k == (year_length(y) - 1) as nat);
        assert(month_and_day(y + 1, 1, 0) == (1nat, 1nat));
    }
}

fn is_leap_year_exec(y: u64) -> (r: bool)
    ensures
        r == is_leap_year(y as nat),
{
    y % 4 == 0 && (y % 100 != 0 || y % 400 == 0)
}

fn year_length_exec(y: u64) -> (n: u64)
    ensures
        n == year_length(y as nat),
{
    if is_leap_year_exec(y) {
        366
    } else {
        365
    }
}

fn month_length_exec(y: u64, m: u64) -> (n: u64)
    ensures
        n == month_length(y as nat, m as nat),
{
    if m == 2 {
        if is_leap_year_exec(y) {
            29
        } else {
            28
        }
    } else if m == 4 || m == 6 || m == 9 || m == 11 {
        30
    } else {
        31
    }
}

/// The civil date (year, month, day) of the day `days` days after
/// 1 January 1970.
pub fn civil_date_of_day(days: u64) -> (r: (u64, u64, u64))
    ensures
        (r.0 as nat, r.1 as nat, r.2 as nat) == civil_date(days as nat),
{
    let cycles = days / 146097;
    let start = days % 146097;
    assert(cycles <= 126_300_000_000_000);
    let y0: u64 = 1970 + 400 * cycles;
    proof {
        lemma_skip_cycles(1970, start as nat, cycles as nat);
        assert(days == start + 146097 * cycles);
    }
    let mut y = y0;
    let mut rem = start;
    let mut yl = year_length_exec(y);
    while rem >= yl
        invariant
            year_and_day(1970, days as nat) == year_and_day(y as nat, rem as nat),
            yl == year_length(y as nat),
            y0 <= y,
            (y - y0) * 365 + rem <= 146096,
            y0 == 1970 + 400 * cycles,
            cycles <= 126_300_000_000_000,
        decreases rem,
    {
        rem = rem - yl;
        y = y + 1;
        yl = year_length_exec(y);
    }
    let mut m: u64 = 1;
    let mut d = rem;
    let mut ml = month_length_exec(y, 1);
    while m < 12 && d >= ml
        invariant
            1 <= m <= 12,
            ml == month_length(y as nat, m as nat),
            month_and_day(y as nat, 1, rem as nat) == month_and_day(y as nat, m as nat, d as nat),
            d <= rem,
            rem <= 146096,
        decreases 12 - m,
    {
        d = d - ml;
        m = m + 1;
        ml = month_length_exec(y, m);
    }
    (y, m, d + 1)
}

} // verus!
