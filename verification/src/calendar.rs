//! Dates of the Gregorian calendar, extended without end in both directions, and
//! their distance from the first day of 1970.

use vstd::prelude::*;

use crate::number::{decimal, pad, spec_decimal, spec_pad};
use crate::text::cat;

verus! {

/// Seconds in a day.
pub const SECS_PER_DAY: i64 = 86400;

/// A year with a 29th of February.
pub open spec fn is_leap(y: int) -> bool {
    y % 4 == 0 && (y % 100 != 0 || y % 400 == 0)
}

/// How many days a month has.
pub open spec fn month_len(y: int, m: int) -> int {
    if m == 2 {
        if is_leap(y) {
            29
        } else {
            28
        }
    } else if m == 4 || m == 6 || m == 9 || m == 11 {
        30
    } else {
        31
    }
}

/// How many days of the year come before a month.
pub open spec fn before_month(y: int, m: int) -> int
    decreases m,
{
    if m <= 1 {
        0
    } else {
        before_month(y, m - 1) + month_len(y, m - 1)
    }
}

/// How many leap years there are from the year 1 up to, and without, `y`.
pub open spec fn leaps_before(y: int) -> int {
    (y - 1) / 4 - (y - 1) / 100 + (y - 1) / 400
}

/// How many days lie between the first day of 1970 and a date.
pub open spec fn day_number(y: int, m: int, d: int) -> int {
    365 * (y - 1970) + leaps_before(y) - leaps_before(1970) + before_month(y, m) + d - 1
}

/// A day that the calendar has.
pub open spec fn is_date(y: int, m: int, d: int) -> bool {
    1 <= m <= 12 && 1 <= d <= month_len(y, m)
}

proof fn lemma_before_month(y: int)
    ensures
        before_month(y, 1) == 0,
        before_month(y, 2) == 31,
        before_month(y, 3) == 59 + if is_leap(y) {
            1int
        } else {
            0
        },
        before_month(y, 4) == before_month(y, 3) + 31,
        before_month(y, 5) == before_month(y, 3) + 61,
        before_month(y, 6) == before_month(y, 3) + 92,
        before_month(y, 7) == before_month(y, 3) + 122,
        before_month(y, 8) == before_month(y, 3) + 153,
        before_month(y, 9) == before_month(y, 3) + 184,
        before_month(y, 10) == before_month(y, 3) + 214,
        before_month(y, 11) == before_month(y, 3) + 245,
        before_month(y, 12) == before_month(y, 3) + 275,
        before_month(y, 13) == before_month(y, 3) + 306,
{
    reveal_with_fuel(before_month, 14);
}

proof fn lemma_leap_step(y: int)
    ensures
        leaps_before(y + 1) == leaps_before(y) + if is_leap(y) {
            1int
        } else {
            0
        },
{
    assert(y / 4 == (y - 1) / 4 + if y % 4 == 0 {
        1int
    } else {
        0
    });
    assert(y / 100 == (y - 1) / 100 + if y % 100 == 0 {
        1int
    } else {
        0
    });
    assert(y / 400 == (y - 1) / 400 + if y % 400 == 0 {
        1int
    } else {
        0
    });
    assert(y % 400 == 0 ==> y % 100 == 0);
    assert(y % 100 == 0 ==> y % 4 == 0);
}

/// Counting the year from March, the leap day comes last: how the day number reads
/// then, for a month `mp` months after March.
proof fn lemma_from_march(y: int, m: int, d: int)
    requires
        1 <= m <= 12,
    ensures
        ({
            let mp = if m > 2 {
                m - 3
            } else {
                m + 9
            };
            let yp = if m <= 2 {
                y - 1
            } else {
                y
            };
            day_number(y, m, d) == 365 * yp + yp / 4 - yp / 100 + yp / 400 + (153 * mp + 2) / 5 + d
                - 1 - 719468
        }),
{
    lemma_before_month(y);
    lemma_leap_step(y);
    lemma_leap_step(y - 1);
}

proof fn lemma_eras(era: int, yoe: int)
    requires
        0 <= yoe < 400,
    ensures
        (400 * era + yoe) / 4 == 100 * era + yoe / 4,
        (400 * era + yoe) / 100 == 4 * era + yoe / 100,
        (400 * era + yoe) / 400 == era,
{
}

/// `a / b`, rounded down.
fn floor_div(a: i64, b: u64) -> (r: i64)
    requires
        1 < b <= 1000000,
    ensures
        r == a as int / b as int,
{
    if a >= 0 {
        (a as u64 / b) as i64
    } else {
        let k: u64 = (-(a + 1)) as u64;
        let q: u64 = k / b;
        proof {
            let bb = b as int;
            let kk = k as int;
            assert(a == -kk - 1);
            vstd::arithmetic::div_mod::lemma_fundamental_div_mod(kk, bb);
            vstd::arithmetic::div_mod::lemma_mod_bound(kk, bb);
            let rest = bb - 1 - kk % bb;
            assert(a == (-(q as int) - 1) * bb + rest) by (nonlinear_arith)
                requires
                    a == -kk - 1,
                    kk == bb * q + kk % bb,
                    rest == bb - 1 - kk % bb,
            ;
            vstd::arithmetic::div_mod::lemma_fundamental_div_mod_converse(
                a as int,
                bb,
                -(q as int) - 1,
                rest,
            );
            assert(q <= k) by (nonlinear_arith)
                requires
                    q == k / b,
                    b > 1,
            ;
        }
        -(q as i64) - 1
    }
}

/// The distance of a date from the first day of 1970, in days, with the year counted
/// from March. It is the day number for the months that a year has, and goes on evenly
/// beyond them.
pub open spec fn march_number(y: int, m: int, d: int) -> int {
    let yp = if m <= 2 {
        y - 1
    } else {
        y
    };
    let mp = if m > 2 {
        m - 3
    } else {
        m + 9
    };
    365 * yp + yp / 4 - yp / 100 + yp / 400 + (153 * mp + 2) / 5 + d - 1 - 719468
}

/// The distance of a date from the first day of 1970, in days. A day behind the end
/// of its month counts on from there.
pub fn days_from_civil(y: i64, m: u32, d: u32) -> (r: i64)
    requires
        i64::MIN <= march_number(y as int, m as int, d as int) <= i64::MAX,
    ensures
        r == march_number(y as int, m as int, d as int),
        1 <= m <= 12 ==> r == day_number(y as int, m as int, d as int),
{
    assert(-30_000_000_000_000_000 < y < 30_000_000_000_000_000);
    let yp: i64 = if m <= 2 {
        y - 1
    } else {
        y
    };
    let era: i64 = floor_div(yp, 400);
    proof {
        assert(era == yp as int / 400);
    }
    let yoe: u64 = (yp - era * 400) as u64;
    let mp: u64 = if m > 2 {
        (m - 3) as u64
    } else {
        (m + 9) as u64
    };
    let doy: u64 = (153 * mp + 2) / 5;
    let doe: u64 = yoe * 365 + yoe / 4 - yoe / 100 + doy;
    proof {
        lemma_eras(era as int, yoe as int);
        if 1 <= m <= 12 {
            lemma_from_march(y as int, m as int, d as int);
        }
        assert(yp == 400 * era + yoe);
    }
    (era as i128 * 146097 + doe as i128 + d as i128 - 1 - 719468) as i64
}

/// The year of the era, and the day of that year, for a day of the era: the year
/// begins in March.
proof fn lemma_year_of_era(doe: int, yoe: int)
    requires
        0 <= doe < 146097,
        yoe == (doe - doe / 1460 + doe / 36524 - doe / 146096) / 365,
    ensures
        0 <= yoe < 400,
        0 <= doe - (365 * yoe + yoe / 4 - yoe / 100) <= 365,
        doe - (365 * yoe + yoe / 4 - yoe / 100) == 365 ==> is_leap(yoe + 1),
{
}

/// How many days a month has that begins `mp` months after the first of March: the
/// last, which is February, may have one more than 28.
spec fn march_len(mp: int) -> int {
    if mp == 1 || mp == 3 || mp == 6 || mp == 8 {
        30
    } else if mp == 11 {
        29
    } else {
        31
    }
}

/// The month and the day of the month, for a day of a year that begins in March.
proof fn lemma_month_of_year(doy: int, mp: int, d: int)
    requires
        0 <= doy <= 365,
        mp == (5 * doy + 2) / 153,
        d == doy - (153 * mp + 2) / 5 + 1,
    ensures
        0 <= mp <= 11,
        1 <= d <= march_len(mp),
        mp == 11 && d == 29 ==> doy == 365,
{
    assert(0 <= mp <= 11);
    assert(153 * mp <= 5 * doy + 2 < 153 * mp + 153);
}

/// The date that a year of an era, a month counted from March and a day make up.
proof fn lemma_civil(era: int, yoe: int, doy: int, mp: int, d: int)
    requires
        0 <= yoe < 400,
        0 <= mp <= 11,
        1 <= d <= march_len(mp),
        mp == 11 && d == 29 ==> is_leap(yoe + 1),
        d == doy - (153 * mp + 2) / 5 + 1,
    ensures
        ({
            let m = if mp < 10 {
                mp + 3
            } else {
                mp - 9
            };
            let y = if m <= 2 {
                400 * era + yoe + 1
            } else {
                400 * era + yoe
            };
            is_date(y, m, d) && day_number(y, m, d) == era * 146097 + (365 * yoe + yoe / 4 - yoe
                / 100) + doy - 719468
        }),
{
    let m = if mp < 10 {
        mp + 3
    } else {
        mp - 9
    };
    let y = if m <= 2 {
        400 * era + yoe + 1
    } else {
        400 * era + yoe
    };
    lemma_eras(era, yoe);
    lemma_from_march(y, m, d);
    lemma_leap_again(era, yoe + 1);
}

/// Leap years come back after 400 years.
proof fn lemma_leap_again(era: int, y: int)
    ensures
        is_leap(400 * era + y) == is_leap(y),
{
    assert((400 * era + y) % 4 == y % 4);
    assert((400 * era + y) % 100 == y % 100);
    assert((400 * era + y) % 400 == y % 400);
}

/// The date at a distance from the first day of 1970, in days.
pub fn civil_from_days(z: i64) -> (r: (i64, u32, u32))
    requires
        z <= i64::MAX - 719468,
    ensures
        is_date(r.0 as int, r.1 as int, r.2 as int),
        day_number(r.0 as int, r.1 as int, r.2 as int) == z,
{
    let z0: i64 = z + 719468;
    let era: i64 = floor_div(z0, 146097);
    assert(era == z0 as int / 146097);
    assert(0 <= z0 - era * 146097 < 146097);
    let doe: u64 = (z0 - era * 146097) as u64;
    let yoe: u64 = (doe - doe / 1460 + doe / 36524 - doe / 146096) / 365;
    proof {
        lemma_year_of_era(doe as int, yoe as int);
    }
    let y0: i64 = yoe as i64 + era * 400;
    let doy: u64 = doe - (365 * yoe + yoe / 4 - yoe / 100);
    let mp: u64 = (5 * doy + 2) / 153;
    proof {
        let day = doy as int - (153 * mp + 2) / 5 + 1;
        lemma_month_of_year(doy as int, mp as int, day);
        lemma_civil(era as int, yoe as int, doy as int, mp as int, day);
    }
    let d: u64 = doy + 1 - (153 * mp + 2) / 5;
    let m: u64 = if mp < 10 {
        mp + 3
    } else {
        mp - 9
    };
    let y: i64 = if m <= 2 {
        y0 + 1
    } else {
        y0
    };
    (y, m as u32, d as u32)
}

proof fn lemma_before_month_grows(y: int, m: int, n: int)
    requires
        1 <= m < n <= 13,
    ensures
        before_month(y, m) + month_len(y, m) <= before_month(y, n),
    decreases n,
{
    if n > m + 1 {
        lemma_before_month_grows(y, m, n - 1);
    }
}

proof fn lemma_year_len(y: int)
    ensures
        day_number(y + 1, 1, 1) == day_number(y, 1, 1) + before_month(y, 13),
{
    lemma_leap_step(y);
    lemma_before_month(y);
    lemma_before_month(y + 1);
}

proof fn lemma_years_grow(y: int, z: int)
    requires
        y < z,
    ensures
        day_number(y, 1, 1) + before_month(y, 13) <= day_number(z, 1, 1),
    decreases z - y,
{
    lemma_year_len(z - 1);
    lemma_before_month(z - 1);
    if y < z - 1 {
        lemma_years_grow(y, z - 1);
    } else {
        lemma_year_len(y);
    }
}

/// A later date has a higher day number.
pub proof fn law_day_number_grows(y: int, m: int, d: int, y2: int, m2: int, d2: int)
    requires
        is_date(y, m, d),
        is_date(y2, m2, d2),
        y < y2 || (y == y2 && (m < m2 || (m == m2 && d < d2))),
    ensures
        day_number(y, m, d) < day_number(y2, m2, d2),
{
    lemma_before_month(y);
    lemma_before_month(y2);
    lemma_before_month_grows(y, m, 13);
    if y < y2 {
        lemma_years_grow(y, y2);
        if m2 > 1 {
            lemma_before_month_grows(y2, 1, m2);
        }
    } else if m < m2 {
        lemma_before_month_grows(y, m, m2);
    }
}

/// The days follow each other: the first of January 1970 has the number zero, and a day's
/// number is one more than that of the day before, across the ends of months and years.
pub proof fn law_days_follow_each_other(y: int, m: int, d: int)
    requires
        is_date(y, m, d),
    ensures
        day_number(1970, 1, 1) == 0,
        day_number(y, m, d) + 1 == if d < month_len(y, m) {
            day_number(y, m, d + 1)
        } else if m < 12 {
            day_number(y, m + 1, 1)
        } else {
            day_number(y + 1, 1, 1)
        },
{
    reveal_with_fuel(before_month, 2);
    lemma_year_len(y);
}

/// Two dates with the same day number are the same date, so that turning a date
/// into its day number and back gives the date again.
pub proof fn law_day_number_tells_the_date(y: int, m: int, d: int, y2: int, m2: int, d2: int)
    requires
        is_date(y, m, d),
        is_date(y2, m2, d2),
        day_number(y, m, d) == day_number(y2, m2, d2),
    ensures
        y == y2,
        m == m2,
        d == d2,
{
    if y < y2 || (y == y2 && (m < m2 || (m == m2 && d < d2))) {
        law_day_number_grows(y, m, d, y2, m2, d2);
    } else if y2 < y || (y2 == y && (m2 < m || (m2 == m && d2 < d))) {
        law_day_number_grows(y2, m2, d2, y, m, d);
    }
}

// ---------------------------------------------------------------------------
// Instants
// ---------------------------------------------------------------------------

/// The day number of an instant, in seconds since the epoch.
pub open spec fn day_of(epoch_s: int) -> int {
    epoch_s / 86400
}

/// The day number of the Monday of the week that an instant falls in. The first day
/// of 1970 was a Thursday.
pub open spec fn monday_of(epoch_s: int) -> int {
    day_of(epoch_s) - (day_of(epoch_s) + 3) % 7
}

/// The date of the Monday of the week.
pub fn monday_of_week(epoch_s: i64) -> (r: (i64, u32, u32))
    ensures
        is_date(r.0 as int, r.1 as int, r.2 as int),
        day_number(r.0 as int, r.1 as int, r.2 as int) == monday_of(epoch_s as int),
{
    let day: i64 = floor_div(epoch_s, 86400);
    let week: i64 = floor_div(day + 3, 7);
    let monday: i64 = week * 7 - 3;
    assert(monday == monday_of(epoch_s as int));
    civil_from_days(monday)
}

/// A year in four digits at least, with a minus sign in front of one before the
/// year 0 taking the place of a digit.
pub open spec fn year_text(y: int) -> Seq<char> {
    if y < 0 {
        "-"@ + spec_pad(spec_decimal((-y) as nat), 3)
    } else {
        spec_pad(spec_decimal(y as nat), 4)
    }
}

pub open spec fn two_digits(n: int) -> Seq<char> {
    spec_pad(spec_decimal(n as nat), 2)
}

/// A date as `<year>-<month>-<day>`.
pub open spec fn date_text(y: int, m: int, d: int) -> Seq<char> {
    year_text(y) + "-"@ + two_digits(m) + "-"@ + two_digits(d)
}

fn year_string(y: i64) -> (r: String)
    requires
        y > i64::MIN,
    ensures
        r@ == year_text(y as int),
{
    if y < 0 {
        cat("-".to_string(), pad(decimal((-y) as u64), 3).as_str())
    } else {
        pad(decimal(y as u64), 4)
    }
}

fn two(n: u64) -> (r: String)
    ensures
        r@ == two_digits(n as int),
{
    pad(decimal(n), 2)
}

pub fn date_string(y: i64, m: u32, d: u32) -> (r: String)
    requires
        y > i64::MIN,
    ensures
        r@ == date_text(y as int, m as int, d as int),
{
    cat(
        cat(cat(cat(year_string(y), "-"), two(m as u64).as_str()), "-"),
        two(d as u64).as_str(),
    )
}

} // verus!
