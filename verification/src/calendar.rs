//! Points in time as a person reads them, in UTC.

use crate::text::{cat4, cat6, cat7, zero_padded, zero_padded_text};
use vstd::prelude::*;

verus! {

/// Whether `y` is a leap year of the Gregorian calendar.
pub open spec fn is_leap(y: int) -> bool {
    y % 4 == 0 && (y % 100 != 0 || y % 400 == 0)
}

/// How many days month `m` of year `y` has.
pub open spec fn month_days(y: int, m: int) -> int {
    if m == 2 {
        if is_leap(y) {
            29
        } else {
            28
        }
    } else if m == 4 || m == 6 || m == 9 || m == 11 {
        30
    } else {
        31
    }
}

/// How many days of year `y` come before its month `m`.
pub open spec fn days_before_month(y: int, m: int) -> int
    decreases m,
{
    if m <= 1 {
        0
    } else {
        days_before_month(y, m - 1) + month_days(y, m - 1)
    }
}

/// How many leap days the years up to and including `y` hold, counted from year 1.
pub open spec fn leap_days(y: int) -> int {
    y / 4 - y / 100 + y / 400
}

/// How many days lie between the start of 1970 and the start of year `y`.
pub open spec fn days_before_year(y: int) -> int {
    365 * (y - 1970) + leap_days(y - 1) - leap_days(1969)
}

/// Whether `(y, m, d)` is a date.
pub open spec fn is_date(y: int, m: int, d: int) -> bool {
    1 <= m <= 12 && 1 <= d <= month_days(y, m)
}

/// How many days lie between 1970-01-01 and a date.
pub open spec fn days_from_civil(y: int, m: int, d: int) -> int {
    days_before_year(y) + days_before_month(y, m) + d - 1
}

/// 1970 starts at day 0, and every year is as long as its months together.
pub proof fn law_years_follow_each_other(y: int)
    ensures
        days_before_year(1970) == 0,
        days_before_year(y + 1) - days_before_year(y) == (if is_leap(y) {
            366int
        } else {
            365int
        }),
        days_before_month(y, 13) == (if is_leap(y) {
            366int
        } else {
            365int
        }),
{
    reveal_with_fuel(days_before_month, 14);
    assert((y - 1) / 4 + (if y % 4 == 0 {
        1int
    } else {
        0int
    }) == y / 4);
    assert((y - 1) / 100 + (if y % 100 == 0 {
        1int
    } else {
        0int
    }) == y / 100);
    assert((y - 1) / 400 + (if y % 400 == 0 {
        1int
    } else {
        0int
    }) == y / 400);
}

proof fn lemma_months(y: int)
    ensures
        days_before_month(y, 1) == 0,
        days_before_month(y, 2) == 31,
        forall|m: int|
            3 <= m <= 12 ==> #[trigger] days_before_month(y, m) == 59 + (if is_leap(y) {
                1int
            } else {
                0int
            }) + (153 * (m - 3) + 2) / 5,
{
    reveal_with_fuel(days_before_month, 14);
    let l = if is_leap(y) {
        1int
    } else {
        0int
    };
    assert(days_before_month(y, 3) == 59 + l);
    assert(days_before_month(y, 4) == 90 + l);
    assert(days_before_month(y, 5) == 120 + l);
    assert(days_before_month(y, 6) == 151 + l);
    assert(days_before_month(y, 7) == 181 + l);
    assert(days_before_month(y, 8) == 212 + l);
    assert(days_before_month(y, 9) == 243 + l);
    assert(days_before_month(y, 10) == 273 + l);
    assert(days_before_month(y, 11) == 304 + l);
    assert(days_before_month(y, 12) == 334 + l);
    assert forall|m: int| 3 <= m <= 12 implies #[trigger] days_before_month(y, m) == 59 + l + (153
        * (m - 3) + 2) / 5 by {
        assert(m == 3 || m == 4 || m == 5 || m == 6 || m == 7 || m == 8 || m == 9 || m == 10 || m
            == 11 || m == 12);
    }
}

/// The year of an era (400 years that start on a first of March) that holds day
/// `doe` of the era, and the day of that year.
proof fn lemma_year_of_era(doe: int, yoe: int)
    requires
        0 <= doe <= 146096,
        yoe == (doe - doe / 1460 + doe / 36524 - doe / 146096) / 365,
    ensures
        0 <= yoe <= 399,
        0 <= doe - (365 * yoe + yoe / 4 - yoe / 100) <= 365,
        doe - (365 * yoe + yoe / 4 - yoe / 100) == 365 ==> (yoe + 1) % 4 == 0 && ((yoe + 1) % 100
            != 0 || yoe + 1 == 400),
{
    let a = doe / 1460;
    let b = doe / 36524;
    let c = doe / 146096;
    let n = doe - a + b - c;
    assert(1460 * a <= doe < 1460 * a + 1460);
    assert(36524 * b <= doe < 36524 * b + 36524);
    assert(0 <= b <= 4);
    assert(0 <= c <= 1);
    assert(c == 1 <==> doe == 146096);
    assert(365 * yoe <= n < 365 * yoe + 365);
    assert(0 <= a <= 100);
}

proof fn lemma_era_split(era: int, yoe: int)
    requires
        0 <= yoe <= 399,
    ensures
        leap_days(yoe + era * 400) == 97 * era + yoe / 4 - yoe / 100,
        is_leap(yoe + era * 400 + 1) == ((yoe + 1) % 4 == 0 && ((yoe + 1) % 100 != 0 || yoe + 1
            == 400)),
{
    let y = yoe + era * 400;
    assert(y / 4 == 100 * era + yoe / 4);
    assert(y / 100 == 4 * era + yoe / 100);
    assert(y / 400 == era);
    assert((y + 1) % 4 == (yoe + 1) % 4);
    assert((y + 1) % 100 == (yoe + 1) % 100);
    assert((y + 1) % 400 == (yoe + 1) % 400);
}

/// The month and day that day `doy` of a year starting in March falls on.
proof fn lemma_month_of_year(doy: int, mp: int)
    requires
        0 <= doy <= 365,
        mp == (5 * doy + 2) / 153,
    ensures
        0 <= mp <= 11,
        (153 * mp + 2) / 5 <= doy,
        mp < 11 ==> doy < (153 * (mp + 1) + 2) / 5,
{
    assert(153 * mp <= 5 * doy + 2 < 153 * mp + 153);
}

/// A day counted from March of year `y` is the date it denotes.
proof fn lemma_date_from_march(y: int, doy: int, mp: int, m: int, d: int, year: int)
    requires
        0 <= doy <= 365,
        doy == 365 ==> is_leap(y + 1),
        mp == (5 * doy + 2) / 153,
        d == doy - (153 * mp + 2) / 5 + 1,
        m == (if mp < 10 {
            mp + 3
        } else {
            mp - 9
        }),
        year == (if m <= 2 {
            y + 1
        } else {
            y
        }),
    ensures
        is_date(year, m, d),
        days_from_civil(year, m, d) == 365 * y + leap_days(y) + doy - 719_468,
{
    lemma_month_of_year(doy, mp);
    lemma_months(year);
    law_years_follow_each_other(y);
    assert(leap_days(1969) == 477);
    assert(mp == 0 || mp == 1 || mp == 2 || mp == 3 || mp == 4 || mp == 5 || mp == 6 || mp == 7
        || mp == 8 || mp == 9 || mp == 10 || mp == 11);
    assert(leap_days(y) == leap_days(y - 1) + (if is_leap(y) {
        1int
    } else {
        0int
    }));
    if m > 2 {
        assert(m == mp + 3);
        assert(days_before_month(year, m) == 59 + (if is_leap(y) {
            1int
        } else {
            0int
        }) + (153 * mp + 2) / 5);
    }
}

/// The date `z` days after 1970-01-01.
pub fn civil_from_days(z: i64) -> (r: (i64, u32, u32))
    requires
        z <= i64::MAX - 719_468,
    ensures
        is_date(r.0 as int, r.1 as int, r.2 as int),
        days_from_civil(r.0 as int, r.1 as int, r.2 as int) == z,
{
    let shifted: i64 = z + 719_468;
    let floor: i64 = if shifted >= 0 {
        shifted
    } else {
        shifted - 146_096
    };
    let era: i64 = floor / 146_097;
    assert(0 <= shifted - era * 146_097 <= 146_096);
    let doe: u64 = (shifted - era * 146_097) as u64;
    let yoe: u64 = (doe - doe / 1460 + doe / 36524 - doe / 146_096) / 365;
    proof {
        lemma_year_of_era(doe as int, yoe as int);
    }
    let y: i64 = yoe as i64 + era * 400;
    let doy: u64 = doe - (365 * yoe + yoe / 4 - yoe / 100);
    let mp: u64 = (5 * doy + 2) / 153;
    proof {
        lemma_month_of_year(doy as int, mp as int);
    }
    let d: u32 = (doy - (153 * mp + 2) / 5 + 1) as u32;
    let m: u32 = (if mp < 10 {
        mp + 3
    } else {
        mp - 9
    }) as u32;
    let year: i64 = if m <= 2 {
        y + 1
    } else {
        y
    };
    proof {
        lemma_era_split(era as int, yoe as int);
        lemma_date_from_march(y as int, doy as int, mp as int, m as int, d as int, year as int);
    }
    (year, m, d)
}

proof fn lemma_months_ascend(y: int, a: int, b: int)
    requires
        1 <= a < b <= 13,
    ensures
        days_before_month(y, a) + month_days(y, a) <= days_before_month(y, b),
    decreases b - a,
{
    if a + 1 < b {
        lemma_months_ascend(y, a, b - 1);
    }
}

proof fn lemma_years_ascend(a: int, b: int)
    requires
        a < b,
    ensures
        days_before_year(a) + (if is_leap(a) {
            366int
        } else {
            365int
        }) <= days_before_year(b),
    decreases b - a,
{
    law_years_follow_each_other(b - 1);
    if a + 1 < b {
        lemma_years_ascend(a, b - 1);
    }
}

proof fn lemma_day_of_year(y: int, m: int, d: int)
    requires
        is_date(y, m, d),
    ensures
        0 <= days_before_month(y, m) + d - 1 < (if is_leap(y) {
            366int
        } else {
            365int
        }),
{
    law_years_follow_each_other(y);
    lemma_months_ascend(y, m, 13);
    if m > 1 {
        lemma_months_ascend(y, 1, m);
    }
    reveal_with_fuel(days_before_month, 2);
}

/// Different dates are different days: a day has one date only.
pub proof fn law_a_day_has_one_date(y1: int, m1: int, d1: int, y2: int, m2: int, d2: int)
    requires
        is_date(y1, m1, d1),
        is_date(y2, m2, d2),
        days_from_civil(y1, m1, d1) == days_from_civil(y2, m2, d2),
    ensures
        y1 == y2,
        m1 == m2,
        d1 == d2,
{
    lemma_day_of_year(y1, m1, d1);
    lemma_day_of_year(y2, m2, d2);
    if y1 < y2 {
        lemma_years_ascend(y1, y2);
    } else if y2 < y1 {
        lemma_years_ascend(y2, y1);
    }
    if m1 < m2 {
        lemma_months_ascend(y1, m1, m2);
    } else if m2 < m1 {
        lemma_months_ascend(y1, m2, m1);
    }
}

/// The date that lies `days` days after 1970-01-01.
pub open spec fn date_of(days: int) -> (int, int, int) {
    choose|date: (int, int, int)|
        is_date(date.0, date.1, date.2) && #[trigger] days_from_civil(date.0, date.1, date.2)
            == days
}

/// The clock of a point in time: hours and minutes, named as UTC.
pub open spec fn clock_text(ms: nat) -> Seq<char> {
    let secs = (ms / 1000) % 86_400;
    zero_padded(secs / 3600, 2) + ":"@ + zero_padded((secs % 3600) / 60, 2) + " UTC"@
}

/// `HH:MM UTC` of a point in time.
pub fn format_unix_ms_clock(ms: u64) -> (r: String)
    ensures
        r@ == clock_text(ms as nat),
{
    let secs_of_day: u64 = (ms / 1000) % 86_400;
    let hour: u64 = secs_of_day / 3600;
    let minute: u64 = (secs_of_day % 3600) / 60;
    cat4(
        zero_padded_text(hour, 2).as_str(),
        ":",
        zero_padded_text(minute, 2).as_str(),
        " UTC",
    )
}

/// A point in time, as `YYYY-MM-DD HH:MM:SS UTC`.
pub open spec fn stamp_text(ms: nat) -> Seq<char> {
    let date = date_of((ms / 86_400_000) as int);
    let secs = (ms / 1000) % 86_400;
    zero_padded(date.0 as nat, 4) + "-"@ + zero_padded(date.1 as nat, 2) + "-"@ + zero_padded(
        date.2 as nat,
        2,
    ) + " "@ + (zero_padded(secs / 3600, 2) + ":"@ + zero_padded((secs % 3600) / 60, 2) + ":"@
        + zero_padded(secs % 60, 2) + " UTC"@)
}

/// `YYYY-MM-DD HH:MM:SS UTC` of a point in time.
pub fn format_unix_ms(ms: u64) -> (r: String)
    ensures
        r@ == stamp_text(ms as nat),
{
    let total_secs: u64 = ms / 1000;
    let days: i64 = (total_secs / 86_400) as i64;
    let secs_of_day: u64 = total_secs % 86_400;
    let (year, month, day) = civil_from_days(days);
    proof {
        let date = date_of(days as int);
        assert(is_date(year as int, month as int, day as int) && days_from_civil(
            (year as int, month as int, day as int).0,
            (year as int, month as int, day as int).1,
            (year as int, month as int, day as int).2,
        ) == days);
        law_a_day_has_one_date(
            year as int,
            month as int,
            day as int,
            date.0,
            date.1,
            date.2,
        );
        if year < 1970 {
            lemma_years_ascend(year as int, 1970);
            lemma_day_of_year(year as int, month as int, day as int);
            law_years_follow_each_other(year as int);
        }
        assert(ms as nat / 86_400_000 == days);
    }
    let hour: u64 = secs_of_day / 3600;
    let minute: u64 = (secs_of_day % 3600) / 60;
    let second: u64 = secs_of_day % 60;
    let clock = cat6(
        zero_padded_text(hour, 2).as_str(),
        ":",
        zero_padded_text(minute, 2).as_str(),
        ":",
        zero_padded_text(second, 2).as_str(),
        " UTC",
    );
    cat7(
        zero_padded_text(year as u64, 4).as_str(),
        "-",
        zero_padded_text(month as u64, 2).as_str(),
        "-",
        zero_padded_text(day as u64, 2).as_str(),
        " ",
        clock.as_str(),
    )
}

} // verus!
