//! What telling the time promises.

use crate::calendar::{
    clock_text, date_of, days_before_month, days_before_year, days_from_civil, is_date, is_leap,
    law_a_day_has_one_date, law_years_follow_each_other, month_days, stamp_text,
};
use crate::text::zero_padded;
use vstd::prelude::*;

verus! {

/// Every fourth year is a leap year, but for the full centuries of which every fourth is.
/// The months have 31 days but for four with 30 and for February, which has 28, and 29 in a
/// leap year.
pub proof fn law_the_months_are_as_long_as_they_are(y: int)
    ensures
        is_leap(4 * y) <==> y % 25 != 0 || y % 100 == 0,
        !is_leap(4 * y + 1) && !is_leap(4 * y + 2) && !is_leap(4 * y + 3),
        month_days(y, 1) == 31,
        month_days(y, 2) == (if is_leap(y) {
            29int
        } else {
            28int
        }),
        month_days(y, 3) == 31,
        month_days(y, 4) == 30,
        month_days(y, 5) == 31,
        month_days(y, 6) == 30,
        month_days(y, 7) == 31,
        month_days(y, 8) == 31,
        month_days(y, 9) == 30,
        month_days(y, 10) == 31,
        month_days(y, 11) == 30,
        month_days(y, 12) == 31,
{
    assert((4 * y) % 100 == 0 <==> y % 25 == 0);
    assert((4 * y) % 400 == 0 <==> y % 100 == 0);
}

/// The days are counted from the first of January 1970, and each date follows the one before
/// it: the next day of the month, the first of the next month, or the first of the next year.
pub proof fn law_each_day_follows_the_one_before(y: int, m: int, d: int)
    requires
        is_date(y, m, d),
    ensures
        days_from_civil(1970, 1, 1) == 0,
        d < month_days(y, m) ==> is_date(y, m, d + 1) && days_from_civil(y, m, d + 1)
            == days_from_civil(y, m, d) + 1,
        d == month_days(y, m) && m < 12 ==> is_date(y, m + 1, 1) && days_from_civil(y, m + 1, 1)
            == days_from_civil(y, m, d) + 1,
        d == month_days(y, m) && m == 12 ==> is_date(y + 1, 1, 1) && days_from_civil(y + 1, 1, 1)
            == days_from_civil(y, m, d) + 1,
{
    law_years_follow_each_other(y);
    assert(days_before_month(1970, 1) == 0);
    assert(days_before_month(y + 1, 1) == 0);
    assert(days_before_month(y, m + 1) == days_before_month(y, m) + month_days(y, m));
    assert(days_before_year(1970) == 0);
}

/// A point in time within a day is told by the hour and the minute of that day, and by
/// nothing else: the day and what is left of the minute do not show.
pub proof fn law_a_clock_tells_hour_and_minute(day: nat, h: nat, m: nat, s: nat, x: nat)
    requires
        h < 24,
        m < 60,
        s < 60,
        x < 1000,
    ensures
        clock_text(day * 86_400_000 + h * 3_600_000 + m * 60_000 + s * 1000 + x) == zero_padded(h, 2)
            + ":"@ + zero_padded(m, 2) + " UTC"@,
{
    let ms = day * 86_400_000 + h * 3_600_000 + m * 60_000 + s * 1000 + x;
    assert(ms / 1000 == day * 86_400 + h * 3600 + m * 60 + s);
    assert((ms / 1000) % 86_400 == h * 3600 + m * 60 + s);
    assert((h * 3600 + m * 60 + s) / 3600 == h);
    assert((h * 3600 + m * 60 + s) % 3600 == m * 60 + s);
    assert((m * 60 + s) / 60 == m);
}

/// A point in time is told by its date and by the hour, minute and second of that day.
pub proof fn law_a_stamp_tells_date_and_clock(
    y: nat,
    mo: nat,
    d: nat,
    h: nat,
    m: nat,
    s: nat,
    x: nat,
)
    requires
        is_date(y as int, mo as int, d as int),
        days_from_civil(y as int, mo as int, d as int) >= 0,
        h < 24,
        m < 60,
        s < 60,
        x < 1000,
    ensures
        stamp_text(
            days_from_civil(y as int, mo as int, d as int) as nat * 86_400_000 + h * 3_600_000 + m
                * 60_000 + s * 1000 + x,
        ) == zero_padded(y, 4) + "-"@ + zero_padded(mo, 2) + "-"@ + zero_padded(d, 2) + " "@ + (
        zero_padded(h, 2) + ":"@ + zero_padded(m, 2) + ":"@ + zero_padded(s, 2) + " UTC"@),
{
    let day = days_from_civil(y as int, mo as int, d as int) as nat;
    let ms = day * 86_400_000 + h * 3_600_000 + m * 60_000 + s * 1000 + x;
    assert(ms / 86_400_000 == day);
    assert(ms / 1000 == day * 86_400 + h * 3600 + m * 60 + s);
    assert((ms / 1000) % 86_400 == h * 3600 + m * 60 + s);
    assert((h * 3600 + m * 60 + s) / 3600 == h);
    assert((h * 3600 + m * 60 + s) % 3600 == m * 60 + s);
    assert((m * 60 + s) / 60 == m);
    assert((h * 3600 + m * 60 + s) % 60 == s);
    let own = (y as int, mo as int, d as int);
    assert(is_date(own.0, own.1, own.2) && days_from_civil(own.0, own.1, own.2) == day);
    let date = date_of(day as int);
    law_a_day_has_one_date(date.0, date.1, date.2, own.0, own.1, own.2);
}

} // verus!
