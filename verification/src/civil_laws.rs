//! The calendar, counted out.

use vstd::prelude::*;

use crate::civil::{
    days_before_month, days_in_month, epoch_day, epoch_second, leap_year, valid_date, valid_time,
};

verus! {

/// A leap year of the Gregorian calendar: every fourth one, but of the hundreds every fourth only.
pub open spec fn leaps(year: int) -> bool {
    if year % 100 == 0 {
        year % 400 == 0
    } else {
        year % 4 == 0
    }
}

/// The number of days of a month.
pub open spec fn month_days(year: int, month: int) -> int {
    if month == 2 {
        if leaps(year) {
            29int
        } else {
            28
        }
    } else if month == 4 || month == 6 || month == 9 || month == 11 {
        30
    } else {
        31
    }
}

/// A day of the calendar, in the years from -9999 to 9999.
pub open spec fn on_calendar(year: int, month: int, day: int) -> bool {
    -9999 <= year <= 9999 && 1 <= month <= 12 && 1 <= day <= month_days(year, month)
}

/// A second of the clock.
pub open spec fn on_clock(hour: int, minute: int, second: int) -> bool {
    0 <= hour < 24 && 0 <= minute < 60 && 0 <= second < 60
}

/// The number of days of a year before a month.
pub open spec fn days_to_month(year: int, month: int) -> int {
    let days: int = if month == 1 {
        0
    } else if month == 2 {
        31
    } else if month == 3 {
        59
    } else if month == 4 {
        90
    } else if month == 5 {
        120
    } else if month == 6 {
        151
    } else if month == 7 {
        181
    } else if month == 8 {
        212
    } else if month == 9 {
        243
    } else if month == 10 {
        273
    } else if month == 11 {
        304
    } else {
        334
    };
    if month > 2 && leaps(year) {
        days + 1
    } else {
        days
    }
}

/// The number of days from the first of January 1970 to a day of the calendar: the years at 365
/// days each, a day for each leap year, 477 of which stand before 1970, the months and the days.
pub open spec fn day_number(year: int, month: int, day: int) -> int {
    let past = year - 1;
    365 * (year - 1970) + (past / 4 - past / 100 + past / 400 - 477) + days_to_month(year, month)
        + day - 1
}

/// The number of seconds from the start of 1970 to a second, read at UTC.
pub open spec fn second_number(
    year: int,
    month: int,
    day: int,
    hour: int,
    minute: int,
    second: int,
) -> int {
    ((day_number(year, month, day) * 24 + hour) * 60 + minute) * 60 + second
}

/// The calendar of the library is the Gregorian one.
pub proof fn calendar_is_gregorian(year: int, month: int, day: int)
    ensures
        leap_year(year) == leaps(year),
        days_in_month(year, month) == month_days(year, month),
        valid_date(year, month, day) == on_calendar(year, month, day),
        1 <= month <= 12 ==> epoch_day(year, month, day) == day_number(year, month, day),
{
    if 1 <= month <= 12 {
        reveal_with_fuel(days_before_month, 13);
        assert(days_before_month(year, month) == days_to_month(year, month));
    }
}

/// Seconds are counted by days, hours, minutes and seconds.
pub proof fn seconds_are_counted(
    year: int,
    month: int,
    day: int,
    hour: int,
    minute: int,
    second: int,
)
    ensures
        valid_time(hour, minute, second) == on_clock(hour, minute, second),
        1 <= month <= 12 ==> epoch_second(year, month, day, hour, minute, second)
            == second_number(year, month, day, hour, minute, second),
{
    calendar_is_gregorian(year, month, day);
}

/// The count of days goes on by one from each day to the next, over the ends of months and years,
/// and starts at the first of January 1970.
pub proof fn days_follow_one_another(year: int, month: int, day: int)
    requires
        on_calendar(year, month, day),
    ensures
        day_number(1970, 1, 1) == 0,
        day < month_days(year, month) ==> day_number(year, month, day + 1) == day_number(
            year,
            month,
            day,
        ) + 1,
        day == month_days(year, month) && month < 12 ==> day_number(year, month + 1, 1)
            == day_number(year, month, day) + 1,
        day == month_days(year, month) && month == 12 ==> day_number(year + 1, 1, 1)
            == day_number(year, month, day) + 1,
{
    assert(leaps(year) ==> year / 4 == (year - 1) / 4 + 1);
    assert(!leaps(year) && year % 4 != 0 ==> year / 4 == (year - 1) / 4);
}

} // verus!
