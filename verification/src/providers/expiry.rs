//! Expiry texts to instants.

use time::{Date, Month, PrimitiveDateTime, Time};
use vstd::prelude::*;
use vstd::utf8::encode_utf8;

use crate::bytes::{
    fields, fields_exist, joined_fields, one_field, parse_i32, parse_u8, signed_value, split,
    unsigned_value, views,
};
use crate::civil::{
    days_before_month, days_before_year, epoch_second, valid_date, valid_time,
};
use crate::contracts::ContractDetails;
use crate::text::text_eq;

verus! {

/// Why an expiry text is no instant.
#[derive(Debug, Clone, Copy, PartialEq, Eq, Structural)]
pub enum ExpiryError {
    /// The text is empty.
    Empty,
    /// The text is neither a date nor a date, a time and a time zone.
    InvalidFormat,
    /// A part of the text is no number.
    InvalidNumber,
    /// The date is not in the calendar.
    InvalidDate,
    /// The time is not on the clock.
    InvalidTime,
}

/// A time of day.
#[derive(Debug, Clone, Copy, PartialEq, Eq, Structural)]
pub struct ClockTime {
    pub hour: u8,
    pub minute: u8,
    pub second: u8,
}

/// A date.
#[derive(Debug, Clone, Copy, PartialEq, Eq, Structural)]
pub struct CalendarDate {
    pub year: i32,
    pub month: u8,
    pub day: u8,
}

/// Whether a month number is one of the calendar.
///
/// Calls `Month::try_from`. Claimed is that it accepts exactly one to twelve.
#[verifier::external_body]
fn month_exists(month: u8) -> (r: bool)
    ensures
        r == (1 <= month <= 12),
{
    Month::try_from(month).is_ok()
}

/// Whether a date is in the calendar.
///
/// Calls `Date::from_calendar_date`. Claimed is that it accepts exactly the days of the years from
/// -9999 to 9999.
#[verifier::external_body]
fn date_exists(year: i32, month: u8, day: u8) -> (r: bool)
    requires
        1 <= month <= 12,
    ensures
        r == valid_date(year as int, month as int, day as int),
{
    let month = Month::try_from(month).expect("a month of the calendar");
    Date::from_calendar_date(year, month, day).is_ok()
}

/// Whether a time is on the clock.
///
/// Calls `Time::from_hms`. Claimed is that it accepts exactly the seconds of a day.
#[verifier::external_body]
fn time_exists(hour: u8, minute: u8, second: u8) -> (r: bool)
    ensures
        r == valid_time(hour as int, minute as int, second as int),
{
    Time::from_hms(hour, minute, second).is_ok()
}

/// The instant of a date and a time at UTC, in nanoseconds since 1970.
///
/// Calls `PrimitiveDateTime::assume_utc` and `OffsetDateTime::unix_timestamp_nanos`. Claimed is
/// the number of days of the Gregorian calendar between 1970 and the date, and the time within it.
#[verifier::external_body]
fn utc_nanos(date: CalendarDate, clock: ClockTime) -> (r: i128)
    requires
        valid_date(date.year as int, date.month as int, date.day as int),
        valid_time(clock.hour as int, clock.minute as int, clock.second as int),
    ensures
        r == instant_second(date, clock) * 1_000_000_000,
{
    let month = Month::try_from(date.month).expect("a month of the calendar");
    let day = Date::from_calendar_date(date.year, month, date.day).expect("a date of the calendar");
    let time = Time::from_hms(clock.hour, clock.minute, clock.second).expect("a time of the clock");
    PrimitiveDateTime::new(day, time).assume_utc().unix_timestamp_nanos()
}

/// The number of seconds from the start of 1970 to a date and a time at UTC.
pub open spec fn instant_second(date: CalendarDate, clock: ClockTime) -> int {
    epoch_second(
        date.year as int,
        date.month as int,
        date.day as int,
        clock.hour as int,
        clock.minute as int,
        clock.second as int,
    )
}

/// The date of the bytes `YYYYMMDD`.
pub open spec fn date_of(b: Seq<u8>) -> Result<CalendarDate, ExpiryError> {
    let year = signed_value(b.subrange(0, 4), i32::MIN as int, i32::MAX as int);
    let month = unsigned_value(b.subrange(4, 6), 255);
    let day = unsigned_value(b.subrange(6, 8), 255);
    if year is None || month is None {
        Err(ExpiryError::InvalidNumber)
    } else if !(1 <= month->0 <= 12) {
        Err(ExpiryError::InvalidDate)
    } else if day is None {
        Err(ExpiryError::InvalidNumber)
    } else if !valid_date(year->0, month->0, day->0) {
        Err(ExpiryError::InvalidDate)
    } else {
        Ok(CalendarDate { year: year->0 as i32, month: month->0 as u8, day: day->0 as u8 })
    }
}

/// The number of a field; zero where there is no such field.
pub open spec fn field_number(parts: Seq<Seq<u8>>, i: int) -> Option<int> {
    if i < parts.len() {
        unsigned_value(parts[i], 255)
    } else {
        Some(0)
    }
}

/// The numbers of a time `HH:MM:SS`, the later of which may be absent.
pub open spec fn clock_of(b: Seq<u8>) -> Option<ClockTime> {
    let parts = fields(b, 58);
    match (field_number(parts, 0), field_number(parts, 1), field_number(parts, 2)) {
        (Some(hour), Some(minute), Some(second)) => Some(
            ClockTime { hour: hour as u8, minute: minute as u8, second: second as u8 },
        ),
        _ => None,
    }
}

/// Midnight.
pub open spec fn midnight() -> ClockTime {
    ClockTime { hour: 0, minute: 0, second: 0 }
}

/// The hour and the minute at which a session ends, read from the bytes behind the colon that
/// follows the hyphen; midnight where they are no time.
pub open spec fn session_end(session: Seq<u8>) -> ClockTime {
    let inner = fields(fields(session, 45)[1], 58);
    if inner.len() < 2 || inner[1].len() < 4 {
        midnight()
    } else {
        let hour = match unsigned_value(inner[1].subrange(0, 2), 255) {
            Some(n) => n,
            None => 0,
        };
        let minute = match unsigned_value(inner[1].subrange(2, 4), 255) {
            Some(n) => n,
            None => 0,
        };
        if valid_time(hour, minute, 0) {
            ClockTime { hour: hour as u8, minute: minute as u8, second: 0 }
        } else {
            midnight()
        }
    }
}

/// A session that starts on the day of the expiry and has an end.
pub open spec fn session_on(session: Seq<u8>, expiry: Seq<u8>) -> bool {
    expiry.is_prefix_of(session) && session.contains(45)
}

/// The end of the first of the sessions from `i` on that starts on the day of the expiry; midnight
/// where there is none.
pub open spec fn last_trade_time_from(
    sessions: Seq<String>,
    expiry: Seq<u8>,
    i: int,
) -> ClockTime
    decreases sessions.len() - i,
{
    if i >= sessions.len() {
        midnight()
    } else if session_on(encode_utf8(sessions[i]@), expiry) {
        session_end(encode_utf8(sessions[i]@))
    } else {
        last_trade_time_from(sessions, expiry, i + 1)
    }
}

/// A day without trading is among the sessions.
pub open spec fn has_closed_day(sessions: Seq<String>) -> bool {
    exists|i: int| 0 <= i < sessions.len() && #[trigger] sessions[i]@ == "CLOSED"@
}

/// The time at which a contract that expires on a date stops trading: the end of that day's
/// session where the trading hours are known and have no closed day, and midnight otherwise.
pub open spec fn last_trade_time(details: Option<&ContractDetails>, expiry: Seq<u8>) -> ClockTime {
    match details {
        None => midnight(),
        Some(details) => if has_closed_day(details.trading_hours@) {
            midnight()
        } else {
            last_trade_time_from(details.trading_hours@, expiry, 0)
        },
    }
}

/// The date and the time of an expiry text.
pub open spec fn expiry_moment(b: Seq<u8>, details: Option<&ContractDetails>) -> Result<
    (CalendarDate, ClockTime),
    ExpiryError,
> {
    let parts = fields(b, 32);
    if b.len() == 0 {
        Err(ExpiryError::Empty)
    } else if b.len() == 8 {
        match date_of(b) {
            Ok(date) => Ok((date, last_trade_time(details, b))),
            Err(e) => Err(e),
        }
    } else if parts.len() < 3 || parts[0].len() < 8 {
        Err(ExpiryError::InvalidFormat)
    } else {
        match (clock_of(parts[1]), date_of(parts[0])) {
            (None, _) => Err(ExpiryError::InvalidNumber),
            (Some(_), Err(e)) => Err(e),
            (Some(clock), Ok(date)) => if valid_time(
                clock.hour as int,
                clock.minute as int,
                clock.second as int,
            ) {
                Ok((date, clock))
            } else {
                Err(ExpiryError::InvalidTime)
            },
        }
    }
}

/// The instant of an expiry text in nanoseconds since 1970, modulo `2^64`.
pub open spec fn expiry_nanos(b: Seq<u8>, details: Option<&ContractDetails>) -> Result<
    u64,
    ExpiryError,
> {
    match expiry_moment(b, details) {
        Ok((date, clock)) => Ok(
            ((instant_second(date, clock) * 1_000_000_000) % 0x1_0000_0000_0000_0000) as u64,
        ),
        Err(e) => Err(e),
    }
}

fn read_date(b: &[u8]) -> (r: Result<CalendarDate, ExpiryError>)
    requires
        b@.len() >= 8,
    ensures
        r == date_of(b@),
{
    let year: i32 = match parse_i32(&b[0..4]) {
        Some(n) => n,
        None => {
            return Err(ExpiryError::InvalidNumber);
        },
    };
    let month: u8 = match parse_u8(&b[4..6]) {
        Some(n) => n,
        None => {
            return Err(ExpiryError::InvalidNumber);
        },
    };
    if !month_exists(month) {
        return Err(ExpiryError::InvalidDate);
    }
    let day: u8 = match parse_u8(&b[6..8]) {
        Some(n) => n,
        None => {
            return Err(ExpiryError::InvalidNumber);
        },
    };
    if !date_exists(year, month, day) {
        return Err(ExpiryError::InvalidDate);
    }
    Ok(CalendarDate { year, month, day })
}

fn read_field(parts: &Vec<Vec<u8>>, i: usize) -> (r: Option<u8>)
    ensures
        match r {
            Some(n) => field_number(views(parts@), i as int) == Some(n as int),
            None => field_number(views(parts@), i as int) is None,
        },
{
    if i < parts.len() {
        assert(views(parts@)[i as int] == parts@[i as int]@);
        parse_u8(parts[i].as_slice())
    } else {
        Some(0)
    }
}

fn read_clock(b: &[u8]) -> (r: Option<ClockTime>)
    ensures
        r == clock_of(b@),
{
    let parts = split(b, 58);
    let hour: u8 = match read_field(&parts, 0) {
        Some(n) => n,
        None => {
            return None;
        },
    };
    let minute: u8 = match read_field(&parts, 1) {
        Some(n) => n,
        None => {
            return None;
        },
    };
    let second: u8 = match read_field(&parts, 2) {
        Some(n) => n,
        None => {
            return None;
        },
    };
    Some(ClockTime { hour, minute, second })
}

fn read_session_end(session: &[u8]) -> (r: ClockTime)
    requires
        session@.contains(45),
    ensures
        r == session_end(session@),
        valid_time(r.hour as int, r.minute as int, r.second as int),
{
    proof {
        fields_exist(session@, 45);
    }
    let parts = split(session, 45);
    assert(views(parts@).len() == parts@.len());
    assert(views(parts@)[1] == parts@[1]@);
    let inner = split(parts[1].as_slice(), 58);
    assert(views(inner@).len() == inner@.len());
    if inner.len() < 2 {
        return ClockTime { hour: 0, minute: 0, second: 0 };
    }
    assert(views(inner@)[1] == inner@[1]@);
    let end = inner[1].as_slice();
    if end.len() < 4 {
        return ClockTime { hour: 0, minute: 0, second: 0 };
    }
    let hour: u8 = match parse_u8(&end[0..2]) {
        Some(n) => n,
        None => 0,
    };
    let minute: u8 = match parse_u8(&end[2..4]) {
        Some(n) => n,
        None => 0,
    };
    if time_exists(hour, minute, 0) {
        ClockTime { hour, minute, second: 0 }
    } else {
        ClockTime { hour: 0, minute: 0, second: 0 }
    }
}

fn is_session_on(session: &[u8], expiry: &[u8]) -> (r: bool)
    ensures
        r == session_on(session@, expiry@),
{
    if expiry.len() > session.len() {
        return false;
    }
    let mut i: usize = 0;
    while i < expiry.len()
        invariant
            i <= expiry.len() <= session.len(),
            forall|j: int| 0 <= j < i ==> expiry@[j] == session@[j],
        decreases expiry.len() - i,
    {
        if expiry[i] != session[i] {
            assert(expiry@[i as int] != session@.subrange(0, expiry@.len() as int)[i as int]);
            return false;
        }
        i += 1;
    }
    assert(session@.subrange(0, expiry@.len() as int) =~= expiry@);
    let mut k: usize = 0;
    while k < session.len()
        invariant
            k <= session.len(),
            forall|j: int| 0 <= j < k ==> session@[j] != 45,
            expiry@.is_prefix_of(session@),
        decreases session.len() - k,
    {
        if session[k] == 45 {
            assert(session@[k as int] == 45);
            return true;
        }
        k += 1;
    }
    false
}

fn read_sessions(sessions: &Vec<String>, expiry: &[u8]) -> (r: ClockTime)
    ensures
        r == (if has_closed_day(sessions@) {
            midnight()
        } else {
            last_trade_time_from(sessions@, expiry@, 0)
        }),
        valid_time(r.hour as int, r.minute as int, r.second as int),
{
    let mut i: usize = 0;
    while i < sessions.len()
        invariant
            i <= sessions@.len(),
            forall|j: int| 0 <= j < i ==> #[trigger] sessions@[j]@ != "CLOSED"@,
        decreases sessions.len() - i,
    {
        if text_eq(sessions[i].as_str(), "CLOSED") {
            assert(sessions@[i as int]@ == "CLOSED"@);
            return ClockTime { hour: 0, minute: 0, second: 0 };
        }
        i += 1;
    }
    assert(!has_closed_day(sessions@));
    let mut k: usize = 0;
    while k < sessions.len()
        invariant
            k <= sessions@.len(),
            last_trade_time_from(sessions@, expiry@, 0) == last_trade_time_from(
                sessions@,
                expiry@,
                k as int,
            ),
            !has_closed_day(sessions@),
        decreases sessions.len() - k,
    {
        let session = sessions[k].as_str().as_bytes();
        if is_session_on(session, expiry) {
            return read_session_end(session);
        }
        k += 1;
    }
    ClockTime { hour: 0, minute: 0, second: 0 }
}

fn read_last_trade_time(details: Option<&ContractDetails>, expiry: &[u8]) -> (r: ClockTime)
    ensures
        r == last_trade_time(details, expiry@),
        valid_time(r.hour as int, r.minute as int, r.second as int),
{
    match details {
        Some(details) => read_sessions(&details.trading_hours, expiry),
        None => ClockTime { hour: 0, minute: 0, second: 0 },
    }
}

/// The instants of the calendar stay within 40 thousand years of 1970.
proof fn instants_are_bounded(date: CalendarDate, clock: ClockTime)
    requires
        valid_date(date.year as int, date.month as int, date.day as int),
        valid_time(clock.hour as int, clock.minute as int, clock.second as int),
    ensures
        -400_000_000_000 < instant_second(date, clock) < 400_000_000_000,
{
    months_are_bounded(date.year as int, date.month as int);
    assert(-3_700_000 < days_before_year(date.year as int) < 3_700_000);
}

proof fn months_are_bounded(year: int, month: int)
    requires
        month <= 12,
    ensures
        0 <= days_before_month(year, month) <= 31 * (if month <= 1 {
            0
        } else {
            month - 1
        }),
    decreases month,
{
    if month > 1 {
        months_are_bounded(year, month - 1);
    }
}

fn read_moment(b: &[u8], details: Option<&ContractDetails>) -> (r: Result<
    (CalendarDate, ClockTime),
    ExpiryError,
>)
    ensures
        r == expiry_moment(b@, details),
        r matches Ok((date, clock)) ==> valid_date(
            date.year as int,
            date.month as int,
            date.day as int,
        ) && valid_time(clock.hour as int, clock.minute as int, clock.second as int),
{
    if b.len() == 0 {
        return Err(ExpiryError::Empty);
    }
    if b.len() == 8 {
        return match read_date(b) {
            Ok(date) => Ok((date, read_last_trade_time(details, b))),
            Err(e) => Err(e),
        };
    }
    let parts = split(b, 32);
    assert(views(parts@).len() == parts@.len());
    if parts.len() < 3 {
        return Err(ExpiryError::InvalidFormat);
    }
    assert(views(parts@)[0] == parts@[0]@);
    assert(views(parts@)[1] == parts@[1]@);
    if parts[0].len() < 8 {
        return Err(ExpiryError::InvalidFormat);
    }
    let clock = match read_clock(parts[1].as_slice()) {
        Some(clock) => clock,
        None => {
            return Err(ExpiryError::InvalidNumber);
        },
    };
    let date = match read_date(parts[0].as_slice()) {
        Ok(date) => date,
        Err(e) => {
            return Err(e);
        },
    };
    if !time_exists(clock.hour, clock.minute, clock.second) {
        return Err(ExpiryError::InvalidTime);
    }
    Ok((date, clock))
}

fn wrapped_nanos(date: CalendarDate, clock: ClockTime) -> (r: u64)
    requires
        valid_date(date.year as int, date.month as int, date.day as int),
        valid_time(clock.hour as int, clock.minute as int, clock.second as int),
    ensures
        r == (instant_second(date, clock) * 1_000_000_000) % 0x1_0000_0000_0000_0000,
{
    proof {
        instants_are_bounded(date, clock);
    }
    let nanos: i128 = utc_nanos(date, clock);
    let shifted: i128 = nanos + 32 * 0x1_0000_0000_0000_0000;
    (shifted % 0x1_0000_0000_0000_0000) as u64
}

/// Reads an expiry.
///
/// The text is `YYYYMMDD`, which expires at the end of that day's trading session, or
/// `YYYYMMDD HH:MM:SS` followed by a time zone. Times are read as UTC.
pub fn expiry_timestring_to_unix_nanos(
    expiry: &str,
    details: Option<&ContractDetails>,
) -> (r: Result<u64, ExpiryError>)
    ensures
        r == expiry_nanos(encode_utf8(expiry@), details),
{
    match read_moment(expiry.as_bytes(), details) {
        Ok((date, clock)) => Ok(wrapped_nanos(date, clock)),
        Err(e) => Err(e),
    }
}

proof fn session_times_are_valid(sessions: Seq<String>, expiry: Seq<u8>, i: int)
    ensures
        ({
            let clock = last_trade_time_from(sessions, expiry, i);
            valid_time(clock.hour as int, clock.minute as int, clock.second as int)
        }),
    decreases sessions.len() - i,
{
    if i < sessions.len() && !session_on(encode_utf8(sessions[i]@), expiry) {
        session_times_are_valid(sessions, expiry, i + 1);
    }
}

/// The date and the time of an expiry are in the calendar and on the clock.
pub proof fn expiry_moments_are_valid(b: Seq<u8>, details: Option<&ContractDetails>)
    ensures
        expiry_moment(b, details) matches Ok((date, clock)) ==> valid_date(
            date.year as int,
            date.month as int,
            date.day as int,
        ) && valid_time(clock.hour as int, clock.minute as int, clock.second as int),
{
    match details {
        Some(known) => session_times_are_valid(known.trading_hours@, b, 0),
        None => {},
    }
}

/// An expiry from 1970 to 2553 is its exact number of nanoseconds since 1970.
pub proof fn expiries_since_1970_are_exact(b: Seq<u8>, details: Option<&ContractDetails>)
    requires
        expiry_moment(b, details) matches Ok((date, clock)) && 1970 <= date.year <= 2553,
    ensures
        expiry_nanos(b, details) matches Ok(nanos) && expiry_moment(b, details) matches Ok(
            (date, clock),
        ) && nanos == instant_second(date, clock) * 1_000_000_000,
{
    let (date, clock) = expiry_moment(b, details)->Ok_0;
    expiry_moments_are_valid(b, details);
    months_are_bounded(date.year as int, date.month as int);
    let year = date.year as int;
    assert(0 <= days_before_year(year) - days_before_year(1970) <= 365 * (year - 1970) + 147);
    assert(0 <= instant_second(date, clock) <= 18_446_744_073);
}

/// The text of a date, a time and a time zone.
pub open spec fn full_expiry(date: Seq<u8>, time: Seq<u8>, zone: Seq<u8>) -> Seq<u8> {
    date + seq![32u8] + time + seq![32u8] + zone
}

/// An expiry with a date and a time rests on these alone: neither its time zone nor the trading
/// hours of the contract change it.
pub proof fn full_expiries_rest_on_date_and_time_alone(
    date: Seq<u8>,
    time: Seq<u8>,
    zone: Seq<u8>,
    details: Option<&ContractDetails>,
    other_zone: Seq<u8>,
    other_details: Option<&ContractDetails>,
)
    requires
        date.len() >= 8,
        !date.contains(32),
        !time.contains(32),
    ensures
        expiry_moment(full_expiry(date, time, zone), details) == expiry_moment(
            full_expiry(date, time, other_zone),
            other_details,
        ),
        expiry_nanos(full_expiry(date, time, zone), details) == expiry_nanos(
            full_expiry(date, time, other_zone),
            other_details,
        ),
{
    full_expiry_has_its_fields(date, time, zone);
    full_expiry_has_its_fields(date, time, other_zone);
}

pub(crate) proof fn full_expiry_has_its_fields(date: Seq<u8>, time: Seq<u8>, zone: Seq<u8>)
    requires
        !date.contains(32),
        !time.contains(32),
    ensures
        fields(full_expiry(date, time, zone), 32).len() >= 3,
        fields(full_expiry(date, time, zone), 32)[0] == date,
        fields(full_expiry(date, time, zone), 32)[1] == time,
{
    joined_fields(date + seq![32u8] + time, zone, 32);
    joined_fields(date, time, 32);
    one_field(date, 32);
    one_field(time, 32);
    fields_exist(zone, 32);
}

} // verus!
