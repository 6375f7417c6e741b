//! When a contract expires.

use vstd::prelude::*;
use vstd::utf8::{encode_utf8, is_ascii_chars};

use crate::bytes::{fields, joined_fields, one_field};
use crate::bytes_laws::{
    ascii, ascii_is_encoded, ascii_keeps_places, numerals_are_read, numerals_in_bytes,
};
use crate::civil_laws::{
    calendar_is_gregorian, day_number, on_calendar, on_clock, second_number, seconds_are_counted,
};
use crate::contracts::ContractDetails;
use crate::providers::expiry::{
    clock_of, date_of, expiry_nanos, expiry_timestring_to_unix_nanos, full_expiry,
    full_expiry_has_its_fields, has_closed_day, last_trade_time, last_trade_time_from, midnight,
    session_end, session_on, CalendarDate, ClockTime, ExpiryError,
};
use crate::text_laws::{number_in, numeral, numerals_are_padded_renderings};

verus! {

/// The digits of a date on the calendar.
pub open spec fn date_digits(year: Seq<char>, month: Seq<char>, day: Seq<char>) -> bool {
    &&& year.len() == 4 && month.len() == 2 && day.len() == 2
    &&& numeral(year) && numeral(month) && numeral(day)
    &&& on_calendar(number_in(year), number_in(month), number_in(day))
}

/// The instant of a date at an hour, a minute and a second at UTC, in nanoseconds since 1970.
pub open spec fn instant_of(
    year: Seq<char>,
    month: Seq<char>,
    day: Seq<char>,
    hour: int,
    minute: int,
    second: int,
) -> int {
    1_000_000_000 * second_number(
        number_in(year),
        number_in(month),
        number_in(day),
        hour,
        minute,
        second,
    )
}

/// A session on a date: its text starts with the date and holds a hyphen.
pub open spec fn session_of_day(session: Seq<char>, date: Seq<char>) -> bool {
    date.is_prefix_of(session) && session.contains('-')
}

/// The trading hours name no day without trading, and the first session on the date is
/// `opening-closing:HHMM`.
pub open spec fn session_closes(
    sessions: Seq<String>,
    date: Seq<char>,
    k: int,
    opening: Seq<char>,
    closing: Seq<char>,
    hour: Seq<char>,
    minute: Seq<char>,
) -> bool {
    &&& forall|i: int|
        0 <= i < sessions.len() ==> #[trigger] sessions[i]@ != "CLOSED"@ && is_ascii_chars(
            sessions[i]@,
        )
    &&& 0 <= k < sessions.len()
    &&& forall|i: int| 0 <= i < k ==> !session_of_day(#[trigger] sessions[i]@, date)
    &&& sessions[k]@ == opening + seq!['-'] + closing + seq![':'] + hour + minute
    &&& date.is_prefix_of(opening)
    &&& !opening.contains('-') && !closing.contains('-') && !closing.contains(':')
    &&& hour.len() == 2 && minute.len() == 2 && numeral(hour) && numeral(minute)
}

proof fn prefixes_in_bytes(date: Seq<char>, session: Seq<char>)
    requires
        is_ascii_chars(date),
        is_ascii_chars(session),
    ensures
        session_on(ascii(session), ascii(date)) == session_of_day(session, date),
{
    ascii_keeps_places(session, '-');
    if date.is_prefix_of(session) {
        assert(ascii(session).subrange(0, date.len() as int) =~= ascii(date));
    }
    if ascii(date).is_prefix_of(ascii(session)) {
        assert forall|i: int| 0 <= i < date.len() implies date[i] == session[i] by {
            assert(ascii(date)[i] == ascii(session).subrange(0, date.len() as int)[i]);
            assert(date[i] as u8 == session[i] as u8);
        }
        assert(session.subrange(0, date.len() as int) =~= date);
    }
}

pub(crate) proof fn dates_are_read(year: Seq<char>, month: Seq<char>, day: Seq<char>)
    requires
        date_digits(year, month, day),
    ensures
        is_ascii_chars(year + month + day),
        date_of(ascii(year + month + day)) == Ok::<CalendarDate, ExpiryError>(
            CalendarDate {
                year: number_in(year) as i32,
                month: number_in(month) as u8,
                day: number_in(day) as u8,
            },
        ),
        0 <= number_in(year) <= 9999,
        1 <= number_in(month) <= 12,
        1 <= number_in(day) <= 31,
{
    let b = ascii(year + month + day);
    numerals_in_bytes(year);
    numerals_in_bytes(month);
    numerals_in_bytes(day);
    calendar_is_gregorian(number_in(year), number_in(month), number_in(day));
    numerals_are_padded_renderings(year, 4);
    assert(b.subrange(0, 4) =~= ascii(year));
    assert(b.subrange(4, 6) =~= ascii(month));
    assert(b.subrange(6, 8) =~= ascii(day));
    numerals_are_read(year, i32::MAX as int);
    numerals_are_read(month, 255);
    numerals_are_read(day, 255);
}

proof fn sessions_end_when_they_say(
    opening: Seq<char>,
    closing: Seq<char>,
    hour: Seq<char>,
    minute: Seq<char>,
)
    requires
        is_ascii_chars(opening + seq!['-'] + closing + seq![':'] + hour + minute),
        !opening.contains('-') && !closing.contains('-') && !closing.contains(':'),
        hour.len() == 2 && minute.len() == 2 && numeral(hour) && numeral(minute),
    ensures
        ({
            let end = session_end(ascii(opening + seq!['-'] + closing + seq![':'] + hour + minute));
            if on_clock(number_in(hour), number_in(minute), 0) {
                end.hour == number_in(hour) && end.minute == number_in(minute) && end.second == 0
            } else {
                end == midnight()
            }
        }),
{
    let text = opening + seq!['-'] + closing + seq![':'] + hour + minute;
    let late = closing + seq![':'] + hour + minute;
    let clock = hour + minute;
    assert forall|i: int| 0 <= i < opening.len() implies '\0' <= #[trigger] opening[i]
        <= '\u{7f}' by {
        assert(text[i] == opening[i]);
    }
    assert forall|i: int| 0 <= i < closing.len() implies '\0' <= #[trigger] closing[i]
        <= '\u{7f}' by {
        assert(text[opening.len() + 1 + i] == closing[i]);
    }
    assert(is_ascii_chars(opening) && is_ascii_chars(closing));
    numerals_in_bytes(hour);
    numerals_in_bytes(minute);
    assert(is_ascii_chars(clock) && is_ascii_chars(late));
    assert(ascii(text) =~= ascii(opening) + seq![45u8] + ascii(late));
    assert(ascii(late) =~= ascii(closing) + seq![58u8] + ascii(clock));
    ascii_keeps_places(opening, '-');
    assert(!late.contains('-')) by {
        assert forall|i: int| 0 <= i < late.len() implies late[i] != '-' by {
            if i < closing.len() {
                assert(closing.contains(closing[i]));
            } else if i > closing.len() + 2 {
                assert(late[i] == minute[i - closing.len() - 3]);
            } else if i > closing.len() {
                assert(late[i] == hour[i - closing.len() - 1]);
            }
        }
    }
    ascii_keeps_places(late, '-');
    ascii_keeps_places(closing, ':');
    assert(!clock.contains(':')) by {
        assert forall|i: int| 0 <= i < clock.len() implies clock[i] != ':' by {
            if i < 2 {
                assert(clock[i] == hour[i]);
            } else {
                assert(clock[i] == minute[i - 2]);
            }
        }
    }
    ascii_keeps_places(clock, ':');
    joined_fields(ascii(opening), ascii(late), 45);
    one_field(ascii(opening), 45);
    one_field(ascii(late), 45);
    joined_fields(ascii(closing), ascii(clock), 58);
    one_field(ascii(closing), 58);
    one_field(ascii(clock), 58);
    let inner = fields(fields(ascii(text), 45)[1], 58);
    assert(inner[1] == ascii(clock));
    assert(ascii(clock).subrange(0, 2) =~= ascii(hour));
    assert(ascii(clock).subrange(2, 4) =~= ascii(minute));
    numerals_are_padded_renderings(hour, 2);
    numerals_are_padded_renderings(minute, 2);
    two_digits_are_small(hour);
    two_digits_are_small(minute);
    numerals_are_read(hour, 255);
    numerals_are_read(minute, 255);
    seconds_are_counted(1970, 1, 1, number_in(hour), number_in(minute), 0);
}

pub(crate) proof fn two_digits_are_small(text: Seq<char>)
    requires
        text.len() == 2,
        numeral(text),
    ensures
        0 <= number_in(text) <= 99,
{
    reveal_with_fuel(Seq::fold_left, 4);
    assert('0' <= text[0] <= '9' && '0' <= text[1] <= '9');
    assert(text.drop_last()[0] == text[0]);
    assert(text.drop_last().last() == text[0]);
}

pub(crate) proof fn first_session_counts(
    sessions: Seq<String>,
    date: Seq<char>,
    k: int,
    from: int,
)
    requires
        is_ascii_chars(date),
        0 <= from <= k < sessions.len(),
        forall|i: int| 0 <= i < sessions.len() ==> is_ascii_chars(#[trigger] sessions[i]@),
        forall|i: int| 0 <= i < k ==> !session_of_day(#[trigger] sessions[i]@, date),
        session_of_day(sessions[k]@, date),
    ensures
        last_trade_time_from(sessions, ascii(date), from) == session_end(ascii(sessions[k]@)),
    decreases k - from,
{
    ascii_is_encoded(sessions[from]@);
    prefixes_in_bytes(date, sessions[from]@);
    if from < k {
        first_session_counts(sessions, date, k, from + 1);
    }
}

proof fn no_session_counts(sessions: Seq<String>, date: Seq<char>, from: int)
    requires
        is_ascii_chars(date),
        0 <= from <= sessions.len(),
        forall|i: int| 0 <= i < sessions.len() ==> is_ascii_chars(#[trigger] sessions[i]@),
        forall|i: int| 0 <= i < sessions.len() ==> !session_of_day(#[trigger] sessions[i]@, date),
    ensures
        last_trade_time_from(sessions, ascii(date), from) == midnight(),
    decreases sessions.len() - from,
{
    if from < sessions.len() {
        ascii_is_encoded(sessions[from]@);
        prefixes_in_bytes(date, sessions[from]@);
        no_session_counts(sessions, date, from + 1);
    }
}

proof fn instants_stay_in_range(year: Seq<char>, month: Seq<char>, day: Seq<char>)
    requires
        date_digits(year, month, day),
        1970 <= number_in(year) <= 2553,
    ensures
        0 <= day_number(number_in(year), number_in(month), number_in(day)) <= 213_500,
{
}

/// The instant at which a contract with a date expires at a time of that day.
pub(crate) proof fn dates_expire_at(
    year: Seq<char>,
    month: Seq<char>,
    day: Seq<char>,
    details: Option<&ContractDetails>,
    clock: ClockTime,
)
    requires
        date_digits(year, month, day),
        1970 <= number_in(year) <= 2553,
        last_trade_time(details, ascii(year + month + day)) == clock,
        on_clock(clock.hour as int, clock.minute as int, clock.second as int),
    ensures
        expiry_nanos(encode_utf8(year + month + day), details) matches Ok(nanos) && nanos
            == instant_of(
            year,
            month,
            day,
            clock.hour as int,
            clock.minute as int,
            clock.second as int,
        ),
{
    let date = year + month + day;
    dates_are_read(year, month, day);
    ascii_is_encoded(date);
    instants_stay_in_range(year, month, day);
    seconds_are_counted(
        number_in(year),
        number_in(month),
        number_in(day),
        clock.hour as int,
        clock.minute as int,
        clock.second as int,
    );
}

/// The end of the first session on the day is when trading in a contract ends.
pub(crate) proof fn sessions_end_the_day(
    details: &ContractDetails,
    date: Seq<char>,
    k: int,
    opening: Seq<char>,
    closing: Seq<char>,
    hour: Seq<char>,
    minute: Seq<char>,
)
    requires
        is_ascii_chars(date),
        session_closes(details.trading_hours@, date, k, opening, closing, hour, minute),
    ensures
        ({
            let clock = last_trade_time(Some(details), ascii(date));
            if on_clock(number_in(hour), number_in(minute), 0) {
                clock.hour == number_in(hour) && clock.minute == number_in(minute) && clock.second
                    == 0
            } else {
                clock == midnight()
            }
        }),
{
    let sessions = details.trading_hours@;
    let session = sessions[k]@;
    assert(session[opening.len() as int] == '-');
    assert(session.contains('-'));
    assert(session.subrange(0, date.len() as int) =~= opening.subrange(0, date.len() as int));
    assert(date.is_prefix_of(session));
    assert(is_ascii_chars(session));
    first_session_counts(sessions, date, k, 0);
    sessions_end_when_they_say(opening, closing, hour, minute);
}

/// A contract with a date expires when trading on that day ends: at the hour and the minute, at
/// UTC, at which the first session on that date closes.
pub proof fn dated_contracts_expire_with_their_session(
    expiry: &str,
    details: &ContractDetails,
    r: Result<u64, ExpiryError>,
    year: Seq<char>,
    month: Seq<char>,
    day: Seq<char>,
    k: int,
    opening: Seq<char>,
    closing: Seq<char>,
    hour: Seq<char>,
    minute: Seq<char>,
)
    requires
        call_ensures(expiry_timestring_to_unix_nanos, (expiry, Some(details)), r),
        expiry@ == year + month + day,
        date_digits(year, month, day),
        1970 <= number_in(year) <= 2553,
        session_closes(details.trading_hours@, expiry@, k, opening, closing, hour, minute),
        on_clock(number_in(hour), number_in(minute), 0),
    ensures
        r matches Ok(nanos) && nanos == instant_of(
            year,
            month,
            day,
            number_in(hour),
            number_in(minute),
            0,
        ),
{
    dates_are_read(year, month, day);
    sessions_end_the_day(details, expiry@, k, opening, closing, hour, minute);
    dates_expire_at(
        year,
        month,
        day,
        Some(details),
        last_trade_time(Some(details), ascii(expiry@)),
    );
}

/// Nothing says when trading on a date ends: the contract is not known, its hours name a day
/// without trading, or it has no session on that date.
pub open spec fn no_session(details: Option<&ContractDetails>, date: Seq<char>) -> bool {
    match details {
        None => true,
        Some(details) => {
            ||| exists|i: int|
                0 <= i < details.trading_hours@.len() && #[trigger] details.trading_hours@[i]@
                    == "CLOSED"@
            ||| forall|i: int|
                0 <= i < details.trading_hours@.len() ==> is_ascii_chars(
                    #[trigger] details.trading_hours@[i]@,
                ) && !session_of_day(details.trading_hours@[i]@, date)
        },
    }
}

pub(crate) proof fn days_without_a_session_end_at_midnight(
    details: Option<&ContractDetails>,
    date: Seq<char>,
)
    requires
        is_ascii_chars(date),
        no_session(details, date),
    ensures
        last_trade_time(details, ascii(date)) == midnight(),
{
    match details {
        None => {},
        Some(known) => {
            if !has_closed_day(known.trading_hours@) {
                no_session_counts(known.trading_hours@, date, 0);
            }
        },
    }
}

/// A contract with a date expires at the start of that day, at UTC, where nothing says when trading
/// ends.
pub proof fn dated_contracts_without_a_session_expire_at_midnight(
    expiry: &str,
    details: Option<&ContractDetails>,
    r: Result<u64, ExpiryError>,
    year: Seq<char>,
    month: Seq<char>,
    day: Seq<char>,
)
    requires
        call_ensures(expiry_timestring_to_unix_nanos, (expiry, details), r),
        expiry@ == year + month + day,
        date_digits(year, month, day),
        1970 <= number_in(year) <= 2553,
        no_session(details, expiry@),
    ensures
        r matches Ok(nanos) && nanos == instant_of(year, month, day, 0, 0, 0),
{
    dates_are_read(year, month, day);
    days_without_a_session_end_at_midnight(details, expiry@);
    dates_expire_at(year, month, day, details, midnight());
}

/// The text of a date, a time and a zone.
pub open spec fn full_text(
    year: Seq<char>,
    month: Seq<char>,
    day: Seq<char>,
    hour: Seq<char>,
    minute: Seq<char>,
    second: Seq<char>,
    zone: Seq<char>,
) -> Seq<char> {
    year + month + day + seq![' '] + hour + seq![':'] + minute + seq![':'] + second + seq![' ']
        + zone
}

pub(crate) proof fn clocks_are_read(hour: Seq<char>, minute: Seq<char>, second: Seq<char>)
    requires
        hour.len() == 2 && minute.len() == 2 && second.len() == 2,
        numeral(hour) && numeral(minute) && numeral(second),
    ensures
        ({
            let time = hour + seq![':'] + minute + seq![':'] + second;
            &&& is_ascii_chars(time)
            &&& !ascii(time).contains(32)
            &&& clock_of(ascii(time)) == Some(
                ClockTime {
                    hour: number_in(hour) as u8,
                    minute: number_in(minute) as u8,
                    second: number_in(second) as u8,
                },
            )
            &&& 0 <= number_in(hour) <= 99 && 0 <= number_in(minute) <= 99
            &&& 0 <= number_in(second) <= 99
        }),
{
    let time = hour + seq![':'] + minute + seq![':'] + second;
    numerals_in_bytes(hour);
    numerals_in_bytes(minute);
    numerals_in_bytes(second);
    assert forall|i: int| 0 <= i < time.len() implies (time[i] as u32) < 128 && time[i] != ' ' by {
        if i < 2 {
            assert(time[i] == hour[i]);
        } else if 3 <= i < 5 {
            assert(time[i] == minute[i - 3]);
        } else if i >= 6 {
            assert(time[i] == second[i - 6]);
        }
    }
    assert(is_ascii_chars(time));
    ascii_keeps_places(time, ' ');
    assert(!time.contains(' '));
    let early = hour + seq![':'] + minute;
    assert(ascii(time) =~= ascii(early) + seq![58u8] + ascii(second));
    assert(ascii(early) =~= ascii(hour) + seq![58u8] + ascii(minute));
    joined_fields(ascii(early), ascii(second), 58);
    joined_fields(ascii(hour), ascii(minute), 58);
    digits_hold_no_colon(hour);
    digits_hold_no_colon(minute);
    digits_hold_no_colon(second);
    one_field(ascii(hour), 58);
    one_field(ascii(minute), 58);
    one_field(ascii(second), 58);
    two_digits_are_small(hour);
    two_digits_are_small(minute);
    two_digits_are_small(second);
    numerals_are_read(hour, 255);
    numerals_are_read(minute, 255);
    numerals_are_read(second, 255);
}

pub(crate) proof fn digits_hold_no_colon(text: Seq<char>)
    requires
        numeral(text),
    ensures
        !ascii(text).contains(58),
{
    numerals_in_bytes(text);
    assert(!ascii(text).contains(58)) by {
        if ascii(text).contains(58) {
            let i = choose|i: int| 0 <= i < ascii(text).len() && ascii(text)[i] == 58;
            assert('0' <= text[i] <= '9');
        }
    }
}

pub(crate) proof fn full_texts_expire_at(
    details: Option<&ContractDetails>,
    year: Seq<char>,
    month: Seq<char>,
    day: Seq<char>,
    hour: Seq<char>,
    minute: Seq<char>,
    second: Seq<char>,
    zone: Seq<char>,
)
    requires
        date_digits(year, month, day),
        1970 <= number_in(year) <= 2553,
        hour.len() == 2 && minute.len() == 2 && second.len() == 2,
        numeral(hour) && numeral(minute) && numeral(second),
        is_ascii_chars(zone),
    ensures
        ({
            let text = full_text(year, month, day, hour, minute, second, zone);
            if on_clock(number_in(hour), number_in(minute), number_in(second)) {
                expiry_nanos(encode_utf8(text), details) matches Ok(nanos) && nanos == instant_of(
                    year,
                    month,
                    day,
                    number_in(hour),
                    number_in(minute),
                    number_in(second),
                )
            } else {
                expiry_nanos(encode_utf8(text), details) == Err::<u64, ExpiryError>(
                    ExpiryError::InvalidTime,
                )
            }
        }),
{
    let text = full_text(year, month, day, hour, minute, second, zone);
    let date = year + month + day;
    let time = hour + seq![':'] + minute + seq![':'] + second;
    dates_are_read(year, month, day);
    clocks_are_read(hour, minute, second);
    assert(text =~= date + seq![' '] + time + seq![' '] + zone);
    assert(is_ascii_chars(text)) by {
        assert forall|i: int| 0 <= i < text.len() implies (text[i] as u32) < 128 by {
            if i < 8 {
                assert(text[i] == date[i]);
            } else if 9 <= i < 17 {
                assert(text[i] == time[i - 9]);
            } else if i >= 18 {
                assert(text[i] == zone[i - 18]);
            }
        }
    }
    ascii_is_encoded(text);
    assert(ascii(text) =~= full_expiry(ascii(date), ascii(time), ascii(zone)));
    assert(!ascii(date).contains(32)) by {
        ascii_keeps_places(date, ' ');
        assert forall|i: int| 0 <= i < date.len() implies date[i] != ' ' by {
            if i < 4 {
                assert(date[i] == year[i]);
            } else if i < 6 {
                assert(date[i] == month[i - 4]);
            } else {
                assert(date[i] == day[i - 6]);
            }
        }
    }
    full_expiry_has_its_fields(ascii(date), ascii(time), ascii(zone));
    instants_stay_in_range(year, month, day);
    seconds_are_counted(
        number_in(year),
        number_in(month),
        number_in(day),
        number_in(hour),
        number_in(minute),
        number_in(second),
    );
}

/// A contract with a date and a time expires then, at UTC, whatever zone the text names and
/// whatever the trading hours are; a time that is not on the clock is refused.
pub proof fn timed_contracts_expire_at_their_time(
    expiry: &str,
    details: Option<&ContractDetails>,
    r: Result<u64, ExpiryError>,
    year: Seq<char>,
    month: Seq<char>,
    day: Seq<char>,
    hour: Seq<char>,
    minute: Seq<char>,
    second: Seq<char>,
    zone: Seq<char>,
)
    requires
        call_ensures(expiry_timestring_to_unix_nanos, (expiry, details), r),
        expiry@ == full_text(year, month, day, hour, minute, second, zone),
        date_digits(year, month, day),
        1970 <= number_in(year) <= 2553,
        hour.len() == 2 && minute.len() == 2 && second.len() == 2,
        numeral(hour) && numeral(minute) && numeral(second),
        is_ascii_chars(zone),
    ensures
        if on_clock(number_in(hour), number_in(minute), number_in(second)) {
            r matches Ok(nanos) && nanos == instant_of(
                year,
                month,
                day,
                number_in(hour),
                number_in(minute),
                number_in(second),
            )
        } else {
            r == Err::<u64, ExpiryError>(ExpiryError::InvalidTime)
        },
{
    full_texts_expire_at(details, year, month, day, hour, minute, second, zone);
}

/// What is no expiry is refused: an empty text, a text of another length without a space, and eight
/// digits that are no date of the calendar.
pub proof fn other_texts_do_not_expire(
    expiry: &str,
    details: Option<&ContractDetails>,
    r: Result<u64, ExpiryError>,
    year: Seq<char>,
    month: Seq<char>,
    day: Seq<char>,
)
    requires
        call_ensures(expiry_timestring_to_unix_nanos, (expiry, details), r),
    ensures
        expiry@.len() == 0 ==> r == Err::<u64, ExpiryError>(ExpiryError::Empty),
        is_ascii_chars(expiry@) && expiry@.len() != 0 && expiry@.len() != 8 && !expiry@.contains(
            ' ',
        ) ==> r == Err::<u64, ExpiryError>(ExpiryError::InvalidFormat),
        expiry@ == year + month + day && year.len() == 4 && month.len() == 2 && day.len() == 2
            && numeral(year) && numeral(month) && numeral(day) && !on_calendar(
            number_in(year),
            number_in(month),
            number_in(day),
        ) ==> r == Err::<u64, ExpiryError>(ExpiryError::InvalidDate),
{
    let text = expiry@;
    if is_ascii_chars(text) {
        ascii_is_encoded(text);
        if !text.contains(' ') {
            ascii_keeps_places(text, ' ');
            one_field(ascii(text), 32);
        }
    }
    if text.len() == 0 {
        assert(text =~= Seq::empty());
    }
    if text == year + month + day && year.len() == 4 && month.len() == 2 && day.len() == 2
        && numeral(year) && numeral(month) && numeral(day) && !on_calendar(
        number_in(year),
        number_in(month),
        number_in(day),
    ) {
        numerals_in_bytes(year);
        numerals_in_bytes(month);
        numerals_in_bytes(day);
        numerals_are_padded_renderings(year, 4);
        two_digits_are_small(month);
        two_digits_are_small(day);
        four_digits_are_small(year);
        let b = ascii(text);
        assert(is_ascii_chars(text));
        assert(b.subrange(0, 4) =~= ascii(year));
        assert(b.subrange(4, 6) =~= ascii(month));
        assert(b.subrange(6, 8) =~= ascii(day));
        numerals_are_read(year, i32::MAX as int);
        numerals_are_read(month, 255);
        numerals_are_read(day, 255);
        calendar_is_gregorian(number_in(year), number_in(month), number_in(day));
    }
}

pub(crate) proof fn four_digits_are_small(text: Seq<char>)
    requires
        text.len() == 4,
        numeral(text),
    ensures
        0 <= number_in(text) <= 9999,
{
    reveal_with_fuel(Seq::fold_left, 6);
    assert('0' <= text[0] <= '9' && '0' <= text[1] <= '9');
    assert('0' <= text[2] <= '9' && '0' <= text[3] <= '9');
    let a = text.drop_last();
    let b = a.drop_last();
    let c = b.drop_last();
    assert(a.last() == text[2] && b.last() == text[1] && c.last() == text[0]);
}

} // verus!
