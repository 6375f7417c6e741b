//! When a contract expires whose text or trading hours are out of the ordinary, and what is no
//! expiry.

use vstd::prelude::*;
use vstd::utf8::{encode_utf8, is_ascii_chars};

use crate::bytes::{
    digit_bytes, fields, fields_exist, joined_fields, one_field, signed_value, unsigned_value,
};
use crate::bytes_laws::{
    ascii, ascii_is_encoded, ascii_keeps_places, numerals_are_read, numerals_in_bytes,
};
use crate::civil_laws::{calendar_is_gregorian, on_calendar, on_clock, seconds_are_counted};
use crate::contracts::ContractDetails;
use crate::providers::expiry::{
    clock_of, expiry_nanos, expiry_timestring_to_unix_nanos, full_expiry,
    full_expiry_has_its_fields, last_trade_time, midnight, session_end, ClockTime, ExpiryError,
};
use crate::providers::expiry_laws::{
    clocks_are_read, date_digits, dates_are_read, digits_hold_no_colon, first_session_counts,
    four_digits_are_small, full_text, instant_of, session_closes, session_of_day,
    sessions_end_the_day, two_digits_are_small,
};
use crate::text_laws::{number_in, numeral};

verus! {

/// An instant as it is kept in 64 bits.
pub open spec fn wrapped(instant: int) -> int {
    instant % 0x1_0000_0000_0000_0000
}

proof fn dates_expire_wrapped(
    year: Seq<char>,
    month: Seq<char>,
    day: Seq<char>,
    details: Option<&ContractDetails>,
    clock: ClockTime,
)
    requires
        date_digits(year, month, day),
        last_trade_time(details, ascii(year + month + day)) == clock,
        on_clock(clock.hour as int, clock.minute as int, clock.second as int),
    ensures
        expiry_nanos(encode_utf8(year + month + day), details) matches Ok(nanos) && nanos == wrapped(
            instant_of(
                year,
                month,
                day,
                clock.hour as int,
                clock.minute as int,
                clock.second as int,
            ),
        ),
{
    let date = year + month + day;
    dates_are_read(year, month, day);
    ascii_is_encoded(date);
    seconds_are_counted(
        number_in(year),
        number_in(month),
        number_in(day),
        clock.hour as int,
        clock.minute as int,
        clock.second as int,
    );
}

/// A contract of any year expires when the first session on its date closes, in 64 bits of
/// nanoseconds; where the session closes at no time of the clock, it expires at the start of the
/// day.
pub proof fn contracts_of_any_year_expire_with_their_session(
    expiry: &str,
    details: &ContractDetails,
    r: Result<u64, ExpiryError>,
    year: Seq<char>,
    month: Seq<char>,
    day: Seq<char>,
    k: int,
    opening: Seq<char>,
    closing: Seq<char>,
    hour: Seq<char>,
    minute: Seq<char>,
)
    requires
        call_ensures(expiry_timestring_to_unix_nanos, (expiry, Some(details)), r),
        expiry@ == year + month + day,
        date_digits(year, month, day),
        session_closes(details.trading_hours@, expiry@, k, opening, closing, hour, minute),
    ensures
        r matches Ok(nanos) && nanos == wrapped(
            if on_clock(number_in(hour), number_in(minute), 0) {
                instant_of(year, month, day, number_in(hour), number_in(minute), 0)
            } else {
                instant_of(year, month, day, 0, 0, 0)
            },
        ),
{
    dates_are_read(year, month, day);
    sessions_end_the_day(details, expiry@, k, opening, closing, hour, minute);
    dates_expire_wrapped(
        year,
        month,
        day,
        Some(details),
        last_trade_time(Some(details), ascii(expiry@)),
    );
}

/// A session that says no hour and minute behind the colon of its end has none: the contract
/// expires at the start of the day.
pub proof fn sessions_without_an_end_leave_midnight(
    expiry: &str,
    details: &ContractDetails,
    r: Result<u64, ExpiryError>,
    year: Seq<char>,
    month: Seq<char>,
    day: Seq<char>,
    k: int,
    opening: Seq<char>,
    closing: Seq<char>,
    rest: Seq<char>,
)
    requires
        call_ensures(expiry_timestring_to_unix_nanos, (expiry, Some(details)), r),
        expiry@ == year + month + day,
        date_digits(year, month, day),
        forall|i: int|
            0 <= i < details.trading_hours@.len() ==> #[trigger] details.trading_hours@[i]@
                != "CLOSED"@ && is_ascii_chars(details.trading_hours@[i]@),
        0 <= k < details.trading_hours@.len(),
        forall|i: int|
            0 <= i < k ==> !session_of_day(#[trigger] details.trading_hours@[i]@, expiry@),
        expiry@.is_prefix_of(opening),
        !opening.contains('-') && !closing.contains('-') && !closing.contains(':'),
        !rest.contains('-') && !rest.contains(':') && rest.len() < 4,
        details.trading_hours@[k]@ == opening + seq!['-'] + closing
            || details.trading_hours@[k]@ == opening + seq!['-'] + closing + seq![':'] + rest,
    ensures
        r matches Ok(nanos) && nanos == wrapped(instant_of(year, month, day, 0, 0, 0)),
{
    let date = expiry@;
    let session = details.trading_hours@[k]@;
    dates_are_read(year, month, day);
    assert(session[opening.len() as int] == '-');
    assert(session.subrange(0, date.len() as int) =~= opening.subrange(0, date.len() as int));
    assert(session_of_day(session, date));
    first_session_counts(details.trading_hours@, date, k, 0);
    assert(is_ascii_chars(session));
    let late = session.skip(opening.len() as int + 1);
    assert(session =~= opening + seq!['-'] + late);
    assert forall|i: int| 0 <= i < opening.len() implies '\0' <= #[trigger] opening[i]
        <= '\u{7f}' by {
        assert(session[i] == opening[i]);
    }
    assert forall|i: int| 0 <= i < late.len() implies '\0' <= #[trigger] late[i] <= '\u{7f}' by {
        assert(session[opening.len() + 1 + i] == late[i]);
    }
    assert(is_ascii_chars(opening) && is_ascii_chars(late));
    assert(ascii(session) =~= ascii(opening) + seq![45u8] + ascii(late));
    ascii_keeps_places(opening, '-');
    ascii_keeps_places(late, '-');
    assert(!late.contains('-')) by {
        if late.contains('-') {
            let i = choose|i: int| 0 <= i < late.len() && late[i] == '-';
            if i < closing.len() {
                assert(late[i] == closing[i]);
                assert(closing.contains('-'));
            } else if i > closing.len() {
                assert(late[i] == rest[i - closing.len() - 1]);
                assert(rest.contains('-'));
            }
        }
    }
    joined_fields(ascii(opening), ascii(late), 45);
    one_field(ascii(opening), 45);
    one_field(ascii(late), 45);
    assert(fields(ascii(session), 45)[1] == ascii(late));
    if session == opening + seq!['-'] + closing {
        assert(late =~= closing);
        ascii_keeps_places(late, ':');
        one_field(ascii(late), 58);
    } else {
        assert(late =~= closing + seq![':'] + rest);
        assert forall|i: int| 0 <= i < closing.len() implies '\0' <= #[trigger] closing[i]
            <= '\u{7f}' by {
            assert(late[i] == closing[i]);
        }
        assert forall|i: int| 0 <= i < rest.len() implies '\0' <= #[trigger] rest[i]
            <= '\u{7f}' by {
            assert(late[closing.len() + 1 + i] == rest[i]);
        }
        assert(is_ascii_chars(closing) && is_ascii_chars(rest));
        assert(ascii(late) =~= ascii(closing) + seq![58u8] + ascii(rest));
        ascii_keeps_places(closing, ':');
        ascii_keeps_places(rest, ':');
        joined_fields(ascii(closing), ascii(rest), 58);
        one_field(ascii(closing), 58);
        one_field(ascii(rest), 58);
    }
    assert(session_end(ascii(session)) == midnight());
    dates_expire_wrapped(year, month, day, Some(details), midnight());
}

/// A text of a date, a time and a zone.
pub open spec fn timed_text(date: Seq<char>, time: Seq<char>, zone: Seq<char>) -> Seq<char> {
    date + seq![' '] + time + seq![' '] + zone
}

proof fn timed_texts_have_their_parts(date: Seq<char>, time: Seq<char>, zone: Seq<char>)
    requires
        is_ascii_chars(date) && is_ascii_chars(time) && is_ascii_chars(zone),
        !date.contains(' ') && !time.contains(' '),
    ensures
        ({
            let b = encode_utf8(timed_text(date, time, zone));
            &&& b.len() == date.len() + time.len() + zone.len() + 2
            &&& fields(b, 32).len() >= 3
            &&& fields(b, 32)[0] == ascii(date)
            &&& fields(b, 32)[1] == ascii(time)
        }),
{
    let text = timed_text(date, time, zone);
    assert(is_ascii_chars(text)) by {
        assert forall|i: int| 0 <= i < text.len() implies '\0' <= #[trigger] text[i]
            <= '\u{7f}' by {
            if i < date.len() {
                assert(text[i] == date[i]);
            } else if date.len() < i <= date.len() + time.len() {
                assert(text[i] == time[i - date.len() - 1]);
            } else if i > date.len() + time.len() + 1 {
                assert(text[i] == zone[i - date.len() - time.len() - 2]);
            }
        }
    }
    ascii_is_encoded(text);
    ascii_keeps_places(date, ' ');
    ascii_keeps_places(time, ' ');
    assert(ascii(text) =~= full_expiry(
        ascii(date),
        ascii(time),
        ascii(zone),
    ));
    full_expiry_has_its_fields(ascii(date), ascii(time), ascii(zone));
}

proof fn dates_hold_no_space(year: Seq<char>, month: Seq<char>, day: Seq<char>)
    requires
        date_digits(year, month, day),
    ensures
        !(year + month + day).contains(' '),
{
    let date = year + month + day;
    assert forall|i: int| 0 <= i < date.len() implies date[i] != ' ' by {
        if i < 4 {
            assert(date[i] == year[i]);
        } else if i < 6 {
            assert(date[i] == month[i - 4]);
        } else {
            assert(date[i] == day[i - 6]);
        }
    }
}

/// A time that says no seconds, or neither minutes nor seconds, has none.
pub proof fn short_times_have_no_seconds(
    expiry: &str,
    details: Option<&ContractDetails>,
    r: Result<u64, ExpiryError>,
    year: Seq<char>,
    month: Seq<char>,
    day: Seq<char>,
    hour: Seq<char>,
    minute: Seq<char>,
    zone: Seq<char>,
)
    requires
        call_ensures(expiry_timestring_to_unix_nanos, (expiry, details), r),
        date_digits(year, month, day),
        hour.len() == 2 && minute.len() == 2 && numeral(hour) && numeral(minute),
        is_ascii_chars(zone),
    ensures
        expiry@ == timed_text(year + month + day, hour, zone) && on_clock(number_in(hour), 0, 0)
            ==> (r matches Ok(nanos) && nanos == wrapped(
            instant_of(year, month, day, number_in(hour), 0, 0),
        )),
        expiry@ == timed_text(year + month + day, hour + seq![':'] + minute, zone) && on_clock(
            number_in(hour),
            number_in(minute),
            0,
        ) ==> (r matches Ok(nanos) && nanos == wrapped(
            instant_of(year, month, day, number_in(hour), number_in(minute), 0),
        )),
{
    let date = year + month + day;
    dates_are_read(year, month, day);
    dates_hold_no_space(year, month, day);
    clocks_are_read(hour, minute, minute);
    numerals_in_bytes(hour);
    numerals_in_bytes(minute);
    digits_hold_no_colon(hour);
    digits_hold_no_colon(minute);
    numerals_are_read(hour, 255);
    numerals_are_read(minute, 255);
    one_field(ascii(hour), 58);
    one_field(ascii(minute), 58);
    let time = hour + seq![':'] + minute;
    assert(ascii(time) =~= ascii(hour) + seq![58u8] + ascii(minute));
    joined_fields(ascii(hour), ascii(minute), 58);
    assert(!hour.contains(' ')) by {
        assert forall|i: int| 0 <= i < hour.len() implies hour[i] != ' ' by {
            assert('0' <= hour[i] <= '9');
        }
    }
    assert(!time.contains(' ')) by {
        assert forall|i: int| 0 <= i < time.len() implies time[i] != ' ' by {
            if i < 2 {
                assert(time[i] == hour[i]);
            } else if i > 2 {
                assert(time[i] == minute[i - 3]);
            }
        }
    }
    assert(is_ascii_chars(time)) by {
        assert forall|i: int| 0 <= i < time.len() implies '\0' <= #[trigger] time[i]
            <= '\u{7f}' by {
            if i < 2 {
                assert(time[i] == hour[i]);
            } else if i > 2 {
                assert(time[i] == minute[i - 3]);
            }
        }
    }
    assert(clock_of(ascii(hour)) == Some(
        ClockTime { hour: number_in(hour) as u8, minute: 0, second: 0 },
    ));
    assert(clock_of(ascii(time)) == Some(
        ClockTime { hour: number_in(hour) as u8, minute: number_in(minute) as u8, second: 0 },
    ));
    timed_texts_have_their_parts(date, hour, zone);
    timed_texts_have_their_parts(date, time, zone);
    seconds_are_counted(
        number_in(year),
        number_in(month),
        number_in(day),
        number_in(hour),
        0,
        0,
    );
    seconds_are_counted(
        number_in(year),
        number_in(month),
        number_in(day),
        number_in(hour),
        number_in(minute),
        0,
    );
}

/// A contract of any year with a date and a time expires then, in 64 bits of nanoseconds.
pub proof fn contracts_of_any_year_expire_at_their_time(
    expiry: &str,
    details: Option<&ContractDetails>,
    r: Result<u64, ExpiryError>,
    year: Seq<char>,
    month: Seq<char>,
    day: Seq<char>,
    hour: Seq<char>,
    minute: Seq<char>,
    second: Seq<char>,
    zone: Seq<char>,
)
    requires
        call_ensures(expiry_timestring_to_unix_nanos, (expiry, details), r),
        expiry@ == full_text(year, month, day, hour, minute, second, zone),
        date_digits(year, month, day),
        hour.len() == 2 && minute.len() == 2 && second.len() == 2,
        numeral(hour) && numeral(minute) && numeral(second),
        on_clock(number_in(hour), number_in(minute), number_in(second)),
        is_ascii_chars(zone),
    ensures
        r matches Ok(nanos) && nanos == wrapped(
            instant_of(
                year,
                month,
                day,
                number_in(hour),
                number_in(minute),
                number_in(second),
            ),
        ),
{
    let date = year + month + day;
    let time = hour + seq![':'] + minute + seq![':'] + second;
    dates_are_read(year, month, day);
    dates_hold_no_space(year, month, day);
    clocks_are_read(hour, minute, second);
    ascii_keeps_places(time, ' ');
    timed_texts_have_their_parts(date, time, zone);
    assert(expiry@ =~= timed_text(date, time, zone));
    seconds_are_counted(
        number_in(year),
        number_in(month),
        number_in(day),
        number_in(hour),
        number_in(minute),
        number_in(second),
    );
}

proof fn letters_make_no_number(text: Seq<char>, i: int)
    requires
        is_ascii_chars(text),
        1 <= i < text.len(),
        !('0' <= text[i] <= '9'),
    ensures
        unsigned_value(ascii(text), 255) is None,
        signed_value(ascii(text), i32::MIN as int, i32::MAX as int) is None,
{
    let b = ascii(text);
    assert('\0' <= text[i] <= '\u{7f}');
    assert(!(48 <= b[i] <= 57));
    assert(b.drop_first()[i - 1] == b[i]);
    assert(!digit_bytes(b));
    assert(!digit_bytes(b.drop_first()));
}

/// What is no expiry is refused for what is wrong with it: two words, or a first word shorter than
/// a date, for the form; a year, a month or a day of eight characters that is no number for that,
/// and before a day that is none a month that is not on the calendar for that.
pub proof fn faulty_expiries_are_refused(
    expiry: &str,
    details: Option<&ContractDetails>,
    r: Result<u64, ExpiryError>,
    first: Seq<char>,
    second: Seq<char>,
    zone: Seq<char>,
    year: Seq<char>,
    month: Seq<char>,
    day: Seq<char>,
    i: int,
)
    requires
        call_ensures(expiry_timestring_to_unix_nanos, (expiry, details), r),
        is_ascii_chars(expiry@),
        is_ascii_chars(first) && is_ascii_chars(second) && is_ascii_chars(zone),
        is_ascii_chars(year) && is_ascii_chars(month) && is_ascii_chars(day),
        year.len() == 4 && month.len() == 2 && day.len() == 2,
    ensures
        expiry@ == first + seq![' '] + second && !first.contains(' ') && !second.contains(' ')
            && expiry@.len() != 8 ==> r == Err::<u64, ExpiryError>(ExpiryError::InvalidFormat),
        expiry@ == timed_text(first, second, zone) && !first.contains(' ') && !second.contains(
            ' ',
        ) && first.len() < 8 && expiry@.len() != 8 ==> r == Err::<u64, ExpiryError>(
            ExpiryError::InvalidFormat,
        ),
        expiry@ == year + month + day && (1 <= i < 4 && !('0' <= year[i] <= '9')) ==> r == Err::<
            u64,
            ExpiryError,
        >(ExpiryError::InvalidNumber),
        expiry@ == year + month + day && numeral(year) && !('0' <= month[1] <= '9') ==> r == Err::<
            u64,
            ExpiryError,
        >(ExpiryError::InvalidNumber),
        expiry@ == year + month + day && numeral(year) && numeral(month) && !(1 <= number_in(month)
            <= 12) ==> r == Err::<u64, ExpiryError>(ExpiryError::InvalidDate),
        expiry@ == year + month + day && numeral(year) && numeral(month) && 1 <= number_in(month)
            <= 12 && !('0' <= day[1] <= '9') ==> r == Err::<u64, ExpiryError>(
            ExpiryError::InvalidNumber,
        ),
{
    ascii_is_encoded(expiry@);
    if expiry@ == first + seq![' '] + second && !first.contains(' ') && !second.contains(' ') {
        ascii_keeps_places(first, ' ');
        ascii_keeps_places(second, ' ');
        assert(ascii(expiry@) =~= ascii(first) + seq![32u8] + ascii(second));
        joined_fields(ascii(first), ascii(second), 32);
        one_field(ascii(first), 32);
        one_field(ascii(second), 32);
    }
    if expiry@ == timed_text(first, second, zone) && !first.contains(' ') && !second.contains(' ') {
        timed_texts_have_their_parts(first, second, zone);
    }
    if expiry@ == year + month + day {
        let b = ascii(expiry@);
        assert(b.subrange(0, 4) =~= ascii(year));
        assert(b.subrange(4, 6) =~= ascii(month));
        assert(b.subrange(6, 8) =~= ascii(day));
        if 1 <= i < 4 && !('0' <= year[i] <= '9') {
            letters_make_no_number(year, i);
        }
        if numeral(year) {
            four_digits_are_small(year);
            numerals_are_read(year, i32::MAX as int);
            if !('0' <= month[1] <= '9') {
                letters_make_no_number(month, 1);
            }
            if numeral(month) {
                two_digits_are_small(month);
                numerals_are_read(month, 255);
                if !('0' <= day[1] <= '9') {
                    letters_make_no_number(day, 1);
                }
            }
        }
    }
}

/// A text with a time is refused where its date is not on the calendar, even if the time is not on
/// the clock either.
pub proof fn timed_texts_need_a_date(
    expiry: &str,
    details: Option<&ContractDetails>,
    r: Result<u64, ExpiryError>,
    year: Seq<char>,
    month: Seq<char>,
    day: Seq<char>,
    hour: Seq<char>,
    minute: Seq<char>,
    second: Seq<char>,
    zone: Seq<char>,
)
    requires
        call_ensures(expiry_timestring_to_unix_nanos, (expiry, details), r),
        expiry@ == full_text(year, month, day, hour, minute, second, zone),
        year.len() == 4 && month.len() == 2 && day.len() == 2,
        numeral(year) && numeral(month) && numeral(day),
        hour.len() == 2 && minute.len() == 2 && second.len() == 2,
        numeral(hour) && numeral(minute) && numeral(second),
        is_ascii_chars(zone),
        !on_calendar(number_in(year), number_in(month), number_in(day)),
    ensures
        r == Err::<u64, ExpiryError>(ExpiryError::InvalidDate),
{
    let date = year + month + day;
    let time = hour + seq![':'] + minute + seq![':'] + second;
    numerals_in_bytes(year);
    numerals_in_bytes(month);
    numerals_in_bytes(day);
    two_digits_are_small(month);
    two_digits_are_small(day);
    four_digits_are_small(year);
    numerals_are_read(year, i32::MAX as int);
    numerals_are_read(month, 255);
    numerals_are_read(day, 255);
    calendar_is_gregorian(number_in(year), number_in(month), number_in(day));
    assert(is_ascii_chars(date)) by {
        assert forall|i: int| 0 <= i < date.len() implies '\0' <= #[trigger] date[i]
            <= '\u{7f}' by {
            if i < 4 {
                assert(date[i] == year[i]);
            } else if i < 6 {
                assert(date[i] == month[i - 4]);
            } else {
                assert(date[i] == day[i - 6]);
            }
        }
    }
    assert(!date.contains(' ')) by {
        assert forall|i: int| 0 <= i < date.len() implies date[i] != ' ' by {
            if i < 4 {
                assert(date[i] == year[i]);
            } else if i < 6 {
                assert(date[i] == month[i - 4]);
            } else {
                assert(date[i] == day[i - 6]);
            }
        }
    }
    let b = ascii(date);
    assert(b.subrange(0, 4) =~= ascii(year));
    assert(b.subrange(4, 6) =~= ascii(month));
    assert(b.subrange(6, 8) =~= ascii(day));
    clocks_are_read(hour, minute, second);
    ascii_keeps_places(time, ' ');
    timed_texts_have_their_parts(date, time, zone);
    assert(expiry@ =~= timed_text(date, time, zone));
}

/// What stands behind the eight characters of a date, and behind the three fields of a time, changes
/// nothing; nor does the zone.
pub proof fn what_follows_date_and_time_changes_nothing(
    expiry: &str,
    other: &str,
    details: Option<&ContractDetails>,
    other_details: Option<&ContractDetails>,
    r: Result<u64, ExpiryError>,
    other_r: Result<u64, ExpiryError>,
    date: Seq<char>,
    extra: Seq<char>,
    early: Seq<char>,
    second: Seq<char>,
    further: Seq<char>,
    zone: Seq<char>,
    other_zone: Seq<char>,
)
    requires
        call_ensures(expiry_timestring_to_unix_nanos, (expiry, details), r),
        call_ensures(expiry_timestring_to_unix_nanos, (other, other_details), other_r),
        date.len() == 8,
        is_ascii_chars(date + extra) && is_ascii_chars(zone) && is_ascii_chars(other_zone),
        is_ascii_chars(early + seq![':'] + second + seq![':'] + further),
        !(date + extra).contains(' '),
        !(early + seq![':'] + second + seq![':'] + further).contains(' '),
        !second.contains(':') && early.contains(':'),
        expiry@ == timed_text(date, early + seq![':'] + second, zone),
        other@ == timed_text(
            date + extra,
            early + seq![':'] + second + seq![':'] + further,
            other_zone,
        ),
    ensures
        r == other_r,
{
    let long = date + extra;
    let time = early + seq![':'] + second;
    let more = time + seq![':'] + further;
    assert(is_ascii_chars(date) && !date.contains(' ')) by {
        assert forall|i: int| 0 <= i < date.len() implies '\0' <= #[trigger] date[i] <= '\u{7f}'
            && date[i] != ' ' by {
            assert(long[i] == date[i]);
            assert(long.contains(long[i]));
        }
    }
    assert(is_ascii_chars(time) && !time.contains(' ')) by {
        assert forall|i: int| 0 <= i < time.len() implies '\0' <= #[trigger] time[i] <= '\u{7f}'
            && time[i] != ' ' by {
            assert(more[i] == time[i]);
            assert(more.contains(more[i]));
        }
    }
    timed_texts_have_their_parts(date, time, zone);
    timed_texts_have_their_parts(long, more, other_zone);
    let a = ascii(date);
    let b = ascii(long);
    assert(a.subrange(0, 4) =~= b.subrange(0, 4));
    assert(a.subrange(4, 6) =~= b.subrange(4, 6));
    assert(a.subrange(6, 8) =~= b.subrange(6, 8));
    assert(ascii(more) =~= ascii(time) + seq![58u8] + ascii(further));
    joined_fields(ascii(time), ascii(further), 58);
    assert(ascii(time) =~= ascii(early) + seq![58u8] + ascii(second));
    joined_fields(ascii(early), ascii(second), 58);
    let i = choose|i: int| 0 <= i < early.len() && early[i] == ':';
    assert(ascii(early)[i] == 58);
    assert(ascii(early).contains(58));
    fields_exist(ascii(early), 58);
    fields_exist(ascii(second), 58);
    let fewer = fields(ascii(time), 58);
    let all = fields(ascii(more), 58);
    assert(fewer.len() >= 3);
    assert(all[0] == fewer[0] && all[1] == fewer[1] && all[2] == fewer[2]);
}

/// A time whose hour is no number is refused for that, whatever the date is.
pub proof fn times_need_a_number(
    expiry: &str,
    details: Option<&ContractDetails>,
    r: Result<u64, ExpiryError>,
    date: Seq<char>,
    hour: Seq<char>,
    rest: Seq<char>,
    zone: Seq<char>,
)
    requires
        call_ensures(expiry_timestring_to_unix_nanos, (expiry, details), r),
        date.len() >= 8 && is_ascii_chars(date) && !date.contains(' '),
        hour.len() == 2 && is_ascii_chars(hour) && !hour.contains(' ') && !hour.contains(':'),
        !('0' <= hour[1] <= '9'),
        is_ascii_chars(rest) && !rest.contains(' '),
        is_ascii_chars(zone),
        expiry@ == timed_text(date, hour + seq![':'] + rest, zone),
    ensures
        r == Err::<u64, ExpiryError>(ExpiryError::InvalidNumber),
{
    let time = hour + seq![':'] + rest;
    assert(is_ascii_chars(time) && !time.contains(' ')) by {
        assert forall|i: int| 0 <= i < time.len() implies '\0' <= #[trigger] time[i] <= '\u{7f}'
            && time[i] != ' ' by {
            if i < 2 {
                assert(time[i] == hour[i]);
                assert(hour.contains(hour[i]));
            } else if i > 2 {
                assert(time[i] == rest[i - 3]);
                assert(rest.contains(rest[i - 3]));
            }
        }
    }
    timed_texts_have_their_parts(date, time, zone);
    assert(ascii(time) =~= ascii(hour) + seq![58u8] + ascii(rest));
    ascii_keeps_places(hour, ':');
    joined_fields(ascii(hour), ascii(rest), 58);
    one_field(ascii(hour), 58);
    letters_make_no_number(hour, 1);
}

} // verus!
