//! When an execution happened.

use vstd::prelude::*;

use crate::civil::CivilDateTime;
use crate::civil_laws::{
    calendar_is_gregorian, day_number, on_calendar, on_clock, second_number, seconds_are_counted,
};
use crate::execution::time::{
    bundled_zone_offset, datetime_to_unix_nanos, hyphen_and_space_say_the_same, hyphenated_text,
    instant_at, naive_part, naive_text, parse_execution_time, parsed_naive_datetime,
    resolve_execution_time, unix_nanos_of, zone_part, zoned_text, ExecutionTimeError, LocalOffset,
};
use crate::text::{
    find_from, find_from_bounds, trim, trimmed, trimmed_end, trimmed_start, white_space,
};
use crate::text_laws::{number_in, numerals_are_padded_renderings};

verus! {

/// The digits of a date and a time: a year of four and the rest of two, on the calendar and the
/// clock.
pub open spec fn dated(
    year: Seq<char>,
    month: Seq<char>,
    day: Seq<char>,
    hour: Seq<char>,
    minute: Seq<char>,
    second: Seq<char>,
) -> bool {
    &&& year.len() == 4 && month.len() == 2 && day.len() == 2
    &&& hour.len() == 2 && minute.len() == 2 && second.len() == 2
    &&& digits_only(year) && digits_only(month) && digits_only(day)
    &&& digits_only(hour) && digits_only(minute) && digits_only(second)
    &&& on_calendar(number_in(year), number_in(month), number_in(day))
    &&& on_clock(number_in(hour), number_in(minute), number_in(second))
}

/// Decimal digits and nothing else.
pub open spec fn digits_only(text: Seq<char>) -> bool {
    forall|i: int| 0 <= i < text.len() ==> '0' <= #[trigger] text[i] <= '9'
}

/// The text `YYYYMMDD`, a separator and `HH:MM:SS`.
pub open spec fn stamp(
    year: Seq<char>,
    month: Seq<char>,
    day: Seq<char>,
    separator: char,
    hour: Seq<char>,
    minute: Seq<char>,
    second: Seq<char>,
) -> Seq<char> {
    year + month + day + seq![separator] + hour + seq![':'] + minute + seq![':'] + second
}

/// A zone that stands for UTC: none at all, `UTC`, `Z` or `z`.
pub open spec fn utc_zone(zone: Seq<char>) -> bool {
    zone.len() == 0 || zone == "UTC"@ || zone == "Z"@ || zone == "z"@
}

/// The civil time of the digits.
spec fn civil_of(
    year: Seq<char>,
    month: Seq<char>,
    day: Seq<char>,
    hour: Seq<char>,
    minute: Seq<char>,
    second: Seq<char>,
) -> CivilDateTime {
    CivilDateTime {
        year: number_in(year) as i16,
        month: number_in(month) as i8,
        day: number_in(day) as i8,
        hour: number_in(hour) as i8,
        minute: number_in(minute) as i8,
        second: number_in(second) as i8,
    }
}

proof fn stamps_are_texts_of_civil_times(
    year: Seq<char>,
    month: Seq<char>,
    day: Seq<char>,
    hour: Seq<char>,
    minute: Seq<char>,
    second: Seq<char>,
)
    requires
        dated(year, month, day, hour, minute, second),
    ensures
        ({
            let time = civil_of(year, month, day, hour, minute, second);
            &&& time.valid() && time.year >= 0
            &&& naive_text(time) == stamp(year, month, day, ' ', hour, minute, second)
            &&& hyphenated_text(time) == stamp(year, month, day, '-', hour, minute, second)
            &&& time.second_of_epoch() == second_number(
                number_in(year),
                number_in(month),
                number_in(day),
                number_in(hour),
                number_in(minute),
                number_in(second),
            )
        }),
{
    numerals_are_padded_renderings(year, 4);
    numerals_are_padded_renderings(month, 2);
    numerals_are_padded_renderings(day, 2);
    numerals_are_padded_renderings(hour, 2);
    numerals_are_padded_renderings(minute, 2);
    numerals_are_padded_renderings(second, 2);
    let (y, mo, d) = (number_in(year), number_in(month), number_in(day));
    let (h, mi, s) = (number_in(hour), number_in(minute), number_in(second));
    calendar_is_gregorian(y, mo, d);
    seconds_are_counted(y, mo, d, h, mi, s);
}

proof fn zone_words_are_trimmed(zone: Seq<char>)
    requires
        zone.len() > 0,
        !white_space(zone[0]),
        !white_space(zone.last()),
    ensures
        trimmed(zone) == zone,
{
    reveal_with_fuel(trimmed_start, 2);
    reveal_with_fuel(trimmed_end, 2);
}

/// An execution at UTC happened when its digits say: its instant is the number of nanoseconds from
/// the start of 1970 to that second, however the text marks it as UTC. Before 1970 there is none.
pub proof fn utc_times_are_counted_from_1970(
    text: &str,
    r: Result<u64, ExecutionTimeError>,
    year: Seq<char>,
    month: Seq<char>,
    day: Seq<char>,
    hour: Seq<char>,
    minute: Seq<char>,
    second: Seq<char>,
    zone: Seq<char>,
)
    requires
        call_ensures(parse_execution_time, (text,), r),
        dated(year, month, day, hour, minute, second),
        utc_zone(zone),
        text@ == stamp(year, month, day, ' ', hour, minute, second) || text@ == stamp(
            year,
            month,
            day,
            '-',
            hour,
            minute,
            second,
        ) || text@ == stamp(year, month, day, ' ', hour, minute, second) + seq![' '] + zone,
    ensures
        ({
            let nanos = 1_000_000_000 * second_number(
                number_in(year),
                number_in(month),
                number_in(day),
                number_in(hour),
                number_in(minute),
                number_in(second),
            );
            &&& 1970 <= number_in(year) <= 2553 ==> (r matches Ok(instant) && instant == nanos)
            &&& number_in(year) < 1970 ==> r == Err::<u64, ExecutionTimeError>(
                ExecutionTimeError::OutsideUnixNanos,
            )
            &&& r matches Ok(instant) ==> instant == nanos
        }),
{
    stamps_are_texts_of_civil_times(year, month, day, hour, minute, second);
    let time = civil_of(year, month, day, hour, minute, second);
    let (y, mo, d) = (number_in(year), number_in(month), number_in(day));
    reveal_strlit("UTC");
    reveal_strlit("Z");
    reveal_strlit("z");
    assert("UTC"@.len() == 3 && "UTC"@[0] == 'U' && "UTC"@[2] == 'C');
    assert("Z"@.len() == 1 && "Z"@[0] == 'Z' && "z"@.len() == 1 && "z"@[0] == 'z');
    if zone.len() > 0 {
        zone_words_are_trimmed(zone);
    } else {
        assert(trimmed(zone) =~= Seq::<char>::empty());
    }
    if text@ == stamp(year, month, day, ' ', hour, minute, second) {
        assert(text@ == naive_text(time));
    } else if text@ == stamp(year, month, day, '-', hour, minute, second) {
        assert(text@ == hyphenated_text(time));
    } else {
        assert(text@ == zoned_text(time, zone));
    }
    assert(r == unix_nanos_of(instant_at(time, 0)));
    assert(0 <= y <= 9999);
    if 1970 <= y <= 2553 {
        assert(0 <= day_number(y, mo, d) <= 213_500);
    } else if y < 1970 {
        assert(-719_600 <= day_number(y, mo, d) < 0);
    }
}

/// An execution in a zone happened at its civil time less the offset of the zone: it is resolved
/// with the offset that the zone has at that time.
pub proof fn zoned_times_are_resolved_with_their_zone(
    text: &str,
    r: Result<u64, ExecutionTimeError>,
    time: CivilDateTime,
    zone: Seq<char>,
    resolved: Result<u64, ExecutionTimeError>,
)
    requires
        call_ensures(parse_execution_time, (text,), r),
        time.valid() && time.year >= 0,
        text@ == naive_text(time) + seq![' '] + zone,
        zone.len() > 0 && !white_space(zone[0]) && !white_space(zone.last()),
        zone != "Z"@ && zone != "z"@ && zone != "UTC"@,
    ensures
        call_ensures(
            resolve_execution_time,
            (Some(time), true, bundled_zone_offset(zone, time)),
            resolved,
        ) ==> r == resolved,
{
    zone_words_are_trimmed(zone);
    assert(text@ == zoned_text(time, zone));
}

/// How a civil time is resolved: at its offset from UTC; where it occurs twice, at the offset before
/// the change, which is the earlier instant; nowhere where it does not occur; and at UTC where it
/// names no zone.
pub proof fn civil_times_are_resolved_at_their_offset(
    time: CivilDateTime,
    offset: i32,
    other: i32,
    plain: Result<u64, ExecutionTimeError>,
    twice: Result<u64, ExecutionTimeError>,
    never: Result<u64, ExecutionTimeError>,
    nowhere: Result<u64, ExecutionTimeError>,
    unzoned: Result<u64, ExecutionTimeError>,
    unreadable: Result<u64, ExecutionTimeError>,
)
    requires
        time.valid() && time.year >= 1971,
        time.year <= 2552,
        -93_599 <= offset <= 93_599,
        call_ensures(
            resolve_execution_time,
            (Some(time), true, Some(LocalOffset::Unambiguous { offset })),
            plain,
        ),
        call_ensures(
            resolve_execution_time,
            (Some(time), true, Some(LocalOffset::Fold { before: offset, after: other })),
            twice,
        ),
        call_ensures(
            resolve_execution_time,
            (Some(time), true, Some(LocalOffset::Gap { before: offset, after: other })),
            never,
        ),
        call_ensures(resolve_execution_time, (Some(time), true, None::<LocalOffset>), nowhere),
        call_ensures(
            resolve_execution_time,
            (Some(time), false, Some(LocalOffset::Unambiguous { offset })),
            unzoned,
        ),
        call_ensures(
            resolve_execution_time,
            (None::<CivilDateTime>, true, Some(LocalOffset::Unambiguous { offset })),
            unreadable,
        ),
    ensures
        ({
            let second = second_number(
                time.year as int,
                time.month as int,
                time.day as int,
                time.hour as int,
                time.minute as int,
                time.second as int,
            );
            &&& plain matches Ok(instant) && instant == 1_000_000_000 * (second - offset)
            &&& twice == plain
            &&& never == Err::<u64, ExecutionTimeError>(ExecutionTimeError::NonExistent)
            &&& nowhere == Err::<u64, ExecutionTimeError>(ExecutionTimeError::UnrecognisedTimezone)
            &&& unzoned matches Ok(instant) && instant == 1_000_000_000 * second
            &&& unreadable == Err::<u64, ExecutionTimeError>(ExecutionTimeError::Malformed)
        }),
{
    let (y, mo, d) = (time.year as int, time.month as int, time.day as int);
    calendar_is_gregorian(y, mo, d);
    seconds_are_counted(
        y,
        mo,
        d,
        time.hour as int,
        time.minute as int,
        time.second as int,
    );
    assert(365 <= day_number(y, mo, d) <= 213_000);
}

/// An instant counts from 1970 on, as far as 64 bits of nanoseconds reach.
pub proof fn instants_count_from_1970(instant: Option<i128>, r: Result<u64, ExecutionTimeError>)
    requires
        call_ensures(datetime_to_unix_nanos, (instant,), r),
    ensures
        instant is None <==> r == Err::<u64, ExecutionTimeError>(ExecutionTimeError::OutOfRange),
        instant matches Some(nanos) ==> match r {
            Ok(n) => n == nanos,
            Err(e) => e == ExecutionTimeError::OutsideUnixNanos && !(0 <= nanos
                <= 0xFFFF_FFFF_FFFF_FFFF),
        },
{
}

/// A text with a hyphen between the date and the time and one with a space there are the same time.
pub proof fn hyphens_and_spaces_are_read_alike(
    hyphenated: &str,
    spaced: &str,
    date: Seq<char>,
    time: Seq<char>,
    r: Result<u64, ExecutionTimeError>,
    other: Result<u64, ExecutionTimeError>,
)
    requires
        call_ensures(parse_execution_time, (hyphenated,), r),
        call_ensures(parse_execution_time, (spaced,), other),
        !date.contains(' ') && !date.contains('-'),
        !time.contains(' ') && !time.contains('-'),
        hyphenated@ == date + seq!['-'] + time,
        spaced@ == date + seq![' '] + time,
    ensures
        r == other,
{
    hyphen_and_space_say_the_same(date, time);
}

proof fn worded_times_have_their_parts(date: Seq<char>, time: Seq<char>, zone: Seq<char>)
    requires
        !date.contains(' ') && !time.contains(' '),
    ensures
        naive_part(date + seq![' '] + time) == date + seq![' '] + time,
        zone_part(date + seq![' '] + time) == Seq::<char>::empty(),
        naive_part(date + seq![' '] + time + seq![' '] + zone) == date + seq![' '] + time,
        zone_part(date + seq![' '] + time + seq![' '] + zone) == trimmed(zone),
{
    let short = date + seq![' '] + time;
    let long = short + seq![' '] + zone;
    let end = short.len() as int;
    assert forall|i: int| 0 <= i < end && i != date.len() implies short[i] != ' ' && long[i]
        != ' ' by {
        if i < date.len() {
            assert(date.contains(date[i]));
        } else {
            assert(time.contains(time[i - date.len() - 1]));
        }
        assert(long[i] == short[i]);
    }
    assert(short[date.len() as int] == ' ' && long[date.len() as int] == ' ' && long[end] == ' ');
    find_from_bounds(short, ' ', 0);
    find_from_bounds(long, ' ', 0);
    find_from_bounds(short, ' ', date.len() as int + 1);
    find_from_bounds(long, ' ', date.len() as int + 1);
    assert(find_from(short, ' ', 0) == date.len() && find_from(long, ' ', 0) == date.len());
    assert(find_from(short, ' ', date.len() as int + 1) == end);
    assert(find_from(long, ' ', date.len() as int + 1) == end);
    assert(short.take(end) =~= short);
    assert(long.take(end) =~= short);
    assert(long.skip(end + 1) =~= zone);
}

/// Two words without a zone are read at UTC: the words `UTC` and `Z` behind them, or a space alone,
/// change nothing, whatever the two words are.
pub proof fn two_words_are_read_at_utc(
    bare: &str,
    marked: &str,
    date: Seq<char>,
    time: Seq<char>,
    zone: Seq<char>,
    r: Result<u64, ExecutionTimeError>,
    other: Result<u64, ExecutionTimeError>,
)
    requires
        call_ensures(parse_execution_time, (bare,), r),
        call_ensures(parse_execution_time, (marked,), other),
        !date.contains(' ') && !time.contains(' '),
        utc_zone(zone),
        bare@ == date + seq![' '] + time,
        marked@ == date + seq![' '] + time + seq![' '] + zone,
    ensures
        r == other,
{
    reveal_strlit("UTC");
    reveal_strlit("Z");
    reveal_strlit("z");
    assert("UTC"@.len() == 3 && "UTC"@[0] == 'U' && "UTC"@[2] == 'C');
    assert("Z"@.len() == 1 && "Z"@[0] == 'Z' && "z"@.len() == 1 && "z"@[0] == 'z');
    worded_times_have_their_parts(date, time, zone);
    if zone.len() > 0 {
        zone_words_are_trimmed(zone);
    } else {
        assert(trimmed(zone) =~= Seq::<char>::empty());
    }
}

/// White space around the zone of a time changes nothing.
pub proof fn zones_are_read_without_white_space(
    text: &str,
    spaced: &str,
    date: Seq<char>,
    time: Seq<char>,
    zone: Seq<char>,
    wide: Seq<char>,
    r: Result<u64, ExecutionTimeError>,
    other: Result<u64, ExecutionTimeError>,
)
    requires
        call_ensures(parse_execution_time, (text,), r),
        call_ensures(parse_execution_time, (spaced,), other),
        !date.contains(' ') && !time.contains(' '),
        wide == seq![' '] + zone || wide == zone + seq![' '],
        zone.len() > 0 && !white_space(zone[0]) && !white_space(zone.last()),
        text@ == date + seq![' '] + time + seq![' '] + zone,
        spaced@ == date + seq![' '] + time + seq![' '] + wide,
    ensures
        r == other,
{
    worded_times_have_their_parts(date, time, zone);
    worded_times_have_their_parts(date, time, wide);
    reveal_with_fuel(trimmed_start, 3);
    reveal_with_fuel(trimmed_end, 3);
    assert(trimmed(zone) =~= zone);
    if wide == seq![' '] + zone {
        assert(wide.drop_first() =~= zone);
    } else {
        assert(wide.drop_last() =~= zone);
        assert(wide[0] == zone[0]);
    }
    assert(trimmed(wide) =~= zone);
}

/// A text of one word is read whole, at UTC, with a space for each of its hyphens.
pub proof fn one_word_is_read_with_spaces_for_hyphens(
    text: &str,
    word: Seq<char>,
    r: Result<u64, ExecutionTimeError>,
    resolved: Result<u64, ExecutionTimeError>,
)
    requires
        call_ensures(parse_execution_time, (text,), r),
        !text@.contains(' '),
        word.len() == text@.len(),
        forall|i: int|
            0 <= i < word.len() ==> #[trigger] word[i] == (if text@[i] == '-' {
                ' '
            } else {
                text@[i]
            }),
    ensures
        call_ensures(
            resolve_execution_time,
            (parsed_naive_datetime(word), false, None::<LocalOffset>),
            resolved,
        ) ==> r == resolved,
{
    find_from_bounds(text@, ' ', 0);
    let first = find_from(text@, ' ', 0);
    if first < text@.len() {
        assert(text@.contains(text@[first]));
    }
    assert(naive_part(text@) =~= word);
}

/// A text of two words is read whole, at UTC.
pub proof fn two_words_are_read_whole(
    text: &str,
    date: Seq<char>,
    time: Seq<char>,
    r: Result<u64, ExecutionTimeError>,
    resolved: Result<u64, ExecutionTimeError>,
)
    requires
        call_ensures(parse_execution_time, (text,), r),
        text@ == date + seq![' '] + time,
        !date.contains(' ') && !time.contains(' '),
    ensures
        call_ensures(
            resolve_execution_time,
            (parsed_naive_datetime(text@), false, None::<LocalOffset>),
            resolved,
        ) ==> r == resolved,
{
    worded_times_have_their_parts(date, time, Seq::empty());
}

/// A text of more words is read by its first two, in the zone that the rest names, without white
/// space around it: at UTC where nothing is left, and `Z` stands for UTC.
pub proof fn further_words_name_the_zone(
    text: &str,
    date: Seq<char>,
    time: Seq<char>,
    rest: &str,
    zone: &str,
    r: Result<u64, ExecutionTimeError>,
    resolved: Result<u64, ExecutionTimeError>,
)
    requires
        call_ensures(parse_execution_time, (text,), r),
        text@ == date + seq![' '] + time + seq![' '] + rest@,
        !date.contains(' ') && !time.contains(' '),
        call_ensures(trim, (rest,), zone),
    ensures
        ({
            let civil = parsed_naive_datetime(date + seq![' '] + time);
            let name = if zone@ == "Z"@ || zone@ == "z"@ {
                "UTC"@
            } else {
                zone@
            };
            let offset = match civil {
                Some(civil) => bundled_zone_offset(name, civil),
                None => None,
            };
            call_ensures(resolve_execution_time, (civil, zone@.len() > 0, offset), resolved)
        }) ==> r == resolved,
{
    worded_times_have_their_parts(date, time, rest@);
}

/// Whatever its year is, a civil time at an offset is the instant of its second less the offset, as
/// far as timestamps reach.
pub proof fn civil_times_are_instants_as_far_as_timestamps_reach(
    time: CivilDateTime,
    offset: i32,
    instant: Option<i128>,
    zoned: Result<u64, ExecutionTimeError>,
    unzoned: Result<u64, ExecutionTimeError>,
    at_offset: Result<u64, ExecutionTimeError>,
)
    requires
        time.valid(),
        -93_599 <= offset <= 93_599,
        call_ensures(
            resolve_execution_time,
            (Some(time), true, Some(LocalOffset::Unambiguous { offset })),
            zoned,
        ),
        call_ensures(
            resolve_execution_time,
            (Some(time), false, Some(LocalOffset::Unambiguous { offset })),
            unzoned,
        ),
        call_ensures(datetime_to_unix_nanos, (instant,), at_offset),
    ensures
        ({
            let second = second_number(
                time.year as int,
                time.month as int,
                time.day as int,
                time.hour as int,
                time.minute as int,
                time.second as int,
            );
            let reached = |second: int|
                if -377_705_023_201 <= second <= 253_402_207_200 {
                    Some((1_000_000_000 * second) as i128)
                } else {
                    None
                };
            &&& instant == reached(second - offset) ==> zoned == at_offset
            &&& instant == reached(second) ==> unzoned == at_offset
        }),
{
    let (y, mo, d) = (time.year as int, time.month as int, time.day as int);
    calendar_is_gregorian(y, mo, d);
    seconds_are_counted(
        y,
        mo,
        d,
        time.hour as int,
        time.minute as int,
        time.second as int,
    );
}

} // verus!
