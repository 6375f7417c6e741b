//! Execution times to instants.

use jiff::civil::DateTime;
use jiff::tz::{AmbiguousOffset, Offset, TimeZoneDatabase};
use vstd::prelude::*;

use crate::civil::CivilDateTime;
use crate::text::{
    chars_of, find_char, find_from, find_from_bounds, padded_digits, padded_digits_layout, text_eq, trim,
    trimmed,
};

verus! {

/// The offset from UTC, in seconds, of a civil time in a time zone.
#[derive(Debug, Clone, Copy, PartialEq, Eq, Structural)]
pub enum LocalOffset {
    /// The time occurs once.
    Unambiguous { offset: i32 },
    /// The time is skipped: the clock goes forward over it.
    Gap { before: i32, after: i32 },
    /// The time occurs twice: the clock goes back over it.
    Fold { before: i32, after: i32 },
}

/// Why an execution time is no instant.
#[derive(Debug, Clone, Copy, PartialEq, Eq, Structural)]
pub enum ExecutionTimeError {
    /// The text is no date and time.
    Malformed,
    /// The time zone is not known.
    UnrecognisedTimezone,
    /// The time does not occur in its time zone.
    NonExistent,
    /// The instant is out of the range of timestamps.
    OutOfRange,
    /// The instant is not a number of nanoseconds since 1970 that fits 64 bits.
    OutsideUnixNanos,
}

/// The first second that a timestamp reaches.
pub const MIN_TIMESTAMP_SECOND: i64 = -377_705_023_201;

/// The last second that a timestamp reaches.
pub const MAX_TIMESTAMP_SECOND: i64 = 253_402_207_200;

/// The largest offset from UTC in seconds.
pub const MAX_OFFSET_SECONDS: i32 = 93_599;

/// The format of a civil time.
pub const CIVIL_FORMAT: &'static str = "%Y%m%d %H:%M:%S";

/// The civil time that `DateTime::strptime` reads from a text in a format; `None` where it fails.
pub uninterp spec fn parsed_datetime(
    format: Seq<char>,
    text: Seq<char>,
) -> Option<CivilDateTime>;

/// The civil time that is read from a text in the format of a civil time.
pub open spec fn parsed_naive_datetime(text: Seq<char>) -> Option<CivilDateTime> {
    parsed_datetime(CIVIL_FORMAT@, text)
}

/// The offset of a civil time in a zone of the bundled time zone database; `None` where the
/// database has no such zone.
pub uninterp spec fn bundled_zone_offset(
    zone: Seq<char>,
    time: CivilDateTime,
) -> Option<LocalOffset>;

/// The text `YYYYMMDD HH:MM:SS` of a civil time.
pub open spec fn naive_text(time: CivilDateTime) -> Seq<char> {
    padded_digits(time.year as nat, 4) + padded_digits(time.month as nat, 2) + padded_digits(
        time.day as nat,
        2,
    ) + seq![' '] + padded_digits(time.hour as nat, 2) + seq![':'] + padded_digits(
        time.minute as nat,
        2,
    ) + seq![':'] + padded_digits(time.second as nat, 2)
}

/// The text `YYYYMMDD-HH:MM:SS` of a civil time.
pub open spec fn hyphenated_text(time: CivilDateTime) -> Seq<char> {
    padded_digits(time.year as nat, 4) + padded_digits(time.month as nat, 2) + padded_digits(
        time.day as nat,
        2,
    ) + seq!['-'] + padded_digits(time.hour as nat, 2) + seq![':'] + padded_digits(
        time.minute as nat,
        2,
    ) + seq![':'] + padded_digits(time.second as nat, 2)
}

/// The text of a civil time followed by a time zone.
pub open spec fn zoned_text(time: CivilDateTime, zone: Seq<char>) -> Seq<char> {
    naive_text(time) + seq![' '] + zone
}

/// Reads a civil time.
///
/// Calls `DateTime::strptime` with the format of a civil time. The result is named; what is
/// claimed of it is that it is a valid civil time, and that the full text of a valid civil time
/// from the year 0 on is read as that time.
#[verifier::external_body]
fn naive_datetime(format: &str, text: &str) -> (r: Option<CivilDateTime>)
    requires
        format@ == CIVIL_FORMAT@,
    ensures
        r == parsed_datetime(format@, text@),
        r matches Some(time) ==> time.valid(),
        forall|time: CivilDateTime|
            time.valid() && time.year >= 0 && text@ == #[trigger] naive_text(time) ==> r == Some(
                time,
            ),
{
    match DateTime::strptime(format, text) {
        Ok(t) => Some(
            CivilDateTime {
                year: t.year(),
                month: t.month(),
                day: t.day(),
                hour: t.hour(),
                minute: t.minute(),
                second: t.second(),
            },
        ),
        Err(_) => None,
    }
}

/// Looks up the offset of a civil time in a time zone.
///
/// Calls `TimeZoneDatabase::get` on the bundled database and `TimeZone::to_ambiguous_timestamp`.
/// The result is named; what is claimed of it is that every offset is in range, that of a time
/// that occurs twice the offset before the change is the larger one, and that `UTC` is known and
/// has the offset zero at every time.
#[verifier::external_body]
fn zone_offset(zone: &str, time: CivilDateTime) -> (r: Option<LocalOffset>)
    requires
        time.valid(),
    ensures
        r == bundled_zone_offset(zone@, time),
        r matches Some(offset) ==> in_range(offset),
        r matches Some(LocalOffset::Fold { before, after }) ==> before > after,
        zone@ == "UTC"@ ==> r == Some(LocalOffset::Unambiguous { offset: 0 }),
{
    let t = DateTime::constant(
        time.year, time.month, time.day, time.hour, time.minute, time.second, 0,
    );
    let zone = TimeZoneDatabase::bundled().get(zone).ok()?;
    Some(match zone.to_ambiguous_timestamp(t).offset() {
        AmbiguousOffset::Unambiguous { offset: o } => LocalOffset::Unambiguous { offset: o.seconds() },
        AmbiguousOffset::Gap { before: b, after: a } => LocalOffset::Gap { before: b.seconds(), after: a.seconds() },
        AmbiguousOffset::Fold { before: b, after: a } => LocalOffset::Fold { before: b.seconds(), after: a.seconds() },
    })
}

/// The instant, in nanoseconds since 1970, of a civil time at an offset from UTC.
///
/// Calls `Offset::to_timestamp`. Claimed is that the instant is the civil time less the offset,
/// and that it is refused exactly where its second is out of the range of timestamps.
#[verifier::external_body]
fn offset_instant(offset: i32, time: CivilDateTime) -> (r: Option<i128>)
    requires
        time.valid(),
        -MAX_OFFSET_SECONDS <= offset <= MAX_OFFSET_SECONDS,
    ensures
        r == instant_at(time, offset as int),
{
    let t = DateTime::constant(
        time.year, time.month, time.day, time.hour, time.minute, time.second, 0,
    );
    let offset = Offset::from_seconds(offset).expect("an offset in range");
    let instant = offset.to_timestamp(t).ok()?;
    Some(instant.as_nanosecond())
}

/// The offsets are in range.
pub open spec fn in_range(offset: LocalOffset) -> bool {
    match offset {
        LocalOffset::Unambiguous { offset } => -MAX_OFFSET_SECONDS <= offset <= MAX_OFFSET_SECONDS,
        LocalOffset::Gap { before, after } => -MAX_OFFSET_SECONDS <= before <= MAX_OFFSET_SECONDS
            && -MAX_OFFSET_SECONDS <= after <= MAX_OFFSET_SECONDS,
        LocalOffset::Fold { before, after } => -MAX_OFFSET_SECONDS <= before <= MAX_OFFSET_SECONDS
            && -MAX_OFFSET_SECONDS <= after <= MAX_OFFSET_SECONDS,
    }
}

/// The instant of a civil time at an offset from UTC, where a timestamp reaches it.
pub open spec fn instant_at(time: CivilDateTime, offset: int) -> Option<i128> {
    let second = time.second_of_epoch() - offset;
    if MIN_TIMESTAMP_SECOND <= second <= MAX_TIMESTAMP_SECOND {
        Some((second * 1_000_000_000) as i128)
    } else {
        None
    }
}

/// An instant as a number of nanoseconds since 1970 that fits 64 bits.
pub open spec fn unix_nanos_of(instant: Option<i128>) -> Result<u64, ExecutionTimeError> {
    match instant {
        None => Err(ExecutionTimeError::OutOfRange),
        Some(nanos) => if 0 <= nanos <= u64::MAX {
            Ok(nanos as u64)
        } else {
            Err(ExecutionTimeError::OutsideUnixNanos)
        },
    }
}

/// The instant of an execution: its civil time at the offset of its zone, at UTC where it names no
/// zone, and at the earlier of two possible instants.
pub open spec fn resolved_time(
    time: Option<CivilDateTime>,
    named_zone: bool,
    offset: Option<LocalOffset>,
) -> Result<u64, ExecutionTimeError> {
    match time {
        None => Err(ExecutionTimeError::Malformed),
        Some(time) => if !named_zone {
            unix_nanos_of(instant_at(time, 0))
        } else {
            match offset {
                None => Err(ExecutionTimeError::UnrecognisedTimezone),
                Some(LocalOffset::Unambiguous { offset }) => unix_nanos_of(
                    instant_at(time, offset as int),
                ),
                Some(LocalOffset::Fold { before, after }) => unix_nanos_of(
                    instant_at(time, before as int),
                ),
                Some(LocalOffset::Gap { before, after }) => Err(ExecutionTimeError::NonExistent),
            }
        },
    }
}

/// A text with spaces for its hyphens.
pub open spec fn hyphens_as_spaces(s: Seq<char>) -> Seq<char> {
    s.map_values(
        |c: char|
            if c == '-' {
                ' '
            } else {
                c
            },
    )
}

/// The date and time of an execution time: everything before its second space, or the whole text
/// with spaces for its hyphens where it has no space.
pub open spec fn naive_part(s: Seq<char>) -> Seq<char> {
    let first = find_from(s, ' ', 0);
    if first == s.len() {
        hyphens_as_spaces(s)
    } else {
        s.take(find_from(s, ' ', first + 1))
    }
}

/// The time zone of an execution time: what follows its second space, without white space around
/// it.
pub open spec fn zone_part(s: Seq<char>) -> Seq<char> {
    let first = find_from(s, ' ', 0);
    let second = find_from(s, ' ', first + 1);
    if first == s.len() || second == s.len() {
        Seq::empty()
    } else {
        trimmed(s.skip(second + 1))
    }
}

/// The name under which a time zone is looked up.
pub open spec fn zone_name(zone: Seq<char>) -> Seq<char> {
    if zone == "Z"@ || zone == "z"@ {
        "UTC"@
    } else {
        zone
    }
}

/// The offset of a parsed civil time in a zone.
pub open spec fn looked_up(time: Option<CivilDateTime>, zone: Seq<char>) -> Option<LocalOffset> {
    match time {
        Some(time) => bundled_zone_offset(zone_name(zone), time),
        None => None,
    }
}

/// The time of an execution, given as text.
pub open spec fn execution_time_of(text: Seq<char>) -> Result<u64, ExecutionTimeError> {
    resolved_time(
        parsed_naive_datetime(naive_part(text)),
        zone_part(text).len() > 0,
        looked_up(parsed_naive_datetime(naive_part(text)), zone_part(text)),
    )
}

fn spaces_for_hyphens(s: &str) -> (r: String)
    ensures
        r@ == hyphens_as_spaces(s@),
{
    let chars = chars_of(s);
    let mut out = String::new();
    let mut i: usize = 0;
    while i < chars.len()
        invariant
            i <= chars.len(),
            chars@ == s@,
            out@ == hyphens_as_spaces(s@.take(i as int)),
        decreases chars.len() - i,
    {
        let ghost before = out@;
        if chars[i] == '-' {
            proof {
                reveal_strlit(" ");
            }
            out.append(" ");
        } else {
            out.append(s.substring_char(i, i + 1));
        }
        i += 1;
        assert(out@ =~= hyphens_as_spaces(s@.take(i as int)));
    }
    assert(s@.take(i as int) =~= s@);
    out
}

/// The instant of a civil time at an offset from UTC in nanoseconds since 1970.
pub fn datetime_to_unix_nanos(instant: Option<i128>) -> (r: Result<u64, ExecutionTimeError>)
    ensures
        r == unix_nanos_of(instant),
{
    match instant {
        None => Err(ExecutionTimeError::OutOfRange),
        Some(nanos) => {
            if 0 <= nanos && nanos <= u64::MAX as i128 {
                Ok(nanos as u64)
            } else {
                Err(ExecutionTimeError::OutsideUnixNanos)
            }
        },
    }
}

/// The instant of an execution, given its civil time, whether it names a zone, and its offset in
/// that zone.
pub fn resolve_execution_time(
    time: Option<CivilDateTime>,
    named_zone: bool,
    offset: Option<LocalOffset>,
) -> (r: Result<u64, ExecutionTimeError>)
    requires
        time matches Some(t) ==> t.valid(),
        offset matches Some(o) ==> in_range(o),
    ensures
        r == resolved_time(time, named_zone, offset),
{
    let time = match time {
        Some(time) => time,
        None => {
            return Err(ExecutionTimeError::Malformed);
        },
    };
    if !named_zone {
        return datetime_to_unix_nanos(offset_instant(0, time));
    }
    match offset {
        None => Err(ExecutionTimeError::UnrecognisedTimezone),
        Some(LocalOffset::Unambiguous { offset }) => datetime_to_unix_nanos(
            offset_instant(offset, time),
        ),
        Some(LocalOffset::Fold { before, .. }) => datetime_to_unix_nanos(
            offset_instant(before, time),
        ),
        Some(LocalOffset::Gap { .. }) => Err(ExecutionTimeError::NonExistent),
    }
}

/// The offset of a civil time in a zone, where `Z` stands for UTC.
fn localize_with_zone(time: Option<CivilDateTime>, zone: &str) -> (r: Option<LocalOffset>)
    requires
        time matches Some(t) ==> t.valid(),
    ensures
        r == looked_up(time, zone@),
        r matches Some(o) ==> in_range(o),
        time is Some && zone_name(zone@) == "UTC"@ ==> r == Some(
            LocalOffset::Unambiguous { offset: 0 },
        ),
{
    match time {
        Some(time) => {
            let name = if text_eq(zone, "Z") || text_eq(zone, "z") {
                "UTC"
            } else {
                zone
            };
            zone_offset(name, time)
        },
        None => None,
    }
}

/// Reads an execution time.
///
/// The text is `YYYYMMDD HH:MM:SS` followed by a time zone or by nothing, or
/// `YYYYMMDD-HH:MM:SS`; without a time zone it is UTC, which `UTC` and `Z` stand for as well.
pub fn parse_execution_time(time_str: &str) -> (r: Result<u64, ExecutionTimeError>)
    ensures
        r == execution_time_of(time_str@),
        zone_name(zone_part(time_str@)) == "UTC"@ ==> r == resolved_time(
            parsed_naive_datetime(naive_part(time_str@)),
            false,
            None,
        ),
        forall|time: CivilDateTime, zone: Seq<char>|
            time.valid() && time.year >= 0 && time_str@ == #[trigger] zoned_text(time, zone) && (
            trimmed(zone) == Seq::<char>::empty() || zone_name(trimmed(zone)) == "UTC"@) ==> r
                == unix_nanos_of(instant_at(time, 0)),
        forall|time: CivilDateTime, zone: Seq<char>|
            time.valid() && time.year >= 0 && time_str@ == #[trigger] zoned_text(time, zone) ==> r
                == resolved_time(
                Some(time),
                trimmed(zone).len() > 0,
                bundled_zone_offset(zone_name(trimmed(zone)), time),
            ),
        forall|time: CivilDateTime|
            time.valid() && time.year >= 0 && time_str@ == #[trigger] naive_text(time) ==> r
                == unix_nanos_of(instant_at(time, 0)),
        forall|time: CivilDateTime|
            time.valid() && time.year >= 0 && time_str@ == #[trigger] hyphenated_text(time) ==> r
                == unix_nanos_of(instant_at(time, 0)),
{
    proof {
        assert forall|time: CivilDateTime|
            time.valid() && time.year >= 0 && time_str@ == #[trigger] hyphenated_text(
                time,
            ) implies naive_part(time_str@) == naive_text(time) && zone_part(time_str@)
            == Seq::<char>::empty() by {
            hyphenated_text_has_its_parts(time);
        }
        assert forall|time: CivilDateTime|
            time.valid() && time.year >= 0 && time_str@ == #[trigger] naive_text(
                time,
            ) implies naive_part(time_str@) == time_str@ && zone_part(time_str@)
            == Seq::<char>::empty() by {
            naive_text_is_its_naive_part(time);
        }
        assert forall|time: CivilDateTime, zone: Seq<char>|
            time.valid() && time.year >= 0 && time_str@ == #[trigger] zoned_text(
                time,
                zone,
            ) implies naive_part(time_str@) == naive_text(time) && zone_part(time_str@)
            == trimmed(zone) by {
            zoned_text_has_its_parts(time, zone);
        }
        reveal_strlit("UTC");
        assert("UTC"@.len() == 3);
    }
    let chars = chars_of(time_str);
    let first: usize = find_char(&chars, ' ', 0);
    if first == chars.len() {
        let normalized = spaces_for_hyphens(time_str);
        let time = naive_datetime(CIVIL_FORMAT, normalized.as_str());
        return resolve_execution_time(time, false, None);
    }
    let second: usize = find_char(&chars, ' ', first + 1);
    let naive = time_str.substring_char(0, second);
    assert(naive@ =~= time_str@.take(second as int));
    let time = naive_datetime(CIVIL_FORMAT, naive);
    if second == chars.len() {
        return resolve_execution_time(time, false, None);
    }
    let rest = time_str.substring_char(second + 1, chars.len());
    assert(rest@ =~= time_str@.skip(second + 1));
    let zone = trim(rest);
    if zone.is_empty() {
        return resolve_execution_time(time, false, None);
    }
    resolve_execution_time(time, true, localize_with_zone(time, zone))
}

/// The full text of a civil time has one space, in its ninth place, and no hyphen.
proof fn naive_text_layout(time: CivilDateTime)
    requires
        time.valid(),
        time.year >= 0,
    ensures
        naive_text(time).len() == 17,
        forall|i: int| 0 <= i < 17 ==> ((#[trigger] naive_text(time)[i] == ' ') <==> i == 8),
        forall|i: int| 0 <= i < 17 ==> #[trigger] naive_text(time)[i] != '-',
{
    let s = naive_text(time);
    padded_digits_layout(time.year as nat, 4);
    padded_digits_layout(time.month as nat, 2);
    padded_digits_layout(time.day as nat, 2);
    padded_digits_layout(time.hour as nat, 2);
    padded_digits_layout(time.minute as nat, 2);
    padded_digits_layout(time.second as nat, 2);
    assert(s.len() == 17);
    assert(s[8] == ' ');
    assert forall|i: int| 0 <= i < s.len() && i != 8 implies s[i] != ' ' && s[i]
        != '-' by {
        if i < 4 {
            assert(s[i] == padded_digits(time.year as nat, 4)[i]);
        } else if i < 6 {
            assert(s[i] == padded_digits(time.month as nat, 2)[i - 4]);
        } else if i < 8 {
            assert(s[i] == padded_digits(time.day as nat, 2)[i - 6]);
        } else if 9 <= i < 11 {
            assert(s[i] == padded_digits(time.hour as nat, 2)[i - 9]);
        } else if 12 <= i < 14 {
            assert(s[i] == padded_digits(time.minute as nat, 2)[i - 12]);
        } else if 15 <= i {
            assert(s[i] == padded_digits(time.second as nat, 2)[i - 15]);
        }
    }
}

/// The full text of a civil time has no zone and is all date and time.
proof fn naive_text_is_its_naive_part(time: CivilDateTime)
    requires
        time.valid(),
        time.year >= 0,
    ensures
        naive_part(naive_text(time)) == naive_text(time),
        zone_part(naive_text(time)) == Seq::<char>::empty(),
{
    let s = naive_text(time);
    naive_text_layout(time);
    find_from_bounds(s, ' ', 0);
    find_from_bounds(s, ' ', 9);
    assert(s[8] == ' ');
    assert(find_from(s, ' ', 0) == 8);
    assert(find_from(s, ' ', 9) == 17);
    assert(s.take(17) =~= s);
}

/// The hyphenated text of a civil time has no zone and stands for its full text.
proof fn hyphenated_text_has_its_parts(time: CivilDateTime)
    requires
        time.valid(),
        time.year >= 0,
    ensures
        naive_part(hyphenated_text(time)) == naive_text(time),
        zone_part(hyphenated_text(time)) == Seq::<char>::empty(),
{
    let s = hyphenated_text(time);
    let naive = naive_text(time);
    naive_text_layout(time);
    padded_digits_layout(time.year as nat, 4);
    padded_digits_layout(time.month as nat, 2);
    padded_digits_layout(time.day as nat, 2);
    assert(s =~= naive.update(8, '-'));
    find_from_bounds(s, ' ', 0);
    assert(find_from(s, ' ', 0) == 17);
    assert(hyphens_as_spaces(s) =~= naive);
}

/// The text of a civil time with a zone is made of the two.
proof fn zoned_text_has_its_parts(time: CivilDateTime, zone: Seq<char>)
    requires
        time.valid(),
        time.year >= 0,
    ensures
        naive_part(zoned_text(time, zone)) == naive_text(time),
        zone_part(zoned_text(time, zone)) == trimmed(zone),
{
    let naive = naive_text(time);
    let s = zoned_text(time, zone);
    naive_text_layout(time);
    assert forall|i: int| 0 <= i < 17 implies #[trigger] s[i] == naive[i] by {}
    assert(naive[8] == ' ');
    assert(s[8] == ' ' && s[17] == ' ');
    find_from_bounds(s, ' ', 0);
    assert(find_from(s, ' ', 0) == 8);
    find_from_bounds(s, ' ', 9);
    assert(find_from(s, ' ', 9) == 17);
    assert(s.take(17) =~= naive);
    assert(s.skip(18) =~= zone);
}

/// The two forms without a time zone, with a hyphen and with a space, say the same.
pub proof fn hyphen_and_space_say_the_same(date: Seq<char>, time: Seq<char>)
    requires
        !date.contains(' ') && !date.contains('-'),
        !time.contains(' ') && !time.contains('-'),
    ensures
        naive_part(date + seq!['-'] + time) == naive_part(date + seq![' '] + time),
        zone_part(date + seq!['-'] + time) == zone_part(date + seq![' '] + time),
        zone_part(date + seq![' '] + time) == Seq::<char>::empty(),
{
    let hyphen = date + seq!['-'] + time;
    let space = date + seq![' '] + time;
    assert forall|i: int| 0 <= i < hyphen.len() implies hyphen[i] != ' ' by {
        if i < date.len() {
            assert(date.contains(date[i]));
        } else if i > date.len() {
            assert(time.contains(time[i - date.len() - 1]));
        }
    }
    assert forall|i: int| 0 <= i < space.len() && i != date.len() implies space[i] != ' ' by {
        if i < date.len() {
            assert(date.contains(date[i]));
        } else {
            assert(time.contains(time[i - date.len() - 1]));
        }
    }
    find_from_bounds(hyphen, ' ', 0);
    find_from_bounds(space, ' ', 0);
    let first = find_from(space, ' ', 0);
    assert(space[date.len() as int] == ' ');
    assert(first == date.len());
    find_from_bounds(space, ' ', first + 1);
    assert(find_from(space, ' ', first + 1) == space.len());
    assert forall|i: int| 0 <= i < hyphen.len() implies hyphens_as_spaces(hyphen)[i]
        == space[i] by {
        if i < date.len() {
            assert(date.contains(date[i]));
        } else if i > date.len() {
            assert(time.contains(time[i - date.len() - 1]));
        }
    }
    assert(hyphens_as_spaces(hyphen) =~= space);
    assert(space.take(space.len() as int) =~= space);
}

/// A time that occurs twice resolves to the earlier of its two instants, and a time that does not
/// occur resolves to none.
pub proof fn folds_resolve_to_the_earlier_instant(time: CivilDateTime, before: i32, after: i32)
    requires
        time.valid(),
        before > after,
    ensures
        ({
            let fold = resolved_time(
                Some(time),
                true,
                Some(LocalOffset::Fold { before, after }),
            );
            let earlier = resolved_time(
                Some(time),
                true,
                Some(LocalOffset::Unambiguous { offset: before }),
            );
            let later = resolved_time(
                Some(time),
                true,
                Some(LocalOffset::Unambiguous { offset: after }),
            );
            fold == earlier && (earlier is Ok && later is Ok ==> earlier->Ok_0 < later->Ok_0)
        }),
        resolved_time(Some(time), true, Some(LocalOffset::Gap { before, after })) == Err::<
            u64,
            ExecutionTimeError,
        >(ExecutionTimeError::NonExistent),
{
}

/// An execution without a zone is read at UTC: its instant is that of offset zero.
pub proof fn times_without_a_zone_are_utc(time: CivilDateTime, offset: Option<LocalOffset>)
    requires
        time.valid(),
    ensures
        resolved_time(Some(time), false, offset) == resolved_time(
            Some(time),
            true,
            Some(LocalOffset::Unambiguous { offset: 0 }),
        ),
{
}

} // verus!
