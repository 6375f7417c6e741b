//! Execution times.

use ib_adapter::civil::CivilDateTime;
use ib_adapter::execution::time::{
    parse_execution_time, resolve_execution_time, ExecutionTimeError, LocalOffset,
};

const HOUR: u64 = 3_600_000_000_000;

#[test]
fn test_parse_execution_time_hyphenated_format() {
    let result = parse_execution_time("20250225-15:15:00");
    assert!(result.is_ok());
    assert!(result.unwrap() > 0);
    assert_eq!(result, parse_execution_time("20250225 15:15:00"));
}

#[test]
fn test_parse_execution_time_with_met_timezone() {
    let met = parse_execution_time("20230223 00:43:36 MET").unwrap();
    let utc = parse_execution_time("20230223 00:43:36 Universal").unwrap();
    assert_eq!(
        met,
        utc - 3_600_000_000_000,
        "MET (CET) should be 1h ahead of UTC in February"
    );
    assert!(met > 0);
}

#[test]
fn test_parse_execution_time_applies_dst_for_regional_timezone() {
    let winter = parse_execution_time("20230223 00:43:36 America/New_York").unwrap();
    let summer = parse_execution_time("20230715 00:43:36 America/New_York").unwrap();
    let winter_utc = parse_execution_time("20230223 00:43:36 Universal").unwrap();
    let summer_utc = parse_execution_time("20230715 00:43:36 Universal").unwrap();
    assert_eq!(winter, winter_utc + 5 * HOUR);
    assert_eq!(summer, summer_utc + 4 * HOUR);
}

#[test]
fn test_parse_execution_time_dst_fall_back_fold_resolves_to_earliest() {
    let fold = parse_execution_time("20231105 01:30:00 America/Chicago").unwrap();
    assert_eq!(
        fold,
        parse_execution_time("20231105 06:30:00 Universal").unwrap()
    );
    assert_ne!(
        fold,
        parse_execution_time("20231105 07:30:00 Universal").unwrap()
    );
}

#[test]
fn test_parse_execution_time_dst_spring_forward_gap_errors() {
    let gap = parse_execution_time("20230312 02:30:00 America/Chicago");
    assert!(gap.is_err());
    assert_eq!(gap, Err(ExecutionTimeError::NonExistent));
}

#[test]
fn test_parse_execution_time_fixed_offset_zone_without_dst() {
    let tokyo = parse_execution_time("20230223 00:43:36 Asia/Tokyo").unwrap();
    let utc = parse_execution_time("20230223 00:43:36 Universal").unwrap();
    assert_eq!(tokyo, utc - 9 * HOUR);
}

#[test]
fn test_parse_execution_time_with_unrecognised_timezone_errors() {
    let result = parse_execution_time("20230223 00:43:36 Mars/Olympus");
    assert!(result.is_err());
    assert_eq!(result, Err(ExecutionTimeError::UnrecognisedTimezone));
}

#[test]
fn test_parse_execution_time_utc() {
    let result = parse_execution_time("20230223 00:43:36 Universal");
    assert!(result.is_ok());
    assert!(result.unwrap() > 0);
}

#[test]
fn test_parse_execution_time_no_timezone_assumes_utc() {
    let result = parse_execution_time("20230223 00:43:36");
    assert!(result.is_ok());
    assert!(result.unwrap() > 0);
}

#[test]
fn test_parse_execution_time_invalid_format() {
    assert!(parse_execution_time("invalid format").is_err());
}

#[test]
fn test_parse_execution_time_short_format() {
    assert!(parse_execution_time("20230223 00:43").is_err());
}

#[test]
fn execution_times_have_their_exact_instants() {
    // 2023-02-23T00:43:36Z is 1_677_113_016 seconds after the start of 1970.
    let expected: u64 = 1_677_113_016_000_000_000;
    for text in [
        "20230223 00:43:36",
        "20230223-00:43:36",
        "20230223 00:43:36 UTC",
        "20230223 00:43:36 Universal",
        "20230223 00:43:36 Z",
        "20230223 00:43:36 z",
        "20230223 00:43:36  UTC ",
        "20230223 00:43:36 ",
        "20230223 01:43:36 MET",
        "20230222 19:43:36 America/New_York",
    ] {
        assert_eq!(parse_execution_time(text), Ok(expected), "{text}");
    }
    assert_eq!(parse_execution_time("19700101 00:00:00"), Ok(0));
    assert_eq!(
        parse_execution_time("20000229 12:00:01"),
        Ok(951_825_601_000_000_000)
    );
}

#[test]
fn execution_times_out_of_range_are_refused() {
    assert_eq!(
        parse_execution_time("19691231 23:59:59"),
        Err(ExecutionTimeError::OutsideUnixNanos)
    );
    assert_eq!(
        parse_execution_time("26000101 00:00:00"),
        Err(ExecutionTimeError::OutsideUnixNanos)
    );
    assert_eq!(
        parse_execution_time("99991231 23:59:59"),
        Err(ExecutionTimeError::OutOfRange)
    );
    assert_eq!(
        parse_execution_time("20230229 00:00:00"),
        Err(ExecutionTimeError::Malformed)
    );
    assert_eq!(
        parse_execution_time(""),
        Err(ExecutionTimeError::Malformed)
    );
}

#[test]
fn resolved_times_follow_the_offset() {
    let time = CivilDateTime {
        year: 2023,
        month: 2,
        day: 23,
        hour: 0,
        minute: 43,
        second: 36,
    };
    let utc: u64 = 1_677_113_016_000_000_000;
    assert_eq!(resolve_execution_time(Some(time), false, None), Ok(utc));
    assert_eq!(
        resolve_execution_time(
            Some(time),
            true,
            Some(LocalOffset::Unambiguous { offset: 3600 })
        ),
        Ok(utc - HOUR)
    );
    assert_eq!(
        resolve_execution_time(
            Some(time),
            true,
            Some(LocalOffset::Fold {
                before: 7200,
                after: 3600
            })
        ),
        Ok(utc - 2 * HOUR)
    );
    assert_eq!(
        resolve_execution_time(
            Some(time),
            true,
            Some(LocalOffset::Gap {
                before: 3600,
                after: 7200
            })
        ),
        Err(ExecutionTimeError::NonExistent)
    );
    assert_eq!(
        resolve_execution_time(Some(time), true, None),
        Err(ExecutionTimeError::UnrecognisedTimezone)
    );
    assert_eq!(
        resolve_execution_time(None, true, None),
        Err(ExecutionTimeError::Malformed)
    );
}
