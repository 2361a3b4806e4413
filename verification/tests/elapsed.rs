use goose::time::{format_elapsed_time, Elapsed, Timestamp};

#[test]
fn test_format_elapsed_time_under_60_seconds() {
    // Test sub-second duration
    let duration = Elapsed::from_millis(500);
    assert_eq!(format_elapsed_time(duration), "0.50s");

    // Test exactly 1 second
    let duration = Elapsed::from_secs(1);
    assert_eq!(format_elapsed_time(duration), "1.00s");

    // Test 45.75 seconds
    let duration = Elapsed::from_millis(45750);
    assert_eq!(format_elapsed_time(duration), "45.75s");

    // Test 59.99 seconds
    let duration = Elapsed::from_millis(59990);
    assert_eq!(format_elapsed_time(duration), "59.99s");
}

#[test]
fn test_format_elapsed_time_minutes() {
    // Test exactly 60 seconds (1 minute)
    let duration = Elapsed::from_secs(60);
    assert_eq!(format_elapsed_time(duration), "1m 00s");

    // Test 61 seconds (1 minute 1 second)
    let duration = Elapsed::from_secs(61);
    assert_eq!(format_elapsed_time(duration), "1m 01s");

    // Test 90 seconds (1 minute 30 seconds)
    let duration = Elapsed::from_secs(90);
    assert_eq!(format_elapsed_time(duration), "1m 30s");

    // Test 119 seconds (1 minute 59 seconds)
    let duration = Elapsed::from_secs(119);
    assert_eq!(format_elapsed_time(duration), "1m 59s");

    // Test 120 seconds (2 minutes)
    let duration = Elapsed::from_secs(120);
    assert_eq!(format_elapsed_time(duration), "2m 00s");

    // Test 605 seconds (10 minutes 5 seconds)
    let duration = Elapsed::from_secs(605);
    assert_eq!(format_elapsed_time(duration), "10m 05s");

    // Test 3661 seconds (61 minutes 1 second)
    let duration = Elapsed::from_secs(3661);
    assert_eq!(format_elapsed_time(duration), "61m 01s");
}

#[test]
fn test_format_elapsed_time_edge_cases() {
    // Test zero duration
    let duration = Elapsed::from_secs(0);
    assert_eq!(format_elapsed_time(duration), "0.00s");

    // Test very small duration (1 millisecond)
    let duration = Elapsed::from_millis(1);
    assert_eq!(format_elapsed_time(duration), "0.00s");

    // Test fractional seconds are truncated for minute display
    // 60.5 seconds should still show as 1m 00s (not 1m 00.5s)
    let duration = Elapsed::from_millis(60500);
    assert_eq!(format_elapsed_time(duration), "1m 00s");
}

#[test]
fn elapsed_time_rounds_to_the_nearest_hundredth() {
    assert_eq!(format_elapsed_time(Elapsed { secs: 3, nanos: 146_000_000 }), "3.15s");
    assert_eq!(format_elapsed_time(Elapsed { secs: 3, nanos: 144_999_999 }), "3.14s");
    assert_eq!(format_elapsed_time(Elapsed { secs: 59, nanos: 999_000_000 }), "60.00s");
    assert_eq!(format_elapsed_time(Elapsed { secs: 12, nanos: 1 }), "12.00s");
}

#[test]
fn timestamps_are_shown_in_utc() {
    let t = Timestamp::new(1_772_800_496, 123_456_789).unwrap();
    assert_eq!(t.stamp_text(), "2026-03-06 12:34:56 UTC");
    assert_eq!(t.clock_text(), "12:34:56");
    let start = Timestamp::new(0, 0).unwrap();
    assert_eq!(start.stamp_text(), "1970-01-01 00:00:00 UTC");
    assert_eq!(Timestamp::new(253_402_300_799, 0).unwrap().stamp_text(), "9999-12-31 23:59:59 UTC");
}

#[test]
fn a_time_out_of_range_is_no_timestamp() {
    assert!(Timestamp::new(i64::MAX, 0).is_none());
    assert!(Timestamp::new(0, u32::MAX).is_none());
    assert!(Timestamp::new(8_210_266_876_799, 0).is_some());
    assert!(Timestamp::new(8_210_266_876_800, 0).is_none());
    assert!(Timestamp::new(-8_334_601_228_800, 0).is_some());
    assert!(Timestamp::new(-8_334_601_228_801, 0).is_none());
    assert!(Timestamp::new(59, 1_999_999_999).is_some());
    assert!(Timestamp::new(59, 2_000_000_000).is_none());
    assert!(Timestamp::new(58, 1_000_000_000).is_none());
    assert!(Timestamp::new(-1, 1_000_000_000).is_some());
}
