use reaction_cut::timecode::{format_timecode, normalize_clip_times, parse_timecode, ClipTimes};

#[test]
fn timecodes_are_written() {
    assert_eq!(format_timecode(0), "00:00:00");
    assert_eq!(format_timecode(180_000), "00:03:00");
    assert_eq!(format_timecode(3_723_004), "01:02:03.004");
    assert_eq!(format_timecode(59_999), "00:00:59.999");
    assert_eq!(format_timecode(360_000_000), "100:00:00");
    assert_eq!(format_timecode(45_250), "00:00:45.250");
}

#[test]
fn timecodes_are_read() {
    assert_eq!(parse_timecode("00:00:00"), Some(0));
    assert_eq!(parse_timecode("01:02:03.004"), Some(3_723_004));
    assert_eq!(parse_timecode("1:2:3"), Some(3_723_000));
    assert_eq!(parse_timecode("00:00:01.5"), Some(1_500));
    assert_eq!(parse_timecode("00:00:01.25"), Some(1_250));
    assert_eq!(parse_timecode("00:60:00"), None);
    assert_eq!(parse_timecode("00:00:60"), None);
    assert_eq!(parse_timecode("00:00"), None);
    assert_eq!(parse_timecode("00:00:00:00"), None);
    assert_eq!(parse_timecode("aa:00:00"), None);
    assert_eq!(parse_timecode("00:00:01."), None);
    assert_eq!(parse_timecode("00:00:01.0000"), None);
    assert_eq!(parse_timecode("00:00:1.2.3"), None);
    assert_eq!(parse_timecode(""), None);
    assert_eq!(parse_timecode("00:001:00"), None);
}

#[test]
fn reading_undoes_writing() {
    for ms in [0u64, 1, 999, 1000, 59_999, 60_000, 3_599_999, 3_600_000, 86_399_123, 359_999_999_999] {
        assert_eq!(parse_timecode(&format_timecode(ms)), Some(ms), "{}", ms);
    }
}

#[test]
fn clips_stay_inside_their_source() {
    assert_eq!(
        normalize_clip_times(None, None, 180_000),
        ClipTimes { start_ms: 0, end_ms: 180_000, clamped: false, reset: false }
    );
    assert_eq!(
        normalize_clip_times(Some(5_000), Some(60_000), 180_000),
        ClipTimes { start_ms: 5_000, end_ms: 60_000, clamped: false, reset: false }
    );
    assert_eq!(
        normalize_clip_times(Some(5_000), Some(200_000), 180_000),
        ClipTimes { start_ms: 5_000, end_ms: 180_000, clamped: true, reset: false }
    );
    // within a millisecond counts as equal
    assert_eq!(
        normalize_clip_times(None, Some(180_001), 180_000),
        ClipTimes { start_ms: 0, end_ms: 180_001, clamped: false, reset: false }
    );
    assert_eq!(
        normalize_clip_times(Some(70_000), Some(60_000), 180_000),
        ClipTimes { start_ms: 0, end_ms: 180_000, clamped: false, reset: true }
    );
    assert_eq!(
        normalize_clip_times(Some(190_000), None, 180_000),
        ClipTimes { start_ms: 0, end_ms: 180_000, clamped: false, reset: true }
    );
    assert_eq!(
        normalize_clip_times(Some(10), Some(0), 180_000),
        ClipTimes { start_ms: 10, end_ms: 180_000, clamped: false, reset: true }
    );
}
