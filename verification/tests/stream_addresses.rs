use reaction_cut::hls::{
    build_playlist_arguments, build_room_referer, finish_playlist_recording, is_hls_url,
    needs_room_check,
};
use reaction_cut::records::RecordStatus;
use reaction_cut::stream::{
    earliest_expiry_of, expiry_due, parse_quality, parse_stream_expire_value,
    should_refresh_stream_url, stream_url_expire_at, StreamExpiry,
};

#[test]
fn expiry_values() {
    assert_eq!(parse_stream_expire_value(""), None);
    assert_eq!(parse_stream_expire_value("1700000000"), Some(1_700_000_000));
    assert_eq!(parse_stream_expire_value("6553f100"), Some(0x6553f100));
    assert_eq!(parse_stream_expire_value("6553F100"), Some(0x6553f100));
    assert_eq!(parse_stream_expire_value("+10"), Some(16));
    assert_eq!(parse_stream_expire_value("18446744073709551615"), Some(u64::MAX));
    assert_eq!(parse_stream_expire_value("18446744073709551616"), None);
    assert_eq!(parse_stream_expire_value("+18446744073709551615"), Some(u64::MAX));
    assert_eq!(parse_stream_expire_value("xyz"), None);
    assert_eq!(parse_stream_expire_value("-5"), None);
    assert_eq!(parse_stream_expire_value("+"), None);
}

#[test]
fn earliest_expiry_among_pairs() {
    let pairs = vec![
        ("expires".to_string(), "100".to_string()),
        ("x".to_string(), "1".to_string()),
        ("wsTime".to_string(), "5f".to_string()),
        ("Expire".to_string(), "1".to_string()),
    ];
    assert_eq!(earliest_expiry_of(&pairs), Some(95));
    assert_eq!(earliest_expiry_of(&Vec::new()), None);
}

#[test]
fn query_is_decoded_by_the_url_parser() {
    assert_eq!(stream_url_expire_at("https://h.example/live/a.flv?x=a%20b&ex%70ires=%31%32"), Some(12));
    assert_eq!(stream_url_expire_at("expires=12"), None);
}

#[test]
fn earliest_expiry_of_an_address() {
    assert_eq!(stream_url_expire_at("https://h/a.flv?expires=200&deadline=150&txTime=ff"), Some(150));
    assert_eq!(stream_url_expire_at("https://h/a.flv?expire=zz&other=1"), None);
    assert_eq!(stream_url_expire_at("https://h/a.flv"), None);
    assert_eq!(stream_url_expire_at("nonsense"), None);
}

#[test]
fn addresses_are_refreshed_before_they_expire() {
    assert_eq!(expiry_due(Some(130), 100, 30), Some(StreamExpiry { expire_at: 130, now: 100 }));
    assert_eq!(expiry_due(Some(131), 100, 30), None);
    assert_eq!(expiry_due(None, 100, 30), None);
    assert_eq!(expiry_due(Some(1), -5, 30), None);
    assert_eq!(expiry_due(Some(u64::MAX), i64::MAX, u64::MAX), Some(StreamExpiry { expire_at: u64::MAX, now: i64::MAX as u64 }));
    assert_eq!(
        should_refresh_stream_url("https://h/a.flv?expires=1020", 30, 1000),
        Some(StreamExpiry { expire_at: 1020, now: 1000 })
    );
    assert_eq!(should_refresh_stream_url("https://h/a.flv?expires=1031", 30, 1000), None);
}

#[test]
fn quality_setting() {
    assert_eq!(parse_quality("10000"), 10000);
    assert_eq!(parse_quality("原画(qn=400),250"), 400);
    assert_eq!(parse_quality("abc, 0 ,x150y"), 150);
    assert_eq!(parse_quality(""), 10000);
    assert_eq!(parse_quality("high"), 10000);
    assert_eq!(parse_quality("99999999999999999999,80"), 80);
    assert_eq!(parse_quality("1,2"), 1);
}

#[test]
fn playlist_addresses() {
    assert!(is_hls_url("https://h/live/index.m3u8?x=1"));
    assert!(!is_hls_url("https://h/live/a.flv"));
    assert_eq!(build_room_referer("123"), "https://live.bilibili.com/123");
    let args = build_playlist_arguments("123", "https://h/i.m3u8", "/rec/a.ts");
    assert_eq!(args.len(), 24);
    assert_eq!(args[0], "-hide_banner");
    assert_eq!(args[16], "Referer:https://live.bilibili.com/123\r\n");
    assert_eq!(args[17], "-i");
    assert_eq!(args[18], "https://h/i.m3u8");
    assert_eq!(&args[19..23], &["-c", "copy", "-f", "mpegts"]);
    assert_eq!(args[23], "/rec/a.ts");
}

#[test]
fn playlist_recording_ends() {
    let stopped = finish_playlist_recording(true, false, None, "boom");
    assert_eq!((stopped.status, stopped.error.clone(), stopped.enqueue_sync), (RecordStatus::Stopped, None, false));
    let ok = finish_playlist_recording(false, true, None, "warn");
    assert_eq!((ok.status, ok.error.clone(), ok.enqueue_sync), (RecordStatus::Completed, None, true));
    let failed = finish_playlist_recording(false, false, Some(1), " boom \n");
    assert_eq!(
        (failed.status, failed.error.as_deref(), failed.enqueue_sync),
        (RecordStatus::Failed, Some("boom"), false)
    );
    let off_air = finish_playlist_recording(false, false, Some(0), "boom");
    assert_eq!((off_air.status, off_air.error.clone()), (RecordStatus::Completed, None));
    let unknown = finish_playlist_recording(false, false, None, "  ");
    assert_eq!((unknown.status, unknown.error.clone()), (RecordStatus::Failed, None));
    assert!(needs_room_check(false, false));
    assert!(!needs_room_check(true, false));
    assert!(!needs_room_check(false, true));
}
