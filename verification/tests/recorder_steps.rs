use reaction_cut::flv::{FlvError, FlvHeaderCache, FlvTag};
use reaction_cut::records::RecordStatus;
use reaction_cut::recorder::{
    after_fetch_failure, classify_response, effective_settings, elapsed_secs, mark_force_no_qn,
    ConnectionState, FetchRetry, FinishReason, GapOutcome, RecorderState, ResponseCheck, SegmentWriter, SplitSignals,
    INVALID_STREAM_TAG_LIMIT,
};
use reaction_cut::settings::LiveSettings;

fn settings() -> LiveSettings {
    LiveSettings {
        record_mode: 0,
        record_path: String::new(),
        file_name_template: String::new(),
        write_metadata: true,
        save_cover: false,
        recording_quality: String::new(),
        flv_fix_split_on_missing: false,
        flv_fix_disable_on_annexb: false,
        cutting_mode: 0,
        cutting_number: 0,
        cutting_by_title: false,
        title_split_min_seconds: 0,
        stream_connect_timeout_ms: 0,
        stream_retry_ms: 0,
        stream_retry_no_qn_sec: 0,
        check_interval_sec: 0,
        danmaku_transport: 0,
        record_danmaku: false,
        record_danmaku_raw: false,
        record_danmaku_superchat: false,
        record_danmaku_gift: false,
        record_danmaku_guard: false,
    }
}

fn frame(tag_type: u8, timestamp: u32, payload: &[u8]) -> Vec<u8> {
    let mut out = vec![tag_type];
    let n = payload.len() as u32;
    out.extend_from_slice(&[(n >> 16) as u8, (n >> 8) as u8, n as u8]);
    out.extend_from_slice(&[(timestamp >> 16) as u8, (timestamp >> 8) as u8, timestamp as u8]);
    out.push((timestamp >> 24) as u8);
    out.extend_from_slice(&[0, 0, 0]);
    out.extend_from_slice(payload);
    out.extend_from_slice(&(11 + n).to_be_bytes());
    out
}

fn keyframe(ts: u32) -> FlvTag {
    FlvTag::from_frame(frame(9, ts, &[0x17, 1, 0])).unwrap()
}

fn interframe(ts: u32) -> FlvTag {
    FlvTag::from_frame(frame(9, ts, &[0x27, 1, 0])).unwrap()
}

fn cache_with_header() -> FlvHeaderCache {
    let mut cache = FlvHeaderCache::new();
    cache.set_header(vec![b'F', b'L', b'V', 1, 5, 0, 0, 0, 9, 0, 0, 0, 0]);
    cache
}

const NONE: SplitSignals = SplitSignals { split: false, title_split: false };
const SPLIT: SplitSignals = SplitSignals { split: true, title_split: false };
const TITLE: SplitSignals = SplitSignals { split: false, title_split: true };

fn open(state: &mut RecorderState, cache: &FlvHeaderCache, record_id: i64, now: u64) -> Vec<u8> {
    state
        .open_segment(cache, record_id, format!("/rec/{}.flv", record_id), None, now)
        .unwrap()
}

#[test]
fn split_waits_for_a_keyframe() {
    let cache = cache_with_header();
    let s = settings();
    let mut state = RecorderState::new("old".to_string(), 0);
    open(&mut state, &cache, 1, 0);
    let plan = state.plan_tag(&cache, &interframe(1), SPLIT, "old", &s, 5, "t".to_string());
    assert!(!plan.rotate);
    assert!(state.pending_split);
    assert_eq!(state.segment_index, 1);
    let plan = state.plan_tag(&cache, &interframe(2), NONE, "old", &s, 6, "t".to_string());
    assert!(!plan.rotate);
    let plan = state.plan_tag(&cache, &keyframe(3), NONE, "old", &s, 7, "end".to_string());
    assert!(plan.rotate);
    let finish = plan.finish.unwrap();
    assert_eq!(finish.record_id, 1);
    assert_eq!(finish.status, RecordStatus::Completed);
    assert_eq!(finish.note.as_deref(), Some("分段切换"));
    assert_eq!(finish.end_time, "end");
    assert_eq!(finish.file_size, 13);
    assert_eq!(state.segment_index, 2);
    assert!(!state.pending_split);
    assert!(state.segment.is_none());
}

#[test]
fn split_is_skipped_without_a_header() {
    let cache = FlvHeaderCache::new();
    let s = settings();
    let mut state = RecorderState::new("t".to_string(), 0);
    let plan = state.plan_tag(&cache, &keyframe(1), SPLIT, "t", &s, 1, "e".to_string());
    assert!(!plan.rotate);
    assert!(plan.split_skipped);
    assert!(state.pending_split);
    assert_eq!(state.segment_index, 1);
    assert_eq!(
        state.open_segment(&cache, 1, "f".to_string(), None, 1).unwrap_err(),
        FlvError::MissingHeader
    );
}

#[test]
fn live_title_split_deferred() {
    let cache = cache_with_header();
    let mut s = settings();
    s.cutting_by_title = true;
    s.title_split_min_seconds = 60;
    let mut state = RecorderState::new("old title".to_string(), 100);
    open(&mut state, &cache, 1, 100);
    // the title changes when the segment is 30 seconds old
    let plan = state.plan_tag(&cache, &keyframe(1), TITLE, "new title", &s, 130, "e".to_string());
    assert!(!plan.rotate);
    assert!(plan.title_deferred);
    assert_eq!(state.pending_title.as_deref(), Some("new title"));
    assert!(!state.pending_split);
    // still too young at 59 seconds
    let plan = state.plan_tag(&cache, &keyframe(2), NONE, "new title", &s, 159, "e".to_string());
    assert!(!plan.rotate);
    // old enough, but no keyframe
    let plan = state.plan_tag(&cache, &interframe(3), NONE, "new title", &s, 160, "e".to_string());
    assert!(!plan.rotate);
    assert!(state.pending_split);
    // the next keyframe cuts, and the new segment carries the new title
    let plan = state.plan_tag(&cache, &keyframe(4), NONE, "new title", &s, 161, "e".to_string());
    assert!(plan.rotate);
    assert_eq!(state.current_title, "new title");
    assert!(state.pending_title.is_none());
    open(&mut state, &cache, 2, 161);
    assert_eq!(state.segment.as_ref().unwrap().title, "new title");
}

#[test]
fn title_change_cuts_at_once_when_old_enough() {
    let cache = cache_with_header();
    let mut s = settings();
    s.title_split_min_seconds = 60;
    let mut state = RecorderState::new("a".to_string(), 0);
    open(&mut state, &cache, 1, 0);
    let plan = state.plan_tag(&cache, &keyframe(1), TITLE, "b", &s, 60, "e".to_string());
    assert!(plan.rotate);
    assert!(!plan.title_deferred);
    assert_eq!(state.current_title, "b");
    // a signal without a change of title does nothing
    let mut same = RecorderState::new("a".to_string(), 0);
    let plan = same.plan_tag(&cache, &keyframe(1), TITLE, "a", &s, 90, "e".to_string());
    assert!(!plan.rotate);
    assert!(same.pending_title.is_none());
}

#[test]
fn split_request_takes_the_new_title_along() {
    let cache = cache_with_header();
    let mut s = settings();
    s.cutting_by_title = true;
    let mut state = RecorderState::new("a".to_string(), 0);
    let plan = state.plan_tag(&cache, &keyframe(1), SPLIT, "b", &s, 1, "e".to_string());
    assert!(plan.rotate);
    assert!(plan.finish.is_none());
    assert_eq!(state.current_title, "b");
    s.cutting_by_title = false;
    let mut plain = RecorderState::new("a".to_string(), 0);
    plain.plan_tag(&cache, &interframe(1), SPLIT, "b", &s, 1, "e".to_string());
    assert!(plain.pending_title.is_none());
}

#[test]
fn new_segment_starts_with_the_preamble_then_the_keyframe() {
    let mut cache = cache_with_header();
    let config = FlvTag::from_frame(frame(9, 5, &[0x17, 0, 1])).unwrap();
    cache.update_from_tag(&config);
    let s = settings();
    let mut state = RecorderState::new("t".to_string(), 0);
    let preamble = open(&mut state, &cache, 1, 0);
    assert_eq!(preamble, cache.write_preamble().unwrap());
    assert_eq!(&preamble[..3], b"FLV");
    assert_eq!(&preamble[13 + 4..13 + 8], &[0, 0, 0, 0]);
    assert_eq!(state.segment.as_ref().unwrap().bytes_written, preamble.len() as u64);
    let mut conn = ConnectionState::new(0);
    let tag = keyframe(9);
    let outcome = state.note_tag_written(&mut conn, &tag, &s, 1, 1000);
    assert!(!outcome.raise_split && !outcome.invalid_stream);
    assert_eq!(
        state.segment.as_ref().unwrap().bytes_written,
        (preamble.len() + tag.bytes.len()) as u64
    );
}

#[test]
fn limits_of_time_and_size_ask_for_a_split() {
    let cache = cache_with_header();
    let mut s = settings();
    s.cutting_mode = 1;
    s.cutting_number = 10;
    let mut state = RecorderState::new("t".to_string(), 0);
    open(&mut state, &cache, 1, 0);
    let mut conn = ConnectionState::new(0);
    assert!(!state.note_tag_written(&mut conn, &keyframe(1), &s, 9, 0).raise_split);
    assert!(state.note_tag_written(&mut conn, &keyframe(2), &s, 10, 0).raise_split);
    s.cutting_mode = 2;
    s.cutting_number = 1;
    let mut by_size = RecorderState::new("t".to_string(), 0);
    open(&mut by_size, &cache, 1, 0);
    let big = FlvTag::from_frame(frame(9, 1, &vec![0x27; 600_000])).unwrap();
    assert!(!by_size.note_tag_written(&mut conn, &big, &s, 1, 0).raise_split);
    assert!(by_size.note_tag_written(&mut conn, &big, &s, 1, 0).raise_split);
    s.cutting_number = 0;
    assert!(by_size.note_tag_written(&mut conn, &big, &s, 1, 0).raise_split);
}

#[test]
fn stalled_stream_is_given_up() {
    let cache = cache_with_header();
    let mut s = settings();
    s.stream_retry_no_qn_sec = 30;
    let mut state = RecorderState::new("t".to_string(), 0);
    open(&mut state, &cache, 1, 0);
    let mut conn = ConnectionState::new(0);
    assert!(!state.note_tag_written(&mut conn, &keyframe(100), &s, 0, 5000).invalid_stream);
    for _ in 0..(INVALID_STREAM_TAG_LIMIT - 1) {
        assert!(!state.note_tag_written(&mut conn, &interframe(100), &s, 20, 5000).invalid_stream);
    }
    assert_eq!(conn.stagnant_count, INVALID_STREAM_TAG_LIMIT - 1);
    // the 300th tag without progress, but only 9 seconds since the last progress
    let mut early = ConnectionState::new(0);
    early.stagnant_count = INVALID_STREAM_TAG_LIMIT - 1;
    early.last_tag_timestamp = Some(100);
    early.last_progress_at = 11;
    assert!(!state.note_tag_written(&mut early, &interframe(100), &s, 20, 5000).invalid_stream);
    assert!(state.force_no_qn_until.is_none());
    let outcome = state.note_tag_written(&mut conn, &interframe(100), &s, 20, 5000);
    assert!(outcome.invalid_stream);
    assert_eq!(state.force_no_qn_until, Some(5030));
    // progress resets the count
    assert!(!conn.note_timestamp(101, 21));
    assert_eq!(conn.stagnant_count, 0);
    assert_eq!(conn.last_progress_at, 21);
}

#[test]
fn gap_keeps_the_segment_for_a_minute() {
    let cache = cache_with_header();
    let s = settings();
    let mut state = RecorderState::new("t".to_string(), 0);
    open(&mut state, &cache, 4, 0);
    state.set_stream_urls(vec!["u".to_string()]);
    match state.on_gap(false, &s, "t2", 100, "e".to_string()) {
        GapOutcome::Keep { missing_secs } => assert_eq!(missing_secs, 0),
        _ => panic!("expected to keep the segment"),
    }
    assert_eq!(state.missing_since, Some(100));
    assert!(state.stream_urls.is_empty());
    assert!(state.segment.is_some());
    match state.on_gap(true, &s, "t2", 159, "e".to_string()) {
        GapOutcome::Keep { missing_secs } => assert_eq!(missing_secs, 59),
        _ => panic!("expected to keep the segment"),
    }
    match state.on_gap(true, &s, "t2", 160, "end".to_string()) {
        GapOutcome::Rotate { finish } => {
            let f = finish.unwrap();
            assert_eq!(f.record_id, 4);
            assert_eq!(f.status, RecordStatus::Completed);
            assert_eq!(f.note.as_deref(), Some("读取异常自动分段"));
        }
        _ => panic!("expected a rotation"),
    }
    assert_eq!(state.segment_index, 2);
    assert_eq!(state.current_title, "t2");
    assert!(state.missing_since.is_none() && state.segment.is_none());
    state.stream_resumed();
    assert!(state.missing_since.is_none());
}

#[test]
fn gap_cuts_at_once_when_the_settings_say_so() {
    let cache = cache_with_header();
    let mut s = settings();
    s.flv_fix_split_on_missing = true;
    let mut state = RecorderState::new("t".to_string(), 0);
    open(&mut state, &cache, 1, 0);
    match state.on_gap(false, &s, "t", 1, "e".to_string()) {
        GapOutcome::Rotate { finish } => {
            assert_eq!(finish.unwrap().note.as_deref(), Some("网络中断自动分段"));
        }
        _ => panic!("expected a rotation"),
    }
    s.flv_fix_disable_on_annexb = true;
    let mut kept = RecorderState::new("t".to_string(), 0);
    assert!(matches!(
        kept.on_gap(false, &s, "t", 1, "e".to_string()),
        GapOutcome::Keep { .. }
    ));
    let mut mode_one = settings();
    mode_one.record_mode = 1;
    mode_one.flv_fix_split_on_missing = true;
    let effective = effective_settings(mode_one);
    assert!(!effective.flv_fix_split_on_missing);
    assert!(!effective.write_metadata);
}

#[test]
fn stop_closes_the_open_segment() {
    let cache = cache_with_header();
    let mut state = RecorderState::new("t".to_string(), 0);
    assert!(state.on_stop("e".to_string()).is_none());
    open(&mut state, &cache, 8, 0);
    let finish = state.on_stop("e".to_string()).unwrap();
    assert_eq!(finish.status, RecordStatus::Stopped);
    assert!(finish.note.is_none());
    assert_eq!(finish.record_id, 8);
}

#[test]
fn writer_counts_bytes() {
    let mut writer = SegmentWriter::open(3, "f".to_string(), "t".to_string(), Some("m".to_string()));
    writer.write(&[1, 2, 3]);
    writer.write(&[]);
    writer.write(&[4]);
    assert_eq!(writer.bytes_written, 4);
    let finish = writer.finish(FinishReason::StreamEnded, "e".to_string());
    assert_eq!(finish.file_size, 4);
    assert_eq!(finish.metadata_path.as_deref(), Some("m"));
    assert_eq!(finish.status, RecordStatus::Completed);
}

#[test]
fn quality_hint_pause() {
    let mut s = settings();
    let mut until = None;
    mark_force_no_qn(&mut until, &s, 1000);
    assert_eq!(until, None);
    s.stream_retry_no_qn_sec = 30;
    mark_force_no_qn(&mut until, &s, 1000);
    assert_eq!(until, Some(1030));
    let mut state = RecorderState::new("t".to_string(), 0);
    state.force_no_qn_until = until;
    assert!(!state.use_quality_hint(1029));
    assert_eq!(state.force_no_qn_until, Some(1030));
    assert!(state.use_quality_hint(1030));
    assert_eq!(state.force_no_qn_until, None);
    assert!(state.use_quality_hint(0));
}

#[test]
fn addresses_are_tried_in_turn() {
    let mut state = RecorderState::new("t".to_string(), 0);
    assert_eq!(state.next_stream_url(), None);
    state.set_stream_urls(vec!["a".to_string(), "b".to_string()]);
    assert_eq!(state.next_stream_url().as_deref(), Some("a"));
    assert_eq!(state.next_stream_url().as_deref(), Some("b"));
    assert_eq!(state.next_stream_url().as_deref(), Some("a"));
    state.drop_stream_urls();
    assert_eq!(state.next_stream_url(), None);
    state.after_playlist_segment("next");
    assert_eq!(state.segment_index, 2);
    assert_eq!(state.current_title, "next");
}

#[test]
fn responses_are_checked() {
    assert_eq!(classify_response(false, "video/x-flv", "-"), ResponseCheck::BadStatus);
    assert_eq!(classify_response(true, "video/x-flv", "-"), ResponseCheck::Stream);
    assert_eq!(classify_response(true, "-", "identity"), ResponseCheck::Stream);
    assert_eq!(classify_response(true, "-", "Identity"), ResponseCheck::Stream);
    assert_eq!(classify_response(true, "-", ""), ResponseCheck::Stream);
    assert_eq!(classify_response(true, "Text/Plain", "-"), ResponseCheck::Unexpected);
    assert_eq!(classify_response(true, "application/JSON", "-"), ResponseCheck::Unexpected);
    assert_eq!(classify_response(true, "x/html+y", "-"), ResponseCheck::Unexpected);
    assert_eq!(classify_response(true, "video/x-flv", "gzip"), ResponseCheck::Unexpected);
    assert_eq!(elapsed_secs(10, 4), 0);
    assert_eq!(elapsed_secs(4, 10), 6);
}

#[test]
fn failed_fetch_is_tried_again() {
    let mut s = settings();
    s.stream_retry_ms = 200;
    assert_eq!(after_fetch_failure(&s), FetchRetry::Later { after_ms: 1000 });
    s.stream_retry_ms = 4000;
    assert_eq!(after_fetch_failure(&s), FetchRetry::Later { after_ms: 4000 });
    s.stream_retry_no_qn_sec = 15;
    assert_eq!(after_fetch_failure(&s), FetchRetry::WithoutHint { after_secs: 15 });
}

#[test]
fn segments_without_preambles_hold_the_stream() {
    let cache = cache_with_header();
    let mut state = RecorderState::new("t".to_string(), 0);
    let mut conn = ConnectionState::new(0);
    let tags = vec![keyframe(0), interframe(40), keyframe(80), interframe(120), keyframe(160)];
    let split_before = [false, false, true, true, false];
    let mut segments: Vec<(Vec<u8>, Vec<u8>)> = vec![(open(&mut state, &cache, 1, 0), Vec::new())];
    let mut stream = Vec::new();
    for (tag, split) in tags.iter().zip(split_before) {
        stream.extend_from_slice(&tag.bytes);
        let plan = state.plan_tag(
            &cache,
            tag,
            SplitSignals { split, title_split: false },
            "t",
            &settings(),
            10,
            "end".to_string(),
        );
        if plan.rotate {
            let finish = plan.finish.expect("a segment was open");
            let (preamble, body) = segments.last().unwrap();
            assert_eq!(finish.file_size as usize, preamble.len() + body.len());
            let record_id = segments.len() as i64 + 1;
            segments.push((open(&mut state, &cache, record_id, 10), Vec::new()));
        }
        state.note_tag_written(&mut conn, tag, &settings(), 10, 1000);
        segments.last_mut().unwrap().1.extend_from_slice(&tag.bytes);
    }
    assert_eq!(segments.len(), 3);
    let bodies: Vec<u8> = segments.iter().flat_map(|(_, body)| body.clone()).collect();
    assert_eq!(bodies, stream);
    assert_eq!(segments[1].1[..tags[2].bytes.len()], tags[2].bytes[..]);
    assert_eq!(segments[1].1.len(), tags[2].bytes.len() + tags[3].bytes.len());
    assert_eq!(segments[2].1, tags[4].bytes);
    assert_eq!(segments[1].0, cache.write_preamble().unwrap());
    assert_eq!(segments[2].0, cache.write_preamble().unwrap());
}
