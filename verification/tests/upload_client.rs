use reaction_cut::records::UploadStatus;
use reaction_cut::upload::{
    after_failed_attempt, after_response, api_error_message, backoff_secs,
    build_progress_snapshot, build_upload_url,
    chunk_accepted, failure_kind, is_auth_error, is_preupload_parse_error, next_chunk,
    parse_upload_filename, plan_chunks, preupload_parse_retry_delay_secs, remove_file_extension,
    restore_upload_status_after_rate_limit, retry_after_seconds, sanitize_upload_session,
    upload_retry_delay_secs, wait_on_rate_limit, ChunkPlan, FailureKind, RetryStep,
    UploadProgressLimiter, UploadRateLimiter, UploadSessionInfo, UPLOAD_SEGMENT_RETRY_LIMIT,
};

const MIB: u64 = 1024 * 1024;

fn session() -> UploadSessionInfo {
    UploadSessionInfo {
        upload_id: "up-1".to_string(),
        biz_id: 77,
        chunk_size: 4 * MIB,
        endpoint: "//upos.example".to_string(),
        auth: "auth".to_string(),
        upos_uri: "upos://bucket/file.mp4".to_string(),
        uploaded_bytes: 12 * MIB,
        total_bytes: 17 * MIB,
        last_part_index: 2,
    }
}

#[test]
fn rate_limit_schedule_doubles_up_to_half_an_hour() {
    let mut limiter = UploadRateLimiter::new();
    let waits: Vec<u64> = (0..7).map(|_| limiter.next_wait_seconds(None)).collect();
    assert_eq!(waits, vec![60, 120, 240, 480, 960, 1800, 1800]);
    assert_eq!(limiter.consecutive_406, 7);
    limiter.reset();
    assert_eq!(limiter.consecutive_406, 0);
    assert_eq!(limiter.next_wait_seconds(None), 60);
}

#[test]
fn retry_after_header_wins_and_is_capped() {
    let mut limiter = UploadRateLimiter::new();
    assert_eq!(limiter.next_wait_seconds(Some(120)), 120);
    assert_eq!(limiter.next_wait_seconds(Some(5000)), 1800);
    assert_eq!(limiter.next_wait_seconds(Some(0)), 240);
}

#[test]
fn rate_limit_backoff() {
    let mut limiter = UploadRateLimiter::new();
    let header = retry_after_seconds(Some("120"));
    let pause = wait_on_rate_limit(&mut limiter, header);
    assert_eq!(pause.secs, 120);
    assert_eq!(pause.status_during, UploadStatus::RateLimited);
    assert_eq!(
        restore_upload_status_after_rate_limit(pause.status_during),
        UploadStatus::Uploading
    );
    assert_eq!(
        restore_upload_status_after_rate_limit(UploadStatus::Failed),
        UploadStatus::Failed
    );
    limiter.reset();
    assert_eq!(limiter.consecutive_406, 0);
}

#[test]
fn retry_after_header_values() {
    assert_eq!(retry_after_seconds(None), None);
    assert_eq!(retry_after_seconds(Some("120")), Some(120));
    assert_eq!(retry_after_seconds(Some("+7")), Some(7));
    assert_eq!(retry_after_seconds(Some("")), None);
    assert_eq!(retry_after_seconds(Some("1.5")), None);
    assert_eq!(retry_after_seconds(Some("-1")), None);
    assert_eq!(retry_after_seconds(Some("18446744073709551616")), None);
}

#[test]
fn attempt_delays() {
    let delays: Vec<u64> = (0..8).map(upload_retry_delay_secs).collect();
    assert_eq!(delays, vec![2, 2, 4, 8, 16, 30, 30, 30]);
    let rounds: Vec<u64> = (1..8).map(preupload_parse_retry_delay_secs).collect();
    assert_eq!(rounds, vec![60, 120, 240, 480, 960, 1800, 1800]);
    assert_eq!(preupload_parse_retry_delay_secs(u32::MAX), 1800);
}

#[test]
fn error_kinds_by_message() {
    assert!(is_auth_error("账号未登录 (code: -101)"));
    assert!(is_auth_error("x code: -111 y"));
    assert!(is_auth_error("code: 86095"));
    assert!(is_auth_error("请先登录"));
    assert!(!is_auth_error("code: -10"));
    assert!(!is_auth_error("分片上传失败"));
    assert!(is_preupload_parse_error("预上传解析失败: eof"));
    assert!(is_preupload_parse_error("error decoding response body"));
    assert!(!is_preupload_parse_error("预上传失败"));
    assert_eq!(failure_kind("请先登录 预上传解析失败"), FailureKind::AuthRequired);
    assert_eq!(failure_kind("预上传解析失败"), FailureKind::PreUploadParse);
    assert_eq!(failure_kind("boom"), FailureKind::Other);
}

#[test]
fn api_error_text_carries_message_and_code() {
    assert_eq!(api_error_message("账号未登录", -101), "账号未登录 (code: -101)");
    assert!(is_auth_error(&api_error_message("anything", 86095)));
}

#[test]
fn retry_envelope() {
    assert_eq!(after_failed_attempt(1, 3, "boom"), RetryStep::Wait { secs: 2 });
    assert_eq!(after_failed_attempt(2, 3, "boom"), RetryStep::Wait { secs: 4 });
    assert_eq!(after_failed_attempt(3, 3, "boom"), RetryStep::GiveUp);
    assert_eq!(after_failed_attempt(3, 3, "x (code: -101)"), RetryStep::RefreshAuth);
    assert_eq!(UPLOAD_SEGMENT_RETRY_LIMIT, 3);
}

#[test]
fn resumable_session_is_kept() {
    let kept = sanitize_upload_session(Some(session()), 17 * MIB).unwrap();
    assert_eq!(kept.upload_id, "up-1");
    assert_eq!(kept.total_bytes, 17 * MIB);
    assert_eq!(kept.uploaded_bytes, 12 * MIB);
    assert_eq!(kept.last_part_index, 2);
}

#[test]
fn session_without_a_total_is_dropped() {
    let mut unset = session();
    unset.total_bytes = 0;
    assert!(sanitize_upload_session(Some(unset), 200).is_none());
    let mut empty = session();
    empty.total_bytes = 0;
    assert!(sanitize_upload_session(Some(empty), 0).is_some());
}

#[test]
fn invalid_sessions_are_dropped() {
    assert!(sanitize_upload_session(None, 1).is_none());
    assert!(sanitize_upload_session(Some(session()), 17 * MIB + 1).is_none());
    let mut s = session();
    s.upload_id = "  ".to_string();
    assert!(sanitize_upload_session(Some(s), 17 * MIB).is_none());
    let mut s = session();
    s.endpoint = String::new();
    assert!(sanitize_upload_session(Some(s), 17 * MIB).is_none());
    let mut s = session();
    s.auth = "\t".to_string();
    assert!(sanitize_upload_session(Some(s), 17 * MIB).is_none());
    let mut s = session();
    s.upos_uri = String::new();
    assert!(sanitize_upload_session(Some(s), 17 * MIB).is_none());
    let mut s = session();
    s.chunk_size = 0;
    assert!(sanitize_upload_session(Some(s), 17 * MIB).is_none());
    let mut s = session();
    s.biz_id = 0;
    assert!(sanitize_upload_session(Some(s), 17 * MIB).is_none());
}

#[test]
fn resume_after_crash() {
    let s = session();
    let plan = plan_chunks(Some(&s), 17 * MIB, 4 * MIB);
    assert_eq!(
        plan,
        ChunkPlan { total_chunks: 5, start_index: 3, start_offset: 12 * MIB }
    );
    let first = next_chunk(&plan, 3, 12 * MIB, 17 * MIB, 4 * MIB).unwrap();
    assert_eq!(first.part_number, 4);
    assert_eq!(first.chunk, 3);
    assert_eq!(first.chunks, 5);
    assert_eq!(first.size, 4 * MIB);
    assert_eq!(first.start, 12 * MIB);
    assert_eq!(first.end, 16 * MIB);
    assert_eq!(first.total, 17 * MIB);
    let last = next_chunk(&plan, 4, 16 * MIB, 17 * MIB, 4 * MIB).unwrap();
    assert_eq!(last.size, MIB);
    assert_eq!(last.end, 17 * MIB);
    assert_eq!(next_chunk(&plan, 5, 17 * MIB, 17 * MIB, 4 * MIB), None);
}

#[test]
fn chunk_plans() {
    let fresh = plan_chunks(None, 10, 4);
    assert_eq!(fresh, ChunkPlan { total_chunks: 3, start_index: 0, start_offset: 0 });
    assert_eq!(plan_chunks(None, 8, 4).total_chunks, 2);
    assert_eq!(plan_chunks(None, 0, 4).total_chunks, 0);
    let mut other_size = session();
    other_size.chunk_size = 8 * MIB;
    assert_eq!(plan_chunks(Some(&other_size), 17 * MIB, 4 * MIB).start_index, 0);
    let mut nothing_uploaded = session();
    nothing_uploaded.uploaded_bytes = 0;
    assert_eq!(plan_chunks(Some(&nothing_uploaded), 17 * MIB, 4 * MIB).start_index, 0);
    let mut beyond = session();
    beyond.last_part_index = 40;
    let plan = plan_chunks(Some(&beyond), 17 * MIB, 4 * MIB);
    assert_eq!(plan.start_index, 5);
    assert_eq!(plan.start_offset, 17 * MIB);
}

#[test]
fn chunks_cover_the_file_in_order() {
    let file_size = 10u64;
    let chunk_size = 4u64;
    let plan = plan_chunks(None, file_size, chunk_size);
    let mut offset = plan.start_offset;
    let mut index = plan.start_index;
    let mut sizes = Vec::new();
    while let Some(chunk) = next_chunk(&plan, index, offset, file_size, chunk_size) {
        assert_eq!(chunk.start, offset);
        sizes.push(chunk.size);
        offset = chunk.end;
        index += 1;
    }
    assert_eq!(sizes, vec![4, 4, 2]);
    assert_eq!(offset, file_size);
}

#[test]
fn progress_is_stored_sparingly() {
    let mut limiter = UploadProgressLimiter::new(1000);
    let total = 1000 * MIB;
    let first = build_progress_snapshot(MIB, total, 0);
    assert!(limiter.should_persist(&first, 1000));
    limiter.mark_saved(&first, 1000);
    let soon = build_progress_snapshot(2 * MIB, total, 1);
    assert!(!limiter.should_persist(&soon, 1500));
    assert!(limiter.should_persist(&soon, 3000));
    let two_mib = build_progress_snapshot(3 * MIB, total, 2);
    assert!(limiter.should_persist(&two_mib, 1500));
    let done = build_progress_snapshot(total, total, 249);
    assert!(limiter.should_persist(&done, 1001));
    let small_total = 100u64;
    let mut small = UploadProgressLimiter::new(0);
    small.mark_saved(&build_progress_snapshot(10, small_total, 0), 0);
    assert!(small.should_persist(&build_progress_snapshot(11, small_total, 0), 1));
    assert_eq!(build_progress_snapshot(25, 100, 0).percent_done(), 25);
    assert_eq!(build_progress_snapshot(1, 3, 0).percent_done(), 33);
    assert_eq!(build_progress_snapshot(5, 0, 0).percent_done(), 0);
    assert_eq!(build_progress_snapshot(9, 3, 0).percent_done(), 100);
}

#[test]
fn file_names() {
    assert_eq!(remove_file_extension("a.b.mp4"), "a.b");
    assert_eq!(remove_file_extension("noext"), "noext");
    assert_eq!(remove_file_extension(".hidden"), "");
    assert_eq!(parse_upload_filename(None, "local.mp4"), "local");
    assert_eq!(parse_upload_filename(Some("/ugc/n2401/abc123.mp4"), "local.mp4"), "abc123");
    assert_eq!(parse_upload_filename(Some("//x/y.z/"), "local.mp4"), "");
    assert_eq!(parse_upload_filename(Some("plain"), "local.mp4"), "plain");
}

#[test]
fn upload_address() {
    assert_eq!(
        build_upload_url("//upos-sz.example.com", "upos://bucket/path/file.mp4"),
        "https://upos-sz.example.com/bucket/path/file.mp4"
    );
    assert_eq!(build_upload_url("//h", "/rooted"), "https://h/rooted");
    assert_eq!(build_upload_url("//h", "upos://upos:///x"), "https://h/x");
    assert_eq!(build_upload_url("//h", ""), "https://h/");
}

#[test]
fn chunk_answer() {
    assert!(chunk_accepted("MULTIPART_PUT_SUCCESS"));
    assert!(chunk_accepted("{\"info\":\"MULTIPART_PUT_SUCCESS\"}"));
    assert!(!chunk_accepted("MULTIPART_PUT_FAIL"));
}

#[test]
fn resumed_upload_puts_the_rest_of_the_same_chunks() {
    let file_size = 17 * MIB;
    let chunk_size = 4 * MIB;
    let all = |resume: Option<&UploadSessionInfo>| {
        let plan = plan_chunks(resume, file_size, chunk_size);
        let mut offset = plan.start_offset;
        let mut index = plan.start_index;
        let mut chunks = Vec::new();
        while let Some(chunk) = next_chunk(&plan, index, offset, file_size, chunk_size) {
            offset = chunk.end;
            index += 1;
            chunks.push(chunk);
        }
        (plan.total_chunks, chunks)
    };
    let (total, anew) = all(None);
    let s = session();
    let (resumed_total, resumed) = all(Some(&s));
    assert_eq!(total, 5);
    assert_eq!(resumed_total, total);
    assert_eq!(anew.len(), 5);
    assert_eq!(resumed[..], anew[3..]);
    assert_eq!(
        reaction_cut::upload_api::finish_part_numbers(resumed_total),
        vec![1, 2, 3, 4, 5]
    );
}

#[test]
fn only_status_406_pauses_the_upload() {
    let mut limiter = UploadRateLimiter::new();
    let pause = after_response(406, &mut limiter, Some(120)).unwrap();
    assert_eq!(pause.secs, 120);
    assert_eq!(pause.status_during, UploadStatus::RateLimited);
    assert_eq!(limiter.consecutive_406, 1);
    let second = after_response(406, &mut limiter, None).unwrap();
    assert_eq!(second.secs, 120);
    assert_eq!(limiter.consecutive_406, 2);
    assert_eq!(after_response(200, &mut limiter, Some(5)), None);
    assert_eq!(limiter.consecutive_406, 0);
    assert_eq!(after_response(500, &mut limiter, None), None);
    assert_eq!(after_response(406, &mut limiter, None).unwrap().secs, 60);
}

#[test]
fn backoff_has_no_limits_of_its_own() {
    assert_eq!(backoff_secs(3, 1, 40, 100), 3);
    assert_eq!(backoff_secs(3, 4, 40, 100), 24);
    assert_eq!(backoff_secs(3, 40, 40, 100), 100);
    assert_eq!(backoff_secs(u64::MAX, 70, 80, u64::MAX), u64::MAX);
    assert_eq!(backoff_secs(1, 64, 80, u64::MAX), 1u64 << 63);
    assert_eq!(backoff_secs(1, 65, 80, u64::MAX), u64::MAX);
    assert_eq!(backoff_secs(0, 9, 80, 5), 0);
    assert_eq!(backoff_secs(7, 9, 2, 1000), 28);
}
