use reaction_cut::records::{
    MergedVideoRecord, SubmissionTaskRecord, TaskOutputSegmentRecord, TaskStatus,
};
use reaction_cut::submit::{plan_create_batches, plan_update_batches, SubmissionSubmitResult};
use reaction_cut::upload_queue::{
    after_round, check_tags, effective_concurrency, end_of_upload, merged_upload_path,
    plan_segment_round, resolve_update_aid, round_counter_after, update_for_failure, upload_mode,
    BatchCall, BatchRun, QueueError, RoundNext, RoundPlan, SegmentUpdate, UploadMode,
};

fn task() -> SubmissionTaskRecord {
    SubmissionTaskRecord {
        task_id: "t-1".to_string(),
        status: "WAITING_UPLOAD".to_string(),
        title: "T1".to_string(),
        description: None,
        cover_url: None,
        partition_id: 21,
        tags: Some("a,b".to_string()),
        video_type: "ORIGINAL".to_string(),
        collection_id: None,
        bvid: None,
        aid: None,
        remote_state: None,
        reject_reason: None,
        created_at: String::new(),
        updated_at: String::new(),
        segment_prefix: None,
        baidu_sync_enabled: false,
        baidu_sync_path: None,
        baidu_sync_filename: None,
        has_integrated_downloads: false,
        workflow_status: None,
    }
}

fn segment(id: &str, status: &str) -> TaskOutputSegmentRecord {
    let done = status == "SUCCESS";
    TaskOutputSegmentRecord {
        segment_id: id.to_string(),
        task_id: "t-1".to_string(),
        part_name: String::new(),
        segment_file_path: String::new(),
        part_order: 0,
        upload_status: status.to_string(),
        cid: if done { Some(3) } else { None },
        file_name: if done { Some("n".to_string()) } else { None },
        upload_uploaded_bytes: 0,
        upload_total_bytes: 0,
        upload_session_id: None,
        upload_biz_id: 0,
        upload_endpoint: None,
        upload_auth: None,
        upload_uri: None,
        upload_chunk_size: 0,
        upload_last_part_index: 0,
    }
}

fn merged(path: Option<&str>) -> MergedVideoRecord {
    MergedVideoRecord {
        id: 1,
        task_id: "t-1".to_string(),
        file_name: None,
        video_path: path.map(|p| p.to_string()),
        duration: None,
        status: 2,
        upload_uploaded_bytes: 0,
        upload_total_bytes: 0,
        upload_cid: None,
        upload_file_name: None,
        upload_session_id: None,
        upload_biz_id: 0,
        upload_endpoint: None,
        upload_auth: None,
        upload_uri: None,
        upload_chunk_size: 0,
        upload_last_part_index: 0,
        create_time: String::new(),
        update_time: String::new(),
    }
}

#[test]
fn modes_and_concurrency() {
    assert_eq!(upload_mode(false, false), UploadMode::Merged);
    assert_eq!(upload_mode(true, false), UploadMode::Segmented);
    assert_eq!(upload_mode(false, true), UploadMode::Segmented);
    assert_eq!(effective_concurrency(0), 1);
    assert_eq!(effective_concurrency(-3), 1);
    assert_eq!(effective_concurrency(4), 4);
}

#[test]
fn tags_are_required() {
    let mut t = task();
    assert!(check_tags(&t));
    t.tags = Some("  ".to_string());
    assert!(!check_tags(&t));
    t.tags = None;
    assert!(!check_tags(&t));
}

#[test]
fn rounds_take_the_first_pending_segments() {
    let t = task();
    let segments = vec![
        segment("a", "SUCCESS"),
        segment("b", "PENDING"),
        segment("c", "RATE_LIMITED"),
        segment("d", "UPLOADING"),
    ];
    match plan_segment_round(&t, &segments, false, 2) {
        RoundPlan::Upload { batch, pending } => {
            assert_eq!(batch, vec!["b".to_string(), "c".to_string()]);
            assert_eq!(pending, 3);
        }
        other => panic!("unexpected {:?}", other),
    }
    match plan_segment_round(&t, &segments, false, 10) {
        RoundPlan::Upload { batch, pending } => {
            assert_eq!(batch.len(), 3);
            assert_eq!(pending, 3);
        }
        other => panic!("unexpected {:?}", other),
    }
}

#[test]
fn rounds_end_in_failure_or_submission() {
    let t = task();
    assert!(matches!(
        plan_segment_round(&t, &Vec::new(), false, 1),
        RoundPlan::Fail(QueueError::NoSegments)
    ));
    let failed = vec![segment("a", "PENDING"), segment("b", "FAILED")];
    assert!(matches!(
        plan_segment_round(&t, &failed, false, 1),
        RoundPlan::Fail(QueueError::SegmentFailed)
    ));
    let done = vec![segment("a", "SUCCESS"), segment("b", "SUCCESS")];
    match plan_segment_round(&t, &done, false, 1) {
        RoundPlan::Submit(parts) => {
            assert_eq!(parts.len(), 2);
            assert_eq!(parts[1].title, "P2");
        }
        other => panic!("unexpected {:?}", other),
    }
    let mut broken = segment("a", "SUCCESS");
    broken.cid = None;
    assert!(matches!(
        plan_segment_round(&t, &vec![broken], false, 1),
        RoundPlan::Fail(QueueError::Parts(_))
    ));
}

#[test]
fn failures_of_a_round() {
    assert!(matches!(update_for_failure("预上传解析失败: x"), SegmentUpdate::ResetToPending));
    assert!(matches!(update_for_failure("分片上传失败"), SegmentUpdate::Failed));
    assert_eq!(after_round(false, false, 3), RoundNext::Continue);
    assert_eq!(round_counter_after(RoundNext::Continue), 0);
    assert_eq!(after_round(true, true, 0), RoundNext::FailSegment);
    assert_eq!(after_round(true, false, 0), RoundNext::RetryAfter { round: 1, secs: 60 });
    assert_eq!(after_round(true, false, 4), RoundNext::RetryAfter { round: 5, secs: 960 });
    assert_eq!(after_round(true, false, 5), RoundNext::RetryAfter { round: 6, secs: 1800 });
    assert_eq!(round_counter_after(after_round(true, false, 5)), 6);
    assert_eq!(after_round(true, false, 6), RoundNext::FailParseRetries);
}

#[test]
fn queue_messages() {
    assert_eq!(QueueError::EmptyTags.message(), "投稿标签不能为空");
    assert_eq!(QueueError::ParseRetryExhausted.message(), "预上传解析失败重试次数已达上限");
    assert_eq!(QueueError::NoAid.message(), "无法获取AID，无法更新");
}

#[test]
fn merged_file_must_have_a_path() {
    assert!(matches!(merged_upload_path(None), Err(QueueError::NoMergedVideo)));
    assert!(matches!(
        merged_upload_path(Some(&merged(None))),
        Err(QueueError::EmptyMergedPath)
    ));
    assert!(matches!(
        merged_upload_path(Some(&merged(Some(" ")))),
        Err(QueueError::EmptyMergedPath)
    ));
    assert_eq!(merged_upload_path(Some(&merged(Some("/m.mp4")))).unwrap(), "/m.mp4");
}

#[test]
fn update_needs_a_positive_aid() {
    assert_eq!(resolve_update_aid(Some(5), None).unwrap(), 5);
    assert_eq!(resolve_update_aid(Some(0), Some(8)).unwrap(), 8);
    assert_eq!(resolve_update_aid(None, Some(8)).unwrap(), 8);
    assert!(matches!(resolve_update_aid(None, None), Err(QueueError::NoAid)));
    assert!(matches!(resolve_update_aid(Some(-1), Some(0)), Err(QueueError::NoAid)));
}

#[test]
fn batched_create_runs_create_then_growing_edits() {
    let mut run = BatchRun::for_create(plan_create_batches(205));
    assert_eq!(run.next_call(), BatchCall::Create { parts: 100 });
    run.created(SubmissionSubmitResult { bvid: "BV1".to_string(), aid: 77 });
    assert_eq!(run.next_call(), BatchCall::Edit { parts: 200, aid: 77 });
    run.edited();
    assert_eq!(run.next_call(), BatchCall::Edit { parts: 205, aid: 77 });
    // a failure of this edit: the task fails, the ids of the create are kept
    let end = end_of_upload(run, true);
    assert_eq!(end.status, TaskStatus::Failed);
    let kept = end.store_ids.unwrap();
    assert_eq!(kept.bvid, "BV1");
    assert_eq!(kept.aid, 77);
}

#[test]
fn batch_run_finishes() {
    let mut run = BatchRun::for_update(plan_update_batches(150), 9);
    assert_eq!(run.next_call(), BatchCall::Edit { parts: 100, aid: 9 });
    run.edited();
    assert_eq!(run.next_call(), BatchCall::Edit { parts: 150, aid: 9 });
    run.edited();
    assert_eq!(run.next_call(), BatchCall::Done);
    let end = end_of_upload(run, false);
    assert_eq!(end.status, TaskStatus::Completed);
    assert!(end.store_ids.is_none());
    let mut create = BatchRun::for_create(plan_create_batches(3));
    create.created(SubmissionSubmitResult { bvid: "BV9".to_string(), aid: 1 });
    assert_eq!(create.next_call(), BatchCall::Done);
    assert_eq!(end_of_upload(create, false).store_ids.unwrap().bvid, "BV9");
}
