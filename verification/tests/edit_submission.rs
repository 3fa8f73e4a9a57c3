use reaction_cut::edit::{
    added_part_name, ensure_editable_detail, ensure_editable_status, merged_as_segment,
    new_upload_segment, part_name_from_stem, plan_segment_sync, reupload_segment,
    validate_edit_submit, CacheError, EditError, EditUploadState, PrepareError,
};
use reaction_cut::records::{
    MergedVideoRecord, SubmissionEditSegmentInput, SubmissionEditSubmitRequest,
    SubmissionEditTaskInput, SubmissionTaskRecord, UploadStatus,
};
use reaction_cut::upload::build_progress_snapshot;

fn task() -> SubmissionTaskRecord {
    SubmissionTaskRecord {
        task_id: "t-1".to_string(),
        status: "COMPLETED".to_string(),
        title: "T1".to_string(),
        description: None,
        cover_url: None,
        partition_id: 21,
        tags: Some("a".to_string()),
        video_type: "ORIGINAL".to_string(),
        collection_id: None,
        bvid: Some("BV1xx".to_string()),
        aid: Some(5),
        remote_state: None,
        reject_reason: None,
        created_at: String::new(),
        updated_at: String::new(),
        segment_prefix: Some("EP".to_string()),
        baidu_sync_enabled: false,
        baidu_sync_path: None,
        baidu_sync_filename: None,
        has_integrated_downloads: false,
        workflow_status: None,
    }
}

fn part(id: &str, name: &str, order: i64) -> SubmissionEditSegmentInput {
    SubmissionEditSegmentInput {
        segment_id: id.to_string(),
        part_name: name.to_string(),
        part_order: order,
        segment_file_path: format!("/o/{}.mp4", id),
        cid: Some(10 + order),
        file_name: Some(format!(" n-{} ", id)),
    }
}

fn request(segments: Vec<SubmissionEditSegmentInput>) -> SubmissionEditSubmitRequest {
    SubmissionEditSubmitRequest {
        task_id: " t-1 ".to_string(),
        task: SubmissionEditTaskInput {
            title: "  新标题 ".to_string(),
            description: Some("d".to_string()),
            partition_id: 21,
            collection_id: None,
            tags: Some("a,b".to_string()),
            video_type: "ORIGINAL".to_string(),
            segment_prefix: None,
        },
        segments,
    }
}

fn merged() -> MergedVideoRecord {
    MergedVideoRecord {
        id: 1,
        task_id: "t-1".to_string(),
        file_name: None,
        video_path: Some("/m/merged.mp4".to_string()),
        duration: None,
        status: 2,
        upload_uploaded_bytes: 7,
        upload_total_bytes: 0,
        upload_cid: Some(44),
        upload_file_name: Some("remote".to_string()),
        upload_session_id: Some("sess".to_string()),
        upload_biz_id: 3,
        upload_endpoint: None,
        upload_auth: None,
        upload_uri: None,
        upload_chunk_size: 9,
        upload_last_part_index: 2,
        create_time: String::new(),
        update_time: String::new(),
    }
}

#[test]
fn only_completed_tasks_are_edited() {
    assert_eq!(ensure_editable_status("COMPLETED"), Ok(()));
    assert_eq!(ensure_editable_status("UPLOADING"), Err(EditError::Uploading));
    assert_eq!(ensure_editable_status("FAILED"), Err(EditError::NotCompleted));
    let mut t = task();
    assert_eq!(ensure_editable_detail(&t), Ok(()));
    t.bvid = Some(String::new());
    assert_eq!(ensure_editable_detail(&t), Err(EditError::MissingBvid));
    t.bvid = None;
    assert_eq!(ensure_editable_detail(&t), Err(EditError::MissingBvid));
    t.status = "PENDING".to_string();
    assert_eq!(ensure_editable_detail(&t), Err(EditError::NotCompleted));
}

#[test]
fn accepted_edit_orders_and_trims_its_parts() {
    let req = request(vec![part("b", " 第二 ", 2), part("a", "第一", 1), part("c", "第三", 2)]);
    let edit = validate_edit_submit(&req, &task()).unwrap();
    assert_eq!(edit.title, "新标题");
    assert_eq!(edit.tags, "a,b");
    assert_eq!(edit.order, vec![1, 0, 2]);
    let titles: Vec<&str> = edit.parts.iter().map(|p| p.title.as_str()).collect();
    assert_eq!(titles, vec!["第一", "第二", "第三"]);
    assert_eq!(edit.parts[0].filename, "n-a");
    assert_eq!(edit.parts[0].cid, 11);
}

#[test]
fn edit_errors_in_order() {
    let t = task();
    let mut r = request(vec![part("a", "x", 1)]);
    r.task_id = "  ".to_string();
    assert_eq!(validate_edit_submit(&r, &t).unwrap_err(), EditError::EmptyTaskId);
    let mut uploading = task();
    uploading.status = "UPLOADING".to_string();
    let mut r = request(vec![]);
    r.task.title = String::new();
    assert_eq!(validate_edit_submit(&r, &uploading).unwrap_err(), EditError::Uploading);
    assert_eq!(validate_edit_submit(&r, &t).unwrap_err(), EditError::EmptyTitle);
    r.task.title = "题".repeat(81);
    assert_eq!(validate_edit_submit(&r, &t).unwrap_err(), EditError::TitleTooLong);
    r.task.title = "题".repeat(80);
    r.task.partition_id = 0;
    assert_eq!(validate_edit_submit(&r, &t).unwrap_err(), EditError::NoPartition);
    r.task.partition_id = 1;
    r.task.video_type = " ".to_string();
    assert_eq!(validate_edit_submit(&r, &t).unwrap_err(), EditError::NoVideoType);
    r.task.video_type = "REPRINT".to_string();
    r.task.description = Some("述".repeat(2001));
    assert_eq!(validate_edit_submit(&r, &t).unwrap_err(), EditError::DescriptionTooLong);
    r.task.description = Some("述".repeat(2000));
    r.task.tags = Some(" ".to_string());
    assert_eq!(validate_edit_submit(&r, &t).unwrap_err(), EditError::NoTags);
    r.task.tags = Some("x".to_string());
    assert_eq!(validate_edit_submit(&r, &t).unwrap_err(), EditError::NoSegments);
}

#[test]
fn edit_errors_of_parts() {
    let t = task();
    let check = |segments: Vec<SubmissionEditSegmentInput>| {
        validate_edit_submit(&request(segments), &t).unwrap_err()
    };
    assert_eq!(check(vec![part(" ", "x", 1)]), EditError::EmptySegmentId);
    assert_eq!(check(vec![part("a", "x", 1), part(" a ", "y", 2)]), EditError::DuplicateSegment);
    assert_eq!(check(vec![part("a", " ", 1)]), EditError::EmptyPartName);
    let mut no_path = part("a", "x", 1);
    no_path.segment_file_path = " ".to_string();
    assert_eq!(check(vec![no_path]), EditError::EmptyFilePath);
    let mut no_cid = part("a", "x", 1);
    no_cid.cid = Some(0);
    assert_eq!(check(vec![no_cid]), EditError::MissingUpload);
    let mut no_name = part("a", "x", 1);
    no_name.file_name = Some("  ".to_string());
    assert_eq!(check(vec![no_name]), EditError::MissingUpload);
    // the first part in part order decides
    let mut late_bad = part("z", " ", 1);
    late_bad.cid = None;
    assert_eq!(check(vec![part(" ", "x", 5), late_bad]), EditError::EmptyPartName);
    assert_eq!(EditError::MissingUpload.message(), "分P上传信息缺失，请重新上传");
    assert_eq!(EditError::TitleTooLong.message(), "投稿标题不能超过 80 个字符");
}

#[test]
fn names_of_added_parts() {
    assert_eq!(part_name_from_stem(Some(" clip ")), "clip");
    assert_eq!(part_name_from_stem(Some("  ")), "P");
    assert_eq!(part_name_from_stem(None), "P");
    assert_eq!(added_part_name(Some(" mine "), "file".to_string()), "mine");
    assert_eq!(added_part_name(Some(" "), "file".to_string()), "file");
    assert_eq!(added_part_name(None, "file".to_string()), "file");
}

#[test]
fn upload_of_a_part_begins_clean() {
    let s = new_upload_segment(
        "s".to_string(),
        "t".to_string(),
        "n".to_string(),
        "/f".to_string(),
        0,
        123,
    );
    assert_eq!(s.upload_status, "UPLOADING");
    assert_eq!(s.upload_total_bytes, 123);
    assert_eq!((s.cid, s.file_name.clone(), s.upload_session_id.clone()), (None, None, None));
    let mut old = s.clone();
    old.part_order = 4;
    old.cid = Some(9);
    old.upload_session_id = Some("x".to_string());
    let again = reupload_segment(Some(old.clone()), "t", "other", "n2".to_string(), "/g".to_string(), 5)
        .unwrap();
    assert_eq!(again.segment_id, "s");
    assert_eq!(again.part_order, 4);
    assert_eq!(again.part_name, "n2");
    assert_eq!(again.segment_file_path, "/g");
    assert_eq!(again.cid, None);
    assert_eq!(again.upload_session_id, None);
    assert_eq!(again.upload_total_bytes, 5);
    assert_eq!(
        reupload_segment(Some(old), "t2", "s", "n".to_string(), "/g".to_string(), 5).unwrap_err(),
        EditError::ForeignSegment
    );
    let fresh = reupload_segment(None, "t", "new", "n".to_string(), "/g".to_string(), 5).unwrap();
    assert_eq!(fresh.segment_id, "new");
    assert_eq!(fresh.part_order, 0);
}

#[test]
fn merged_file_stands_for_the_only_part() {
    let t = task();
    let m = merged();
    let s = merged_as_segment(&t, Some(&m), "sid".to_string(), 1000).unwrap();
    assert_eq!(s.part_name, "EP1");
    assert_eq!(s.part_order, 1);
    assert_eq!(s.upload_status, "SUCCESS");
    assert_eq!(s.cid, Some(44));
    assert_eq!(s.file_name.as_deref(), Some("remote"));
    assert_eq!(s.upload_total_bytes, 1000);
    assert_eq!(s.upload_uploaded_bytes, 7);
    assert_eq!(s.upload_session_id, None);
    assert_eq!(s.upload_chunk_size, 0);
    assert_eq!(s.segment_file_path, "/m/merged.mp4");
    let mut not_uploaded = merged();
    not_uploaded.upload_cid = Some(0);
    not_uploaded.upload_total_bytes = 55;
    let s = merged_as_segment(&t, Some(&not_uploaded), "sid".to_string(), 1000).unwrap();
    assert_eq!(s.upload_status, "PENDING");
    assert_eq!(s.upload_total_bytes, 55);
    assert_eq!(
        merged_as_segment(&t, None, "sid".to_string(), 0).unwrap_err(),
        PrepareError::NoMergedVideo
    );
    let mut no_path = merged();
    no_path.video_path = Some(" ".to_string());
    assert_eq!(
        merged_as_segment(&t, Some(&no_path), "sid".to_string(), 0).unwrap_err(),
        PrepareError::EmptyMergedPath
    );
}

#[test]
fn cache_of_edit_uploads() {
    let mut cache = EditUploadState::new();
    let seg = |id: &str, task: &str| {
        new_upload_segment(id.to_string(), task.to_string(), "n".to_string(), "/f".to_string(), 0, 9)
    };
    cache.upsert_edit_upload_segment(seg("a", "t1"));
    cache.upsert_edit_upload_segment(seg("b", "t2"));
    cache.upsert_edit_upload_segment(seg("c", "t1"));
    assert_eq!(cache.load_edit_upload_segment("a").unwrap().task_id, "t1");
    assert!(cache.load_edit_upload_segment("zz").is_none());
    assert_eq!(cache.set_status("zz", UploadStatus::Failed), Err(CacheError::NotFound));
    assert_eq!(cache.set_status("a", UploadStatus::RateLimited), Ok(()));
    assert_eq!(cache.load_edit_upload_segment("a").unwrap().upload_status, "RATE_LIMITED");
    assert_eq!(cache.set_result("a", 77, "remote".to_string()), Ok(()));
    let a = cache.load_edit_upload_segment("a").unwrap();
    assert_eq!((a.upload_status.as_str(), a.cid, a.file_name.as_deref()), ("SUCCESS", Some(77), Some("remote")));
    assert_eq!(cache.set_progress("c", &build_progress_snapshot(4, 9, 1)), Ok(()));
    let c = cache.load_edit_upload_segment("c").unwrap();
    assert_eq!((c.upload_uploaded_bytes, c.upload_total_bytes, c.upload_last_part_index), (4, 9, 1));
    assert_eq!(cache.clear_session("c"), Ok(()));
    let c = cache.load_edit_upload_segment("c").unwrap();
    assert_eq!((c.upload_uploaded_bytes, c.upload_total_bytes), (0, 0));
    let mut of_t1: Vec<String> = cache
        .list_edit_upload_segments_by_task("t1", None)
        .into_iter()
        .map(|s| s.segment_id)
        .collect();
    of_t1.sort();
    assert_eq!(of_t1, vec!["a".to_string(), "c".to_string()]);
    let wanted = vec!["c".to_string(), "b".to_string()];
    let filtered = cache.list_edit_upload_segments_by_task("t1", Some(&wanted));
    assert_eq!(filtered.len(), 1);
    assert_eq!(filtered[0].segment_id, "c");
    cache.clear_edit_upload_segments_by_task("t1");
    assert!(cache.load_edit_upload_segment("a").is_none());
    assert!(cache.load_edit_upload_segment("c").is_none());
    assert!(cache.load_edit_upload_segment("b").is_some());
    assert!(cache.list_edit_upload_segments_by_task("t1", None).is_empty());
}

#[test]
fn rows_are_updated_inserted_and_deleted() {
    let edit = vec!["a".to_string(), "n".to_string(), "c".to_string()];
    let existing = vec!["a".to_string(), "b".to_string(), "c".to_string()];
    let sync = plan_segment_sync(&edit, &existing);
    assert_eq!(sync.update, vec!["a".to_string(), "c".to_string()]);
    assert_eq!(sync.insert, vec!["n".to_string()]);
    assert_eq!(sync.delete, vec!["b".to_string()]);
}
