use reaction_cut::commands::{
    after_resegment, check_integrated_execute, check_repost, check_resegment,
    check_retry_download, check_retry_segment, check_upload_execute,
    collect_missing_source_files, find_download, page_bounds, plan_repost, repost_workflow,
    requeue_after_retry, workflow_cancel, workflow_pause, workflow_resume, CommandError,
    repost_effect, IntegratedDownloadRecord, RepostPlan, ResegmentRun, RetrySegment,
};
use reaction_cut::records::{
    SubmissionTaskRecord, TaskSourceVideoRecord, TaskStatus, WorkflowState, WorkflowType,
};
use reaction_cut::workflow::IntegratedDownloadStats;

fn task(status: &str, bvid: Option<&str>) -> SubmissionTaskRecord {
    SubmissionTaskRecord {
        task_id: "t-1".to_string(),
        status: status.to_string(),
        title: "T1".to_string(),
        description: None,
        cover_url: None,
        partition_id: 21,
        tags: None,
        video_type: "ORIGINAL".to_string(),
        collection_id: None,
        bvid: bvid.map(|b| b.to_string()),
        aid: None,
        remote_state: None,
        reject_reason: None,
        created_at: String::new(),
        updated_at: String::new(),
        segment_prefix: None,
        baidu_sync_enabled: false,
        baidu_sync_path: None,
        baidu_sync_filename: None,
        has_integrated_downloads: false,
        workflow_status: None,
    }
}

fn source(path: &str) -> TaskSourceVideoRecord {
    TaskSourceVideoRecord {
        id: "s".to_string(),
        task_id: "t-1".to_string(),
        source_file_path: path.to_string(),
        sort_order: 1,
        start_time: None,
        end_time: None,
    }
}

fn download(id: i64, url: &str, path: &str) -> IntegratedDownloadRecord {
    IntegratedDownloadRecord {
        id,
        download_url: url.to_string(),
        bvid: None,
        aid: None,
        title: None,
        part_title: None,
        part_count: None,
        current_part: None,
        local_path: path.to_string(),
        resolution: None,
        codec: None,
        format: None,
        cid: None,
        content: None,
    }
}

#[test]
fn missing_sources_are_collected() {
    let sources = vec![source("/a.mp4"), source("  "), source("/b.mp4"), source("/c.mp4")];
    let exists = vec![true, false, false, false];
    assert_eq!(
        collect_missing_source_files(&sources, &exists),
        vec!["/b.mp4".to_string(), "/c.mp4".to_string()]
    );
    assert!(collect_missing_source_files(&Vec::new(), &Vec::new()).is_empty());
}

#[test]
fn repost_checks() {
    let t = task("COMPLETED", Some("BV1"));
    assert_eq!(check_repost("t-1", &t, 1, true, true), None);
    assert_eq!(check_repost(" ", &t, 1, true, false), Some(CommandError::EmptyTaskId));
    assert_eq!(
        check_repost("t-1", &task("UPLOADING", None), 1, true, false),
        Some(CommandError::Uploading)
    );
    assert_eq!(check_repost("t-1", &t, 0, true, false), Some(CommandError::NoSources));
    assert_eq!(check_repost("t-1", &t, 1, false, false), Some(CommandError::NoWorkflowConfig));
    assert_eq!(
        check_repost("t-1", &task("FAILED", Some(" ")), 1, true, true),
        Some(CommandError::NoBvid)
    );
    assert_eq!(check_repost("t-1", &task("FAILED", None), 1, true, false), None);
    assert_eq!(repost_workflow(true), (WorkflowType::VideoUpdate, false));
    assert_eq!(repost_workflow(false), (WorkflowType::VideoSubmission, true));
    assert_eq!(CommandError::Uploading.message(), "任务正在投稿中，请稍后再试");
    assert_eq!(CommandError::NoBvid.message(), "当前任务没有BV号，无法集成投稿");
}

#[test]
fn repost_with_missing_source() {
    let sources = vec![source("/dl/s1.mp4")];
    let missing = collect_missing_source_files(&sources, &vec![false]);
    let downloads = vec![download(7, "http://x/s1", "/dl/s1.mp4")];
    let plan = plan_repost(&missing, &downloads, false).unwrap();
    match &plan {
        RepostPlan::Redownload { workflow_type, downloads: chosen } => {
            assert_eq!(*workflow_type, WorkflowType::VideoSubmission);
            assert_eq!(*chosen, vec![0]);
        }
        other => panic!("unexpected {:?}", other),
    }
    assert_eq!(check_retry_download(&downloads[0]), None);
    let effect = repost_effect(&plan, "COMPLETED");
    assert_eq!(effect.status, "COMPLETED");
    assert!(!effect.start_workflow);
    assert!(!effect.clear_remote_ids);
    assert!(!effect.clear_derived);
    assert_eq!(effect.message, "源视频缺失，已创建下载任务，下载完成后自动重新投稿");
}

#[test]
fn repost_with_all_sources_restarts_the_task() {
    let none: Vec<String> = Vec::new();
    let plan = plan_repost(&none, &Vec::new(), false).unwrap();
    let effect = repost_effect(&plan, "COMPLETED");
    assert_eq!(effect.status, "PENDING");
    assert!(effect.start_workflow);
    assert!(effect.clear_remote_ids);
    assert!(effect.clear_derived);
    assert_eq!(effect.message, "重新投稿已启动");
    let keep = plan_repost(&none, &Vec::new(), true).unwrap();
    assert!(!repost_effect(&keep, "FAILED").clear_remote_ids);
}

#[test]
fn repost_plans() {
    let none: Vec<String> = Vec::new();
    assert!(matches!(
        plan_repost(&none, &Vec::new(), true).unwrap(),
        RepostPlan::Restart { workflow_type: WorkflowType::VideoUpdate, clear_bvid: false }
    ));
    let missing = vec!["/a".to_string(), "/b".to_string()];
    let downloads = vec![
        download(1, "u", "/b"),
        download(2, "u", "/a"),
        download(3, "u", "/b"),
        download(4, "u", " "),
    ];
    match plan_repost(&missing, &downloads, true).unwrap() {
        RepostPlan::Redownload { downloads: chosen, .. } => assert_eq!(chosen, vec![1, 2]),
        other => panic!("unexpected {:?}", other),
    }
    assert_eq!(
        plan_repost(&missing, &downloads[..1].to_vec(), true).unwrap_err(),
        CommandError::SourceMissing
    );
    assert_eq!(
        plan_repost(&missing, &Vec::new(), true).unwrap_err(),
        CommandError::SourceMissing
    );
    assert_eq!(find_download(&downloads, " "), None);
    assert_eq!(find_download(&downloads, "/b"), Some(2));
    assert_eq!(
        check_retry_download(&download(1, " ", "/a")),
        Some(CommandError::DownloadWithoutUrl)
    );
    assert_eq!(
        check_retry_download(&download(1, "u", "")),
        Some(CommandError::DownloadWithoutPath)
    );
}

#[test]
fn resegment_checks() {
    assert_eq!(check_resegment("t", 60, "COMPLETED", Some("/m.mp4"), true), None);
    assert_eq!(check_resegment("", 60, "COMPLETED", Some("/m.mp4"), true), Some(CommandError::EmptyTaskId));
    assert_eq!(check_resegment("t", 0, "COMPLETED", Some("/m.mp4"), true), Some(CommandError::BadSegmentDuration));
    assert_eq!(check_resegment("t", 60, "UPLOADING", Some("/m.mp4"), true), Some(CommandError::Uploading));
    assert_eq!(check_resegment("t", 60, "FAILED", None, true), Some(CommandError::NoMergedVideo));
    assert_eq!(check_resegment("t", 60, "FAILED", Some(" "), true), Some(CommandError::NoMergedVideo));
    assert_eq!(check_resegment("t", 60, "FAILED", Some("/m.mp4"), false), Some(CommandError::MergedFileMissing));
    assert_eq!(
        after_resegment(ResegmentRun::Stored),
        (TaskStatus::WaitingUpload, WorkflowState::Completed, 100)
    );
    for run in [ResegmentRun::ToolFailed, ResegmentRun::NoOutput, ResegmentRun::StoreFailed] {
        assert_eq!(after_resegment(run), (TaskStatus::Failed, WorkflowState::Failed, 0));
    }
}

#[test]
fn queueing_for_upload() {
    assert_eq!(check_upload_execute("t", "WAITING_UPLOAD"), None);
    assert_eq!(check_upload_execute("t", "FAILED"), None);
    assert_eq!(check_upload_execute("t", "UPLOADING"), Some(CommandError::UploadingNow));
    assert_eq!(check_upload_execute("t", "COMPLETED"), Some(CommandError::NotQueueable));
    assert_eq!(check_upload_execute(" ", "FAILED"), Some(CommandError::EmptyTaskId));
}

#[test]
fn running_in_one_go() {
    let ok = Some(IntegratedDownloadStats { total: 2, completed: 2, failed: 0 });
    assert_eq!(check_integrated_execute("t", "FAILED", ok, None), None);
    assert_eq!(check_integrated_execute("t", "PENDING", ok, None), Some(CommandError::NotIntegrable));
    assert_eq!(check_integrated_execute("t", "FAILED", None, None), Some(CommandError::NoLinkedDownloads));
    let failed = Some(IntegratedDownloadStats { total: 2, completed: 1, failed: 1 });
    assert_eq!(check_integrated_execute("t", "FAILED", failed, None), Some(CommandError::DownloadsFailed));
    let unfinished = Some(IntegratedDownloadStats { total: 2, completed: 1, failed: 0 });
    assert_eq!(check_integrated_execute("t", "FAILED", unfinished, None), Some(CommandError::DownloadsUnfinished));
    assert_eq!(
        check_integrated_execute("t", "FAILED", ok, Some(WorkflowState::Running)),
        Some(CommandError::WorkflowRunning)
    );
}

#[test]
fn retry_of_a_segment() {
    assert_eq!(check_retry_segment("SUCCESS", "UPLOADING"), Ok(RetrySegment::AlreadyUploaded));
    assert_eq!(check_retry_segment("FAILED", "UPLOADING"), Err(CommandError::UploadingRetryLater));
    assert_eq!(check_retry_segment("FAILED", "FAILED"), Ok(RetrySegment::Upload));
    assert!(requeue_after_retry(0, "FAILED"));
    assert!(!requeue_after_retry(1, "FAILED"));
    assert!(!requeue_after_retry(0, "COMPLETED"));
}

#[test]
fn pause_resume_cancel() {
    assert_eq!(workflow_pause(Some(WorkflowState::Running)), Ok(WorkflowState::Paused));
    assert_eq!(workflow_pause(Some(WorkflowState::Paused)), Err(CommandError::CannotPause));
    assert_eq!(workflow_pause(None), Err(CommandError::WorkflowMissing));
    assert_eq!(workflow_resume(Some(WorkflowState::Paused)), Ok(WorkflowState::Running));
    assert_eq!(workflow_resume(Some(WorkflowState::Running)), Err(CommandError::CannotResume));
    assert_eq!(workflow_resume(None), Err(CommandError::WorkflowMissing));
    assert_eq!(workflow_cancel(), (WorkflowState::Cancelled, TaskStatus::Cancelled));
}

#[test]
fn pages() {
    assert_eq!(page_bounds(None, None), (1, 20, 0));
    assert_eq!(page_bounds(Some(3), Some(10)), (3, 10, 20));
    assert_eq!(page_bounds(Some(0), Some(0)), (1, 1, 0));
    assert_eq!(page_bounds(Some(i64::MAX), Some(i64::MAX)).2, i64::MAX);
}
