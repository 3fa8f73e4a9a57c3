use reaction_cut::records::{TaskStatus, WorkflowState, WorkflowType};
use reaction_cut::workflow::{
    apply_event, check_source_size, clip_uses_copy, collect_update_sources, downloads_pending,
    load_update_sources, next_phase, normalize_optional_text, parse_workflow_settings,
    plan_appended_segments, plan_saved_segments, recover_submission_task, resegment_duration,
    resolve_sources, resolve_update_name_start_index, segment_store, settings_from_fields,
    update_source_order, wait_for_workflow_ready, ClipSource, IntegratedDownloadStats, Phase,
    ReadyDecision, RecoveryAction, SegmentStore, SourceNotReady, SourceRetry, SourceRetryStep,
    WorkflowEvent, WorkflowSnapshot,
};

fn source(path: &str, order: i64) -> ClipSource {
    ClipSource { input_path: path.to_string(), start_time: None, end_time: None, order }
}

#[test]
fn settings_defaults() {
    let s = parse_workflow_settings(None);
    assert!(!s.enable_segmentation);
    assert_eq!(s.segment_duration_seconds, 133);
    assert_eq!(s.segment_prefix, None);
    let empty = parse_doc("{}").unwrap();
    let s = parse_workflow_settings(Some(&empty));
    assert!(!s.enable_segmentation);
    assert_eq!(s.segment_duration_seconds, 133);
}

#[test]
fn settings_are_read_from_the_configuration() {
    let doc = parse_doc(
        "{\"enableSegmentation\":true,\"segmentationConfig\":{\"segmentDurationSeconds\":60},\
         \"segmentPrefix\":\"  EP \"}",
    )
    .unwrap();
    let s = parse_workflow_settings(Some(&doc));
    assert!(s.enable_segmentation);
    assert_eq!(s.segment_duration_seconds, 60);
    assert_eq!(s.segment_prefix.as_deref(), Some("EP"));
    let overridden = parse_doc(
        "{\"enableSegmentation\":true,\"segmentationConfig\":{\"enabled\":false},\
         \"segmentPrefix\":\"   \"}",
    )
    .unwrap();
    let s = parse_workflow_settings(Some(&overridden));
    assert!(!s.enable_segmentation);
    assert_eq!(s.segment_prefix, None);
    let s = settings_from_fields(None, Some(true), None, Some("x".to_string()));
    assert!(s.enable_segmentation);
    assert_eq!(normalize_optional_text(Some(" a ".to_string())).as_deref(), Some("a"));
    assert_eq!(normalize_optional_text(Some("  ".to_string())), None);
    assert_eq!(normalize_optional_text(None), None);
}

#[test]
fn update_sources_are_read_and_ordered() {
    let doc = parse_doc(
        "{\"updateSources\":[\
           {\"sourceFilePath\":\" /b.mp4 \",\"sortOrder\":2,\"startTime\":\" 00:00:05 \"},\
           {\"source_file_path\":\"/a.mp4\",\"sort_order\":1,\"endTime\":\"\"},\
           {\"sourceFilePath\":\"   \"},\
           {\"sourceFilePath\":\"/c.mp4\"},\
           {\"sourceFilePath\":7,\"source_file_path\":\"/ignored.mp4\"},\
           {\"sourceFilePath\":\"/d.mp4\",\"sortOrder\":2}\
         ]}",
    )
    .unwrap();
    let listed = collect_update_sources(&doc);
    let paths: Vec<&str> = listed.iter().map(|s| s.input_path.as_str()).collect();
    assert_eq!(paths, vec!["/b.mp4", "/a.mp4", "/c.mp4", "/d.mp4"]);
    assert_eq!(listed[0].start_time.as_deref(), Some("00:00:05"));
    assert_eq!(listed[1].end_time, None);
    assert_eq!(listed[2].order, 4);
    let sorted = load_update_sources(Some(&doc)).unwrap();
    let paths: Vec<&str> = sorted.iter().map(|s| s.input_path.as_str()).collect();
    assert_eq!(paths, vec!["/a.mp4", "/b.mp4", "/d.mp4", "/c.mp4"]);
    assert!(load_update_sources(None).is_none());
    let none = parse_doc("{\"updateSources\":[{}]}").unwrap();
    assert!(load_update_sources(Some(&none)).is_none());
    let missing = parse_doc("{\"updateSources\":5}").unwrap();
    assert!(load_update_sources(Some(&missing)).is_none());
}

#[test]
fn update_prefers_its_own_sources() {
    let stored = vec![source("/stored.mp4", 1)];
    let named = vec![source("/named.mp4", 1)];
    let r = resolve_sources(WorkflowType::VideoUpdate, Some(named.clone()), stored.clone());
    assert_eq!(r[0].input_path, "/named.mp4");
    let r = resolve_sources(WorkflowType::VideoUpdate, None, stored.clone());
    assert_eq!(r[0].input_path, "/stored.mp4");
    let r = resolve_sources(WorkflowType::VideoSubmission, Some(named), stored);
    assert_eq!(r[0].input_path, "/stored.mp4");
    assert_eq!(update_source_order(0, 0), 1);
    assert_eq!(update_source_order(5, 1), 5);
    assert_eq!(update_source_order(1, 3), 4);
    assert_eq!(resegment_duration(0), 1);
    assert_eq!(resegment_duration(90), 90);
}

#[test]
fn paused_waits_and_cancelled_ends() {
    assert_eq!(wait_for_workflow_ready(None), ReadyDecision::Proceed);
    assert_eq!(wait_for_workflow_ready(Some(WorkflowState::Running)), ReadyDecision::Proceed);
    assert_eq!(wait_for_workflow_ready(Some(WorkflowState::Paused)), ReadyDecision::Wait);
    assert_eq!(wait_for_workflow_ready(Some(WorkflowState::Cancelled)), ReadyDecision::Cancelled);
}

#[test]
fn sources_are_watched() {
    assert_eq!(check_source_size(0, 0), Err(SourceNotReady::Empty));
    assert_eq!(check_source_size(5, 6), Err(SourceNotReady::StillWritten));
    assert_eq!(check_source_size(5, 5), Ok(()));
    let mut retry = SourceRetry::new();
    let mut sleeps = Vec::new();
    loop {
        match retry.on_not_ready() {
            SourceRetryStep::Sleep { secs } => sleeps.push(secs),
            SourceRetryStep::GiveUp => break,
        }
    }
    assert_eq!(retry.attempt, 30);
    assert_eq!(sleeps.len(), 29);
    assert_eq!(&sleeps[..6], &[2, 4, 8, 16, 30, 30]);
    assert!(sleeps.iter().all(|s| *s <= 30));
}

#[test]
fn phases_follow_each_other() {
    assert_eq!(next_phase(None, true), Some(Phase::Clipping));
    assert_eq!(next_phase(Some(Phase::Clipping), false), Some(Phase::Merging));
    assert_eq!(next_phase(Some(Phase::Merging), true), Some(Phase::Segmenting));
    assert_eq!(next_phase(Some(Phase::Merging), false), None);
    assert_eq!(next_phase(Some(Phase::Segmenting), true), None);
}

#[test]
fn task_and_instance_agree_after_every_event() {
    let start = WorkflowSnapshot {
        task: TaskStatus::Pending,
        instance: WorkflowState::Pending,
        step: None,
        progress: 0,
    };
    let clip = apply_event(start, WorkflowEvent::Enter(Phase::Clipping));
    assert_eq!(
        clip,
        WorkflowSnapshot {
            task: TaskStatus::Clipping,
            instance: WorkflowState::Running,
            step: Some(Phase::Clipping),
            progress: 0
        }
    );
    let merge = apply_event(clip, WorkflowEvent::Enter(Phase::Merging));
    assert_eq!((merge.task, merge.progress), (TaskStatus::Merging, 40));
    let seg = apply_event(merge, WorkflowEvent::Enter(Phase::Segmenting));
    assert_eq!((seg.task, seg.progress), (TaskStatus::Segmenting, 70));
    let done = apply_event(seg, WorkflowEvent::Finished { downloads_pending: false });
    assert_eq!(
        (done.task, done.instance, done.step, done.progress),
        (TaskStatus::WaitingUpload, WorkflowState::Completed, None, 100)
    );
    let waiting = apply_event(seg, WorkflowEvent::Finished { downloads_pending: true });
    assert_eq!(waiting.instance, WorkflowState::VideoDownloading);
    let cancelled = apply_event(merge, WorkflowEvent::Cancelled);
    assert_eq!((cancelled.task, cancelled.instance), (TaskStatus::Cancelled, WorkflowState::Cancelled));
    let not_ready = apply_event(start, WorkflowEvent::SourcesNotReady);
    assert_eq!((not_ready.task, not_ready.instance), (TaskStatus::Pending, WorkflowState::VideoDownloading));
    let failed = apply_event(not_ready, WorkflowEvent::SourcesFailed);
    assert_eq!((failed.task, failed.instance), (TaskStatus::Failed, WorkflowState::Failed));
    let recovered = apply_event(clip, WorkflowEvent::Recovered);
    assert_eq!((recovered.task, recovered.instance), (TaskStatus::Pending, WorkflowState::Pending));
}

#[test]
fn finished_workflow_stores_its_segments() {
    assert_eq!(segment_store(false, true), SegmentStore::Replace);
    assert_eq!(segment_store(true, true), SegmentStore::AppendSegments);
    assert_eq!(segment_store(true, false), SegmentStore::AppendMerged);
    assert_eq!(segment_store(false, false), SegmentStore::Nothing);
    assert!(!downloads_pending(None));
    assert!(downloads_pending(Some(IntegratedDownloadStats { total: 3, completed: 2, failed: 0 })));
    assert!(!downloads_pending(Some(IntegratedDownloadStats { total: 3, completed: 3, failed: 0 })));
}

#[test]
fn names_of_appended_segments() {
    assert_eq!(resolve_update_name_start_index(4, Some("EP"), true), 1);
    assert_eq!(resolve_update_name_start_index(4, Some(" "), true), 5);
    assert_eq!(resolve_update_name_start_index(4, None, false), 5);
    assert_eq!(resolve_update_name_start_index(0, None, true), 2);
    assert_eq!(resolve_update_name_start_index(0, None, false), 1);
    let paths = vec!["/o/1.mp4".to_string(), "/o/2.mp4".to_string()];
    let saved = plan_saved_segments(&paths, None);
    assert_eq!(saved[0].part_name, "P1");
    assert_eq!(saved[1].part_name, "P2");
    assert_eq!(saved[0].part_order, 1);
    let prefixed = plan_saved_segments(&paths, Some(" EP "));
    assert_eq!(prefixed[0].part_name, "EP1");
    assert_eq!(prefixed[1].part_name, "EP2");
    assert_eq!(saved[1].part_order, 2);
    assert_eq!(saved[1].segment_file_path, "/o/2.mp4");
    let appended = plan_appended_segments(&paths, None, 6, 6);
    assert_eq!(appended[0].part_name, "P6");
    assert_eq!(appended[1].part_name, "P7");
    assert_eq!(appended[0].part_order, 6);
    assert_eq!(appended[1].part_order, 7);
    let prefixed = plan_appended_segments(&paths, Some("新"), 3, 1);
    assert_eq!(prefixed[1].part_name, "新2");
}

#[test]
fn start_of_the_process_recovers_tasks() {
    assert_eq!(recover_submission_task(TaskStatus::Uploading), RecoveryAction::RequeueUpload);
    for status in [TaskStatus::Pending, TaskStatus::Clipping, TaskStatus::Merging, TaskStatus::Segmenting] {
        assert_eq!(recover_submission_task(status), RecoveryAction::RestartWorkflow);
    }
    for status in [TaskStatus::WaitingUpload, TaskStatus::Completed, TaskStatus::Failed, TaskStatus::Cancelled] {
        assert_eq!(recover_submission_task(status), RecoveryAction::Leave);
    }
}

fn parse_doc(text: &str) -> Option<serde_json::Value> {
    serde_json::from_str(text).ok()
}

#[test]
fn clips_are_copied_only_on_a_clear_decision() {
    assert!(clip_uses_copy(Some(true)));
    assert!(!clip_uses_copy(Some(false)));
    assert!(!clip_uses_copy(None));
}
