use reaction_cut::commands::{
    appended_sort_order, check_update, merge_sync_config, starts_workflow, task_creation_result,
    workflow_config_name, CommandError, SyncConfig, WorkflowCreation,
};
use reaction_cut::danmaku::{is_room_message, DanmakuPacket};
use reaction_cut::edit::{check_edit_add_segment, check_edit_reupload_segment, EditError};
use reaction_cut::paths::{
    cleanup_submission_derived_files, cleanup_submission_files, cover_extension,
    remove_path_if_exists, resolve_submission_base_dir, sidecar_candidates, submission_root,
    RemoveAction,
};
use reaction_cut::record_path::{part_file_name, render_record_template, TemplateValues};
use reaction_cut::submit::{
    build_collection_add, build_collection_switch, fetch_collection_section_id,
    parse_submit_answer, CollectionError, SubmitAnswerError,
};
use reaction_cut::text::replace_all;
use reaction_cut::upload::{next_chunk, plan_chunks, PreuploadInfo};
use reaction_cut::upload_api::{
    chunk_params, finish_params, finish_part_numbers, meta_params, preupload_params, QueryParam,
};

fn doc(text: &str) -> serde_json::Value {
    serde_json::from_str(text).unwrap()
}

fn pairs(list: &[QueryParam]) -> Vec<(&str, &str)> {
    list.iter().map(|p| (p.name.as_str(), p.value.as_str())).collect()
}

fn preupload() -> PreuploadInfo {
    PreuploadInfo {
        auth: "a".to_string(),
        biz_id: 42,
        chunk_size: 4,
        endpoint: "//e".to_string(),
        upos_uri: "upos://b/f.mp4".to_string(),
    }
}

#[test]
fn queries_of_the_upload() {
    assert_eq!(
        pairs(&preupload_params("f.mp4", 10)),
        vec![
            ("name", "f.mp4"),
            ("r", "upos"),
            ("profile", "ugcfx/bup"),
            ("version", "2.14.0.0"),
            ("size", "10")
        ]
    );
    assert_eq!(
        pairs(&meta_params(&preupload(), 10)),
        vec![
            ("uploads", ""),
            ("output", "json"),
            ("profile", "ugcfx/bup"),
            ("filesize", "10"),
            ("partsize", "4"),
            ("biz_id", "42")
        ]
    );
    let plan = plan_chunks(None, 10, 4);
    let chunk = next_chunk(&plan, 2, 8, 10, 4).unwrap();
    assert_eq!(
        pairs(&chunk_params(&chunk, "up-1")),
        vec![
            ("partNumber", "3"),
            ("uploadId", "up-1"),
            ("chunk", "2"),
            ("chunks", "3"),
            ("size", "2"),
            ("start", "8"),
            ("end", "10"),
            ("total", "10")
        ]
    );
    assert_eq!(
        pairs(&finish_params(&preupload(), "up-1", "f.mp4")),
        vec![
            ("output", "json"),
            ("name", "f.mp4"),
            ("profile", "ugcfx/bup"),
            ("uploadId", "up-1"),
            ("biz_id", "42")
        ]
    );
    assert_eq!(finish_part_numbers(3), vec![1, 2, 3]);
    assert!(finish_part_numbers(0).is_empty());
}

#[test]
fn answer_to_a_create_request() {
    let ids = parse_submit_answer(&doc("{\"bvid\":\"BV1xx\",\"aid\":123}")).unwrap();
    assert_eq!((ids.bvid.as_str(), ids.aid), ("BV1xx", 123));
    assert_eq!(
        parse_submit_answer(&doc("{\"aid\":123}")).unwrap_err(),
        SubmitAnswerError::MissingBvid
    );
    assert_eq!(
        parse_submit_answer(&doc("{\"bvid\":\"BV1\",\"aid\":\"x\"}")).unwrap_err(),
        SubmitAnswerError::MissingAid
    );
    assert_eq!(SubmitAnswerError::MissingBvid.message(), "投稿响应缺少BVID");
}

#[test]
fn section_of_a_collection() {
    let listing = doc(
        "{\"seasons\":[\
           {\"season\":{\"id\":1},\"sections\":{\"sections\":[{\"id\":11}]}},\
           {\"season\":{\"id\":2},\"sections\":{\"sections\":[{\"id\":22},{\"id\":23}]}},\
           {\"season\":{\"id\":3}},\
           {\"season\":{}},\
           {\"season\":{\"id\":5},\"sections\":{\"sections\":[{\"id\":55}]}}\
         ]}",
    );
    assert_eq!(fetch_collection_section_id(&listing, 1), Some(11));
    assert_eq!(fetch_collection_section_id(&listing, 2), Some(22));
    assert_eq!(fetch_collection_section_id(&listing, 3), Some(0));
    assert_eq!(fetch_collection_section_id(&listing, 5), None);
    assert_eq!(fetch_collection_section_id(&listing, 9), None);
    assert_eq!(fetch_collection_section_id(&doc("{}"), 1), None);
}

#[test]
fn collection_payloads() {
    let add = build_collection_add("T", Some(11), 5, 6).unwrap();
    assert_eq!((add.section_id, add.aid, add.cid, add.charging_pay), (11, 5, 6, 0));
    assert_eq!(add.title, "T");
    assert_eq!(build_collection_add("T", None, 5, 6).unwrap().section_id, 0);
    assert_eq!(build_collection_add("T", None, 0, 6).unwrap_err(), CollectionError::MissingAidOrCid);
    let switch = build_collection_switch("T", 3, None, 5, "csrf").unwrap();
    assert_eq!((switch.season_id, switch.section_id, switch.aid), (3, 0, 5));
    assert_eq!(switch.csrf, "csrf");
    assert_eq!(
        build_collection_switch("T", 0, None, 5, "c").unwrap_err(),
        CollectionError::MissingSeasonOrAid
    );
}

#[test]
fn update_and_creation() {
    assert_eq!(check_update("t", 1, true), None);
    assert_eq!(check_update(" ", 1, true), Some(CommandError::EmptyTaskId));
    assert_eq!(check_update("t", 0, true), Some(CommandError::NoSources));
    assert_eq!(check_update("t", 1, false), Some(CommandError::EmptyWorkflowConfig));
    assert_eq!(CommandError::EmptyWorkflowConfig.message(), "工作流配置不能为空");
    assert_eq!(appended_sort_order(0, 0), 1);
    assert_eq!(appended_sort_order(7, 2), 10);
    assert_eq!(appended_sort_order(i64::MAX, 0), i64::MAX);
    let made = task_creation_result(
        "t".to_string(),
        WorkflowCreation::Created { instance_id: "i".to_string(), status: "PENDING".to_string() },
    );
    assert_eq!(made.workflow_instance_id.as_deref(), Some("i"));
    assert_eq!(made.workflow_status.as_deref(), Some("PENDING"));
    assert!(starts_workflow(&made));
    let failed = task_creation_result("t".to_string(), WorkflowCreation::Failed { error: "e".to_string() });
    assert_eq!(failed.workflow_error.as_deref(), Some("e"));
    assert!(!starts_workflow(&failed));
    let none = task_creation_result("t".to_string(), WorkflowCreation::NotAsked);
    assert!(none.workflow_error.is_none() && !starts_workflow(&none));
    assert_eq!(workflow_config_name("t-1"), "workflow_t-1");
}

#[test]
fn sync_settings_are_merged() {
    let current = || SyncConfig { enabled: true, path: Some("/p".to_string()), filename: None };
    assert!(merge_sync_config(current(), None, None, None).is_none());
    let next = merge_sync_config(current(), Some(false), None, Some("f".to_string())).unwrap();
    assert_eq!((next.enabled, next.path.as_deref(), next.filename.as_deref()), (false, Some("/p"), Some("f")));
    let next = merge_sync_config(current(), None, Some("/q".to_string()), None).unwrap();
    assert_eq!((next.enabled, next.path.as_deref(), next.filename), (true, Some("/q"), None));
}

#[test]
fn uploads_for_an_edit_are_checked() {
    assert_eq!(check_edit_add_segment("t", "/f", true, "COMPLETED"), None);
    assert_eq!(check_edit_add_segment("", "/f", true, "COMPLETED"), Some(EditError::EmptyTaskId));
    assert_eq!(check_edit_add_segment("t", " ", true, "COMPLETED"), Some(EditError::EmptyFilePath));
    assert_eq!(check_edit_add_segment("t", "/f", false, "UPLOADING"), Some(EditError::FileMissing));
    assert_eq!(check_edit_add_segment("t", "/f", true, "UPLOADING"), Some(EditError::Uploading));
    assert_eq!(check_edit_add_segment("t", "/f", true, "FAILED"), Some(EditError::NotCompleted));
    assert_eq!(
        check_edit_reupload_segment("t", " ", "/f", true, "COMPLETED"),
        Some(EditError::EmptySegmentId)
    );
    assert_eq!(check_edit_reupload_segment("t", "s", "/f", true, "COMPLETED"), None);
    assert_eq!(EditError::FileMissing.message(), "分P文件不存在");
}

#[test]
fn folders_of_a_task() {
    let derived = cleanup_submission_derived_files("/d/t-1");
    let labels: Vec<&str> = derived.iter().map(|t| t.label.as_str()).collect();
    assert_eq!(labels, vec!["cut", "merge", "output"]);
    assert_eq!(
        std::path::Path::new(&derived[1].path),
        std::path::Path::new("/d/t-1").join("merge")
    );
    let all = cleanup_submission_files("/d/t-1");
    assert_eq!(all.len(), 4);
    assert_eq!((all[3].label.as_str(), all[3].path.as_str()), ("base", "/d/t-1"));
    assert_eq!(remove_path_if_exists(None), RemoveAction::Nothing);
    assert_eq!(remove_path_if_exists(Some(true)), RemoveAction::RemoveDir);
    assert_eq!(remove_path_if_exists(Some(false)), RemoveAction::RemoveFile);
    assert_eq!(submission_root(" /cfg ", "/default"), "/cfg");
    assert_eq!(submission_root("  ", "/default"), "/default");
    let base = resolve_submission_base_dir("", "/default", "t-1");
    assert_eq!(std::path::Path::new(&base), std::path::Path::new("/default").join("t-1"));
}

#[test]
fn chat_sidecar_and_cover() {
    assert_eq!(sidecar_candidates(Some("/a.flv"), "/b.flv"), vec!["/a.flv".to_string(), "/b.flv".to_string()]);
    assert_eq!(sidecar_candidates(Some("/a.flv"), "/a.flv"), vec!["/a.flv".to_string()]);
    assert_eq!(sidecar_candidates(Some(" "), "/b.flv"), vec!["/b.flv".to_string()]);
    assert_eq!(sidecar_candidates(None, " "), Vec::<String>::new());
    assert_eq!(cover_extension(Some("image/png")), "png");
    assert_eq!(cover_extension(Some("image/webp")), "webp");
    assert_eq!(cover_extension(Some("image/jpeg")), "jpg");
    assert_eq!(cover_extension(None), "jpg");
    assert!(is_room_message(&DanmakuPacket { op: 5, version: 0, body: Vec::new() }));
    assert!(!is_room_message(&DanmakuPacket { op: 3, version: 0, body: Vec::new() }));
}

#[test]
fn replacing_text() {
    assert_eq!(replace_all("a-b-c", "-", "+"), "a+b+c");
    assert_eq!(replace_all("aaa", "aa", "b"), "ba");
    assert_eq!(replace_all("abc", "", "x"), "abc");
    assert_eq!(replace_all("", "a", "x"), "");
    assert_eq!(replace_all("abc", "abcd", "x"), "abc");
    assert_eq!(replace_all("标题标题", "标题", ""), "");
    assert_eq!(replace_all("xxabxx", "ab", "ab"), "xxabxx");
}

#[test]
fn file_name_template() {
    let values = TemplateValues {
        room_id: "100".to_string(),
        uid: "7".to_string(),
        name: None,
        title: "夜谈 {{ uid }}".to_string(),
        now: "20240102-030405".to_string(),
        date: "20240102".to_string(),
        live_date: "20240101".to_string(),
        time: "030405".to_string(),
        ms: "006".to_string(),
        now_with_ms: "20240102-030405-006".to_string(),
    };
    assert_eq!(
        render_record_template("{{ roomId }}/{{ name }}-{{ title }}-{{ liveDate }}-{{ now }}.flv", &values),
        "100/主播-夜谈 {{ uid }}-20240101-20240102-030405.flv"
    );
    assert_eq!(
        render_record_template(
            "{{ uid }}_{{ live_date }}_{{ date }}_{{ time }}_{{ ms }}_{{ \"now\" | format_date: \"yyyyMMdd-HHmmss-fff\" }}",
            &values
        ),
        "7_20240101_20240102_030405_006_20240102-030405-006"
    );
    assert_eq!(part_file_name(Some("rec"), 1, Some("flv")), None);
    assert_eq!(part_file_name(Some("rec"), 3, Some("ts")).as_deref(), Some("rec_part3.ts"));
    assert_eq!(part_file_name(None, 2, None).as_deref(), Some("record_part2.flv"));
}
