use reaction_cut::records::{SubmissionTaskRecord, TaskOutputSegmentRecord};
use reaction_cut::submit::{
    after_api_failure, build_add_payload, build_edit_payload,
    build_part_title, build_uploaded_parts, check_add_to_collection, check_switch_collection,
    collection_switch_needed, plan_create_batches, plan_update_batches,
    resolve_existing_part_title, ApiRetry, CollectionError, PartsError, UploadedVideoPart,
    MAX_PARTS_PER_SUBMISSION,
};

fn task() -> SubmissionTaskRecord {
    SubmissionTaskRecord {
        task_id: "t-1".to_string(),
        status: "WAITING_UPLOAD".to_string(),
        title: "T1".to_string(),
        description: Some("about".to_string()),
        cover_url: None,
        partition_id: 21,
        tags: Some("a,b".to_string()),
        video_type: "ORIGINAL".to_string(),
        collection_id: None,
        bvid: None,
        aid: None,
        remote_state: None,
        reject_reason: None,
        created_at: String::new(),
        updated_at: String::new(),
        segment_prefix: None,
        baidu_sync_enabled: false,
        baidu_sync_path: None,
        baidu_sync_filename: None,
        has_integrated_downloads: false,
        workflow_status: None,
    }
}

fn segment(id: &str, name: &str, order: i64, status: &str, cid: Option<i64>, file: Option<&str>)
    -> TaskOutputSegmentRecord {
    TaskOutputSegmentRecord {
        segment_id: id.to_string(),
        task_id: "t-1".to_string(),
        part_name: name.to_string(),
        segment_file_path: format!("/out/{}.mp4", id),
        part_order: order,
        upload_status: status.to_string(),
        cid,
        file_name: file.map(|f| f.to_string()),
        upload_uploaded_bytes: 0,
        upload_total_bytes: 0,
        upload_session_id: None,
        upload_biz_id: 0,
        upload_endpoint: None,
        upload_auth: None,
        upload_uri: None,
        upload_chunk_size: 0,
        upload_last_part_index: 0,
    }
}

fn parts(n: usize) -> Vec<UploadedVideoPart> {
    (1..=n)
        .map(|i| UploadedVideoPart {
            filename: format!("f{}", i),
            cid: i as i64,
            title: format!("P{}", i),
        })
        .collect()
}

#[test]
fn part_titles() {
    assert_eq!(build_part_title(None, 1), "P1");
    assert_eq!(build_part_title(Some("  "), 12), "P12");
    assert_eq!(build_part_title(Some(" 第 "), 3), "第3");
    assert_eq!(build_part_title(Some("EP"), 0), "EP0");
}

#[test]
fn stored_names_survive_an_update() {
    let mut t = task();
    t.segment_prefix = Some("EP".to_string());
    assert_eq!(resolve_existing_part_title(&t, " 我的标题 ", 2), "我的标题");
    assert_eq!(resolve_existing_part_title(&t, "", 2), "EP2");
    assert_eq!(resolve_existing_part_title(&t, "  ", 2), "EP2");
    assert_eq!(resolve_existing_part_title(&t, "P2", 2), "P2");
    assert_eq!(resolve_existing_part_title(&t, "Part 3", 2), "Part 3");
}

#[test]
fn create_submission_happy_path() {
    let t = task();
    let segments = vec![
        segment("s1", "P1", 1, "SUCCESS", Some(11), Some("n1")),
        segment("s2", "P2", 2, "SUCCESS", Some(12), Some("n2")),
        segment("s3", "P3", 3, "SUCCESS", Some(13), Some("n3")),
    ];
    let parts = build_uploaded_parts(&t, &segments, false).unwrap();
    let titles: Vec<&str> = parts.iter().map(|p| p.title.as_str()).collect();
    assert_eq!(titles, vec!["P1", "P2", "P3"]);
    let plan = plan_create_batches(parts.len());
    assert_eq!(plan.create, Some(3));
    assert!(plan.edits.is_empty());
    let payload = build_add_payload(&t, &parts);
    assert_eq!(payload.videos.len(), 3);
    assert_eq!(payload.videos[1].filename, "n2");
    assert_eq!(payload.videos[1].cid, 12);
    assert_eq!(payload.title, "T1");
    assert_eq!(payload.tid, 21);
    assert_eq!(payload.human_type2, Some(21));
    assert_eq!(payload.tag, "a,b");
    assert_eq!(payload.copyright, 1);
}

#[test]
fn segments_that_cannot_be_submitted_are_refused() {
    let t = task();
    let pending = vec![
        segment("s1", "", 1, "SUCCESS", Some(1), Some("n")),
        segment("s2", "", 2, "UPLOADING", None, None),
    ];
    assert!(matches!(
        build_uploaded_parts(&t, &pending, false),
        Err(PartsError::NotUploaded)
    ));
    for cid in [None, Some(0), Some(-4)] {
        let bad = vec![segment("s9", "", 1, "SUCCESS", cid, Some("n"))];
        match build_uploaded_parts(&t, &bad, false) {
            Err(PartsError::MissingCid { segment_id }) => assert_eq!(segment_id, "s9"),
            other => panic!("unexpected {:?}", other),
        }
    }
    for name in [None, Some(""), Some("  ")] {
        let bad = vec![segment("s8", "", 1, "SUCCESS", Some(5), name)];
        match build_uploaded_parts(&t, &bad, false) {
            Err(PartsError::MissingFileName { segment_id }) => assert_eq!(segment_id, "s8"),
            other => panic!("unexpected {:?}", other),
        }
    }
    assert_eq!(build_uploaded_parts(&t, &Vec::new(), false).unwrap().len(), 0);
}

#[test]
fn update_keeps_edited_titles() {
    let t = task();
    let segments = vec![
        segment("s1", "P1", 1, "SUCCESS", Some(1), Some("a")),
        segment("s2", "精彩片段", 2, "SUCCESS", Some(2), Some("b")),
    ];
    let parts = build_uploaded_parts(&t, &segments, true).unwrap();
    assert_eq!(parts[0].title, "P1");
    assert_eq!(parts[1].title, "精彩片段");
}

#[test]
fn batched_create() {
    let plan = plan_create_batches(205);
    assert_eq!(plan.create, Some(100));
    assert_eq!(plan.edits, vec![200, 205]);
}

#[test]
fn batch_plans_at_the_edges() {
    assert_eq!(MAX_PARTS_PER_SUBMISSION, 100);
    let one = plan_create_batches(1);
    assert_eq!((one.create, one.edits), (Some(1), vec![]));
    let hundred = plan_create_batches(100);
    assert_eq!((hundred.create, hundred.edits), (Some(100), vec![]));
    let over = plan_create_batches(101);
    assert_eq!((over.create, over.edits), (Some(100), vec![101]));
    let exact = plan_create_batches(300);
    assert_eq!((exact.create, exact.edits), (Some(100), vec![200, 300]));
    let none = plan_create_batches(0);
    assert_eq!((none.create, none.edits), (Some(0), vec![]));
    assert_eq!(plan_update_batches(0).edits, vec![0]);
    assert_eq!(plan_update_batches(50).edits, vec![50]);
    assert_eq!(plan_update_batches(100).edits, vec![100]);
    assert_eq!(plan_update_batches(205).edits, vec![100, 200, 205]);
    assert_eq!(plan_update_batches(205).create, None);
}

#[test]
fn every_batch_plan_grows_by_hundreds() {
    for n in 0..450usize {
        let plan = plan_create_batches(n);
        let create = plan.create.unwrap();
        assert!(create <= 100 && create <= n);
        let mut previous = create;
        for end in &plan.edits {
            assert!(*end > previous);
            assert!(*end - previous <= 100);
            assert!(*end % 100 == 0 || *end == n);
            previous = *end;
        }
        assert_eq!(previous, n);
    }
}

#[test]
fn payloads_carry_the_fixed_fields() {
    let mut t = task();
    t.video_type = "REPRINT".to_string();
    t.collection_id = Some(55);
    t.cover_url = Some("http://c".to_string());
    let add = build_add_payload(&t, &parts(2));
    assert_eq!(add.aid, None);
    assert_eq!(add.copyright, 2);
    assert_eq!(add.season_id, Some(55));
    assert_eq!(add.cover, "http://c");
    assert_eq!(add.cover43, "");
    assert_eq!(add.desc, "about");
    assert_eq!(add.desc_format_id, 9999);
    assert_eq!(add.recreate, -1);
    assert_eq!(add.no_reprint, 1);
    assert_eq!(add.interactive, 0);
    assert_eq!(add.dolby, 0);
    assert_eq!(add.lossless_music, 0);
    assert_eq!(add.subtitle.open, 0);
    assert_eq!(add.subtitle.lan, "");
    assert!(!add.up_selection_reply && !add.up_close_reply && !add.up_close_danmu);
    assert_eq!(add.web_os, 3);
    assert_eq!(add.videos[0].desc, "");
    assert_eq!(add.videos[0].title, "P1");
    let edit = build_edit_payload(&t, &parts(1), 9000);
    assert_eq!(edit.aid, Some(9000));
    assert_eq!(edit.human_type2, None);
    assert_eq!(edit.web_os, 1);
    t.collection_id = Some(0);
    assert_eq!(build_add_payload(&t, &parts(1)).season_id, None);
}

#[test]
fn collection_requests() {
    assert_eq!(check_add_to_collection(1, 1), Ok(()));
    assert_eq!(check_add_to_collection(0, 1), Err(CollectionError::MissingAidOrCid));
    assert_eq!(check_add_to_collection(1, -1), Err(CollectionError::MissingAidOrCid));
    assert_eq!(check_switch_collection(3, 4), Ok(()));
    assert_eq!(check_switch_collection(0, 4), Err(CollectionError::MissingSeasonOrAid));
    assert!(collection_switch_needed(None, Some(5)));
    assert!(collection_switch_needed(Some(4), Some(5)));
    assert!(!collection_switch_needed(Some(5), Some(5)));
    assert!(!collection_switch_needed(Some(5), None));
    assert!(!collection_switch_needed(Some(5), Some(0)));
}

#[test]
fn one_refresh_on_authentication_errors() {
    assert_eq!(after_api_failure("x (code: -101)", false), ApiRetry::RefreshAndRetry);
    assert_eq!(after_api_failure("x (code: -101)", true), ApiRetry::Fail);
    assert_eq!(after_api_failure("x (code: 5)", false), ApiRetry::Fail);
}
