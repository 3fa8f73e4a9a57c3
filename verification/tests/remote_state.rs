use reaction_cut::reconcile::{
    audit_total, collect_audit_page, next_audit_page, reconcile_remote_state,
    refresh_interval_minutes, RemoteAuditInfo, TaskBvid,
};
use reaction_cut::textmap::TextMap;

#[test]
fn audit_page_is_read() {
    let page = parse_doc(
        "{\"arc_audits\":[\
           {\"Archive\":{\"bvid\":\" BV1 \",\"state\":-30,\"reject_reason\":\"archive says\"},\
            \"problem_detail\":[{\"x\":1},{\"reject_reason\":\" detail says \"},{\"reject_reason\":\"later\"}]},\
           {\"Archive\":{\"bvid\":\"BV2\"}},\
           {\"Archive\":{\"bvid\":\"  \"}},\
           {\"NoArchive\":{}},\
           {\"Archive\":{\"bvid\":\"BV3\",\"state\":-2,\"reject_reason\":\"  \"},\"problem_detail\":[]},\
           {\"Archive\":{\"bvid\":\"BV2\",\"state\":1,\"reject_reason\":\"r2\"}}\
         ],\"page\":{\"count\":45}}",
    )
    .unwrap();
    let mut audits: TextMap<RemoteAuditInfo> = TextMap::new();
    assert_eq!(collect_audit_page(&page, &mut audits), 6);
    assert_eq!(audits.len(), 3);
    let a = audits.get("BV1").unwrap();
    assert_eq!((a.state, a.reject_reason.as_deref()), (-30, Some("detail says")));
    let b = audits.get("BV2").unwrap();
    assert_eq!((b.state, b.reject_reason.as_deref()), (1, Some("r2")));
    let c = audits.get("BV3").unwrap();
    assert_eq!((c.state, c.reject_reason.as_deref()), (-2, None));
    assert_eq!(audit_total(&page), 45);
    let empty = parse_doc("{}").unwrap();
    assert_eq!(collect_audit_page(&empty, &mut audits), 0);
    assert_eq!(audit_total(&empty), 0);
}

#[test]
fn pages_are_read_until_the_count_is_reached() {
    assert_eq!(next_audit_page(1, 45, 20), Some(2));
    assert_eq!(next_audit_page(2, 45, 20), Some(3));
    assert_eq!(next_audit_page(3, 45, 5), None);
    assert_eq!(next_audit_page(1, 20, 20), None);
    assert_eq!(next_audit_page(1, 0, 20), None);
    assert_eq!(next_audit_page(1, -1, 20), None);
    assert_eq!(next_audit_page(1, 45, 0), None);
    assert_eq!(next_audit_page(i64::MAX, i64::MAX, 1), None);
}

#[test]
fn absent_submissions_are_cleared() {
    let mut audits: TextMap<RemoteAuditInfo> = TextMap::new();
    audits.insert("BV1".to_string(), RemoteAuditInfo { state: -4, reject_reason: Some("why".to_string()) });
    let tasks = vec![
        TaskBvid { task_id: "t1".to_string(), bvid: "BV1".to_string() },
        TaskBvid { task_id: "t2".to_string(), bvid: "BV-gone".to_string() },
    ];
    let updates = reconcile_remote_state(&tasks, &audits);
    assert_eq!(updates.len(), 2);
    assert_eq!(updates[0].task_id, "t1");
    assert_eq!((updates[0].remote_state, updates[0].reject_reason.as_deref()), (-4, Some("why")));
    assert_eq!(updates[1].task_id, "t2");
    assert_eq!((updates[1].remote_state, updates[1].reject_reason.clone()), (0, None));
    assert!(reconcile_remote_state(&Vec::new(), &audits).is_empty());
    assert_eq!(refresh_interval_minutes(0), 1);
    assert_eq!(refresh_interval_minutes(15), 15);
}

fn parse_doc(text: &str) -> Option<serde_json::Value> {
    serde_json::from_str(text).ok()
}
