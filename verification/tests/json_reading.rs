use reaction_cut::json::{
    get_array_len, get_bool, get_i64, get_text, get_u64, has_node, make_item_pointer,
};

#[test]
fn values_are_found_by_pointer() {
    let doc = parse_doc(
        "{\"a\":{\"b\":[10,{\"c\":\"deep\"}]},\"t\":true,\"n\":-3,\"big\":18446744073709551615,\
         \"f\":1.5,\"s\":\"x\",\"z\":null}",
    )
    .unwrap();
    assert_eq!(get_text(&doc, "/a/b/1/c"), Some("deep".to_string()));
    assert_eq!(get_text(&doc, "/a/b/0"), None);
    assert_eq!(get_i64(&doc, "/a/b/0"), Some(10));
    assert_eq!(get_i64(&doc, "/n"), Some(-3));
    assert_eq!(get_u64(&doc, "/n"), None);
    assert_eq!(get_u64(&doc, "/big"), Some(u64::MAX));
    assert_eq!(get_i64(&doc, "/big"), None);
    assert_eq!(get_i64(&doc, "/f"), None);
    assert_eq!(get_i64(&doc, "/s"), None);
    assert_eq!(get_bool(&doc, "/t"), Some(true));
    assert_eq!(get_bool(&doc, "/s"), None);
    assert_eq!(get_array_len(&doc, "/a/b"), Some(2));
    assert_eq!(get_array_len(&doc, "/a"), None);
    assert!(has_node(&doc, "/z"));
    assert!(has_node(&doc, ""));
    assert!(!has_node(&doc, "/missing"));
    assert!(!has_node(&doc, "a"));
    assert_eq!(get_text(&doc, "/a/b/01/c"), None);
}

#[test]
fn item_pointers() {
    assert_eq!(make_item_pointer("/durl", 0, "/url"), "/durl/0/url");
    assert_eq!(make_item_pointer("/arc_audits", 12, ""), "/arc_audits/12");
}

fn parse_doc(text: &str) -> Option<serde_json::Value> {
    serde_json::from_str(text).ok()
}
