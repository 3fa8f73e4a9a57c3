use reaction_cut::upload_api::{
    parse_finish_answer, parse_meta_answer, parse_preupload_answer, AnswerField, UploadApiError,
    UploadStage,
};

fn doc(text: &str) -> serde_json::Value {
    parse_doc(text).unwrap()
}

#[test]
fn preupload_answer_is_read() {
    let d = doc(
        "{\"OK\":1,\"auth\":\"a\",\"biz_id\":42,\"chunk_size\":4194304,\
         \"endpoint\":\"//e\",\"upos_uri\":\"upos://b/f.mp4\"}",
    );
    let info = parse_preupload_answer(&d).unwrap();
    assert_eq!(info.auth, "a");
    assert_eq!(info.biz_id, 42);
    assert_eq!(info.chunk_size, 4194304);
    assert_eq!(info.endpoint, "//e");
    assert_eq!(info.upos_uri, "upos://b/f.mp4");
}

#[test]
fn preupload_errors() {
    match parse_preupload_answer(&doc("{\"code\":-101,\"message\":\"账号未登录\"}")).unwrap_err() {
        UploadApiError::Api { message, code } => {
            assert_eq!(message, "账号未登录");
            assert_eq!(code, -101);
        }
        other => panic!("unexpected {:?}", other),
    }
    let e = parse_preupload_answer(&doc("{\"code\":7}")).unwrap_err();
    assert_eq!(e.message(), "预上传失败 (code: 7)");
    let e = parse_preupload_answer(&doc("{\"OK\":0}")).unwrap_err();
    assert!(matches!(e, UploadApiError::Rejected { stage: UploadStage::Preupload }));
    assert_eq!(e.message(), "预上传失败");
    let e = parse_preupload_answer(&doc("{\"code\":0,\"OK\":1}")).unwrap_err();
    assert!(matches!(e, UploadApiError::Missing { field: AnswerField::Auth }));
    assert_eq!(e.message(), "预上传缺少auth");
    let e = parse_preupload_answer(&doc("{\"auth\":\"a\",\"biz_id\":1,\"chunk_size\":-4}"))
        .unwrap_err();
    assert!(matches!(e, UploadApiError::Missing { field: AnswerField::ChunkSize }));
    let e = parse_preupload_answer(&doc(
        "{\"auth\":\"a\",\"biz_id\":1,\"chunk_size\":4,\"endpoint\":\"e\"}",
    ))
    .unwrap_err();
    assert!(matches!(e, UploadApiError::Missing { field: AnswerField::UposUri }));
}

#[test]
fn meta_answer_is_read() {
    assert_eq!(parse_meta_answer(&doc("{\"OK\":1,\"upload_id\":\"u-9\"}")).unwrap(), "u-9");
    let e = parse_meta_answer(&doc("{\"OK\":1}")).unwrap_err();
    assert_eq!(e.message(), "上传元数据缺少upload_id");
    let e = parse_meta_answer(&doc("{\"code\":3}")).unwrap_err();
    assert_eq!(e.message(), "上传元数据失败 (code: 3)");
    let e = parse_meta_answer(&doc("{\"OK\":2,\"upload_id\":\"u\"}")).unwrap_err();
    assert_eq!(e.message(), "上传元数据失败");
}

#[test]
fn finish_answer_is_read() {
    let done = parse_finish_answer(
        &doc("{\"OK\":1,\"key\":\"/ugc/abc.mp4\",\"data\":{\"cid\":9001}}"),
        5,
        "local.mp4",
    )
    .unwrap();
    assert_eq!(done.cid, 9001);
    assert_eq!(done.filename, "abc");
    let fallback = parse_finish_answer(&doc("{\"OK\":1}"), 5, "local.name.mp4").unwrap();
    assert_eq!(fallback.cid, 5);
    assert_eq!(fallback.filename, "local.name");
    let e = parse_finish_answer(&doc("{\"OK\":0}"), 5, "x").unwrap_err();
    assert_eq!(e.message(), "结束上传失败");
    // an answer without `OK`, or with one that is no whole number, is rejected
    for text in ["{\"code\":0}", "{}", "{\"OK\":\"1\"}", "{\"OK\":true}", "{\"OK\":2}"] {
        let e = parse_finish_answer(&doc(text), 5, "x").unwrap_err();
        assert!(matches!(e, UploadApiError::Rejected { stage: UploadStage::Finish }));
    }
    assert!(parse_finish_answer(&doc("{\"OK\":1,\"code\":5}"), 5, "x").is_ok());
}

fn parse_doc(text: &str) -> Option<serde_json::Value> {
    serde_json::from_str(text).ok()
}
