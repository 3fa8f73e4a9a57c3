use reaction_cut::room::{
    build_danmaku_auth, danmaku_endpoint, parse_danmaku_host, parse_room_info, parse_room_number,
    parse_stream_urls, StreamUrlError, Transport,
};

#[test]
fn room_info_is_read() {
    let doc = parse_doc(
        "{\"room_id\":7734200,\"uid\":42,\"live_status\":1,\"title\":\"夜谈\",\
         \"user_cover\":\"http://c\",\"area_name\":\"聊天\"}",
    )
    .unwrap();
    let info = parse_room_info(&doc, "short");
    assert_eq!(info.room_id, "7734200");
    assert_eq!(info.uid, "42");
    assert_eq!(info.live_status, 1);
    assert_eq!(info.title, "夜谈");
    assert_eq!(info.cover.as_deref(), Some("http://c"));
    assert_eq!(info.area_name.as_deref(), Some("聊天"));
    assert_eq!(info.parent_area_name, None);
    let bare = parse_room_info(&parse_doc("{}").unwrap(), "short");
    assert_eq!(bare.room_id, "short");
    assert_eq!(bare.uid, "0");
    assert_eq!(bare.live_status, 0);
    assert_eq!(bare.title, "直播标题");
}

#[test]
fn stream_urls_are_read_once_each() {
    let doc = parse_doc(
        "{\"durl\":[{\"url\":\"u1\"},{\"url\":\"u2\"},{\"x\":1},{\"url\":\"u1\"},{\"url\":5}]}",
    )
    .unwrap();
    assert_eq!(parse_stream_urls(&doc).unwrap(), vec!["u1".to_string(), "u2".to_string()]);
    assert_eq!(
        parse_stream_urls(&parse_doc("{}").unwrap()).unwrap_err(),
        StreamUrlError::MissingList
    );
    assert_eq!(
        parse_stream_urls(&parse_doc("{\"durl\":[{}]}").unwrap()).unwrap_err(),
        StreamUrlError::EmptyList
    );
    assert_eq!(StreamUrlError::MissingList.message(), "缺少直播流地址");
    assert_eq!(StreamUrlError::EmptyList.message(), "直播流地址为空");
}

#[test]
fn chat_endpoint() {
    let doc = parse_doc(
        "{\"token\":\"tok\",\"host_list\":[{\"host\":\"chat.example\",\"port\":2243,\
         \"ws_port\":2244,\"wss_port\":443},{\"host\":\"second\"}]}",
    )
    .unwrap();
    let host = parse_danmaku_host(&doc);
    assert_eq!(host.host, "chat.example");
    assert_eq!(host.token, "tok");
    assert_eq!((host.tcp_port, host.ws_port, host.wss_port), (2243, 2244, 443));
    assert_eq!(danmaku_endpoint(0, &host), (Transport::Wss, "wss://chat.example:443/sub".to_string()));
    assert_eq!(danmaku_endpoint(1, &host), (Transport::Tcp, "tcp://chat.example:2243".to_string()));
    assert_eq!(danmaku_endpoint(2, &host), (Transport::Ws, "ws://chat.example:2244/sub".to_string()));
    assert_eq!(danmaku_endpoint(3, &host).0, Transport::Wss);
    let mut no_wss = parse_danmaku_host(&doc);
    no_wss.wss_port = 0;
    assert_eq!(danmaku_endpoint(9, &no_wss).0, Transport::Ws);
    no_wss.ws_port = 0;
    assert_eq!(danmaku_endpoint(9, &no_wss).1, "tcp://chat.example:2243");
    let empty = parse_danmaku_host(&parse_doc("{}").unwrap());
    assert_eq!((empty.host.as_str(), empty.tcp_port), ("", 0));
}

#[test]
fn authentication_frame() {
    let auth = build_danmaku_auth("7734200", "tok", 42, Some("buvid".to_string()));
    assert_eq!(auth.uid, 42);
    assert_eq!(auth.roomid, 7734200);
    assert_eq!(auth.protover, 3);
    assert_eq!(auth.platform, "web");
    assert_eq!(auth.kind, 2);
    assert_eq!(auth.key, "tok");
    assert_eq!(auth.buvid.as_deref(), Some("buvid"));
    assert_eq!(parse_room_number("abc"), 0);
    assert_eq!(parse_room_number(""), 0);
    assert_eq!(parse_room_number("-12"), -12);
    assert_eq!(parse_room_number("+12"), 12);
    assert_eq!(parse_room_number("-9223372036854775808"), i64::MIN);
    assert_eq!(parse_room_number("9223372036854775808"), 0);
    assert_eq!(parse_room_number("-"), 0);
}

fn parse_doc(text: &str) -> Option<serde_json::Value> {
    serde_json::from_str(text).ok()
}
