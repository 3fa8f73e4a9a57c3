use std::io::Write;

use reaction_cut::danmaku::{
    build_danmaku_packet, classify_message, extract_cookie_value, frame_body_len, frame_packet,
    parse_danmaku_packets, parse_nested, should_record_danmaku, should_write_command,
    DanmakuError, MessageAction, MAX_NESTING,
};
use reaction_cut::settings::LiveSettings;

fn settings() -> LiveSettings {
    LiveSettings {
        record_mode: 0,
        record_path: String::new(),
        file_name_template: String::new(),
        write_metadata: true,
        save_cover: false,
        recording_quality: String::new(),
        flv_fix_split_on_missing: false,
        flv_fix_disable_on_annexb: false,
        cutting_mode: 0,
        cutting_number: 0,
        cutting_by_title: false,
        title_split_min_seconds: 0,
        stream_connect_timeout_ms: 0,
        stream_retry_ms: 0,
        stream_retry_no_qn_sec: 0,
        check_interval_sec: 0,
        danmaku_transport: 0,
        record_danmaku: false,
        record_danmaku_raw: false,
        record_danmaku_superchat: false,
        record_danmaku_gift: false,
        record_danmaku_guard: false,
    }
}

fn raw_packet(version: u16, op: u32, body: &[u8]) -> Vec<u8> {
    let mut out = Vec::new();
    out.extend_from_slice(&((16 + body.len()) as u32).to_be_bytes());
    out.extend_from_slice(&16u16.to_be_bytes());
    out.extend_from_slice(&version.to_be_bytes());
    out.extend_from_slice(&op.to_be_bytes());
    out.extend_from_slice(&1u32.to_be_bytes());
    out.extend_from_slice(body);
    out
}

#[test]
fn framed_packet_has_the_documented_layout() {
    let bytes = build_danmaku_packet(7, b"{}".to_vec());
    assert_eq!(
        bytes,
        vec![0, 0, 0, 18, 0, 16, 0, 1, 0, 0, 0, 7, 0, 0, 0, 1, b'{', b'}']
    );
    let heartbeat = build_danmaku_packet(2, Vec::new());
    assert_eq!(heartbeat.len(), 16);
    assert_eq!(frame_packet(2, Vec::new()), Some(heartbeat));
}

#[test]
fn framed_packet_parses_back() {
    let bytes = build_danmaku_packet(5, b"hello".to_vec());
    let packets = parse_danmaku_packets(&bytes).unwrap();
    assert_eq!(packets.len(), 1);
    assert_eq!(packets[0].op, 5);
    assert_eq!(packets[0].version, 1);
    assert_eq!(packets[0].body, b"hello".to_vec());
}

#[test]
fn several_packets_and_a_truncated_tail() {
    let mut bytes = raw_packet(0, 5, b"a");
    bytes.extend(raw_packet(1, 3, b"bc"));
    let whole = bytes.len();
    bytes.extend_from_slice(&raw_packet(0, 5, b"zzzz")[..18]);
    let packets = parse_danmaku_packets(&bytes).unwrap();
    assert_eq!(packets.len(), 2);
    assert_eq!(packets[1].op, 3);
    assert_eq!(packets[1].body, b"bc".to_vec());
    assert_eq!(parse_danmaku_packets(&bytes[..whole]).unwrap().len(), 2);
    assert_eq!(parse_danmaku_packets(&bytes[..15]).unwrap().len(), 0);
}

#[test]
fn zlib_body_is_unpacked() {
    let mut inner = raw_packet(0, 5, b"{\"cmd\":\"DANMU_MSG\"}");
    inner.extend(raw_packet(0, 5, b"second"));
    let mut encoder =
        flate2::write::ZlibEncoder::new(Vec::new(), flate2::Compression::default());
    encoder.write_all(&inner).unwrap();
    let compressed = encoder.finish().unwrap();
    assert_ne!(compressed, inner);
    let outer = raw_packet(2, 5, &compressed);
    let packets = parse_danmaku_packets(&outer).unwrap();
    assert_eq!(packets.len(), 2);
    assert_eq!(packets[0].body, b"{\"cmd\":\"DANMU_MSG\"}".to_vec());
    assert_eq!(packets[1].body, b"second".to_vec());
}

#[test]
fn brotli_body_is_unpacked() {
    let inner = raw_packet(0, 5, b"brotli payload brotli payload brotli payload");
    let mut compressed = Vec::new();
    {
        let mut writer = brotli::CompressorWriter::new(&mut compressed, 4096, 5, 22);
        writer.write_all(&inner).unwrap();
    }
    assert_ne!(compressed, inner);
    let outer = raw_packet(3, 5, &compressed);
    let packets = parse_danmaku_packets(&outer).unwrap();
    assert_eq!(packets.len(), 1);
    assert_eq!(
        packets[0].body,
        b"brotli payload brotli payload brotli payload".to_vec()
    );
}

#[test]
fn corrupt_compressed_bodies_are_errors() {
    let outer = raw_packet(2, 5, b"not zlib at all");
    assert_eq!(parse_danmaku_packets(&outer).unwrap_err(), DanmakuError::Zlib);
    let outer = raw_packet(3, 5, &[0xff; 24]);
    assert_eq!(
        parse_danmaku_packets(&outer).unwrap_err(),
        DanmakuError::Brotli
    );
}

#[test]
fn nesting_is_bounded() {
    let outer = raw_packet(2, 5, b"whatever");
    assert_eq!(parse_nested(&outer, 0).unwrap_err(), DanmakuError::TooDeep);
    assert!(MAX_NESTING >= 1);
}

#[test]
fn malformed_header_ends_the_reading() {
    // header longer than the packet
    let mut bad = raw_packet(0, 5, b"abcd");
    bad[4] = 0;
    bad[5] = 200;
    let mut bytes = raw_packet(0, 5, b"ok");
    bytes.extend(bad);
    assert_eq!(parse_danmaku_packets(&bytes).unwrap().len(), 1);
    // a packet that claims no length
    let mut zero = raw_packet(0, 5, b"");
    zero[3] = 0;
    assert_eq!(parse_danmaku_packets(&zero).unwrap().len(), 0);
}

#[test]
fn stream_socket_body_length() {
    let header = raw_packet(0, 5, b"");
    let mut h = header.clone();
    h[3] = 16 + 40;
    assert_eq!(frame_body_len(&h), Some(40));
    h[3] = 10;
    assert_eq!(frame_body_len(&h), None);
}

#[test]
fn cookie_value_is_found_by_key() {
    let cookie = "SESSDATA=abc; buvid3=XYZ-1 ; bili_jct=tok";
    assert_eq!(extract_cookie_value(cookie, "buvid3"), Some("XYZ-1".to_string()));
    assert_eq!(extract_cookie_value(cookie, "SESSDATA"), Some("abc".to_string()));
    assert_eq!(extract_cookie_value(cookie, "buvid"), None);
    assert_eq!(extract_cookie_value("a=1;a=2", "a"), Some("1".to_string()));
    assert_eq!(extract_cookie_value("", "a"), None);
    assert_eq!(extract_cookie_value("x=", "x"), Some(String::new()));
}

#[test]
fn chat_flags() {
    let mut s = settings();
    assert!(!should_record_danmaku(&s));
    s.record_danmaku_gift = true;
    assert!(should_record_danmaku(&s));
    assert!(should_write_command("SEND_GIFT", &s));
    assert!(!should_write_command("DANMU_MSG", &s));
    assert!(!should_write_command("GUARD_BUY", &s));
    s.record_danmaku_guard = true;
    assert!(should_write_command("GUARD_BUY", &s));
    assert!(should_write_command("USER_TOAST_MSG", &s));
    s.record_danmaku_superchat = true;
    assert!(should_write_command("SUPER_CHAT_MESSAGE_JPN", &s));
    assert!(!should_write_command("OTHER", &s));
    s.record_danmaku_raw = true;
    assert!(should_write_command("OTHER", &s));
}

#[test]
fn messages_are_classified() {
    let mut s = settings();
    s.record_danmaku = true;
    assert_eq!(
        classify_message("{\"cmd\":\"DANMU_MSG\",\"info\":[]}", &s),
        MessageAction::WriteRecord { cmd: "DANMU_MSG".to_string() }
    );
    assert_eq!(classify_message("{\"cmd\":\"SEND_GIFT\"}", &s), MessageAction::Skip);
    assert_eq!(classify_message("{\"cmd\":5}", &s), MessageAction::Skip);
    assert_eq!(classify_message("not json", &s), MessageAction::Skip);
    s.record_danmaku_raw = true;
    assert_eq!(classify_message("not json", &s), MessageAction::WriteRaw);
    assert_eq!(
        classify_message("{\"x\":1}", &s),
        MessageAction::WriteRecord { cmd: String::new() }
    );
}
