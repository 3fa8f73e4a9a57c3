use reaction_cut::flv::{
    is_video_keyframe, parse_flv_timestamp, read_u24_be, FlvError, FlvParsedItem, FlvStreamParser,
    FlvTag,
};

fn frame(tag_type: u8, timestamp: u32, payload: &[u8]) -> Vec<u8> {
    let mut out = vec![tag_type];
    let n = payload.len() as u32;
    out.extend_from_slice(&[(n >> 16) as u8, (n >> 8) as u8, n as u8]);
    out.extend_from_slice(&[(timestamp >> 16) as u8, (timestamp >> 8) as u8, timestamp as u8]);
    out.push((timestamp >> 24) as u8);
    out.extend_from_slice(&[0, 0, 0]);
    out.extend_from_slice(payload);
    let total = 11 + n;
    out.extend_from_slice(&total.to_be_bytes());
    out
}

fn stream_header() -> Vec<u8> {
    vec![b'F', b'L', b'V', 1, 5, 0, 0, 0, 9, 0, 0, 0, 0]
}

#[test]
fn header_then_tags_are_yielded_in_order() {
    let mut parser = FlvStreamParser::new();
    let mut bytes = stream_header();
    bytes.extend(frame(9, 40, &[0x17, 0x01, 0xAA]));
    bytes.extend(frame(8, 41, &[0xAF, 0x01]));
    let items = parser.push(&bytes).unwrap();
    assert_eq!(items.len(), 3);
    match &items[0] {
        FlvParsedItem::Header(h) => assert_eq!(h, &stream_header()),
        _ => panic!("first item is not the header"),
    }
    match &items[1] {
        FlvParsedItem::Tag(tag) => {
            assert_eq!(tag.tag_type, 9);
            assert_eq!(tag.data(), &[0x17, 0x01, 0xAA]);
            assert!(is_video_keyframe(tag));
            assert_eq!(parse_flv_timestamp(tag), 40);
        }
        _ => panic!("second item is not a tag"),
    }
    assert!(parser.buffer.is_empty());
}

#[test]
fn partial_frame_stays_buffered() {
    let mut parser = FlvStreamParser::new();
    let mut bytes = stream_header();
    let tag = frame(9, 7, &[0x27, 0x01]);
    bytes.extend_from_slice(&tag[..5]);
    let items = parser.push(&bytes).unwrap();
    assert_eq!(items.len(), 1);
    assert_eq!(parser.buffer, tag[..5].to_vec());
    let items = parser.push(&tag[5..]).unwrap();
    assert_eq!(items.len(), 1);
    assert!(parser.buffer.is_empty());
}

#[test]
fn wrong_signature_is_refused() {
    let mut parser = FlvStreamParser::new();
    assert_eq!(parser.push(b"FL").unwrap().len(), 0);
    assert_eq!(parser.push(b"X").unwrap_err(), FlvError::HeaderMismatch);
}

#[test]
fn u24_reads_big_endian() {
    assert_eq!(read_u24_be(&[0x01, 0x02, 0x03]), 0x010203);
    assert_eq!(read_u24_be(&[0x01, 0x02]), 0);
}

#[test]
fn timestamp_uses_extension_byte_as_high_byte() {
    let tag = FlvTag::from_frame(frame(9, 0x0102_0304, &[0x17])).unwrap();
    assert_eq!(parse_flv_timestamp(&tag), 0x0102_0304);
}

#[test]
fn pushing_in_pieces_yields_the_same_events() {
    let mut bytes = stream_header();
    bytes.extend(frame(18, 0, &[2, 0, 10]));
    bytes.extend(frame(9, 10, &[0x17, 0, 1, 2, 3]));
    bytes.extend(frame(8, 12, &[0xAF, 0, 0x12]));
    bytes.extend(frame(9, 50, &[0x27, 1, 9]));
    let mut whole = FlvStreamParser::new();
    let expected: Vec<Vec<u8>> = whole
        .push(&bytes)
        .unwrap()
        .into_iter()
        .map(|item| match item {
            FlvParsedItem::Header(h) => h,
            FlvParsedItem::Tag(t) => t.bytes,
        })
        .collect();
    assert_eq!(expected.len(), 5);
    for cut in 0..bytes.len() {
        let mut parser = FlvStreamParser::new();
        let mut got: Vec<Vec<u8>> = Vec::new();
        for part in [&bytes[..cut], &bytes[cut..]] {
            for item in parser.push(part).unwrap() {
                got.push(match item {
                    FlvParsedItem::Header(h) => h,
                    FlvParsedItem::Tag(t) => t.bytes,
                });
            }
        }
        assert_eq!(got, expected, "cut at {}", cut);
        assert!(parser.buffer.is_empty());
    }
}

#[test]
fn from_frame_checks_the_declared_length() {
    let good = frame(9, 1, &[0x17, 1]);
    assert!(FlvTag::from_frame(good.clone()).is_some());
    let mut short = good.clone();
    short.pop();
    assert!(FlvTag::from_frame(short).is_none());
    assert!(FlvTag::from_frame(vec![9, 0, 0]).is_none());
}

#[test]
fn keyframe_needs_video_type_and_frame_type_one() {
    let key = FlvTag::from_frame(frame(9, 0, &[0x17, 1])).unwrap();
    let inter = FlvTag::from_frame(frame(9, 0, &[0x27, 1])).unwrap();
    let audio = FlvTag::from_frame(frame(8, 0, &[0x17, 1])).unwrap();
    let empty = FlvTag::from_frame(frame(9, 0, &[])).unwrap();
    assert!(is_video_keyframe(&key));
    assert!(!is_video_keyframe(&inter));
    assert!(!is_video_keyframe(&audio));
    assert!(!is_video_keyframe(&empty));
}
