use reaction_cut::flv::{
    is_audio_header, is_video_header, normalize_header_tag, FlvError, FlvHeaderCache, FlvTag,
};

fn frame(tag_type: u8, timestamp: u32, payload: &[u8]) -> Vec<u8> {
    let mut out = vec![tag_type];
    let n = payload.len() as u32;
    out.extend_from_slice(&[(n >> 16) as u8, (n >> 8) as u8, n as u8]);
    out.extend_from_slice(&[(timestamp >> 16) as u8, (timestamp >> 8) as u8, timestamp as u8]);
    out.push((timestamp >> 24) as u8);
    out.extend_from_slice(&[0, 0, 0]);
    out.extend_from_slice(payload);
    out.extend_from_slice(&(11 + n).to_be_bytes());
    out
}

fn tag(tag_type: u8, timestamp: u32, payload: &[u8]) -> FlvTag {
    FlvTag::from_frame(frame(tag_type, timestamp, payload)).unwrap()
}

#[test]
fn codec_config_classifiers() {
    assert!(is_audio_header(&[0xAF, 0x00], true));
    assert!(!is_audio_header(&[0xAF, 0x01], false));
    assert!(is_audio_header(&[0x2F, 0x01], false));
    assert!(!is_audio_header(&[0x2F, 0x01], true));
    assert!(!is_audio_header(&[0xAF], false));
    assert!(is_video_header(&[0x17, 0x00], true));
    assert!(!is_video_header(&[0x17, 0x01], false));
    assert!(is_video_header(&[0x1C, 0x00], true));
    assert!(is_video_header(&[0x12, 0x05], false));
    assert!(!is_video_header(&[0x12, 0x05], true));
    assert!(!is_video_header(&[], false));
}

#[test]
fn normalizing_zeroes_the_timestamp_only() {
    let raw = frame(9, 0x0A0B0C0D, &[0x17, 0]);
    let normalized = normalize_header_tag(&raw);
    assert_eq!(&normalized[4..8], &[0, 0, 0, 0]);
    assert_eq!(&normalized[..4], &raw[..4]);
    assert_eq!(&normalized[8..], &raw[8..]);
    assert_eq!(normalize_header_tag(&[1, 2, 3, 4, 5, 6, 7, 8]), vec![1, 2, 3, 4, 5, 6, 7, 8]);
}

#[test]
fn preamble_needs_a_header() {
    let cache = FlvHeaderCache::new();
    assert!(!cache.has_header());
    assert_eq!(cache.write_preamble().unwrap_err(), FlvError::MissingHeader);
}

#[test]
fn preamble_is_header_script_video_audio_with_zero_timestamps() {
    let header = vec![b'F', b'L', b'V', 1, 5, 0, 0, 0, 9, 0, 0, 0, 0];
    let mut cache = FlvHeaderCache::new();
    cache.set_header(header.clone());
    assert!(cache.has_header());
    let audio = tag(8, 77, &[0xAF, 0x00, 0x12]);
    let video = tag(9, 78, &[0x17, 0x00, 0x64]);
    let script = tag(18, 79, &[2, 0, 10]);
    let script_later = tag(18, 99, &[2, 0, 11]);
    let video_frame = tag(9, 120, &[0x17, 0x01, 0x11]);
    cache.update_from_tag(&audio);
    cache.update_from_tag(&video);
    cache.update_from_tag(&script);
    cache.update_from_tag(&script_later);
    cache.update_from_tag(&video_frame);
    let mut expected = header;
    expected.extend(script_later.bytes.clone());
    expected.extend(normalize_header_tag(&video.bytes));
    expected.extend(normalize_header_tag(&audio.bytes));
    assert_eq!(cache.write_preamble().unwrap(), expected);
}

#[test]
fn the_most_recent_script_tag_is_kept_as_it_is() {
    let header = vec![b'F', b'L', b'V', 1, 5, 0, 0, 0, 9, 0, 0, 0, 0];
    let mut cache = FlvHeaderCache::new();
    cache.set_header(header.clone());
    let first = tag(18, 5, &[2, 0, 10]);
    let second = tag(18, 0x01020304, &[2, 0, 11]);
    cache.update_from_tag(&first);
    assert_eq!(cache.write_preamble().unwrap(), [header.clone(), first.bytes.clone()].concat());
    cache.update_from_tag(&second);
    let preamble = cache.write_preamble().unwrap();
    assert_eq!(preamble, [header, second.bytes.clone()].concat());
    assert_eq!(&preamble[13 + 4..13 + 8], &[0x02, 0x03, 0x04, 0x01]);
}

#[test]
fn newer_codec_config_replaces_the_older() {
    let mut cache = FlvHeaderCache::new();
    cache.set_header(vec![b'F', b'L', b'V', 1, 5, 0, 0, 0, 9, 0, 0, 0, 0]);
    cache.update_from_tag(&tag(9, 1, &[0x17, 0x00, 1]));
    let newer = tag(9, 2, &[0x17, 0x00, 2]);
    cache.update_from_tag(&newer);
    let preamble = cache.write_preamble().unwrap();
    assert_eq!(preamble[13..], normalize_header_tag(&newer.bytes)[..]);
}
