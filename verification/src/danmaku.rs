//! The chat socket's framing: packets with a 16-byte header, nested
//! compressed packets, and the choice of what is written to the sidecar log.

use vstd::prelude::*;
use crate::codec::{brotli_inflated, decompress_brotli, decompress_zlib, zlib_inflated};
use crate::json::{get_text, json_nodes, json_parsed, parse_json, text_at, JsonNode};
use crate::settings::LiveSettings;
use crate::text::{
    chars_of, copy_chars, is_split, split, split_ranges, starts_with, str_eq, trim_bounds, trimmed,
};

verus! {

/// Length of a packet header.
pub const PACKET_HEADER_LEN: usize = 16;

/// Operation code of a heartbeat.
pub const OP_HEARTBEAT: u32 = 2;

/// Operation code of a message from the room.
pub const OP_MESSAGE: u32 = 5;

/// Operation code of the authentication frame.
pub const OP_AUTH: u32 = 7;

/// Protocol version of a packet whose body is zlib-compressed packets.
pub const VERSION_ZLIB: u16 = 2;

/// Protocol version of a packet whose body is Brotli-compressed packets.
pub const VERSION_BROTLI: u16 = 3;

/// How deep compressed packets may be nested inside one another.
pub const MAX_NESTING: usize = 8;

/// Seconds between two heartbeats.
pub const HEARTBEAT_SECS: u64 = 30;

/// Why a payload could not be taken apart.
#[derive(Clone, Copy, Debug, PartialEq, Eq, Structural)]
pub enum DanmakuError {
    /// A body marked as zlib did not inflate.
    Zlib,
    /// A body marked as Brotli did not inflate.
    Brotli,
    /// Compressed packets were nested deeper than `MAX_NESTING`.
    TooDeep,
}

/// Four bytes from `at` on, read as a big-endian number.
pub open spec fn be32(data: Seq<u8>, at: int) -> nat {
    (data[at] as nat) * 16777216 + (data[at + 1] as nat) * 65536 + (data[at + 2] as nat) * 256 + (
    data[at + 3] as nat)
}

/// Two bytes from `at` on, read as a big-endian number.
pub open spec fn be16(data: Seq<u8>, at: int) -> nat {
    (data[at] as nat) * 256 + (data[at + 1] as nat)
}

/// The four bytes of `n`, most significant first.
pub open spec fn be32_bytes(n: u32) -> Seq<u8> {
    seq![(n / 16777216) as u8, ((n / 65536) % 256) as u8, ((n / 256) % 256) as u8, (n % 256) as u8]
}

/// The two bytes of `n`, most significant first.
pub open spec fn be16_bytes(n: u16) -> Seq<u8> {
    seq![(n / 256) as u8, (n % 256) as u8]
}

/// One packet, as plain values.
pub struct PacketSpec {
    pub op: u32,
    pub version: u16,
    pub body: Seq<u8>,
}

/// One packet of the chat socket.
#[derive(Debug)]
pub struct DanmakuPacket {
    pub op: u32,
    pub version: u16,
    pub body: Vec<u8>,
}

impl View for DanmakuPacket {
    type V = PacketSpec;

    open spec fn view(&self) -> PacketSpec {
        PacketSpec { op: self.op, version: self.version, body: self.body@ }
    }
}

/// The packets that a list stands for.
pub open spec fn packets_of(list: Seq<DanmakuPacket>) -> Seq<PacketSpec> {
    list.map_values(|p: DanmakuPacket| p@)
}

/// Whether a whole packet with a usable header lies in `data` at `at`: the
/// header fits, the packet is not empty, its header is not longer than the
/// packet, and the packet ends inside `data`.
pub open spec fn packet_ready(data: Seq<u8>, at: int) -> bool {
    &&& 0 <= at
    &&& at + PACKET_HEADER_LEN <= data.len()
    &&& be32(data, at) > 0
    &&& be16(data, at + 4) <= be32(data, at)
    &&& at + be32(data, at) <= data.len()
}

/// `first` followed by `rest`, or the first error of the two.
pub open spec fn chain(
    first: Result<Seq<PacketSpec>, DanmakuError>,
    rest: Result<Seq<PacketSpec>, DanmakuError>,
) -> Result<Seq<PacketSpec>, DanmakuError> {
    match first {
        Err(e) => Err(e),
        Ok(x) => match rest {
            Err(e) => Err(e),
            Ok(y) => Ok(x + y),
        },
    }
}

/// The packets in `data` from `at` on, with at most `depth` more levels of
/// compression unpacked.
///
/// Reading stops without error at the first place where no whole packet
/// lies. A packet of version 2 or 3 stands for the packets in its inflated
/// body; any other packet stands for itself.
pub open spec fn packets_from(data: Seq<u8>, at: int, depth: nat) -> Result<
    Seq<PacketSpec>,
    DanmakuError,
>
    decreases depth, data.len() - at,
{
    if !packet_ready(data, at) {
        Ok(Seq::empty())
    } else {
        let packet_len = be32(data, at);
        let header_len = be16(data, at + 4);
        let version = be16(data, at + 6);
        let op = be32(data, at + 8);
        let body = data.subrange(at + header_len, at + packet_len);
        let here = if version == VERSION_ZLIB {
            if depth == 0 {
                Err(DanmakuError::TooDeep)
            } else {
                match zlib_inflated(body) {
                    None => Err(DanmakuError::Zlib),
                    Some(inner) => packets_from(inner, 0, (depth - 1) as nat),
                }
            }
        } else if version == VERSION_BROTLI {
            if depth == 0 {
                Err(DanmakuError::TooDeep)
            } else {
                match brotli_inflated(body) {
                    None => Err(DanmakuError::Brotli),
                    Some(inner) => packets_from(inner, 0, (depth - 1) as nat),
                }
            }
        } else {
            Ok(seq![PacketSpec { op: op as u32, version: version as u16, body }])
        };
        match here {
            Err(e) => Err(e),
            Ok(_) => chain(here, packets_from(data, at + packet_len, depth)),
        }
    }
}

/// Reads four bytes at `at` as a big-endian number.
pub fn read_be32(data: &[u8], at: usize) -> (r: u32)
    requires
        at + 4 <= data.len(),
    ensures
        r == be32(data@, at as int),
{
    (data[at] as u32) * 16777216 + (data[at + 1] as u32) * 65536 + (data[at + 2] as u32) * 256 + (
    data[at + 3] as u32)
}

/// Reads two bytes at `at` as a big-endian number.
pub fn read_be16(data: &[u8], at: usize) -> (r: u16)
    requires
        at + 2 <= data.len(),
    ensures
        r == be16(data@, at as int),
{
    (data[at] as u16) * 256 + (data[at + 1] as u16)
}

/// The packets in `data`, compressed ones unpacked up to `depth` levels.
pub fn parse_nested(data: &[u8], depth: usize) -> (r: Result<Vec<DanmakuPacket>, DanmakuError>)
    ensures
        match r {
            Ok(list) => packets_from(data@, 0, depth as nat) == Ok::<Seq<PacketSpec>, DanmakuError>(
                packets_of(list@),
            ),
            Err(e) => packets_from(data@, 0, depth as nat) == Err::<Seq<PacketSpec>, DanmakuError>(
                e,
            ),
        },
    decreases depth,
{
    let mut packets: Vec<DanmakuPacket> = Vec::new();
    let mut offset: usize = 0;
    assert(packets_of(packets@) =~= Seq::<PacketSpec>::empty());
    loop
        invariant
            offset <= data.len(),
            packets_from(data@, 0, depth as nat) == chain(
                Ok(packets_of(packets@)),
                packets_from(data@, offset as int, depth as nat),
            ),
        ensures
            packets_from(data@, 0, depth as nat) == Ok::<Seq<PacketSpec>, DanmakuError>(
                packets_of(packets@),
            ),
        decreases data.len() - offset,
    {
        let ghost tail = packets_from(data@, offset as int, depth as nat);
        let ghost so_far = packets_of(packets@);
        if data.len() - offset < PACKET_HEADER_LEN {
            assert(so_far + Seq::<PacketSpec>::empty() =~= so_far);
            break;
        }
        let packet_len = read_be32(data, offset) as u64;
        let header_len = read_be16(data, offset + 4) as u64;
        let version = read_be16(data, offset + 6);
        let op = read_be32(data, offset + 8);
        if packet_len == 0 || header_len > packet_len || packet_len > (data.len() - offset) as u64 {
            assert(so_far + Seq::<PacketSpec>::empty() =~= so_far);
            break;
        }
        assert(packet_ready(data@, offset as int));
        let body_start = offset + header_len as usize;
        let body_end = offset + packet_len as usize;
        let body = crate::flv::copy_range(data, body_start, body_end);
        let ghost next_tail = packets_from(data@, offset + packet_len, depth as nat);
        if version == VERSION_ZLIB || version == VERSION_BROTLI {
            if depth == 0 {
                return Err(DanmakuError::TooDeep);
            }
            let inflated = if version == VERSION_ZLIB {
                decompress_zlib(body.as_slice())
            } else {
                decompress_brotli(body.as_slice())
            };
            match inflated {
                None => {
                    if version == VERSION_ZLIB {
                        return Err(DanmakuError::Zlib);
                    } else {
                        return Err(DanmakuError::Brotli);
                    }
                },
                Some(inner) => {
                    match parse_nested(inner.as_slice(), depth - 1) {
                        Err(e) => {
                            return Err(e);
                        },
                        Ok(mut list) => {
                            let ghost added = packets_of(list@);
                            let ghost before = packets@;
                            let ghost moved = list@;
                            packets.append(&mut list);
                            proof {
                                assert(packets@ == before + moved);
                                assert(packets_of(packets@) =~= so_far + added);
                                assert(tail == chain(Ok(added), next_tail));
                                match next_tail {
                                    Ok(y) => {
                                        assert((so_far + added) + y =~= so_far + (added + y));
                                    },
                                    Err(_) => {},
                                }
                            }
                        },
                    }
                },
            }
        } else {
            let ghost before = packets@;
            let packet = DanmakuPacket { op, version, body };
            packets.push(packet);
            proof {
                let one = seq![packet@];
                assert(packets_of(packets@) =~= so_far + one);
                assert(tail == chain(Ok(one), next_tail));
                match next_tail {
                    Ok(y) => {
                        assert((so_far + one) + y =~= so_far + (one + y));
                    },
                    Err(_) => {},
                }
            }
        }
        offset = body_end;
    }
    Ok(packets)
}

/// The packets in a payload read from the socket, compressed ones unpacked.
pub fn parse_danmaku_packets(data: &[u8]) -> (r: Result<Vec<DanmakuPacket>, DanmakuError>)
    ensures
        match r {
            Ok(list) => packets_from(data@, 0, MAX_NESTING as nat) == Ok::<
                Seq<PacketSpec>,
                DanmakuError,
            >(packets_of(list@)),
            Err(e) => packets_from(data@, 0, MAX_NESTING as nat) == Err::<
                Seq<PacketSpec>,
                DanmakuError,
            >(e),
        },
{
    parse_nested(data, MAX_NESTING)
}

/// The frame of a packet that this client sends: total length, header
/// length 16, version 1, the operation, sequence number 1, then the body.
pub open spec fn framed(op: u32, body: Seq<u8>) -> Seq<u8> {
    be32_bytes((PACKET_HEADER_LEN + body.len()) as u32) + be16_bytes(PACKET_HEADER_LEN as u16)
        + be16_bytes(1) + be32_bytes(op) + be32_bytes(1) + body
}

/// Appends the four bytes of `n`, most significant first.
pub fn push_be32(out: &mut Vec<u8>, n: u32)
    ensures
        final(out)@ == old(out)@ + be32_bytes(n),
{
    out.push((n / 16777216) as u8);
    out.push(((n / 65536) % 256) as u8);
    out.push(((n / 256) % 256) as u8);
    out.push((n % 256) as u8);
    assert(out@ =~= old(out)@ + be32_bytes(n));
}

/// Appends the two bytes of `n`, most significant first.
pub fn push_be16(out: &mut Vec<u8>, n: u16)
    ensures
        final(out)@ == old(out)@ + be16_bytes(n),
{
    out.push((n / 256) as u8);
    out.push((n % 256) as u8);
    assert(out@ =~= old(out)@ + be16_bytes(n));
}

/// Frames `body` as a packet with operation `op`.
pub fn build_danmaku_packet(op: u32, body: Vec<u8>) -> (r: Vec<u8>)
    requires
        PACKET_HEADER_LEN + body.len() <= u32::MAX,
    ensures
        r@ == framed(op, body@),
{
    let packet_len = (PACKET_HEADER_LEN + body.len()) as u32;
    let mut buf: Vec<u8> = Vec::new();
    push_be32(&mut buf, packet_len);
    push_be16(&mut buf, PACKET_HEADER_LEN as u16);
    push_be16(&mut buf, 1);
    push_be32(&mut buf, op);
    push_be32(&mut buf, 1);
    crate::flv::append_bytes(&mut buf, &body);
    assert(buf@ =~= framed(op, body@));
    buf
}

/// Frames `body` as a packet, or gives `None` where the packet would be
/// longer than its length field can say.
pub fn frame_packet(op: u32, body: Vec<u8>) -> (r: Option<Vec<u8>>)
    ensures
        match r {
            Some(bytes) => PACKET_HEADER_LEN + body.len() <= u32::MAX && bytes@ == framed(
                op,
                body@,
            ),
            None => PACKET_HEADER_LEN + body.len() > u32::MAX,
        },
{
    if body.len() > u32::MAX as usize - PACKET_HEADER_LEN {
        None
    } else {
        Some(build_danmaku_packet(op, body))
    }
}

/// Reading the four bytes of a number gives the number back.
pub proof fn lemma_be32_round_trip(n: u32, more: Seq<u8>)
    ensures
        be32(be32_bytes(n) + more, 0) == n,
{
    let s = be32_bytes(n) + more;
    assert(s[0] == (n / 16777216) as u8);
    assert(s[1] == ((n / 65536) % 256) as u8);
    assert(s[2] == ((n / 256) % 256) as u8);
    assert(s[3] == (n % 256) as u8);
}

/// A packet that this client framed reads back as itself: one packet of
/// version 1 with the same operation and body.
pub proof fn lemma_framed_round_trip(op: u32, body: Seq<u8>, depth: nat)
    requires
        PACKET_HEADER_LEN + body.len() <= u32::MAX,
    ensures
        packets_from(framed(op, body), 0, depth) == Ok::<Seq<PacketSpec>, DanmakuError>(
            seq![PacketSpec { op, version: 1, body }],
        ),
{
    let data = framed(op, body);
    let total = (PACKET_HEADER_LEN + body.len()) as u32;
    let a = be32_bytes(total);
    let b = be16_bytes(PACKET_HEADER_LEN as u16);
    let c = be16_bytes(1);
    let d = be32_bytes(op);
    let e = be32_bytes(1);
    assert(data.len() == PACKET_HEADER_LEN + body.len());
    assert(data[0] == a[0] && data[1] == a[1] && data[2] == a[2] && data[3] == a[3]);
    assert(data[4] == b[0] && data[5] == b[1]);
    assert(data[6] == c[0] && data[7] == c[1]);
    assert(data[8] == d[0] && data[9] == d[1] && data[10] == d[2] && data[11] == d[3]);
    assert(be32(data, 0) == total);
    assert(be16(data, 4) == PACKET_HEADER_LEN);
    assert(be16(data, 6) == 1);
    assert(be32(data, 8) == op);
    assert(data.subrange(PACKET_HEADER_LEN as int, total as int) =~= body);
    assert(packet_ready(data, 0));
    assert(!packet_ready(data, total as int));
    let one = seq![PacketSpec { op, version: 1, body }];
    assert(one + Seq::<PacketSpec>::empty() =~= one);
    assert(packets_from(data, total as int, depth) == Ok::<Seq<PacketSpec>, DanmakuError>(
        Seq::empty(),
    ));
    assert(packets_from(data, 0, depth) == chain(Ok(one), packets_from(data, total as int, depth)));
}

/// The length of the body that follows a 16-byte header on a stream socket:
/// the packet length less the header length, or `None` where the header
/// claims to be longer than the packet.
pub fn frame_body_len(header: &[u8]) -> (r: Option<usize>)
    requires
        header.len() == PACKET_HEADER_LEN,
    ensures
        match r {
            Some(n) => be16(header@, 4) <= be32(header@, 0) && n == be32(header@, 0) - be16(
                header@,
                4,
            ),
            None => be16(header@, 4) > be32(header@, 0) || be32(header@, 0) - be16(header@, 4)
                > usize::MAX,
        },
{
    let packet_len = read_be32(header, 0) as u64;
    let header_len = read_be16(header, 4) as u64;
    if header_len > packet_len {
        return None;
    }
    let n = packet_len - header_len;
    if n > usize::MAX as u64 {
        return None;
    }
    Some(n as usize)
}

/// Whether the settings ask for any kind of chat message.
pub fn should_record_danmaku(settings: &LiveSettings) -> (r: bool)
    ensures
        r == settings.records_chat(),
{
    settings.record_danmaku || settings.record_danmaku_raw || settings.record_danmaku_superchat
        || settings.record_danmaku_gift || settings.record_danmaku_guard
}

/// Whether a message with command `cmd` is written: everything when raw
/// recording is on, else chat, super chat, gifts and guard purchases each by
/// their own flag.
pub open spec fn command_wanted(cmd: Seq<char>, settings: LiveSettings) -> bool {
    if settings.record_danmaku_raw {
        true
    } else if cmd == "DANMU_MSG"@ {
        settings.record_danmaku
    } else if cmd == "SUPER_CHAT_MESSAGE"@ || cmd == "SUPER_CHAT_MESSAGE_JPN"@ {
        settings.record_danmaku_superchat
    } else if cmd == "SEND_GIFT"@ {
        settings.record_danmaku_gift
    } else if cmd == "GUARD_BUY"@ || cmd == "USER_TOAST_MSG"@ {
        settings.record_danmaku_guard
    } else {
        false
    }
}

/// Decides whether a message with command `cmd` is written.
pub fn should_write_command(cmd: &str, settings: &LiveSettings) -> (r: bool)
    ensures
        r == command_wanted(cmd@, *settings),
{
    if settings.record_danmaku_raw {
        true
    } else if str_eq(cmd, "DANMU_MSG") {
        settings.record_danmaku
    } else if str_eq(cmd, "SUPER_CHAT_MESSAGE") || str_eq(cmd, "SUPER_CHAT_MESSAGE_JPN") {
        settings.record_danmaku_superchat
    } else if str_eq(cmd, "SEND_GIFT") {
        settings.record_danmaku_gift
    } else if str_eq(cmd, "GUARD_BUY") || str_eq(cmd, "USER_TOAST_MSG") {
        settings.record_danmaku_guard
    } else {
        false
    }
}

/// Whether a packet carries a message of the room.
pub fn is_room_message(packet: &DanmakuPacket) -> (r: bool)
    ensures
        r == (packet.op == OP_MESSAGE),
{
    packet.op == OP_MESSAGE
}

/// What is done with one message of the room.
#[derive(Debug, PartialEq, Eq)]
pub enum MessageAction {
    /// Nothing is written.
    Skip,
    /// The message is written as a record with its command.
    WriteRecord { cmd: String },
    /// The text is written as it came.
    WriteRaw,
}

/// What is done with a message, as plain values.
pub enum MessageActionSpec {
    Skip,
    WriteRecord { cmd: Seq<char> },
    WriteRaw,
}

impl View for MessageAction {
    type V = MessageActionSpec;

    open spec fn view(&self) -> MessageActionSpec {
        match self {
            MessageAction::Skip => MessageActionSpec::Skip,
            MessageAction::WriteRecord { cmd } => MessageActionSpec::WriteRecord { cmd: cmd@ },
            MessageAction::WriteRaw => MessageActionSpec::WriteRaw,
        }
    }
}

/// The command of a parsed message: the string under `cmd`, or the empty
/// string.
pub open spec fn command_of(nodes: Map<Seq<char>, JsonNode>) -> Seq<char> {
    match text_at(nodes, "/cmd"@) {
        Some(cmd) => cmd,
        None => Seq::empty(),
    }
}

/// What is done with a message whose text parsed to `parsed`: a JSON
/// message is written as a record where its command is wanted; a text that
/// is no JSON is written raw where raw recording is on.
pub open spec fn message_action(
    parsed: Option<Map<Seq<char>, JsonNode>>,
    settings: LiveSettings,
) -> MessageActionSpec {
    match parsed {
        Some(nodes) => if command_wanted(command_of(nodes), settings) {
            MessageActionSpec::WriteRecord { cmd: command_of(nodes) }
        } else {
            MessageActionSpec::Skip
        },
        None => if settings.record_danmaku_raw {
            MessageActionSpec::WriteRaw
        } else {
            MessageActionSpec::Skip
        },
    }
}

/// Decides what is done with the message that `doc` is, or with a text that
/// did not parse (`None`).
pub fn decide_message(doc: Option<&serde_json::Value>, settings: &LiveSettings) -> (r:
    MessageAction)
    ensures
        r@ == message_action(
            match doc {
                Some(d) => Some(json_nodes(*d)),
                None => None,
            },
            *settings,
        ),
{
    match doc {
        Some(d) => {
            let cmd = match get_text(d, "/cmd") {
                Some(cmd) => cmd,
                None => String::new(),
            };
            if should_write_command(cmd.as_str(), settings) {
                MessageAction::WriteRecord { cmd }
            } else {
                MessageAction::Skip
            }
        },
        None => {
            if settings.record_danmaku_raw {
                MessageAction::WriteRaw
            } else {
                MessageAction::Skip
            }
        },
    }
}

/// Decides what is done with a message of the room, given as text.
pub fn classify_message(text: &str, settings: &LiveSettings) -> (r: MessageAction)
    ensures
        r@ == message_action(json_parsed(text@), *settings),
{
    let doc = parse_json(text);
    decide_message(doc.as_ref(), settings)
}

/// The value of the first cookie among `pieces` whose trimmed text begins
/// with `needle`.
pub open spec fn first_cookie(pieces: Seq<Seq<char>>, needle: Seq<char>) -> Option<Seq<char>>
    decreases pieces.len(),
{
    if pieces.len() == 0 {
        None
    } else if starts_with(trimmed(pieces[0]), needle) {
        Some(trimmed(pieces[0]).skip(needle.len() as int))
    } else {
        first_cookie(pieces.drop_first(), needle)
    }
}

/// The value of cookie `key` in a cookie header: the pieces between `;` are
/// trimmed, and the first that begins with `key=` gives the value.
pub open spec fn cookie_value(cookie: Seq<char>, key: Seq<char>) -> Option<Seq<char>> {
    first_cookie(split(cookie, ';'), key + seq!['='])
}

/// Looks up cookie `key` in a cookie header.
pub fn extract_cookie_value(cookie: &str, key: &str) -> (r: Option<String>)
    ensures
        crate::json::opt_text(r) == cookie_value(cookie@, key@),
{
    let chars = chars_of(cookie);
    let mut needle = chars_of(key);
    needle.push('=');
    assert(needle@ =~= key@ + seq!['=']);
    let ranges = split_ranges(&chars, ';');
    let ghost pieces = split(cookie@, ';');
    assert(pieces.skip(0) =~= pieces);
    let mut i: usize = 0;
    while i < ranges.len()
        invariant
            i <= ranges.len(),
            chars@ == cookie@,
            needle@ == key@ + seq!['='],
            pieces == split(cookie@, ';'),
            is_split(chars@, ';', ranges@),
            first_cookie(pieces, needle@) == first_cookie(pieces.skip(i as int), needle@),
        decreases ranges.len() - i,
    {
        let (a, b) = ranges[i];
        let piece = copy_chars(&chars, a, b);
        assert(piece@ == pieces[i as int]);
        let (ta, tb) = trim_bounds(&piece);
        let part = copy_chars(&piece, ta, tb);
        let ghost rest = pieces.skip(i as int);
        assert(rest[0] == pieces[i as int]);
        assert(rest.drop_first() =~= pieces.skip(i + 1));
        assert(part@ == trimmed(pieces[i as int]));
        if crate::text::chars_occur_at(&part, &needle, 0) {
            let from = a + ta + needle.len();
            let value = cookie.substring_char(from, a + tb);
            assert(value@ =~= trimmed(pieces[i as int]).skip(needle.len() as int));
            assert(first_cookie(rest, needle@) == Some(value@));
            return Some(String::from_str(value));
        }
        assert(first_cookie(rest, needle@) == first_cookie(rest.drop_first(), needle@));
        i += 1;
    }
    assert(pieces.skip(ranges.len() as int) =~= Seq::<Seq<char>>::empty());
    None
}

} // verus!
