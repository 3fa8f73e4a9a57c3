//! Reading what the platform says of a room: its state, the addresses of its
//! stream, and where its chat is served.

use vstd::prelude::*;
use crate::json::{
    array_len_at, get_array_len, get_i64, get_text, i64_at, item_pointer, json_nodes,
    make_item_pointer, text_at, JsonNode,
};
use crate::records::opt_chars;
use crate::runtime::LiveRoomInfo;
use crate::text::{push_signed_decimal, signed_decimal, signed_decimal_string};

verus! {

/// The chat is served over a plain stream socket.
pub const TRANSPORT_TCP: i64 = 1;

/// The chat is served over a web socket.
pub const TRANSPORT_WS: i64 = 2;

/// The chat is served over a secure web socket.
pub const TRANSPORT_WSS: i64 = 3;

/// The title of a room that names none.
pub open spec fn default_title() -> Seq<char> {
    "直播标题"@
}

/// A number as text, or `fallback` where there is no number.
pub open spec fn number_text(n: Option<int>, fallback: Seq<char>) -> Seq<char> {
    match n {
        Some(v) => signed_decimal(v),
        None => fallback,
    }
}

/// Reads what the platform says of a room. The room's id is the one that
/// the answer names, else the one that was asked for.
pub fn parse_room_info(data: &serde_json::Value, room_id: &str) -> (r: LiveRoomInfo)
    ensures
        r.room_id@ == number_text(i64_at(json_nodes(*data), "/room_id"@), room_id@),
        r.uid@ == number_text(i64_at(json_nodes(*data), "/uid"@), "0"@),
        r.live_status == match i64_at(json_nodes(*data), "/live_status"@) {
            Some(s) => s,
            None => 0,
        },
        r.title@ == match text_at(json_nodes(*data), "/title"@) {
            Some(t) => t,
            None => default_title(),
        },
        opt_chars(r.cover) == text_at(json_nodes(*data), "/user_cover"@),
        opt_chars(r.area_name) == text_at(json_nodes(*data), "/area_name"@),
        opt_chars(r.parent_area_name) == text_at(json_nodes(*data), "/parent_area_name"@),
{
    let room = match get_i64(data, "/room_id") {
        Some(n) => signed_decimal_string(n),
        None => String::from_str(room_id),
    };
    let uid = match get_i64(data, "/uid") {
        Some(n) => signed_decimal_string(n),
        None => String::from_str("0"),
    };
    let live_status = match get_i64(data, "/live_status") {
        Some(s) => s,
        None => 0,
    };
    let title = match get_text(data, "/title") {
        Some(t) => t,
        None => String::from_str("直播标题"),
    };
    LiveRoomInfo {
        room_id: room,
        uid,
        live_status,
        title,
        cover: get_text(data, "/user_cover"),
        area_name: get_text(data, "/area_name"),
        parent_area_name: get_text(data, "/parent_area_name"),
    }
}

/// Why an answer holds no playback address.
#[derive(Clone, Copy, Debug, PartialEq, Eq, Structural)]
pub enum StreamUrlError {
    /// The answer has no list of addresses.
    MissingList,
    /// The list names no address.
    EmptyList,
}

impl StreamUrlError {
    /// The message that the error is shown as.
    pub fn message(self) -> (r: &'static str)
        ensures
            self == StreamUrlError::MissingList ==> r@ == "缺少直播流地址"@,
            self == StreamUrlError::EmptyList ==> r@ == "直播流地址为空"@,
    {
        match self {
            StreamUrlError::MissingList => "缺少直播流地址",
            StreamUrlError::EmptyList => "直播流地址为空",
        }
    }
}

/// The addresses that the first `count` items of the list name, each once,
/// in the order in which they first occur.
pub open spec fn urls_upto(nodes: Map<Seq<char>, JsonNode>, count: nat) -> Seq<Seq<char>>
    decreases count,
{
    if count == 0 {
        Seq::empty()
    } else {
        let before = urls_upto(nodes, (count - 1) as nat);
        match text_at(nodes, item_pointer("/durl"@, (count - 1) as nat, "/url"@)) {
            Some(url) => if before.contains(url) {
                before
            } else {
                before.push(url)
            },
            None => before,
        }
    }
}

/// Reads the playback addresses out of an answer.
pub fn parse_stream_urls(data: &serde_json::Value) -> (r: Result<Vec<String>, StreamUrlError>)
    ensures
        match r {
            Ok(urls) => array_len_at(json_nodes(*data), "/durl"@) is Some
                && crate::upload_queue::texts_of(urls@) == urls_upto(
                json_nodes(*data),
                array_len_at(json_nodes(*data), "/durl"@)->0,
            ) && urls@.len() > 0,
            Err(StreamUrlError::MissingList) => array_len_at(json_nodes(*data), "/durl"@) is None,
            Err(StreamUrlError::EmptyList) => array_len_at(json_nodes(*data), "/durl"@) is Some
                && urls_upto(json_nodes(*data), array_len_at(json_nodes(*data), "/durl"@)->0).len()
                == 0,
        },
{
    let count = match get_array_len(data, "/durl") {
        Some(n) => n,
        None => {
            return Err(StreamUrlError::MissingList);
        },
    };
    let mut urls: Vec<String> = Vec::new();
    assert(crate::upload_queue::texts_of(urls@) =~= Seq::<Seq<char>>::empty());
    let mut i: usize = 0;
    while i < count
        invariant
            i <= count,
            crate::upload_queue::texts_of(urls@) == urls_upto(json_nodes(*data), i as nat),
        decreases count - i,
    {
        let pointer = make_item_pointer("/durl", i, "/url");
        if let Some(url) = get_text(data, pointer.as_str()) {
            let ghost before = urls@;
            let known = crate::edit::contains_text(&urls, url.as_str());
            proof {
                let texts = crate::upload_queue::texts_of(before);
                if known {
                    let j = choose|j: int| 0 <= j < before.len() && (#[trigger] before[j])@ == url@;
                    assert(texts[j] == url@);
                } else {
                    if texts.contains(url@) {
                        let j = choose|j: int| 0 <= j < texts.len() && texts[j] == url@;
                        assert(before[j]@ == url@);
                    }
                }
            }
            if !known {
                urls.push(url);
                assert(crate::upload_queue::texts_of(urls@) =~= crate::upload_queue::texts_of(
                    before,
                ).push(url@));
            }
        }
        i += 1;
    }
    if urls.len() == 0 {
        assert(crate::upload_queue::texts_of(urls@).len() == 0);
        return Err(StreamUrlError::EmptyList);
    }
    Ok(urls)
}

/// Where the chat of a room is served.
#[derive(Debug)]
pub struct DanmakuHost {
    pub host: String,
    pub wss_port: i64,
    pub ws_port: i64,
    pub tcp_port: i64,
    pub token: String,
}

/// Reads where the chat of a room is served: the first host of the list,
/// with its three ports, and the token. What is missing is empty or zero.
pub fn parse_danmaku_host(data: &serde_json::Value) -> (r: DanmakuHost)
    ensures
        r.host@ == crate::records::chars_or_empty_seq(
            text_at(json_nodes(*data), "/host_list/0/host"@),
        ),
        r.wss_port == match i64_at(json_nodes(*data), "/host_list/0/wss_port"@) {
            Some(p) => p,
            None => 0,
        },
        r.ws_port == match i64_at(json_nodes(*data), "/host_list/0/ws_port"@) {
            Some(p) => p,
            None => 0,
        },
        r.tcp_port == match i64_at(json_nodes(*data), "/host_list/0/port"@) {
            Some(p) => p,
            None => 0,
        },
        r.token@ == crate::records::chars_or_empty_seq(text_at(json_nodes(*data), "/token"@)),
{
    DanmakuHost {
        host: match get_text(data, "/host_list/0/host") {
            Some(h) => h,
            None => String::new(),
        },
        wss_port: match get_i64(data, "/host_list/0/wss_port") {
            Some(p) => p,
            None => 0,
        },
        ws_port: match get_i64(data, "/host_list/0/ws_port") {
            Some(p) => p,
            None => 0,
        },
        tcp_port: match get_i64(data, "/host_list/0/port") {
            Some(p) => p,
            None => 0,
        },
        token: match get_text(data, "/token") {
            Some(t) => t,
            None => String::new(),
        },
    }
}

/// The kind of socket over which the chat is read.
#[derive(Clone, Copy, Debug, PartialEq, Eq, Structural)]
pub enum Transport {
    Tcp,
    Ws,
    Wss,
}

/// The kind of socket that is used: the one that the settings name, else
/// the first that the host serves in the order secure web socket, web
/// socket, stream socket.
pub open spec fn transport_for(setting: i64, wss_port: i64, ws_port: i64) -> Transport {
    if setting == TRANSPORT_TCP {
        Transport::Tcp
    } else if setting == TRANSPORT_WS {
        Transport::Ws
    } else if setting == TRANSPORT_WSS {
        Transport::Wss
    } else if wss_port > 0 {
        Transport::Wss
    } else if ws_port > 0 {
        Transport::Ws
    } else {
        Transport::Tcp
    }
}

/// The address of the chat socket.
pub open spec fn danmaku_address(transport: Transport, host: DanmakuHost) -> Seq<char> {
    match transport {
        Transport::Tcp => "tcp://"@ + host.host@ + ":"@ + signed_decimal(host.tcp_port as int),
        Transport::Ws => "ws://"@ + host.host@ + ":"@ + signed_decimal(host.ws_port as int)
            + "/sub"@,
        Transport::Wss => "wss://"@ + host.host@ + ":"@ + signed_decimal(host.wss_port as int)
            + "/sub"@,
    }
}

/// Chooses the kind of socket and builds its address.
pub fn danmaku_endpoint(setting: i64, host: &DanmakuHost) -> (r: (Transport, String))
    ensures
        r.0 == transport_for(setting, host.wss_port, host.ws_port),
        r.1@ == danmaku_address(r.0, *host),
{
    let transport = if setting == TRANSPORT_TCP {
        Transport::Tcp
    } else if setting == TRANSPORT_WS {
        Transport::Ws
    } else if setting == TRANSPORT_WSS {
        Transport::Wss
    } else if host.wss_port > 0 {
        Transport::Wss
    } else if host.ws_port > 0 {
        Transport::Ws
    } else {
        Transport::Tcp
    };
    let mut url = match transport {
        Transport::Tcp => String::from_str("tcp://"),
        Transport::Ws => String::from_str("ws://"),
        Transport::Wss => String::from_str("wss://"),
    };
    url.append(host.host.as_str());
    url.append(":");
    match transport {
        Transport::Tcp => {
            push_signed_decimal(&mut url, host.tcp_port);
        },
        Transport::Ws => {
            push_signed_decimal(&mut url, host.ws_port);
            url.append("/sub");
        },
        Transport::Wss => {
            push_signed_decimal(&mut url, host.wss_port);
            url.append("/sub");
        },
    }
    (transport, url)
}

/// What the authentication frame of the chat socket says.
#[derive(Debug)]
pub struct DanmakuAuth {
    pub uid: i64,
    pub roomid: i64,
    pub protover: i64,
    pub platform: String,
    pub kind: i64,
    pub key: String,
    pub buvid: Option<String>,
}

/// The number that a room id is, zero where it is none: decimal digits with
/// one sign allowed in front.
pub open spec fn room_number(room_id: Seq<char>) -> int {
    let negative = room_id.len() > 0 && room_id[0] == '-';
    let body = if room_id.len() > 0 && (room_id[0] == '-' || room_id[0] == '+') {
        room_id.skip(1)
    } else {
        room_id
    };
    if negative {
        match crate::text::parsed_number(body, 10, 9223372036854775808) {
            Some(v) => -(v as int),
            None => 0,
        }
    } else {
        match crate::text::parsed_number(body, 10, i64::MAX as nat) {
            Some(v) => v as int,
            None => 0,
        }
    }
}

/// Reads a room id as a number.
pub fn parse_room_number(room_id: &str) -> (r: i64)
    ensures
        r == room_number(room_id@),
{
    let chars = crate::text::chars_of(room_id);
    let n = chars.len();
    if n > 0 && chars[0] == '-' {
        assert(chars@.skip(1) =~= chars@.subrange(1, n as int));
        match crate::text::parse_number(&chars, 1, n, 10, 9223372036854775808u64) {
            Some(v) => if v == 9223372036854775808u64 {
                i64::MIN
            } else {
                -(v as i64)
            },
            None => 0,
        }
    } else if n > 0 && chars[0] == '+' {
        assert(chars@.skip(1) =~= chars@.subrange(1, n as int));
        match crate::text::parse_number(&chars, 1, n, 10, i64::MAX as u64) {
            Some(v) => v as i64,
            None => 0,
        }
    } else {
        assert(chars@ =~= chars@.subrange(0, n as int));
        match crate::text::parse_number(&chars, 0, n, 10, i64::MAX as u64) {
            Some(v) => v as i64,
            None => 0,
        }
    }
}

/// What the authentication frame says for a room: the user, the room,
/// protocol version 3, the web platform, type 2, the token as key, and the
/// browser id where one is known.
pub fn build_danmaku_auth(room_id: &str, token: &str, uid: i64, buvid3: Option<String>) -> (r:
    DanmakuAuth)
    ensures
        r.uid == uid,
        r.roomid == room_number(room_id@),
        r.protover == 3,
        r.platform@ == "web"@,
        r.kind == 2,
        r.key@ == token@,
        r.buvid == buvid3,
{
    DanmakuAuth {
        uid,
        roomid: parse_room_number(room_id),
        protover: 3,
        platform: String::from_str("web"),
        kind: 2,
        key: String::from_str(token),
        buvid: buvid3,
    }
}

} // verus!
