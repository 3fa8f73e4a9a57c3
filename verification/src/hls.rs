//! Recording a playlist stream through the transcoder: its arguments and
//! what its exit means for the recording.

use vstd::prelude::*;
use crate::records::RecordStatus;
use crate::runtime::LIVE_STATUS_ON_AIR;
use crate::text::{trim, trimmed};

verus! {

/// Milliseconds between two looks at the transcoder.
pub const CHILD_POLL_MS: u64 = 500;

/// The key that asks the transcoder to stop.
pub const STOP_KEY: u8 = 0x71;

/// The user agent that requests for streams carry.
pub const STREAM_USER_AGENT: &'static str =
    "Mozilla/5.0 (Windows NT 10.0; Win64; x64) AppleWebKit/537.36";

/// Whether an address is that of a playlist stream.
pub fn is_hls_url(url: &str) -> (r: bool)
    ensures
        r == crate::text::contains(url@, ".m3u8"@),
{
    crate::text::str_contains(url, ".m3u8")
}

/// The address of the room's page, which requests for its stream name as
/// their referer.
pub open spec fn room_referer(room_id: Seq<char>) -> Seq<char> {
    "https://live.bilibili.com/"@ + room_id
}

/// Builds the address of the room's page.
pub fn build_room_referer(room_id: &str) -> (r: String)
    ensures
        r@ == room_referer(room_id@),
{
    let mut out = String::from_str("https://live.bilibili.com/");
    out.append(room_id);
    out
}

/// The arguments with which the transcoder records the playlist stream
/// `stream_url` of room `room_id` into `file_path`.
pub open spec fn playlist_arguments(
    room_id: Seq<char>,
    stream_url: Seq<char>,
    file_path: Seq<char>,
) -> Seq<Seq<char>> {
    seq![
        "-hide_banner"@,
        "-loglevel"@,
        "error"@,
        "-rw_timeout"@,
        "10000000"@,
        "-timeout"@,
        "10000000"@,
        "-reconnect"@,
        "1"@,
        "-reconnect_streamed"@,
        "1"@,
        "-reconnect_delay_max"@,
        "3"@,
        "-user_agent"@,
        STREAM_USER_AGENT@,
        "-headers"@,
        "Referer:"@ + room_referer(room_id) + "\r\n"@,
        "-i"@,
        stream_url,
        "-c"@,
        "copy"@,
        "-f"@,
        "mpegts"@,
        file_path,
    ]
}

/// Builds the arguments with which the transcoder records a playlist
/// stream.
pub fn build_playlist_arguments(room_id: &str, stream_url: &str, file_path: &str) -> (r: Vec<
    String,
>)
    ensures
        crate::upload_queue::texts_of(r@) == playlist_arguments(
            room_id@,
            stream_url@,
            file_path@,
        ),
{
    let mut referer = String::from_str("Referer:");
    referer.append(build_room_referer(room_id).as_str());
    referer.append("\r\n");
    let mut args: Vec<String> = Vec::new();
    args.push(String::from_str("-hide_banner"));
    args.push(String::from_str("-loglevel"));
    args.push(String::from_str("error"));
    args.push(String::from_str("-rw_timeout"));
    args.push(String::from_str("10000000"));
    args.push(String::from_str("-timeout"));
    args.push(String::from_str("10000000"));
    args.push(String::from_str("-reconnect"));
    args.push(String::from_str("1"));
    args.push(String::from_str("-reconnect_streamed"));
    args.push(String::from_str("1"));
    args.push(String::from_str("-reconnect_delay_max"));
    args.push(String::from_str("3"));
    args.push(String::from_str("-user_agent"));
    args.push(String::from_str(STREAM_USER_AGENT));
    args.push(String::from_str("-headers"));
    args.push(referer);
    args.push(String::from_str("-i"));
    args.push(String::from_str(stream_url));
    args.push(String::from_str("-c"));
    args.push(String::from_str("copy"));
    args.push(String::from_str("-f"));
    args.push(String::from_str("mpegts"));
    args.push(String::from_str(file_path));
    assert(crate::upload_queue::texts_of(args@) =~= playlist_arguments(
        room_id@,
        stream_url@,
        file_path@,
    ));
    args
}

/// Whether the room is to be looked up before the status of a playlist
/// recording is settled: the transcoder failed and nobody asked it to stop.
pub fn needs_room_check(stop_requested: bool, exit_success: bool) -> (r: bool)
    ensures
        r == (!stop_requested && !exit_success),
{
    !stop_requested && !exit_success
}

/// The status of a playlist recording after the transcoder exited: stopped
/// where it was asked to stop, completed where the transcoder succeeded or
/// the room turned out to be off air, else failed.
pub open spec fn playlist_status(
    stop_requested: bool,
    exit_success: bool,
    live_status: Option<i64>,
) -> RecordStatus {
    if stop_requested {
        RecordStatus::Stopped
    } else if exit_success {
        RecordStatus::Completed
    } else if live_status is Some && live_status->0 != LIVE_STATUS_ON_AIR {
        RecordStatus::Completed
    } else {
        RecordStatus::Failed
    }
}

/// How a playlist recording ends.
#[derive(Debug)]
pub struct PlaylistEnd {
    pub status: RecordStatus,
    /// What the transcoder said, for a failed recording.
    pub error: Option<String>,
    /// Whether the recording is handed on to the sync queue.
    pub enqueue_sync: bool,
}

/// Settles how a playlist recording ends. `live_status` is what the look at
/// the room gave, if the room was looked up and the look succeeded.
pub fn finish_playlist_recording(
    stop_requested: bool,
    exit_success: bool,
    live_status: Option<i64>,
    stderr_output: &str,
) -> (r: PlaylistEnd)
    ensures
        r.status == playlist_status(stop_requested, exit_success, live_status),
        r.enqueue_sync == (r.status == RecordStatus::Completed),
        crate::records::opt_chars(r.error) == if r.status == RecordStatus::Failed && trimmed(
            stderr_output@,
        ).len() > 0 {
            Some(trimmed(stderr_output@))
        } else {
            None
        },
{
    let status = if stop_requested {
        RecordStatus::Stopped
    } else if exit_success {
        RecordStatus::Completed
    } else {
        match live_status {
            Some(s) if s != LIVE_STATUS_ON_AIR => RecordStatus::Completed,
            _ => RecordStatus::Failed,
        }
    };
    let failed = match status {
        RecordStatus::Failed => true,
        _ => false,
    };
    let completed = match status {
        RecordStatus::Completed => true,
        _ => false,
    };
    let error = if failed {
        let text = trim(stderr_output);
        if text.as_str().unicode_len() == 0 {
            None
        } else {
            Some(text)
        }
    } else {
        None
    };
    PlaylistEnd { status, error, enqueue_sync: completed }
}

} // verus!
