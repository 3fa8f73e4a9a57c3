//! The decisions of the recorder loop: when a segment is cut, what a gap in
//! the stream leads to, when a connection is given up as invalid.
//!
//! The loop itself reads sockets and writes files; it hands what it saw to
//! the functions here and does what they answer.

use vstd::prelude::*;
use crate::flv::{
    is_video_keyframe, parse_flv_timestamp, CacheSpec, FlvHeaderCache, FlvStreamParser, FlvTag,
    TagSpec,
};
use crate::records::{opt_chars, RecordStatus};
use crate::settings::{LiveSettings, CUTTING_BY_SIZE, CUTTING_BY_TIME};
use crate::text::str_eq;

verus! {

/// Tags without progress of the timestamp after which a stream may be given
/// up.
pub const INVALID_STREAM_TAG_LIMIT: usize = 300;

/// Seconds without progress of the timestamp after which a stream may be
/// given up.
pub const INVALID_STREAM_STALL_SECS: u64 = 10;

/// Seconds before its expiry at which a playback address is fetched anew.
pub const STREAM_URL_REFRESH_LEAD_SECS: u64 = 30;

/// Seconds that a stream may be missing before the open segment is closed.
pub const MISSING_SEGMENT_WINDOW_SECS: u64 = 60;

/// Bytes in one unit of the size limit.
pub const MIB: u64 = 1048576;

/// The bookkeeping of an open segment. `content` is what was written to the
/// segment so far; it exists for the contracts only.
pub struct SegmentWriter {
    pub record_id: i64,
    pub file_path: String,
    pub bytes_written: u64,
    pub title: String,
    pub metadata_path: Option<String>,
    pub content: Ghost<Seq<u8>>,
}

/// Why a segment is closed.
#[derive(Clone, Copy, Debug, PartialEq, Eq, Structural)]
pub enum FinishReason {
    /// The recorder was asked to stop.
    Stopped,
    /// A new segment begins at a keyframe.
    Split,
    /// The stream ended and did not come back in time.
    StreamEnded,
    /// Reading the stream failed and it did not come back in time.
    ReadFailed,
}

impl FinishReason {
    /// The status that the closed segment's row gets.
    pub open spec fn status(self) -> RecordStatus {
        match self {
            FinishReason::Stopped => RecordStatus::Stopped,
            _ => RecordStatus::Completed,
        }
    }

    /// The note that the closed segment's row gets.
    pub open spec fn note(self) -> Option<Seq<char>> {
        match self {
            FinishReason::Stopped => None,
            FinishReason::Split => Some("分段切换"@),
            FinishReason::StreamEnded => Some("网络中断自动分段"@),
            FinishReason::ReadFailed => Some("读取异常自动分段"@),
        }
    }
}

/// What is stored when a segment is closed: the row of the recording gets
/// the status, the end time, the size and the note; the metadata file, if
/// there is one, gets the end time and the size. `content` is what the
/// segment holds; it exists for the contracts only.
pub struct SegmentFinish {
    pub record_id: i64,
    pub file_path: String,
    pub status: RecordStatus,
    pub end_time: String,
    pub file_size: u64,
    pub note: Option<String>,
    pub metadata_path: Option<String>,
    pub content: Ghost<Seq<u8>>,
}

impl SegmentWriter {
    /// The bookkeeping of a segment that was just opened.
    pub fn open(record_id: i64, file_path: String, title: String, metadata_path: Option<String>) -> (r:
        SegmentWriter)
        ensures
            r.record_id == record_id,
            r.file_path == file_path,
            r.title == title,
            r.metadata_path == metadata_path,
            r.bytes_written == 0,
            r.content@ == Seq::<u8>::empty(),
    {
        SegmentWriter {
            record_id,
            file_path,
            bytes_written: 0,
            title,
            metadata_path,
            content: Ghost(Seq::empty()),
        }
    }

    /// Counts `buf` as written to the segment. The count stops at the
    /// largest number that it can hold.
    pub fn write(&mut self, buf: &[u8])
        ensures
            final(self).content@ == old(self).content@ + buf@,
            final(self).bytes_written == if old(self).bytes_written + buf@.len() <= u64::MAX {
                (old(self).bytes_written + buf@.len()) as u64
            } else {
                u64::MAX
            },
            final(self).record_id == old(self).record_id,
            final(self).file_path == old(self).file_path,
            final(self).title == old(self).title,
            final(self).metadata_path == old(self).metadata_path,
    {
        let len64 = buf.len() as u64;
        if self.bytes_written > u64::MAX - len64 {
            self.bytes_written = u64::MAX;
        } else {
            self.bytes_written = self.bytes_written + len64;
        }
        proof {
            self.content@ = self.content@ + buf@;
        }
    }

    /// What is stored when the segment is closed at `end_time` for `reason`.
    pub fn finish(self, reason: FinishReason, end_time: String) -> (r: SegmentFinish)
        ensures
            r.record_id == self.record_id,
            r.file_path == self.file_path,
            r.status == reason.status(),
            r.end_time == end_time,
            r.file_size == self.bytes_written,
            r.content@ == self.content@,
            opt_chars(r.note) == reason.note(),
            r.metadata_path == self.metadata_path,
    {
        let (status, note) = match reason {
            FinishReason::Stopped => (RecordStatus::Stopped, None),
            FinishReason::Split => (RecordStatus::Completed, Some(String::from_str("分段切换"))),
            FinishReason::StreamEnded => (
                RecordStatus::Completed,
                Some(String::from_str("网络中断自动分段")),
            ),
            FinishReason::ReadFailed => (
                RecordStatus::Completed,
                Some(String::from_str("读取异常自动分段")),
            ),
        };
        SegmentFinish {
            record_id: self.record_id,
            file_path: self.file_path,
            status,
            end_time,
            file_size: self.bytes_written,
            note,
            metadata_path: self.metadata_path,
            content: self.content,
        }
    }
}

/// What the recorder remembers across connections.
pub struct RecorderState {
    pub segment_index: i64,
    pub current_title: String,
    pub segment: Option<SegmentWriter>,
    pub segment_started_at: u64,
    pub pending_split: bool,
    pub pending_title: Option<String>,
    pub missing_since: Option<u64>,
    pub force_no_qn_until: Option<i64>,
    pub stream_urls: Vec<String>,
    pub stream_url_index: usize,
}

/// What the recorder remembers of one connection.
pub struct ConnectionState {
    pub parser: FlvStreamParser,
    pub cache: FlvHeaderCache,
    pub last_tag_timestamp: Option<u32>,
    pub stagnant_count: usize,
    pub last_progress_at: u64,
}

/// The signals that reached the recorder since the last tag.
#[derive(Clone, Copy, Debug, PartialEq, Eq, Structural)]
pub struct SplitSignals {
    /// A new segment was asked for.
    pub split: bool,
    /// The room's title was seen to change.
    pub title_split: bool,
}

/// Seconds from `since` to `now`; zero where `now` is the earlier one.
pub open spec fn elapsed(since: u64, now: u64) -> nat {
    if now >= since {
        (now - since) as nat
    } else {
        0
    }
}

/// Seconds from `since` to `now`.
pub fn elapsed_secs(since: u64, now: u64) -> (r: u64)
    ensures
        r == elapsed(since, now),
{
    if now >= since {
        now - since
    } else {
        0
    }
}

/// `n + 1`, or `n` where there is no larger number.
pub open spec fn next_index(n: i64) -> i64 {
    if n < i64::MAX {
        (n + 1) as i64
    } else {
        n
    }
}

/// What is pending after the signals were looked at.
pub struct Pending {
    /// The title that the next segment gets.
    pub title: Option<Seq<char>>,
    /// Whether a new segment begins at the next keyframe.
    pub split: bool,
    /// Whether a change of title was put off because the segment is young.
    pub deferred: bool,
}

/// What is pending after the signals of one tag.
///
/// A change of title cuts the segment at once where it is at least
/// `title_min` seconds old, else the new title is remembered and the cut put
/// off. A split request cuts in any case, and takes the new title along
/// where titles cut segments. A remembered title cuts as soon as the segment
/// is old enough.
pub open spec fn pending_after(
    pending_title: Option<Seq<char>>,
    pending_split: bool,
    current_title: Seq<char>,
    latest_title: Seq<char>,
    signals: SplitSignals,
    cutting_by_title: bool,
    title_min: nat,
    age: nat,
) -> Pending {
    let changed = latest_title != current_title;
    let noticed = signals.title_split && changed;
    let deferred = noticed && title_min > 0 && age < title_min;
    let title1 = if noticed {
        Some(latest_title)
    } else {
        pending_title
    };
    let split1 = pending_split || (noticed && !deferred);
    let title2 = if signals.split && title1 is None && cutting_by_title && changed {
        Some(latest_title)
    } else {
        title1
    };
    let split2 = split1 || signals.split;
    let split3 = split2 || (title2 is Some && title_min > 0 && age >= title_min);
    Pending { title: title2, split: split3, deferred }
}

/// What the recorder does before it writes a tag.
pub struct TagPlan {
    /// A new segment begins with this tag: the open one, if any, is closed
    /// as `finish` says, then a segment with the state's new index and title
    /// is opened and the preamble written.
    pub rotate: bool,
    /// What is stored for the segment that is closed.
    pub finish: Option<SegmentFinish>,
    /// A cut was due at this keyframe but no stream header is known.
    pub split_skipped: bool,
    /// A change of title was put off.
    pub title_deferred: bool,
}

/// What follows a tag that was written.
#[derive(Clone, Copy, Debug, PartialEq, Eq, Structural)]
pub struct WriteOutcome {
    /// The segment reached its limit of time or size: a split is asked for.
    pub raise_split: bool,
    /// The stream made no progress for too long: the connection is given up.
    pub invalid_stream: bool,
}

/// What a gap in the stream leads to.
pub enum GapOutcome {
    /// The segment is closed as `finish` says; the next one gets the state's
    /// new index and title.
    Rotate { finish: Option<SegmentFinish> },
    /// The segment stays open; the stream is asked for again after a pause.
    Keep { missing_secs: u64 },
}

/// What a response to the request for the stream is.
#[derive(Clone, Copy, Debug, PartialEq, Eq, Structural)]
pub enum ResponseCheck {
    /// A stream to read.
    Stream,
    /// A status that is no success.
    BadStatus,
    /// A body that is text, or that is encoded.
    Unexpected,
}

/// Whether a segment that is `age` seconds old and `bytes` long has reached
/// the limit of the settings.
pub open spec fn limit_reached(settings: LiveSettings, age: nat, bytes: u64) -> bool {
    if settings.cutting_mode == CUTTING_BY_TIME {
        age >= settings.cutting_limit()
    } else if settings.cutting_mode == CUTTING_BY_SIZE {
        bytes >= settings.cutting_limit() * MIB
    } else {
        false
    }
}

/// Whether a stream that stood still for `stagnant` tags and `stalled`
/// seconds is given up.
pub open spec fn stream_stalled(stagnant: nat, stalled: nat) -> bool {
    stagnant >= INVALID_STREAM_TAG_LIMIT && stalled >= INVALID_STREAM_STALL_SECS
}

/// The time until which no quality hint is sent, after a stream was found
/// invalid at `now`: unchanged where the settings give no such pause.
pub open spec fn no_hint_until(until: Option<i64>, settings: LiveSettings, now: i64) -> Option<i64> {
    if settings.stream_retry_no_qn_sec <= 0 {
        until
    } else if now + settings.stream_retry_no_qn_sec <= i64::MAX {
        Some((now + settings.stream_retry_no_qn_sec) as i64)
    } else {
        Some(i64::MAX)
    }
}

/// The settings as the recorder uses them: a recording in mode 1 writes no
/// metadata and does not cut on a missing stream.
pub fn effective_settings(settings: LiveSettings) -> (r: LiveSettings)
    ensures
        r == if settings.record_mode == 1 {
            LiveSettings { write_metadata: false, flv_fix_split_on_missing: false, ..settings }
        } else {
            settings
        },
{
    if settings.record_mode == 1 {
        LiveSettings { write_metadata: false, flv_fix_split_on_missing: false, ..settings }
    } else {
        settings
    }
}

/// Notes that a stream was found invalid at `now`: for the pause that the
/// settings give, no quality hint is sent.
pub fn mark_force_no_qn(force_no_qn_until: &mut Option<i64>, settings: &LiveSettings, now: i64)
    ensures
        *final(force_no_qn_until) == no_hint_until(*old(force_no_qn_until), *settings, now),
{
    if settings.stream_retry_no_qn_sec <= 0 {
        return ;
    }
    let until = if now > i64::MAX - settings.stream_retry_no_qn_sec {
        i64::MAX
    } else {
        now + settings.stream_retry_no_qn_sec
    };
    *force_no_qn_until = Some(until);
}

/// What follows a request for playback addresses that failed.
#[derive(Clone, Copy, Debug, PartialEq, Eq, Structural)]
pub enum FetchRetry {
    /// After so many seconds the addresses are asked for without the
    /// quality hint.
    WithoutHint { after_secs: u64 },
    /// After so many milliseconds the loop begins anew.
    Later { after_ms: u64 },
}

/// Decides what follows a request for playback addresses that failed: where
/// the settings give a pause for it, the request is made again without the
/// quality hint; else the loop begins anew after the retry pause.
pub fn after_fetch_failure(settings: &LiveSettings) -> (r: FetchRetry)
    ensures
        r == if settings.stream_retry_no_qn_sec > 0 {
            FetchRetry::WithoutHint { after_secs: settings.stream_retry_no_qn_sec as u64 }
        } else {
            FetchRetry::Later { after_ms: settings.retry_pause_ms() as u64 }
        },
{
    if settings.stream_retry_no_qn_sec > 0 {
        FetchRetry::WithoutHint { after_secs: settings.stream_retry_no_qn_sec as u64 }
    } else {
        FetchRetry::Later { after_ms: crate::settings::retry_pause_ms(settings) }
    }
}

/// Whether a response is a stream to read. The content type and encoding are
/// compared without regard to case; `-` stands for a header that is absent.
pub open spec fn response_check(
    success: bool,
    content_type: Seq<char>,
    content_encoding: Seq<char>,
) -> ResponseCheck {
    let kind = crate::text::ascii_lowercase(content_type);
    let encoding = crate::text::ascii_lowercase(content_encoding);
    if !success {
        ResponseCheck::BadStatus
    } else if crate::text::starts_with(kind, "text/"@) || crate::text::contains(kind, "json"@)
        || crate::text::contains(kind, "html"@) || (encoding != "-"@ && encoding != "identity"@
        && encoding.len() != 0) {
        ResponseCheck::Unexpected
    } else {
        ResponseCheck::Stream
    }
}

/// The ASCII lower-case form of a text.
pub fn lowercase_chars(s: &str) -> (r: Vec<char>)
    ensures
        r@ == crate::text::ascii_lowercase(s@),
{
    let chars = crate::text::chars_of(s);
    let mut out: Vec<char> = Vec::new();
    let mut i: usize = 0;
    while i < chars.len()
        invariant
            i <= chars.len(),
            chars@ == s@,
            out@ == crate::text::ascii_lowercase(s@).take(i as int),
        decreases chars.len() - i,
    {
        let c = chars[i];
        let lower = if 'A' <= c && c <= 'Z' {
            ((c as u32 + 32) as u8) as char
        } else {
            c
        };
        out.push(lower);
        assert(out@ =~= crate::text::ascii_lowercase(s@).take(i + 1));
        i += 1;
    }
    assert(crate::text::ascii_lowercase(s@).take(chars.len() as int) =~= crate::text::ascii_lowercase(
        s@,
    ));
    out
}

/// Checks the response to the request for the stream.
pub fn classify_response(success: bool, content_type: &str, content_encoding: &str) -> (r:
    ResponseCheck)
    ensures
        r == response_check(success, content_type@, content_encoding@),
{
    if !success {
        return ResponseCheck::BadStatus;
    }
    let kind = lowercase_chars(content_type);
    let encoding = lowercase_chars(content_encoding);
    let text_prefix = crate::text::chars_of("text/");
    let json = crate::text::chars_of("json");
    let html = crate::text::chars_of("html");
    let dash = crate::text::chars_of("-");
    let identity = crate::text::chars_of("identity");
    let unexpected_type = crate::text::chars_occur_at(&kind, &text_prefix, 0)
        || crate::text::chars_contain(&kind, &json) || crate::text::chars_contain(&kind, &html);
    let unexpected_encoding = !crate::text::chars_eq(&encoding, &dash) && !crate::text::chars_eq(
        &encoding,
        &identity,
    ) && encoding.len() != 0;
    if unexpected_type || unexpected_encoding {
        ResponseCheck::Unexpected
    } else {
        ResponseCheck::Stream
    }
}

impl ConnectionState {
    /// The state of a connection that was just made at `now`.
    pub fn new(now: u64) -> (r: ConnectionState)
        ensures
            r.parser@.buffer == Seq::<u8>::empty(),
            !r.parser@.header_parsed,
            r.cache@.header is None,
            r.cache@.tags_cleared(),
            r.last_tag_timestamp is None,
            r.stagnant_count == 0,
            r.last_progress_at == now,
    {
        ConnectionState {
            parser: FlvStreamParser::new(),
            cache: FlvHeaderCache::new(),
            last_tag_timestamp: None,
            stagnant_count: 0,
            last_progress_at: now,
        }
    }

    /// Notes the timestamp of a tag that was written at `now`, and tells
    /// whether the stream is given up: at least 300 tags in a row did not
    /// advance the timestamp and at least 10 seconds passed since it last
    /// advanced.
    pub fn note_timestamp(&mut self, timestamp: u32, now: u64) -> (invalid: bool)
        ensures
            final(self).parser == old(self).parser,
            final(self).cache == old(self).cache,
            match old(self).last_tag_timestamp {
                Some(prev) if timestamp <= prev => {
                    &&& final(self).last_tag_timestamp == Some(prev)
                    &&& final(self).stagnant_count == if old(self).stagnant_count < usize::MAX {
                        (old(self).stagnant_count + 1) as usize
                    } else {
                        usize::MAX
                    }
                    &&& final(self).last_progress_at == old(self).last_progress_at
                },
                _ => {
                    &&& final(self).last_tag_timestamp == Some(timestamp)
                    &&& final(self).stagnant_count == 0
                    &&& final(self).last_progress_at == now
                },
            },
            invalid == stream_stalled(
                final(self).stagnant_count as nat,
                elapsed(final(self).last_progress_at, now),
            ),
    {
        let advanced = match self.last_tag_timestamp {
            Some(prev) => timestamp > prev,
            None => true,
        };
        if advanced {
            self.last_tag_timestamp = Some(timestamp);
            self.stagnant_count = 0;
            self.last_progress_at = now;
        } else if self.stagnant_count < usize::MAX {
            self.stagnant_count = self.stagnant_count + 1;
        }
        self.stagnant_count >= INVALID_STREAM_TAG_LIMIT && elapsed_secs(self.last_progress_at, now)
            >= INVALID_STREAM_STALL_SECS
    }
}

impl RecorderState {
    /// The state of a recorder that begins with the title `title`.
    pub fn new(title: String, now: u64) -> (r: RecorderState)
        ensures
            r.segment_index == 1,
            r.current_title == title,
            r.segment is None,
            r.segment_started_at == now,
            !r.pending_split,
            r.pending_title is None,
            r.missing_since is None,
            r.force_no_qn_until is None,
            r.stream_urls@.len() == 0,
            r.stream_url_index == 0,
    {
        RecorderState {
            segment_index: 1,
            current_title: title,
            segment: None,
            segment_started_at: now,
            pending_split: false,
            pending_title: None,
            missing_since: None,
            force_no_qn_until: None,
            stream_urls: Vec::new(),
            stream_url_index: 0,
        }
    }

    /// Whether the next request for playback addresses carries the quality
    /// hint: not while a pause after an invalid stream lasts. A pause that
    /// is over is forgotten.
    pub fn use_quality_hint(&mut self, now: i64) -> (r: bool)
        ensures
            r == !(old(self).force_no_qn_until is Some && now < old(self).force_no_qn_until->0),
            final(self).force_no_qn_until == if r {
                None
            } else {
                old(self).force_no_qn_until
            },
            final(self).segment_index == old(self).segment_index,
            final(self).current_title == old(self).current_title,
            final(self).segment == old(self).segment,
            final(self).segment_started_at == old(self).segment_started_at,
            final(self).pending_split == old(self).pending_split,
            final(self).pending_title == old(self).pending_title,
            final(self).missing_since == old(self).missing_since,
            final(self).stream_urls == old(self).stream_urls,
            final(self).stream_url_index == old(self).stream_url_index,
    {
        match self.force_no_qn_until {
            Some(until) if now < until => false,
            _ => {
                self.force_no_qn_until = None;
                true
            },
        }
    }

    /// Takes the playback addresses that were fetched.
    pub fn set_stream_urls(&mut self, urls: Vec<String>)
        ensures
            final(self).stream_urls == urls,
            final(self).stream_url_index == 0,
            final(self).segment_index == old(self).segment_index,
            final(self).current_title == old(self).current_title,
            final(self).segment == old(self).segment,
            final(self).segment_started_at == old(self).segment_started_at,
            final(self).pending_split == old(self).pending_split,
            final(self).pending_title == old(self).pending_title,
            final(self).missing_since == old(self).missing_since,
            final(self).force_no_qn_until == old(self).force_no_qn_until,
    {
        self.stream_urls = urls;
        self.stream_url_index = 0;
    }

    /// Forgets the playback addresses, so that they are fetched anew.
    pub fn drop_stream_urls(&mut self)
        ensures
            final(self).stream_urls@.len() == 0,
            final(self).stream_url_index == old(self).stream_url_index,
            final(self).segment_index == old(self).segment_index,
            final(self).current_title == old(self).current_title,
            final(self).segment == old(self).segment,
            final(self).segment_started_at == old(self).segment_started_at,
            final(self).pending_split == old(self).pending_split,
            final(self).pending_title == old(self).pending_title,
            final(self).missing_since == old(self).missing_since,
            final(self).force_no_qn_until == old(self).force_no_qn_until,
    {
        self.stream_urls = Vec::new();
    }

    /// The playback address to try next. The addresses are tried in turn,
    /// the first again after the last; where the turn points behind the last
    /// one, all are forgotten.
    pub fn next_stream_url(&mut self) -> (r: Option<String>)
        ensures
            match r {
                Some(url) => {
                    &&& old(self).stream_url_index < old(self).stream_urls@.len()
                    &&& url == old(self).stream_urls@[old(self).stream_url_index as int]
                    &&& final(self).stream_urls == old(self).stream_urls
                    &&& final(self).stream_url_index == if old(self).stream_url_index + 1 == old(
                        self,
                    ).stream_urls@.len() {
                        0
                    } else {
                        old(self).stream_url_index + 1
                    }
                },
                None => {
                    &&& old(self).stream_url_index >= old(self).stream_urls@.len()
                    &&& final(self).stream_urls@.len() == 0
                    &&& final(self).stream_url_index == old(self).stream_url_index
                },
            },
            final(self).segment_index == old(self).segment_index,
            final(self).current_title == old(self).current_title,
            final(self).segment == old(self).segment,
            final(self).segment_started_at == old(self).segment_started_at,
            final(self).pending_split == old(self).pending_split,
            final(self).pending_title == old(self).pending_title,
            final(self).missing_since == old(self).missing_since,
            final(self).force_no_qn_until == old(self).force_no_qn_until,
    {
        let n = self.stream_urls.len();
        if self.stream_url_index >= n {
            self.stream_urls = Vec::new();
            return None;
        }
        let url = self.stream_urls[self.stream_url_index].clone();
        self.stream_url_index = if self.stream_url_index + 1 == n {
            0
        } else {
            self.stream_url_index + 1
        };
        Some(url)
    }

    /// Notes that the stream is read again.
    pub fn stream_resumed(&mut self)
        ensures
            final(self).missing_since is None,
            final(self).segment_index == old(self).segment_index,
            final(self).current_title == old(self).current_title,
            final(self).segment == old(self).segment,
            final(self).segment_started_at == old(self).segment_started_at,
            final(self).pending_split == old(self).pending_split,
            final(self).pending_title == old(self).pending_title,
            final(self).force_no_qn_until == old(self).force_no_qn_until,
            final(self).stream_urls == old(self).stream_urls,
            final(self).stream_url_index == old(self).stream_url_index,
    {
        self.missing_since = None;
    }

    /// Opens the bookkeeping of a new segment at `now` and hands back the
    /// preamble that is written to it first. Where no stream header is known
    /// nothing is opened.
    pub fn open_segment(
        &mut self,
        cache: &FlvHeaderCache,
        record_id: i64,
        file_path: String,
        metadata_path: Option<String>,
        now: u64,
    ) -> (r: Result<Vec<u8>, crate::flv::FlvError>)
        ensures
            match r {
                Ok(preamble) => {
                    &&& cache@.header is Some
                    &&& cache@.tags_cleared()
                    &&& preamble@ == cache@.preamble()
                    &&& final(self).segment is Some
                    &&& final(self).segment->0.content@ == preamble@
                    &&& final(self).segment->0.bytes_written == preamble@.len()
                    &&& final(self).segment->0.record_id == record_id
                    &&& final(self).segment->0.file_path == file_path
                    &&& final(self).segment->0.metadata_path == metadata_path
                    &&& final(self).segment->0.title@ == old(self).current_title@
                    &&& final(self).segment_started_at == now
                },
                Err(e) => {
                    &&& cache@.header is None
                    &&& e == crate::flv::FlvError::MissingHeader
                    &&& final(self).segment == old(self).segment
                    &&& final(self).segment_started_at == old(self).segment_started_at
                },
            },
            final(self).segment_index == old(self).segment_index,
            final(self).current_title == old(self).current_title,
            final(self).pending_split == old(self).pending_split,
            final(self).pending_title == old(self).pending_title,
            final(self).missing_since == old(self).missing_since,
            final(self).force_no_qn_until == old(self).force_no_qn_until,
            final(self).stream_urls == old(self).stream_urls,
            final(self).stream_url_index == old(self).stream_url_index,
    {
        match cache.write_preamble() {
            Ok(preamble) => {
                let mut writer = SegmentWriter::open(
                    record_id,
                    file_path,
                    self.current_title.clone(),
                    metadata_path,
                );
                writer.write(preamble.as_slice());
                assert(writer.content@ =~= preamble@);
                assert(preamble@.len() == preamble.len());
                self.segment = Some(writer);
                self.segment_started_at = now;
                Ok(preamble)
            },
            Err(e) => Err(e),
        }
    }

    /// Closes the open segment, if there is one, because the recorder was
    /// asked to stop.
    pub fn on_stop(&mut self, end_time: String) -> (r: Option<SegmentFinish>)
        ensures
            final(self).segment is None,
            match r {
                Some(finish) => {
                    &&& old(self).segment is Some
                    &&& finish.record_id == old(self).segment->0.record_id
                    &&& finish.file_path == old(self).segment->0.file_path
                    &&& finish.file_size == old(self).segment->0.bytes_written
                    &&& finish.content@ == old(self).segment->0.content@
                    &&& finish.metadata_path == old(self).segment->0.metadata_path
                    &&& finish.status == RecordStatus::Stopped
                    &&& finish.note is None
                    &&& finish.end_time == end_time
                },
                None => old(self).segment is None,
            },
            final(self).segment_index == old(self).segment_index,
            final(self).current_title == old(self).current_title,
            final(self).pending_split == old(self).pending_split,
            final(self).pending_title == old(self).pending_title,
    {
        match self.segment.take() {
            Some(writer) => Some(writer.finish(FinishReason::Stopped, end_time)),
            None => None,
        }
    }

    /// Decides what a gap in the stream at `now` leads to.
    ///
    /// The gap began when the stream first went missing. The open segment
    /// is closed where the settings cut on a missing stream or the gap has
    /// lasted 60 seconds; then the next segment gets the next index and the
    /// title `latest_title`, and nothing is pending any more. Else the
    /// segment stays open.
    pub fn on_gap(
        &mut self,
        read_failed: bool,
        settings: &LiveSettings,
        latest_title: &str,
        now: u64,
        end_time: String,
    ) -> (r: GapOutcome)
        ensures
            ({
                let since = match old(self).missing_since {
                    Some(t) => t,
                    None => now,
                };
                let rotate = settings.splits_on_missing() || elapsed(since, now)
                    >= MISSING_SEGMENT_WINDOW_SECS;
                if rotate {
                    &&& r matches GapOutcome::Rotate { finish }
                    &&& match finish {
                        Some(f) => {
                            &&& old(self).segment is Some
                            &&& f.record_id == old(self).segment->0.record_id
                            &&& f.file_path == old(self).segment->0.file_path
                            &&& f.file_size == old(self).segment->0.bytes_written
                            &&& f.content@ == old(self).segment->0.content@
                            &&& f.metadata_path == old(self).segment->0.metadata_path
                            &&& f.status == RecordStatus::Completed
                            &&& opt_chars(f.note) == if read_failed {
                                FinishReason::ReadFailed.note()
                            } else {
                                FinishReason::StreamEnded.note()
                            }
                            &&& f.end_time == end_time
                        },
                        None => old(self).segment is None,
                    }
                    &&& final(self).segment is None
                    &&& final(self).segment_index == next_index(old(self).segment_index)
                    &&& final(self).pending_title is None
                    &&& !final(self).pending_split
                    &&& final(self).missing_since is None
                    &&& final(self).current_title@ == latest_title@
                    &&& final(self).stream_urls == old(self).stream_urls
                } else {
                    &&& r matches GapOutcome::Keep { missing_secs }
                    &&& missing_secs == elapsed(since, now)
                    &&& final(self).segment == old(self).segment
                    &&& final(self).segment_index == old(self).segment_index
                    &&& final(self).pending_title == old(self).pending_title
                    &&& final(self).pending_split == old(self).pending_split
                    &&& final(self).missing_since == Some(since)
                    &&& final(self).current_title == old(self).current_title
                    &&& final(self).stream_urls@.len() == 0
                }
            }),
            final(self).segment_started_at == old(self).segment_started_at,
            final(self).force_no_qn_until == old(self).force_no_qn_until,
            final(self).stream_url_index == old(self).stream_url_index,
    {
        let since = match self.missing_since {
            Some(t) => t,
            None => now,
        };
        self.missing_since = Some(since);
        let missing_secs = elapsed_secs(since, now);
        let should_split = settings.flv_fix_split_on_missing && !settings.flv_fix_disable_on_annexb;
        if should_split || missing_secs >= MISSING_SEGMENT_WINDOW_SECS {
            let reason = if read_failed {
                FinishReason::ReadFailed
            } else {
                FinishReason::StreamEnded
            };
            let finish = match self.segment.take() {
                Some(writer) => Some(writer.finish(reason, end_time)),
                None => None,
            };
            if self.segment_index < i64::MAX {
                self.segment_index = self.segment_index + 1;
            }
            self.pending_title = None;
            self.pending_split = false;
            self.missing_since = None;
            self.current_title = String::from_str(latest_title);
            GapOutcome::Rotate { finish }
        } else {
            self.stream_urls = Vec::new();
            GapOutcome::Keep { missing_secs }
        }
    }

    /// Moves on after a playlist stream was recorded by the transcoder: the
    /// next segment gets the next index and the title `latest_title`, and the
    /// playback addresses are fetched anew.
    pub fn after_playlist_segment(&mut self, latest_title: &str)
        ensures
            final(self).segment_index == next_index(old(self).segment_index),
            final(self).current_title@ == latest_title@,
            final(self).stream_urls@.len() == 0,
            final(self).segment == old(self).segment,
            final(self).segment_started_at == old(self).segment_started_at,
            final(self).pending_split == old(self).pending_split,
            final(self).pending_title == old(self).pending_title,
            final(self).missing_since == old(self).missing_since,
            final(self).force_no_qn_until == old(self).force_no_qn_until,
            final(self).stream_url_index == old(self).stream_url_index,
    {
        self.stream_urls = Vec::new();
        if self.segment_index < i64::MAX {
            self.segment_index = self.segment_index + 1;
        }
        self.current_title = String::from_str(latest_title);
    }

    /// Decides, before a tag is written, whether a new segment begins with
    /// it.
    ///
    /// The signals are taken into what is pending (see `pending_after`). A
    /// segment is cut only at a video keyframe and only where the stream
    /// header is known; then the open segment is closed, the index goes up,
    /// the title becomes the pending one (or `latest_title`), and no split is
    /// pending any more.
    pub fn plan_tag(
        &mut self,
        cache: &FlvHeaderCache,
        tag: &FlvTag,
        signals: SplitSignals,
        latest_title: &str,
        settings: &LiveSettings,
        now: u64,
        end_time: String,
    ) -> (plan: TagPlan)
        requires
            tag@.in_bounds(),
        ensures
            ({
                let pending = pending_after(
                    opt_chars(old(self).pending_title),
                    old(self).pending_split,
                    old(self).current_title@,
                    latest_title@,
                    signals,
                    settings.cutting_by_title,
                    settings.title_split_min(),
                    elapsed(old(self).segment_started_at, now),
                );
                let due = pending.split && tag@.is_keyframe();
                &&& plan.title_deferred == pending.deferred
                &&& plan.rotate == cut_due(pending.split, tag@, cache@)
                &&& plan.split_skipped == (due && cache@.header is None)
                &&& if plan.rotate {
                    &&& final(self).segment is None
                    &&& final(self).segment_index == next_index(old(self).segment_index)
                    &&& final(self).current_title@ == match pending.title {
                        Some(t) => t,
                        None => latest_title@,
                    }
                    &&& final(self).pending_title is None
                    &&& !final(self).pending_split
                    &&& match plan.finish {
                        Some(f) => {
                            &&& old(self).segment is Some
                            &&& f.record_id == old(self).segment->0.record_id
                            &&& f.file_path == old(self).segment->0.file_path
                            &&& f.file_size == old(self).segment->0.bytes_written
                            &&& f.content@ == old(self).segment->0.content@
                            &&& f.metadata_path == old(self).segment->0.metadata_path
                            &&& f.status == RecordStatus::Completed
                            &&& opt_chars(f.note) == FinishReason::Split.note()
                            &&& f.end_time == end_time
                        },
                        None => old(self).segment is None,
                    }
                } else {
                    &&& final(self).segment == old(self).segment
                    &&& final(self).segment_index == old(self).segment_index
                    &&& final(self).current_title == old(self).current_title
                    &&& opt_chars(final(self).pending_title) == pending.title
                    &&& final(self).pending_split == pending.split
                    &&& plan.finish is None
                }
            }),
            final(self).segment_started_at == old(self).segment_started_at,
            final(self).missing_since == old(self).missing_since,
            final(self).force_no_qn_until == old(self).force_no_qn_until,
            final(self).stream_urls == old(self).stream_urls,
            final(self).stream_url_index == old(self).stream_url_index,
    {
        let age = elapsed_secs(self.segment_started_at, now);
        let title_min: u64 = if settings.title_split_min_seconds < 0 {
            0
        } else {
            settings.title_split_min_seconds as u64
        };
        let changed = !str_eq(latest_title, self.current_title.as_str());
        let mut title_deferred = false;
        if signals.title_split && changed {
            self.pending_title = Some(String::from_str(latest_title));
            if title_min > 0 && age < title_min {
                title_deferred = true;
            } else {
                self.pending_split = true;
            }
        }
        if signals.split {
            if self.pending_title.is_none() && settings.cutting_by_title && changed {
                self.pending_title = Some(String::from_str(latest_title));
            }
            self.pending_split = true;
        }
        if self.pending_title.is_some() && title_min > 0 && age >= title_min {
            self.pending_split = true;
        }
        let due = self.pending_split && is_video_keyframe(tag);
        if !due {
            return TagPlan { rotate: false, finish: None, split_skipped: false, title_deferred };
        }
        if !cache.has_header() {
            return TagPlan { rotate: false, finish: None, split_skipped: true, title_deferred };
        }
        let finish = match self.segment.take() {
            Some(writer) => Some(writer.finish(FinishReason::Split, end_time)),
            None => None,
        };
        if self.segment_index < i64::MAX {
            self.segment_index = self.segment_index + 1;
        }
        self.current_title = match self.pending_title.take() {
            Some(title) => title,
            None => String::from_str(latest_title),
        };
        self.pending_split = false;
        TagPlan { rotate: true, finish, split_skipped: false, title_deferred }
    }

    /// Counts a tag that was written to the open segment at `now`, and tells
    /// what follows: a split is asked for where the segment has reached its
    /// limit of time or size; the connection is given up where the stream
    /// stands still (see `ConnectionState::note_timestamp`), and then no
    /// quality hint is sent for a while. Where no segment is open the tag
    /// is not written, and nothing changes.
    pub fn note_tag_written(
        &mut self,
        conn: &mut ConnectionState,
        tag: &FlvTag,
        settings: &LiveSettings,
        now: u64,
        now_unix: i64,
    ) -> (r: WriteOutcome)
        ensures
            match old(self).segment {
                None => {
                    &&& final(self).segment is None
                    &&& !r.raise_split
                    &&& !r.invalid_stream
                    &&& *final(conn) == *old(conn)
                    &&& final(self).force_no_qn_until == old(self).force_no_qn_until
                },
                Some(before) => {
                    &&& final(self).segment is Some
                    &&& final(self).segment->0.content@ == before.content@ + tag.bytes@
                    &&& final(self).segment->0.bytes_written == if before.bytes_written
                        + tag.bytes@.len() <= u64::MAX {
                        (before.bytes_written + tag.bytes@.len()) as u64
                    } else {
                        u64::MAX
                    }
                    &&& final(self).segment->0.record_id == before.record_id
                    &&& final(self).segment->0.file_path == before.file_path
                    &&& final(self).segment->0.title == before.title
                    &&& final(self).segment->0.metadata_path == before.metadata_path
                    &&& r.raise_split == limit_reached(
                        *settings,
                        elapsed(old(self).segment_started_at, now),
                        final(self).segment->0.bytes_written,
                    )
                    &&& r.invalid_stream == stream_stalled(
                        final(conn).stagnant_count as nat,
                        elapsed(final(conn).last_progress_at, now),
                    )
                    &&& final(self).force_no_qn_until == if r.invalid_stream {
                        no_hint_until(old(self).force_no_qn_until, *settings, now_unix)
                    } else {
                        old(self).force_no_qn_until
                    }
                    &&& final(conn).parser == old(conn).parser
                    &&& final(conn).cache == old(conn).cache
                },
            },
            final(self).segment_index == old(self).segment_index,
            final(self).current_title == old(self).current_title,
            final(self).segment_started_at == old(self).segment_started_at,
            final(self).pending_split == old(self).pending_split,
            final(self).pending_title == old(self).pending_title,
            final(self).missing_since == old(self).missing_since,
            final(self).stream_urls == old(self).stream_urls,
            final(self).stream_url_index == old(self).stream_url_index,
    {
        let mut writer = match self.segment.take() {
            Some(writer) => writer,
            None => {
                return WriteOutcome { raise_split: false, invalid_stream: false };
            },
        };
        writer.write(tag.bytes.as_slice());
        let bytes = writer.bytes_written;
        self.segment = Some(writer);
        let age = elapsed_secs(self.segment_started_at, now);
        let limit: u64 = if settings.cutting_number < 1 {
            1
        } else {
            settings.cutting_number as u64
        };
        let raise_split = if settings.cutting_mode == CUTTING_BY_TIME {
            age >= limit
        } else if settings.cutting_mode == CUTTING_BY_SIZE {
            (bytes as u128) >= (limit as u128) * 1048576u128
        } else {
            false
        };
        let timestamp = parse_flv_timestamp(tag);
        let invalid_stream = conn.note_timestamp(timestamp, now);
        if invalid_stream {
            mark_force_no_qn(&mut self.force_no_qn_until, settings, now_unix);
        }
        WriteOutcome { raise_split, invalid_stream }
    }
}

/// A split that was asked for waits for a video keyframe, and for the
/// stream header: on any other tag the plan cuts nothing and the split stays
/// pending.
pub proof fn lemma_split_waits_for_keyframe(
    pending_title: Option<Seq<char>>,
    current_title: Seq<char>,
    latest_title: Seq<char>,
    signals: SplitSignals,
    cutting_by_title: bool,
    title_min: nat,
    age: nat,
)
    requires
        signals.split,
    ensures
        pending_after(
            pending_title,
            false,
            current_title,
            latest_title,
            signals,
            cutting_by_title,
            title_min,
            age,
        ).split,
        pending_after(
            pending_title,
            true,
            current_title,
            latest_title,
            SplitSignals { split: false, title_split: false },
            cutting_by_title,
            title_min,
            age,
        ).split,
{
}

/// A change of title that is seen while the segment is younger than the
/// least age cuts nothing yet, and is not forgotten: the new title stays
/// pending, and cuts as soon as the segment has reached that age.
pub proof fn lemma_title_split_deferred(
    current_title: Seq<char>,
    latest_title: Seq<char>,
    cutting_by_title: bool,
    title_min: nat,
    age: nat,
    later_age: nat,
)
    requires
        latest_title != current_title,
        title_min > 0,
        age < title_min <= later_age,
    ensures
        ({
            let seen = pending_after(
                None,
                false,
                current_title,
                latest_title,
                SplitSignals { split: false, title_split: true },
                cutting_by_title,
                title_min,
                age,
            );
            let later = pending_after(
                seen.title,
                seen.split,
                current_title,
                latest_title,
                SplitSignals { split: false, title_split: false },
                cutting_by_title,
                title_min,
                later_age,
            );
            &&& !seen.split
            &&& seen.deferred
            &&& seen.title == Some(latest_title)
            &&& later.split
            &&& later.title == Some(latest_title)
        }),
{
}

/// Whether a segment is cut before `tag`: a split is pending, the tag is a
/// video keyframe, and the stream header is known.
pub open spec fn cut_due(split_pending: bool, tag: TagSpec, cache: CacheSpec) -> bool {
    split_pending && tag.is_keyframe() && cache.header is Some
}

/// A segment as plain values: the preamble that it was opened with, and the
/// bytes of the tags that were written behind it.
pub struct SegmentSpec {
    pub preamble: Seq<u8>,
    pub body: Seq<u8>,
}

impl SegmentSpec {
    /// What the segment's file holds.
    pub open spec fn content(self) -> Seq<u8> {
        self.preamble + self.body
    }
}

/// The recording of one connection as plain values: the header cache, the
/// segments that are closed, and the open one.
pub struct RecordingSpec {
    pub cache: CacheSpec,
    pub closed: Seq<SegmentSpec>,
    pub open: Option<SegmentSpec>,
}

impl RecordingSpec {
    /// All segments in the order in which they were opened.
    pub open spec fn segments(self) -> Seq<SegmentSpec> {
        match self.open {
            Some(s) => self.closed.push(s),
            None => self.closed,
        }
    }

    /// The recording after `tag` was taken in while a split was pending or
    /// not: the cache looks at the tag; where a cut is due the open segment
    /// is closed and a new one opened with the cache's preamble; then the
    /// tag is written to the open segment.
    pub open spec fn after_tag(self, tag: TagSpec, split_pending: bool) -> RecordingSpec {
        let cache = self.cache.updated(tag);
        let cut = cut_due(split_pending, tag, cache);
        let closed = if cut {
            self.segments()
        } else {
            self.closed
        };
        let open = if cut {
            Some(SegmentSpec { preamble: cache.preamble(), body: Seq::empty() })
        } else {
            self.open
        };
        RecordingSpec {
            cache,
            closed,
            open: match open {
                Some(s) => Some(SegmentSpec { preamble: s.preamble, body: s.body + tag.bytes }),
                None => None,
            },
        }
    }

    /// The recording after the tags `tags` were taken in, in their order;
    /// `pending` tells for each whether a split was pending then.
    pub open spec fn after_tags(self, tags: Seq<TagSpec>, pending: Seq<bool>) -> RecordingSpec
        decreases tags.len(),
    {
        if tags.len() == 0 || pending.len() != tags.len() {
            self
        } else {
            self.after_tags(tags.drop_last(), pending.drop_last()).after_tag(
                tags.last(),
                pending.last(),
            )
        }
    }
}

/// The bytes of the tags of some segments, without their preambles, one
/// segment after the other.
pub open spec fn bodies(segments: Seq<SegmentSpec>) -> Seq<u8>
    decreases segments.len(),
{
    if segments.len() == 0 {
        Seq::empty()
    } else {
        bodies(segments.drop_last()) + segments.last().body
    }
}

/// The bytes of some tags, one after the other.
pub open spec fn tag_bytes(tags: Seq<TagSpec>) -> Seq<u8>
    decreases tags.len(),
{
    if tags.len() == 0 {
        Seq::empty()
    } else {
        tag_bytes(tags.drop_last()) + tags.last().bytes
    }
}

/// One tag changes a recording with an open segment like this: the segments
/// that were closed stay as they are, a segment stays open, and the bytes
/// of all segments without their preambles grow by the tag's bytes. Where a
/// new segment was opened, the tag is a video keyframe, the new segment
/// holds the cache's preamble and then this tag, and the segment that was
/// open is closed as it was.
pub proof fn lemma_tag_keeps_stream(rec: RecordingSpec, tag: TagSpec, split_pending: bool)
    requires
        rec.open is Some,
    ensures
        ({
            let after = rec.after_tag(tag, split_pending);
            &&& after.open is Some
            &&& bodies(after.segments()) == bodies(rec.segments()) + tag.bytes
            &&& rec.closed.len() <= after.closed.len() <= rec.closed.len() + 1
            &&& after.closed.take(rec.closed.len() as int) == rec.closed
            &&& after.closed.len() > rec.closed.len() ==> {
                &&& tag.is_keyframe()
                &&& after.cache.header is Some
                &&& after.closed.last() == rec.open->0
                &&& after.open->0.preamble == after.cache.preamble()
                &&& after.open->0.body == tag.bytes
            }
            &&& after.closed.len() == rec.closed.len() ==> {
                &&& after.open->0.preamble == rec.open->0.preamble
                &&& after.open->0.body == rec.open->0.body + tag.bytes
            }
        }),
{
    let after = rec.after_tag(tag, split_pending);
    let cache = rec.cache.updated(tag);
    let before = rec.segments();
    assert(before.drop_last() =~= rec.closed);
    if cut_due(split_pending, tag, cache) {
        assert(after.closed == before);
        assert(after.segments().drop_last() =~= before);
        assert(after.open->0.body =~= tag.bytes);
        assert(after.closed.take(rec.closed.len() as int) =~= rec.closed);
    } else {
        assert(after.segments().drop_last() =~= rec.closed);
        assert(after.closed.take(rec.closed.len() as int) =~= rec.closed);
        assert(bodies(rec.closed) + (rec.open->0.body + tag.bytes) =~= bodies(rec.closed)
            + rec.open->0.body + tag.bytes);
    }
}

/// Cutting a stream into segments loses nothing and repeats nothing:
/// however the splits fall, the segments of a recording, taken without
/// their preambles and one after the other, hold the bytes of the stream's
/// tags in their order. Every segment that was closed before stays as it
/// was.
pub proof fn lemma_split_boundary_invariance(
    rec: RecordingSpec,
    tags: Seq<TagSpec>,
    pending: Seq<bool>,
)
    requires
        rec.open is Some,
        pending.len() == tags.len(),
    ensures
        rec.after_tags(tags, pending).open is Some,
        bodies(rec.after_tags(tags, pending).segments()) == bodies(rec.segments()) + tag_bytes(
            tags,
        ),
        rec.closed.len() <= rec.after_tags(tags, pending).closed.len(),
        rec.after_tags(tags, pending).closed.take(rec.closed.len() as int) == rec.closed,
    decreases tags.len(),
{
    if tags.len() == 0 {
        assert(bodies(rec.segments()) + tag_bytes(tags) =~= bodies(rec.segments()));
        assert(rec.closed.take(rec.closed.len() as int) =~= rec.closed);
    } else {
        let before = rec.after_tags(tags.drop_last(), pending.drop_last());
        lemma_split_boundary_invariance(rec, tags.drop_last(), pending.drop_last());
        lemma_tag_keeps_stream(before, tags.last(), pending.last());
        let after = before.after_tag(tags.last(), pending.last());
        assert(bodies(rec.segments()) + tag_bytes(tags.drop_last()) + tags.last().bytes
            =~= bodies(rec.segments()) + tag_bytes(tags));
        assert(after.closed.take(rec.closed.len() as int) =~= before.closed.take(
            rec.closed.len() as int,
        )) by {
            assert(after.closed.take(before.closed.len() as int) == before.closed);
        }
    }
}

/// Every segment that a recording opens on the way begins with the stream
/// header: the cache's header never changes, so each preamble that is
/// written begins with it.
pub proof fn lemma_opened_segments_have_header(rec: RecordingSpec, tag: TagSpec, split_pending: bool)
    requires
        rec.open is Some,
        rec.cache.tags_cleared(),
        rec.cache.header is Some ==> crate::flv::is_stream_header(rec.cache.header->0),
    ensures
        ({
            let after = rec.after_tag(tag, split_pending);
            &&& after.cache.header == rec.cache.header
            &&& after.cache.tags_cleared()
            &&& after.closed.len() > rec.closed.len() ==> {
                &&& crate::flv::has_signature(after.open->0.content())
                &&& after.open->0.content().take(crate::flv::FLV_HEADER_LEN as int)
                    == rec.cache.header->0
            }
        }),
{
    let after = rec.after_tag(tag, split_pending);
    crate::flv::lemma_update_keeps_cleared(rec.cache, tag);
    lemma_tag_keeps_stream(rec, tag, split_pending);
    if after.closed.len() > rec.closed.len() {
        crate::flv::lemma_preamble_self_contained(after.cache);
        let content = after.open->0.content();
        let preamble = after.cache.preamble();
        assert(content.take(crate::flv::FLV_HEADER_LEN as int) =~= preamble.take(
            crate::flv::FLV_HEADER_LEN as int,
        ));
        assert(content[0] == preamble[0] && content[1] == preamble[1] && content[2]
            == preamble[2]);
    }
}

} // verus!
