//! The recorder's settings, as far as its decisions read them.

use vstd::prelude::*;

verus! {

/// How a segment is cut by the recorder itself.
pub const CUTTING_BY_TIME: i64 = 1;

/// How a segment is cut by the recorder itself.
pub const CUTTING_BY_SIZE: i64 = 2;

/// Settings of one recording.
#[derive(Clone, Debug)]
pub struct LiveSettings {
    pub record_mode: i64,
    pub record_path: String,
    pub file_name_template: String,
    pub write_metadata: bool,
    pub save_cover: bool,
    pub recording_quality: String,
    pub flv_fix_split_on_missing: bool,
    pub flv_fix_disable_on_annexb: bool,
    pub cutting_mode: i64,
    pub cutting_number: i64,
    pub cutting_by_title: bool,
    pub title_split_min_seconds: i64,
    pub stream_connect_timeout_ms: i64,
    pub stream_retry_ms: i64,
    pub stream_retry_no_qn_sec: i64,
    pub check_interval_sec: i64,
    pub danmaku_transport: i64,
    pub record_danmaku: bool,
    pub record_danmaku_raw: bool,
    pub record_danmaku_superchat: bool,
    pub record_danmaku_gift: bool,
    pub record_danmaku_guard: bool,
}

impl LiveSettings {
    /// Whether a segment is cut when the stream goes missing: asked for by
    /// the settings and not switched off again.
    pub open spec fn splits_on_missing(self) -> bool {
        self.flv_fix_split_on_missing && !self.flv_fix_disable_on_annexb
    }

    /// The least age in seconds that a segment must have before a change of
    /// title cuts it; a negative setting counts as zero.
    pub open spec fn title_split_min(self) -> nat {
        if self.title_split_min_seconds < 0 {
            0
        } else {
            self.title_split_min_seconds as nat
        }
    }

    /// The cutting limit, at least 1.
    pub open spec fn cutting_limit(self) -> nat {
        if self.cutting_number < 1 {
            1
        } else {
            self.cutting_number as nat
        }
    }

    /// The pause before the stream is asked for again, in milliseconds: at
    /// least one second.
    pub open spec fn retry_pause_ms(self) -> nat {
        if self.stream_retry_ms < 1000 {
            1000
        } else {
            self.stream_retry_ms as nat
        }
    }

    /// Whether any kind of chat message is to be recorded.
    pub open spec fn records_chat(self) -> bool {
        self.record_danmaku || self.record_danmaku_raw || self.record_danmaku_superchat
            || self.record_danmaku_gift || self.record_danmaku_guard
    }
}

/// The pause before the stream is asked for again, in milliseconds.
pub fn retry_pause_ms(settings: &LiveSettings) -> (r: u64)
    ensures
        r == settings.retry_pause_ms(),
{
    if settings.stream_retry_ms < 1000 {
        1000
    } else {
        settings.stream_retry_ms as u64
    }
}

/// The time allowed for connecting, in milliseconds: at least one second.
pub fn connect_timeout_ms(settings: &LiveSettings) -> (r: u64)
    ensures
        r >= 1000,
        settings.stream_connect_timeout_ms >= 1000 ==> r == settings.stream_connect_timeout_ms,
        settings.stream_connect_timeout_ms < 1000 ==> r == 1000,
{
    if settings.stream_connect_timeout_ms < 1000 {
        1000
    } else {
        settings.stream_connect_timeout_ms as u64
    }
}

/// The pause between two checks of the rooms, in seconds: at least ten.
pub fn check_interval_secs(settings: &LiveSettings) -> (r: u64)
    ensures
        r >= 10,
        settings.check_interval_sec >= 10 ==> r == settings.check_interval_sec,
        settings.check_interval_sec < 10 ==> r == 10,
{
    if settings.check_interval_sec < 10 {
        10
    } else {
        settings.check_interval_sec as u64
    }
}

} // verus!
