//! The registry of running recordings: one entry per room, with the signals
//! that reach the recorder from outside.

use vstd::prelude::*;
use crate::text::{blank, is_blank, str_eq};
use crate::textmap::TextMap;

verus! {

/// Live status of a room that is on air.
pub const LIVE_STATUS_ON_AIR: i64 = 1;

/// The signals and facts of one running recording.
#[derive(Debug)]
pub struct LiveRecordHandle {
    pub stop_flag: bool,
    pub split_flag: bool,
    pub title_split_flag: bool,
    pub last_title: String,
    pub current_file: String,
    pub start_time: String,
    pub start_date: String,
}

/// A handle as plain values.
pub struct HandleSpec {
    pub stop_flag: bool,
    pub split_flag: bool,
    pub title_split_flag: bool,
    pub last_title: Seq<char>,
    pub current_file: Seq<char>,
    pub start_time: Seq<char>,
    pub start_date: Seq<char>,
}

impl View for LiveRecordHandle {
    type V = HandleSpec;

    open spec fn view(&self) -> HandleSpec {
        HandleSpec {
            stop_flag: self.stop_flag,
            split_flag: self.split_flag,
            title_split_flag: self.title_split_flag,
            last_title: self.last_title@,
            current_file: self.current_file@,
            start_time: self.start_time@,
            start_date: self.start_date@,
        }
    }
}

/// Where a recording writes and when it began.
#[derive(Debug)]
pub struct LiveRecordInfo {
    pub file_path: String,
    pub start_time: String,
}

/// A record info as plain values.
pub struct RecordInfoSpec {
    pub file_path: Seq<char>,
    pub start_time: Seq<char>,
}

impl View for LiveRecordInfo {
    type V = RecordInfoSpec;

    open spec fn view(&self) -> RecordInfoSpec {
        RecordInfoSpec { file_path: self.file_path@, start_time: self.start_time@ }
    }
}

/// What is known of a room.
#[derive(Clone, Debug)]
pub struct LiveRoomInfo {
    pub room_id: String,
    pub uid: String,
    pub live_status: i64,
    pub title: String,
    pub cover: Option<String>,
    pub area_name: Option<String>,
    pub parent_area_name: Option<String>,
}

/// The running recordings, by room.
pub struct LiveRuntime {
    pub records: TextMap<LiveRecordHandle>,
}

impl View for LiveRuntime {
    type V = Map<Seq<char>, HandleSpec>;

    open spec fn view(&self) -> Map<Seq<char>, HandleSpec> {
        self.records@
    }
}

/// What the recorder shares with its surroundings.
pub struct LiveContext {
    pub app_log_path: String,
    pub live_runtime: LiveRuntime,
}

/// A registry without recordings.
pub fn new_live_runtime() -> (r: LiveRuntime)
    ensures
        r@ == Map::<Seq<char>, HandleSpec>::empty(),
{
    LiveRuntime { records: TextMap::new() }
}

/// The handle of a recording that begins now: no signal raised, no file yet.
pub fn new_handle(title: String, start_time: String, start_date: String) -> (r: LiveRecordHandle)
    ensures
        r@ == (HandleSpec {
            stop_flag: false,
            split_flag: false,
            title_split_flag: false,
            last_title: title@,
            current_file: Seq::empty(),
            start_time: start_time@,
            start_date: start_date@,
        }),
{
    LiveRecordHandle {
        stop_flag: false,
        split_flag: false,
        title_split_flag: false,
        last_title: title,
        current_file: String::new(),
        start_time,
        start_date,
    }
}

impl LiveRuntime {
    /// Whether the room is being recorded.
    pub fn is_recording(&self, room_id: &str) -> (r: bool)
        ensures
            r == self@.dom().contains(room_id@),
    {
        self.records.contains_key(room_id)
    }

    /// The file and start time of the room's recording, if it is recorded.
    pub fn get_record_info(&self, room_id: &str) -> (r: Option<LiveRecordInfo>)
        ensures
            match r {
                Some(info) => self@.dom().contains(room_id@) && info@ == (RecordInfoSpec {
                    file_path: self@[room_id@].current_file,
                    start_time: self@[room_id@].start_time,
                }),
                None => !self@.dom().contains(room_id@),
            },
    {
        match self.records.get(room_id) {
            Some(handle) => Some(
                LiveRecordInfo {
                    file_path: handle.current_file.clone(),
                    start_time: handle.start_time.clone(),
                },
            ),
            None => None,
        }
    }

    /// Asks the room's recorder to start a new segment. Nothing happens where
    /// the room is not recorded.
    pub fn mark_split(&mut self, room_id: &str)
        ensures
            final(self)@ == if old(self)@.dom().contains(room_id@) {
                old(self)@.insert(
                    room_id@,
                    HandleSpec { split_flag: true, ..old(self)@[room_id@] },
                )
            } else {
                old(self)@
            },
    {
        match self.records.remove(room_id) {
            Some(mut handle) => {
                handle.split_flag = true;
                self.records.insert(String::from_str(room_id), handle);
                assert(self@ =~= old(self)@.insert(
                    room_id@,
                    HandleSpec { split_flag: true, ..old(self)@[room_id@] },
                ));
            },
            None => {
                assert(self@ =~= old(self)@);
            },
        }
    }

    /// Asks the room's recorder to stop. Nothing happens where the room is
    /// not recorded.
    pub fn stop(&mut self, room_id: &str)
        ensures
            final(self)@ == if old(self)@.dom().contains(room_id@) {
                old(self)@.insert(room_id@, HandleSpec { stop_flag: true, ..old(self)@[room_id@] })
            } else {
                old(self)@
            },
    {
        match self.records.remove(room_id) {
            Some(mut handle) => {
                handle.stop_flag = true;
                self.records.insert(String::from_str(room_id), handle);
                assert(self@ =~= old(self)@.insert(
                    room_id@,
                    HandleSpec { stop_flag: true, ..old(self)@[room_id@] },
                ));
            },
            None => {
                assert(self@ =~= old(self)@);
            },
        }
    }

    /// Enters a recording for the room, in place of an earlier one.
    pub fn register(&mut self, room_id: &str, handle: LiveRecordHandle)
        ensures
            final(self)@ == old(self)@.insert(room_id@, handle@),
    {
        self.records.insert(String::from_str(room_id), handle);
    }

    /// Takes the room's recording out of the registry.
    pub fn unregister(&mut self, room_id: &str)
        ensures
            final(self)@ == old(self)@.remove(room_id@),
    {
        let _ = self.records.remove(room_id);
    }

    /// Whether the recorder of the room was asked to stop.
    pub fn stop_requested(&self, room_id: &str) -> (r: bool)
        ensures
            r == (self@.dom().contains(room_id@) && self@[room_id@].stop_flag),
    {
        match self.records.get(room_id) {
            Some(handle) => handle.stop_flag,
            None => false,
        }
    }

    /// Reads the split signal of the room and lowers it.
    pub fn take_split(&mut self, room_id: &str) -> (r: bool)
        ensures
            r == (old(self)@.dom().contains(room_id@) && old(self)@[room_id@].split_flag),
            final(self)@ == if old(self)@.dom().contains(room_id@) {
                old(self)@.insert(
                    room_id@,
                    HandleSpec { split_flag: false, ..old(self)@[room_id@] },
                )
            } else {
                old(self)@
            },
    {
        match self.records.remove(room_id) {
            Some(mut handle) => {
                let raised = handle.split_flag;
                handle.split_flag = false;
                self.records.insert(String::from_str(room_id), handle);
                assert(self@ =~= old(self)@.insert(
                    room_id@,
                    HandleSpec { split_flag: false, ..old(self)@[room_id@] },
                ));
                raised
            },
            None => {
                assert(self@ =~= old(self)@);
                false
            },
        }
    }

    /// Reads the title-change signal of the room and lowers it.
    pub fn take_title_split(&mut self, room_id: &str) -> (r: bool)
        ensures
            r == (old(self)@.dom().contains(room_id@) && old(self)@[room_id@].title_split_flag),
            final(self)@ == if old(self)@.dom().contains(room_id@) {
                old(self)@.insert(
                    room_id@,
                    HandleSpec { title_split_flag: false, ..old(self)@[room_id@] },
                )
            } else {
                old(self)@
            },
    {
        match self.records.remove(room_id) {
            Some(mut handle) => {
                let raised = handle.title_split_flag;
                handle.title_split_flag = false;
                self.records.insert(String::from_str(room_id), handle);
                assert(self@ =~= old(self)@.insert(
                    room_id@,
                    HandleSpec { title_split_flag: false, ..old(self)@[room_id@] },
                ));
                raised
            },
            None => {
                assert(self@ =~= old(self)@);
                false
            },
        }
    }

    /// Notes the file that the room's recorder writes now.
    pub fn update_current_file(&mut self, room_id: &str, file_path: &str)
        ensures
            final(self)@ == if old(self)@.dom().contains(room_id@) {
                old(self)@.insert(
                    room_id@,
                    HandleSpec { current_file: file_path@, ..old(self)@[room_id@] },
                )
            } else {
                old(self)@
            },
    {
        match self.records.remove(room_id) {
            Some(mut handle) => {
                handle.current_file = String::from_str(file_path);
                self.records.insert(String::from_str(room_id), handle);
                assert(self@ =~= old(self)@.insert(
                    room_id@,
                    HandleSpec { current_file: file_path@, ..old(self)@[room_id@] },
                ));
            },
            None => {
                assert(self@ =~= old(self)@);
            },
        }
    }

    /// The title last seen for the room, or `fallback` where the room is not
    /// recorded.
    pub fn load_current_title(&self, room_id: &str, fallback: &str) -> (r: String)
        ensures
            r@ == if self@.dom().contains(room_id@) {
                self@[room_id@].last_title
            } else {
                fallback@
            },
    {
        match self.records.get(room_id) {
            Some(handle) => handle.last_title.clone(),
            None => String::from_str(fallback),
        }
    }

    /// The day on which the room's recording began, where it is recorded and
    /// the day is known.
    pub fn load_record_start_date(&self, room_id: &str) -> (r: Option<String>)
        ensures
            match r {
                Some(date) => self@.dom().contains(room_id@) && date@
                    == self@[room_id@].start_date && !is_blank(date@),
                None => !self@.dom().contains(room_id@) || is_blank(self@[room_id@].start_date),
            },
    {
        match self.records.get(room_id) {
            Some(handle) => {
                if blank(handle.start_date.as_str()) {
                    None
                } else {
                    Some(handle.start_date.clone())
                }
            },
            None => None,
        }
    }

    /// Notes the title that the room shows now. Where it differs from the
    /// last one seen, it is kept and the title-change signal is raised.
    pub fn note_title(&mut self, room_id: &str, title: &str)
        ensures
            final(self)@ == if old(self)@.dom().contains(room_id@) && old(
                self,
            )@[room_id@].last_title != title@ {
                old(self)@.insert(
                    room_id@,
                    HandleSpec {
                        last_title: title@,
                        title_split_flag: true,
                        ..old(self)@[room_id@]
                    },
                )
            } else {
                old(self)@
            },
    {
        let differs = match self.records.get(room_id) {
            Some(handle) => !str_eq(handle.last_title.as_str(), title),
            None => false,
        };
        if differs {
            match self.records.remove(room_id) {
                Some(mut handle) => {
                    handle.last_title = String::from_str(title);
                    handle.title_split_flag = true;
                    self.records.insert(String::from_str(room_id), handle);
                    assert(self@ =~= old(self)@.insert(
                        room_id@,
                        HandleSpec {
                            last_title: title@,
                            title_split_flag: true,
                            ..old(self)@[room_id@]
                        },
                    ));
                },
                None => {},
            }
        }
    }

    /// Replaces the title last seen for the room, without raising a signal.
    pub fn set_title(&mut self, room_id: &str, title: &str)
        ensures
            final(self)@ == if old(self)@.dom().contains(room_id@) {
                old(self)@.insert(
                    room_id@,
                    HandleSpec { last_title: title@, ..old(self)@[room_id@] },
                )
            } else {
                old(self)@
            },
    {
        match self.records.remove(room_id) {
            Some(mut handle) => {
                handle.last_title = String::from_str(title);
                self.records.insert(String::from_str(room_id), handle);
                assert(self@ =~= old(self)@.insert(
                    room_id@,
                    HandleSpec { last_title: title@, ..old(self)@[room_id@] },
                ));
            },
            None => {
                assert(self@ =~= old(self)@);
            },
        }
    }
}

/// The line that is logged when a recording is asked to stop.
pub open spec fn stop_log_line(room_id: Seq<char>, reason: Seq<char>) -> Seq<char> {
    "record_stop room="@ + room_id + " reason="@ + reason
}

/// Asks the room's recorder to stop and hands back the line to log.
pub fn stop_recording(context: &mut LiveContext, room_id: &str, reason: &str) -> (line: String)
    ensures
        line@ == stop_log_line(room_id@, reason@),
        final(context).live_runtime@ == if old(context).live_runtime@.dom().contains(room_id@) {
            old(context).live_runtime@.insert(
                room_id@,
                HandleSpec { stop_flag: true, ..old(context).live_runtime@[room_id@] },
            )
        } else {
            old(context).live_runtime@
        },
        final(context).app_log_path == old(context).app_log_path,
{
    let mut line = String::from_str("record_stop room=");
    line.append(room_id);
    line.append(" reason=");
    line.append(reason);
    context.live_runtime.stop(room_id);
    line
}

/// Why a recording could not be started.
#[derive(Clone, Copy, Debug, PartialEq, Eq, Structural)]
pub enum StartError {
    /// The room is not on air.
    NotLive,
}

/// What starting a recording came to.
#[derive(Clone, Copy, Debug, PartialEq, Eq, Structural)]
pub enum StartOutcome {
    /// The room is recorded already; nothing was changed.
    AlreadyRecording,
    /// The recording was entered into the registry and is to be run.
    Started,
}

/// Enters a recording for a room that is on air and not recorded yet.
pub fn start_recording(
    runtime: &mut LiveRuntime,
    room_id: &str,
    room_info: &LiveRoomInfo,
    start_time: String,
    start_date: String,
) -> (r: Result<StartOutcome, StartError>)
    ensures
        old(runtime)@.dom().contains(room_id@) ==> r == Ok::<StartOutcome, StartError>(
            StartOutcome::AlreadyRecording,
        ) && final(runtime)@ == old(runtime)@,
        !old(runtime)@.dom().contains(room_id@) && room_info.live_status != LIVE_STATUS_ON_AIR
            ==> r == Err::<StartOutcome, StartError>(StartError::NotLive) && final(runtime)@
            == old(runtime)@,
        !old(runtime)@.dom().contains(room_id@) && room_info.live_status == LIVE_STATUS_ON_AIR
            ==> r == Ok::<StartOutcome, StartError>(StartOutcome::Started) && final(runtime)@
            == old(runtime)@.insert(
            room_id@,
            HandleSpec {
                stop_flag: false,
                split_flag: false,
                title_split_flag: false,
                last_title: room_info.title@,
                current_file: Seq::empty(),
                start_time: start_time@,
                start_date: start_date@,
            },
        ),
{
    if runtime.is_recording(room_id) {
        return Ok(StartOutcome::AlreadyRecording);
    }
    if room_info.live_status != LIVE_STATUS_ON_AIR {
        return Err(StartError::NotLive);
    }
    let handle = new_handle(room_info.title.clone(), start_time, start_date);
    runtime.register(room_id, handle);
    Ok(StartOutcome::Started)
}

/// What the periodic check does with a room.
#[derive(Clone, Copy, Debug, PartialEq, Eq, Structural)]
pub enum AutoRecordAction {
    /// Start recording the room.
    Start,
    /// Stop the recording: the broadcast is over.
    Stop,
    /// Leave things as they are.
    Keep,
}

/// Decides what the periodic check does: a room on air that is to be
/// recorded and is not yet is started; a recording of a room off air is
/// stopped.
pub fn auto_record_action(live_status: i64, auto_record: bool, recording: bool) -> (r:
    AutoRecordAction)
    ensures
        r == if live_status == LIVE_STATUS_ON_AIR && auto_record && !recording {
            AutoRecordAction::Start
        } else if live_status != LIVE_STATUS_ON_AIR && recording {
            AutoRecordAction::Stop
        } else {
            AutoRecordAction::Keep
        },
{
    if live_status == LIVE_STATUS_ON_AIR && auto_record && !recording {
        AutoRecordAction::Start
    } else if live_status != LIVE_STATUS_ON_AIR && recording {
        AutoRecordAction::Stop
    } else {
        AutoRecordAction::Keep
    }
}

/// Shortest session in seconds after which a failed recording is tried again.
pub const RETRY_MIN_SESSION_SECS: u64 = 60;

/// How often a failed recording is tried again.
pub const RETRY_LIMIT: u32 = 10;

/// What follows a run of the recorder.
#[derive(Clone, Copy, Debug, PartialEq, Eq, Structural)]
pub enum RetryDecision {
    /// The run ended in good order.
    Finished,
    /// The recorder was asked to stop.
    Stopped,
    /// The run failed within its first minute.
    ShortSession,
    /// The run failed more often than is retried.
    RetryLimit,
    /// The room is to be looked up, and recorded again if it is on air.
    CheckRoom,
}

/// Decides what follows a run of the recorder that ended with or without an
/// error after `session_secs`, where `retry_count` runs were retried before.
pub fn after_record_run(failed: bool, stop_requested: bool, session_secs: u64, retry_count: u32) -> (r:
    RetryDecision)
    ensures
        r == if !failed {
            RetryDecision::Finished
        } else if stop_requested {
            RetryDecision::Stopped
        } else if session_secs < RETRY_MIN_SESSION_SECS {
            RetryDecision::ShortSession
        } else if retry_count >= RETRY_LIMIT {
            RetryDecision::RetryLimit
        } else {
            RetryDecision::CheckRoom
        },
{
    if !failed {
        RetryDecision::Finished
    } else if stop_requested {
        RetryDecision::Stopped
    } else if session_secs < RETRY_MIN_SESSION_SECS {
        RetryDecision::ShortSession
    } else if retry_count >= RETRY_LIMIT {
        RetryDecision::RetryLimit
    } else {
        RetryDecision::CheckRoom
    }
}

} // verus!
