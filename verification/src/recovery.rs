//! The sweeps over recordings that no recorder writes any more: at the
//! start of the process, and again every ten minutes.

use vstd::prelude::*;
use crate::records::RecordStatus;
use crate::runtime::LIVE_STATUS_ON_AIR;
use crate::text::str_eq;

verus! {

/// Oldest age in seconds at which a recovered recording is still re-wrapped.
pub const STALE_RECORD_REMUX_MAX_AGE_SECS: u64 = 36 * 60 * 60;

/// Seconds without a write after which a recording counts as idle.
pub const STALE_RECORD_IDLE_SECS: u64 = 30 * 60;

/// Seconds between two sweeps.
pub const STALE_RECORD_RECOVERY_INTERVAL_SECS: u64 = 10 * 60;

/// What is known of a file on disk: its size, and the seconds since it was
/// last written, where the clock can tell.
#[derive(Clone, Copy, Debug, PartialEq, Eq, Structural)]
pub struct FileFacts {
    pub size: u64,
    pub age_secs: Option<u64>,
}

/// Why a recording is closed as failed.
#[derive(Clone, Copy, Debug, PartialEq, Eq, Structural)]
pub enum RecoveryNote {
    /// The file is gone.
    FileMissing,
    /// The file is empty.
    FileEmpty,
    /// The room is on air but nothing was written for too long.
    Idle,
}

impl RecoveryNote {
    /// The note as it is stored.
    pub fn message(self) -> (r: &'static str)
        ensures
            self == RecoveryNote::FileMissing ==> r@ == "录制恢复失败: 文件缺失"@,
            self == RecoveryNote::FileEmpty ==> r@ == "录制恢复失败: 空文件"@,
            self == RecoveryNote::Idle ==> r@ == "录制失活: 长时间无写入"@,
    {
        match self {
            RecoveryNote::FileMissing => "录制恢复失败: 文件缺失",
            RecoveryNote::FileEmpty => "录制恢复失败: 空文件",
            RecoveryNote::Idle => "录制失活: 长时间无写入",
        }
    }
}

/// What a sweep does with one recording.
#[derive(Clone, Copy, Debug, PartialEq, Eq, Structural)]
pub struct RecordRecovery {
    /// The status that the row gets.
    pub status: RecordStatus,
    /// The note that the row gets.
    pub note: Option<RecoveryNote>,
    /// The size that the row gets.
    pub file_size: u64,
    /// Whether the metadata file gets the end time and the size.
    pub update_metadata: bool,
    /// The size of the re-wrapped file, where it exists already: the row
    /// then points to it.
    pub switch_to_remuxed: Option<u64>,
    /// Whether the file is re-wrapped now.
    pub remux: bool,
}

/// Whether a file of this age is still re-wrapped.
pub open spec fn young_enough(age_secs: Option<u64>) -> bool {
    age_secs is Some && age_secs->0 <= STALE_RECORD_REMUX_MAX_AGE_SECS
}

/// What the sweep at the start of the process does with a recording that
/// is marked as running.
///
/// A recording whose file is gone has failed, and so has one whose file is
/// empty; any other is stopped. Where the re-wrapped file exists already
/// the row points to it; else a stopped recording is re-wrapped if it was
/// written within the last 36 hours.
pub open spec fn stale_recovery(
    file: Option<FileFacts>,
    metadata_exists: bool,
    remuxed_size: Option<u64>,
) -> RecordRecovery {
    match file {
        None => RecordRecovery {
            status: RecordStatus::Failed,
            note: Some(RecoveryNote::FileMissing),
            file_size: 0,
            update_metadata: false,
            switch_to_remuxed: None,
            remux: false,
        },
        Some(facts) => RecordRecovery {
            status: if facts.size == 0 {
                RecordStatus::Failed
            } else {
                RecordStatus::Stopped
            },
            note: if facts.size == 0 {
                Some(RecoveryNote::FileEmpty)
            } else {
                None
            },
            file_size: facts.size,
            update_metadata: metadata_exists,
            switch_to_remuxed: remuxed_size,
            remux: remuxed_size is None && facts.size > 0 && young_enough(facts.age_secs),
        },
    }
}

/// Decides what the sweep at the start of the process does with a
/// recording.
pub fn recover_stale_recording(
    file: Option<FileFacts>,
    metadata_exists: bool,
    remuxed_size: Option<u64>,
) -> (r: RecordRecovery)
    ensures
        r == stale_recovery(file, metadata_exists, remuxed_size),
{
    match file {
        None => RecordRecovery {
            status: RecordStatus::Failed,
            note: Some(RecoveryNote::FileMissing),
            file_size: 0,
            update_metadata: false,
            switch_to_remuxed: None,
            remux: false,
        },
        Some(facts) => {
            let young = match facts.age_secs {
                Some(age) => age <= STALE_RECORD_REMUX_MAX_AGE_SECS,
                None => false,
            };
            RecordRecovery {
                status: if facts.size == 0 {
                    RecordStatus::Failed
                } else {
                    RecordStatus::Stopped
                },
                note: if facts.size == 0 {
                    Some(RecoveryNote::FileEmpty)
                } else {
                    None
                },
                file_size: facts.size,
                update_metadata: metadata_exists,
                switch_to_remuxed: remuxed_size,
                remux: remuxed_size.is_none() && facts.size > 0 && young,
            }
        },
    }
}

/// What the periodic sweep does first with a recording that is marked as
/// running.
#[derive(Clone, Copy, Debug, PartialEq, Eq, Structural)]
pub enum IdleCheck {
    /// A recorder writes the file, or it was written lately: nothing is
    /// done.
    Leave,
    /// The file is gone: the recording has failed.
    Missing,
    /// The file is idle: the room is looked up.
    LookUpRoom,
}

/// Seconds for which a file was not written; zero where the clock cannot
/// tell.
pub open spec fn idle_secs(facts: FileFacts) -> u64 {
    match facts.age_secs {
        Some(age) => age,
        None => 0,
    }
}

/// Decides what the periodic sweep does first with a recording.
/// `active_file` is the file that the recorder of the room writes, if the
/// room is recorded.
pub fn check_idle_recording(active_file: Option<&str>, file_path: &str, file: Option<FileFacts>) -> (r:
    IdleCheck)
    ensures
        r == if active_file is Some && active_file->0@ == file_path@ {
            IdleCheck::Leave
        } else if file is None {
            IdleCheck::Missing
        } else if idle_secs(file->0) < STALE_RECORD_IDLE_SECS {
            IdleCheck::Leave
        } else {
            IdleCheck::LookUpRoom
        },
{
    if let Some(active) = active_file {
        if str_eq(active, file_path) {
            return IdleCheck::Leave;
        }
    }
    match file {
        None => IdleCheck::Missing,
        Some(facts) => {
            let idle = match facts.age_secs {
                Some(age) => age,
                None => 0,
            };
            if idle < STALE_RECORD_IDLE_SECS {
                IdleCheck::Leave
            } else {
                IdleCheck::LookUpRoom
            }
        },
    }
}

/// What the periodic sweep does with an idle recording whose room has the
/// live status `live_status`.
///
/// An empty file has failed. A room that is still on air means that the
/// recorder died: the recording has failed as idle. Else the broadcast is
/// over and the recording is stopped. Re-wrapping is as at the start of the
/// process.
pub open spec fn idle_recovery(
    facts: FileFacts,
    live_status: i64,
    metadata_exists: bool,
    remuxed_size: Option<u64>,
) -> RecordRecovery {
    RecordRecovery {
        status: if facts.size == 0 || live_status == LIVE_STATUS_ON_AIR {
            RecordStatus::Failed
        } else {
            RecordStatus::Stopped
        },
        note: if facts.size == 0 {
            Some(RecoveryNote::FileEmpty)
        } else if live_status == LIVE_STATUS_ON_AIR {
            Some(RecoveryNote::Idle)
        } else {
            None
        },
        file_size: facts.size,
        update_metadata: metadata_exists,
        switch_to_remuxed: remuxed_size,
        remux: remuxed_size is None && facts.size > 0 && young_enough(facts.age_secs),
    }
}

/// Decides what the periodic sweep does with an idle recording.
pub fn recover_idle_recording(
    facts: FileFacts,
    live_status: i64,
    metadata_exists: bool,
    remuxed_size: Option<u64>,
) -> (r: RecordRecovery)
    ensures
        r == idle_recovery(facts, live_status, metadata_exists, remuxed_size),
{
    let young = match facts.age_secs {
        Some(age) => age <= STALE_RECORD_REMUX_MAX_AGE_SECS,
        None => false,
    };
    RecordRecovery {
        status: if facts.size == 0 || live_status == LIVE_STATUS_ON_AIR {
            RecordStatus::Failed
        } else {
            RecordStatus::Stopped
        },
        note: if facts.size == 0 {
            Some(RecoveryNote::FileEmpty)
        } else if live_status == LIVE_STATUS_ON_AIR {
            Some(RecoveryNote::Idle)
        } else {
            None
        },
        file_size: facts.size,
        update_metadata: metadata_exists,
        switch_to_remuxed: remuxed_size,
        remux: remuxed_size.is_none() && facts.size > 0 && young,
    }
}

/// After a sweep no recording that it touched is marked as running, and a
/// recording is re-wrapped only where it is not empty, was written within
/// 36 hours and has no re-wrapped file yet.
pub proof fn lemma_sweeps_close_recordings(
    file: Option<FileFacts>,
    live_status: i64,
    metadata_exists: bool,
    remuxed_size: Option<u64>,
)
    ensures
        stale_recovery(file, metadata_exists, remuxed_size).status != RecordStatus::Recording,
        stale_recovery(file, metadata_exists, remuxed_size).remux ==> file is Some && file->0.size
            > 0 && young_enough(file->0.age_secs) && remuxed_size is None,
        file is Some ==> idle_recovery(
            file->0,
            live_status,
            metadata_exists,
            remuxed_size,
        ).status != RecordStatus::Recording,
        file is Some && idle_recovery(file->0, live_status, metadata_exists, remuxed_size).status
            == RecordStatus::Stopped ==> live_status != LIVE_STATUS_ON_AIR && file->0.size > 0,
{
}

} // verus!
