//! The rows and requests of the submission side, as plain values.

use vstd::prelude::*;
use crate::text::str_eq;

verus! {

/// What a caller gives to create a submission task.
#[derive(Debug)]
pub struct SubmissionTaskInput {
    pub title: String,
    pub description: Option<String>,
    pub cover_url: Option<String>,
    pub partition_id: i64,
    pub collection_id: Option<i64>,
    pub tags: Option<String>,
    pub video_type: String,
    pub segment_prefix: Option<String>,
    pub baidu_sync_enabled: Option<bool>,
    pub baidu_sync_path: Option<String>,
    pub baidu_sync_filename: Option<String>,
}

/// One source of a task as the caller names it.
#[derive(Debug)]
pub struct SourceVideoInput {
    pub source_file_path: String,
    pub sort_order: i64,
    pub start_time: Option<String>,
    pub end_time: Option<String>,
}

/// Request to create a task. The workflow configuration is JSON text.
#[derive(Debug)]
pub struct SubmissionCreateRequest {
    pub task: SubmissionTaskInput,
    pub source_videos: Vec<SourceVideoInput>,
    pub workflow_config: Option<String>,
}

/// Request to add sources to a finished task and submit again.
#[derive(Debug)]
pub struct SubmissionUpdateRequest {
    pub task_id: String,
    pub source_videos: Vec<SourceVideoInput>,
    pub workflow_config: Option<String>,
    pub baidu_sync_enabled: Option<bool>,
    pub baidu_sync_path: Option<String>,
    pub baidu_sync_filename: Option<String>,
}

/// Request to cut the merged file of a task into segments anew.
#[derive(Debug)]
pub struct SubmissionResegmentRequest {
    pub task_id: String,
    pub segment_duration_seconds: i64,
}

/// Request to run a task again from its sources.
#[derive(Debug)]
pub struct SubmissionRepostRequest {
    pub task_id: String,
    pub integrate_current_bvid: bool,
    pub baidu_sync_enabled: Option<bool>,
    pub baidu_sync_path: Option<String>,
    pub baidu_sync_filename: Option<String>,
}

/// The task fields that an edit may change.
#[derive(Debug)]
pub struct SubmissionEditTaskInput {
    pub title: String,
    pub description: Option<String>,
    pub partition_id: i64,
    pub collection_id: Option<i64>,
    pub tags: Option<String>,
    pub video_type: String,
    pub segment_prefix: Option<String>,
}

/// One part as an edit submits it.
#[derive(Clone, Debug)]
pub struct SubmissionEditSegmentInput {
    pub segment_id: String,
    pub part_name: String,
    pub part_order: i64,
    pub segment_file_path: String,
    pub cid: Option<i64>,
    pub file_name: Option<String>,
}

/// Request to submit an edit.
#[derive(Debug)]
pub struct SubmissionEditSubmitRequest {
    pub task_id: String,
    pub task: SubmissionEditTaskInput,
    pub segments: Vec<SubmissionEditSegmentInput>,
}

/// Request to upload one more part for an edit.
#[derive(Debug)]
pub struct SubmissionEditAddSegmentRequest {
    pub task_id: String,
    pub file_path: String,
    pub part_name: Option<String>,
}

/// Request to upload the file of a part again.
#[derive(Debug)]
pub struct SubmissionEditReuploadSegmentRequest {
    pub task_id: String,
    pub segment_id: String,
    pub file_path: String,
}

/// Request for the state of the uploads of an edit.
#[derive(Debug)]
pub struct SubmissionEditUploadStatusRequest {
    pub task_id: String,
    pub segment_ids: Option<Vec<String>>,
}

/// Request to forget the uploads of an edit.
#[derive(Debug)]
pub struct SubmissionEditUploadClearRequest {
    pub task_id: String,
}

/// What creating a task came to.
#[derive(Debug)]
pub struct TaskCreationResult {
    pub task_id: String,
    pub workflow_instance_id: Option<String>,
    pub workflow_status: Option<String>,
    pub workflow_error: Option<String>,
}

/// State of the latest workflow instance of a task. Progress is in percent.
#[derive(Clone, Debug)]
pub struct WorkflowStatusRecord {
    pub status: String,
    pub current_step: Option<String>,
    pub progress: u8,
}

/// The row of a submission task.
#[derive(Clone, Debug)]
pub struct SubmissionTaskRecord {
    pub task_id: String,
    pub status: String,
    pub title: String,
    pub description: Option<String>,
    pub cover_url: Option<String>,
    pub partition_id: i64,
    pub tags: Option<String>,
    pub video_type: String,
    pub collection_id: Option<i64>,
    pub bvid: Option<String>,
    pub aid: Option<i64>,
    pub remote_state: Option<i64>,
    pub reject_reason: Option<String>,
    pub created_at: String,
    pub updated_at: String,
    pub segment_prefix: Option<String>,
    pub baidu_sync_enabled: bool,
    pub baidu_sync_path: Option<String>,
    pub baidu_sync_filename: Option<String>,
    pub has_integrated_downloads: bool,
    pub workflow_status: Option<WorkflowStatusRecord>,
}

/// One page of tasks.
#[derive(Debug)]
pub struct PaginatedSubmissionTasks {
    pub items: Vec<SubmissionTaskRecord>,
    pub total: i64,
    pub page: i64,
    pub page_size: i64,
}

/// The row of a source of a task.
#[derive(Debug)]
pub struct TaskSourceVideoRecord {
    pub id: String,
    pub task_id: String,
    pub source_file_path: String,
    pub sort_order: i64,
    pub start_time: Option<String>,
    pub end_time: Option<String>,
}

/// The row of an output segment of a task, with the checkpoint of its
/// upload. The progress in percent follows from the byte counts.
#[derive(Clone, Debug)]
pub struct TaskOutputSegmentRecord {
    pub segment_id: String,
    pub task_id: String,
    pub part_name: String,
    pub segment_file_path: String,
    pub part_order: i64,
    pub upload_status: String,
    pub cid: Option<i64>,
    pub file_name: Option<String>,
    pub upload_uploaded_bytes: i64,
    pub upload_total_bytes: i64,
    pub upload_session_id: Option<String>,
    pub upload_biz_id: i64,
    pub upload_endpoint: Option<String>,
    pub upload_auth: Option<String>,
    pub upload_uri: Option<String>,
    pub upload_chunk_size: i64,
    pub upload_last_part_index: i64,
}

/// The row of a merged file of a task, with the checkpoint of its upload.
#[derive(Clone, Debug)]
pub struct MergedVideoRecord {
    pub id: i64,
    pub task_id: String,
    pub file_name: Option<String>,
    pub video_path: Option<String>,
    pub duration: Option<i64>,
    pub status: i64,
    pub upload_uploaded_bytes: i64,
    pub upload_total_bytes: i64,
    pub upload_cid: Option<i64>,
    pub upload_file_name: Option<String>,
    pub upload_session_id: Option<String>,
    pub upload_biz_id: i64,
    pub upload_endpoint: Option<String>,
    pub upload_auth: Option<String>,
    pub upload_uri: Option<String>,
    pub upload_chunk_size: i64,
    pub upload_last_part_index: i64,
    pub create_time: String,
    pub update_time: String,
}

/// A task with all that belongs to it. The workflow configuration is JSON
/// text.
#[derive(Debug)]
pub struct SubmissionTaskDetail {
    pub task: SubmissionTaskRecord,
    pub source_videos: Vec<TaskSourceVideoRecord>,
    pub output_segments: Vec<TaskOutputSegmentRecord>,
    pub merged_videos: Vec<MergedVideoRecord>,
    pub workflow_config: Option<String>,
}

/// Status of a submission task.
#[derive(Clone, Copy, Debug, PartialEq, Eq, Structural)]
pub enum TaskStatus {
    Pending,
    Clipping,
    Merging,
    Segmenting,
    WaitingUpload,
    Uploading,
    Completed,
    Failed,
    Cancelled,
}

/// Status of a workflow instance. `VideoDownloading` marks an instance that
/// waits for the downloads of its sources.
#[derive(Clone, Copy, Debug, PartialEq, Eq, Structural)]
pub enum WorkflowState {
    Pending,
    Running,
    Paused,
    Completed,
    Failed,
    Cancelled,
    VideoDownloading,
}

/// Upload status of an output segment.
#[derive(Clone, Copy, Debug, PartialEq, Eq, Structural)]
pub enum UploadStatus {
    Pending,
    Uploading,
    RateLimited,
    Success,
    Failed,
}

/// Kind of a workflow.
#[derive(Clone, Copy, Debug, PartialEq, Eq, Structural)]
pub enum WorkflowType {
    VideoSubmission,
    VideoUpdate,
    VideoResegment,
}

/// Status of a recording.
#[derive(Clone, Copy, Debug, PartialEq, Eq, Structural)]
pub enum RecordStatus {
    Recording,
    Completed,
    Stopped,
    Failed,
}

impl TaskStatus {
    /// The name under which the status is stored.
    pub open spec fn name(self) -> Seq<char> {
        match self {
            TaskStatus::Pending => "PENDING"@,
            TaskStatus::Clipping => "CLIPPING"@,
            TaskStatus::Merging => "MERGING"@,
            TaskStatus::Segmenting => "SEGMENTING"@,
            TaskStatus::WaitingUpload => "WAITING_UPLOAD"@,
            TaskStatus::Uploading => "UPLOADING"@,
            TaskStatus::Completed => "COMPLETED"@,
            TaskStatus::Failed => "FAILED"@,
            TaskStatus::Cancelled => "CANCELLED"@,
        }
    }

    /// The name under which the status is stored.
    pub fn as_str(self) -> (r: &'static str)
        ensures
            r@ == self.name(),
    {
        match self {
            TaskStatus::Pending => "PENDING",
            TaskStatus::Clipping => "CLIPPING",
            TaskStatus::Merging => "MERGING",
            TaskStatus::Segmenting => "SEGMENTING",
            TaskStatus::WaitingUpload => "WAITING_UPLOAD",
            TaskStatus::Uploading => "UPLOADING",
            TaskStatus::Completed => "COMPLETED",
            TaskStatus::Failed => "FAILED",
            TaskStatus::Cancelled => "CANCELLED",
        }
    }

    /// The status that is stored under `name`, if `name` is one.
    pub fn parse(name: &str) -> (r: Option<TaskStatus>)
        ensures
            match r {
                Some(status) => status.name() == name@,
                None => forall|status: TaskStatus| status.name() != name@,
            },
    {
        if str_eq(name, "PENDING") {
            Some(TaskStatus::Pending)
        } else if str_eq(name, "CLIPPING") {
            Some(TaskStatus::Clipping)
        } else if str_eq(name, "MERGING") {
            Some(TaskStatus::Merging)
        } else if str_eq(name, "SEGMENTING") {
            Some(TaskStatus::Segmenting)
        } else if str_eq(name, "WAITING_UPLOAD") {
            Some(TaskStatus::WaitingUpload)
        } else if str_eq(name, "UPLOADING") {
            Some(TaskStatus::Uploading)
        } else if str_eq(name, "COMPLETED") {
            Some(TaskStatus::Completed)
        } else if str_eq(name, "FAILED") {
            Some(TaskStatus::Failed)
        } else if str_eq(name, "CANCELLED") {
            Some(TaskStatus::Cancelled)
        } else {
            None
        }
    }
}

impl WorkflowState {
    /// The name under which the status is stored.
    pub open spec fn name(self) -> Seq<char> {
        match self {
            WorkflowState::Pending => "PENDING"@,
            WorkflowState::Running => "RUNNING"@,
            WorkflowState::Paused => "PAUSED"@,
            WorkflowState::Completed => "COMPLETED"@,
            WorkflowState::Failed => "FAILED"@,
            WorkflowState::Cancelled => "CANCELLED"@,
            WorkflowState::VideoDownloading => "VIDEO_DOWNLOADING"@,
        }
    }

    /// The name under which the status is stored.
    pub fn as_str(self) -> (r: &'static str)
        ensures
            r@ == self.name(),
    {
        match self {
            WorkflowState::Pending => "PENDING",
            WorkflowState::Running => "RUNNING",
            WorkflowState::Paused => "PAUSED",
            WorkflowState::Completed => "COMPLETED",
            WorkflowState::Failed => "FAILED",
            WorkflowState::Cancelled => "CANCELLED",
            WorkflowState::VideoDownloading => "VIDEO_DOWNLOADING",
        }
    }

    /// The status that is stored under `name`, if `name` is one.
    pub fn parse(name: &str) -> (r: Option<WorkflowState>)
        ensures
            match r {
                Some(status) => status.name() == name@,
                None => forall|status: WorkflowState| status.name() != name@,
            },
    {
        if str_eq(name, "PENDING") {
            Some(WorkflowState::Pending)
        } else if str_eq(name, "RUNNING") {
            Some(WorkflowState::Running)
        } else if str_eq(name, "PAUSED") {
            Some(WorkflowState::Paused)
        } else if str_eq(name, "COMPLETED") {
            Some(WorkflowState::Completed)
        } else if str_eq(name, "FAILED") {
            Some(WorkflowState::Failed)
        } else if str_eq(name, "CANCELLED") {
            Some(WorkflowState::Cancelled)
        } else if str_eq(name, "VIDEO_DOWNLOADING") {
            Some(WorkflowState::VideoDownloading)
        } else {
            None
        }
    }
}

impl UploadStatus {
    /// The name under which the status is stored.
    pub open spec fn name(self) -> Seq<char> {
        match self {
            UploadStatus::Pending => "PENDING"@,
            UploadStatus::Uploading => "UPLOADING"@,
            UploadStatus::RateLimited => "RATE_LIMITED"@,
            UploadStatus::Success => "SUCCESS"@,
            UploadStatus::Failed => "FAILED"@,
        }
    }

    /// The name under which the status is stored.
    pub fn as_str(self) -> (r: &'static str)
        ensures
            r@ == self.name(),
    {
        match self {
            UploadStatus::Pending => "PENDING",
            UploadStatus::Uploading => "UPLOADING",
            UploadStatus::RateLimited => "RATE_LIMITED",
            UploadStatus::Success => "SUCCESS",
            UploadStatus::Failed => "FAILED",
        }
    }

    /// The status that is stored under `name`, if `name` is one.
    pub fn parse(name: &str) -> (r: Option<UploadStatus>)
        ensures
            match r {
                Some(status) => status.name() == name@,
                None => forall|status: UploadStatus| status.name() != name@,
            },
    {
        if str_eq(name, "PENDING") {
            Some(UploadStatus::Pending)
        } else if str_eq(name, "UPLOADING") {
            Some(UploadStatus::Uploading)
        } else if str_eq(name, "RATE_LIMITED") {
            Some(UploadStatus::RateLimited)
        } else if str_eq(name, "SUCCESS") {
            Some(UploadStatus::Success)
        } else if str_eq(name, "FAILED") {
            Some(UploadStatus::Failed)
        } else {
            None
        }
    }
}

impl WorkflowType {
    /// The name under which the kind is stored.
    pub open spec fn name(self) -> Seq<char> {
        match self {
            WorkflowType::VideoSubmission => "VIDEO_SUBMISSION"@,
            WorkflowType::VideoUpdate => "VIDEO_UPDATE"@,
            WorkflowType::VideoResegment => "VIDEO_RESEGMENT"@,
        }
    }

    /// The name under which the kind is stored.
    pub fn as_str(self) -> (r: &'static str)
        ensures
            r@ == self.name(),
    {
        match self {
            WorkflowType::VideoSubmission => "VIDEO_SUBMISSION",
            WorkflowType::VideoUpdate => "VIDEO_UPDATE",
            WorkflowType::VideoResegment => "VIDEO_RESEGMENT",
        }
    }

    /// The kind that is stored under `name`, if `name` is one.
    pub fn parse(name: &str) -> (r: Option<WorkflowType>)
        ensures
            match r {
                Some(kind) => kind.name() == name@,
                None => forall|kind: WorkflowType| kind.name() != name@,
            },
    {
        if str_eq(name, "VIDEO_SUBMISSION") {
            Some(WorkflowType::VideoSubmission)
        } else if str_eq(name, "VIDEO_UPDATE") {
            Some(WorkflowType::VideoUpdate)
        } else if str_eq(name, "VIDEO_RESEGMENT") {
            Some(WorkflowType::VideoResegment)
        } else {
            None
        }
    }
}

impl RecordStatus {
    /// The name under which the status is stored.
    pub open spec fn name(self) -> Seq<char> {
        match self {
            RecordStatus::Recording => "RECORDING"@,
            RecordStatus::Completed => "COMPLETED"@,
            RecordStatus::Stopped => "STOPPED"@,
            RecordStatus::Failed => "FAILED"@,
        }
    }

    /// The name under which the status is stored.
    pub fn as_str(self) -> (r: &'static str)
        ensures
            r@ == self.name(),
    {
        match self {
            RecordStatus::Recording => "RECORDING",
            RecordStatus::Completed => "COMPLETED",
            RecordStatus::Stopped => "STOPPED",
            RecordStatus::Failed => "FAILED",
        }
    }
}

/// The characters of an optional string.
pub open spec fn opt_chars(s: Option<String>) -> Option<Seq<char>> {
    match s {
        Some(t) => Some(t@),
        None => None,
    }
}

/// The characters of an optional string, or none where there is no string.
pub open spec fn chars_or_empty(s: Option<String>) -> Seq<char> {
    match s {
        Some(t) => t@,
        None => Seq::empty(),
    }
}

/// The characters of an optional text, or none where there is no text.
pub open spec fn chars_or_empty_seq(s: Option<Seq<char>>) -> Seq<char> {
    match s {
        Some(t) => t,
        None => Seq::empty(),
    }
}

} // verus!
