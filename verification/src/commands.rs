//! The checks and plans of the commands that callers give: run again, cut
//! anew, queue for upload, pause, resume and cancel.

use vstd::prelude::*;
use crate::records::{
    SubmissionTaskRecord, TaskCreationResult, TaskSourceVideoRecord, TaskStatus, WorkflowState,
    WorkflowType,
};
use crate::text::{blank, is_blank, str_eq};
use crate::workflow::IntegratedDownloadStats;

verus! {

/// Why a command is refused.
#[derive(Clone, Copy, Debug, PartialEq, Eq, Structural)]
pub enum CommandError {
    EmptyTaskId,
    EmptySegmentId,
    /// The task is being uploaded.
    Uploading,
    /// The task is being uploaded (as the queue command says it).
    UploadingNow,
    /// The task is being uploaded (as the retry of a segment says it).
    UploadingRetryLater,
    NoSources,
    /// No workflow configuration is stored for the task.
    NoWorkflowConfig,
    /// The request names no workflow configuration.
    EmptyWorkflowConfig,
    /// The task has no id at the remote side to integrate into.
    NoBvid,
    /// A source is missing and no download is known for it.
    SourceMissing,
    /// A download to repeat has no address.
    DownloadWithoutUrl,
    /// A download to repeat has no local path.
    DownloadWithoutPath,
    /// The length of a segment must be positive.
    BadSegmentDuration,
    NoMergedVideo,
    MergedFileMissing,
    /// The status of the task does not allow queueing it.
    NotQueueable,
    /// The status of the task does not allow running it in one go.
    NotIntegrable,
    NoLinkedDownloads,
    DownloadsFailed,
    DownloadsUnfinished,
    WorkflowRunning,
    WorkflowMissing,
    CannotPause,
    CannotResume,
    SegmentNotFound,
}

impl CommandError {
    /// The message that the error is shown as.
    pub fn message(self) -> (r: &'static str)
        ensures
            self == CommandError::EmptyTaskId ==> r@ == "任务ID不能为空"@,
            self == CommandError::EmptySegmentId ==> r@ == "分段ID不能为空"@,
            self == CommandError::Uploading ==> r@ == "任务正在投稿中，请稍后再试"@,
            self == CommandError::UploadingNow ==> r@ == "任务正在投稿中"@,
            self == CommandError::UploadingRetryLater ==> r@ == "任务正在投稿中，请稍后重试"@,
            self == CommandError::NoSources ==> r@ == "请至少添加一个源视频"@,
            self == CommandError::NoWorkflowConfig ==> r@ == "未找到工作流配置"@,
            self == CommandError::EmptyWorkflowConfig ==> r@ == "工作流配置不能为空"@,
            self == CommandError::NoBvid ==> r@ == "当前任务没有BV号，无法集成投稿"@,
            self == CommandError::SourceMissing ==> r@ == "源视频不存在，请先下载"@,
            self == CommandError::DownloadWithoutUrl ==> r@ == "下载记录缺少下载地址，无法重新下载"@,
            self == CommandError::DownloadWithoutPath ==> r@ == "下载记录缺少本地路径，无法重新下载"@,
            self == CommandError::BadSegmentDuration ==> r@ == "分段时长必须大于0"@,
            self == CommandError::NoMergedVideo ==> r@ == "未找到合并视频"@,
            self == CommandError::MergedFileMissing ==> r@ == "合并视频文件不存在"@,
            self == CommandError::NotQueueable ==> r@ == "任务状态不支持投稿"@,
            self == CommandError::NotIntegrable ==> r@ == "当前任务状态不支持一键投稿"@,
            self == CommandError::NoLinkedDownloads ==> r@ == "该任务未关联下载记录"@,
            self == CommandError::DownloadsFailed ==> r@ == "存在下载失败的分P，请先重试下载"@,
            self == CommandError::DownloadsUnfinished ==> r@ == "仍有分P下载未完成"@,
            self == CommandError::WorkflowRunning ==> r@ == "工作流执行中"@,
            self == CommandError::WorkflowMissing ==> r@ == "未找到工作流实例"@,
            self == CommandError::CannotPause ==> r@ == "当前工作流无法暂停"@,
            self == CommandError::CannotResume ==> r@ == "当前工作流无法恢复"@,
            self == CommandError::SegmentNotFound ==> r@ == "未找到分段信息"@,
    {
        match self {
            CommandError::EmptyTaskId => "任务ID不能为空",
            CommandError::EmptySegmentId => "分段ID不能为空",
            CommandError::Uploading => "任务正在投稿中，请稍后再试",
            CommandError::UploadingNow => "任务正在投稿中",
            CommandError::UploadingRetryLater => "任务正在投稿中，请稍后重试",
            CommandError::NoSources => "请至少添加一个源视频",
            CommandError::NoWorkflowConfig => "未找到工作流配置",
            CommandError::EmptyWorkflowConfig => "工作流配置不能为空",
            CommandError::NoBvid => "当前任务没有BV号，无法集成投稿",
            CommandError::SourceMissing => "源视频不存在，请先下载",
            CommandError::DownloadWithoutUrl => "下载记录缺少下载地址，无法重新下载",
            CommandError::DownloadWithoutPath => "下载记录缺少本地路径，无法重新下载",
            CommandError::BadSegmentDuration => "分段时长必须大于0",
            CommandError::NoMergedVideo => "未找到合并视频",
            CommandError::MergedFileMissing => "合并视频文件不存在",
            CommandError::NotQueueable => "任务状态不支持投稿",
            CommandError::NotIntegrable => "当前任务状态不支持一键投稿",
            CommandError::NoLinkedDownloads => "该任务未关联下载记录",
            CommandError::DownloadsFailed => "存在下载失败的分P，请先重试下载",
            CommandError::DownloadsUnfinished => "仍有分P下载未完成",
            CommandError::WorkflowRunning => "工作流执行中",
            CommandError::WorkflowMissing => "未找到工作流实例",
            CommandError::CannotPause => "当前工作流无法暂停",
            CommandError::CannotResume => "当前工作流无法恢复",
            CommandError::SegmentNotFound => "未找到分段信息",
        }
    }
}

/// A download that belongs to a task.
#[derive(Clone, Debug)]
pub struct IntegratedDownloadRecord {
    pub id: i64,
    pub download_url: String,
    pub bvid: Option<String>,
    pub aid: Option<String>,
    pub title: Option<String>,
    pub part_title: Option<String>,
    pub part_count: Option<i64>,
    pub current_part: Option<i64>,
    pub local_path: String,
    pub resolution: Option<String>,
    pub codec: Option<String>,
    pub format: Option<String>,
    pub cid: Option<i64>,
    pub content: Option<String>,
}

/// The paths of the sources that are missing: of those that name a file,
/// the ones whose file does not exist. `exists[i]` tells whether the file
/// of source `i` exists; a source of which it tells nothing counts as
/// missing.
pub open spec fn missing_sources(sources: Seq<TaskSourceVideoRecord>, exists: Seq<bool>) -> Seq<
    Seq<char>,
>
    decreases sources.len(),
{
    if sources.len() == 0 {
        Seq::empty()
    } else {
        let before = missing_sources(sources.drop_last(), exists);
        let last = sources.len() - 1;
        let there = last < exists.len() && exists[last];
        if !is_blank(sources.last().source_file_path@) && !there {
            before.push(sources.last().source_file_path@)
        } else {
            before
        }
    }
}

/// Collects the paths of the sources that are missing.
pub fn collect_missing_source_files(sources: &Vec<TaskSourceVideoRecord>, exists: &Vec<bool>) -> (r:
    Vec<String>)
    ensures
        crate::upload_queue::texts_of(r@) == missing_sources(sources@, exists@),
{
    let mut missing: Vec<String> = Vec::new();
    let mut i: usize = 0;
    assert(crate::upload_queue::texts_of(missing@) =~= Seq::<Seq<char>>::empty());
    while i < sources.len()
        invariant
            i <= sources@.len(),
            crate::upload_queue::texts_of(missing@) == missing_sources(
                sources@.take(i as int),
                exists@,
            ),
        decreases sources@.len() - i,
    {
        proof {
            assert(sources@.take(i + 1).drop_last() =~= sources@.take(i as int));
        }
        let source = &sources[i];
        let there = i < exists.len() && exists[i];
        if !blank(source.source_file_path.as_str()) && !there {
            let ghost before = missing@;
            missing.push(source.source_file_path.clone());
            assert(crate::upload_queue::texts_of(missing@) =~= crate::upload_queue::texts_of(
                before,
            ).push(source.source_file_path@));
        }
        i += 1;
    }
    assert(sources@.take(sources@.len() as int) =~= sources@);
    missing
}

/// What running a task again does.
#[derive(Debug)]
pub enum RepostPlan {
    /// All sources are there: the task is reset and its workflow started.
    Restart { workflow_type: WorkflowType, clear_bvid: bool },
    /// Sources are missing and can be downloaded again: these downloads,
    /// given by their places among the task's downloads, are queued again
    /// for the task, one for each missing source. The task waits for them
    /// as it is; `workflow_type` is the kind of the workflow instance that
    /// the new downloads point at.
    Redownload { workflow_type: WorkflowType, downloads: Vec<usize> },
}

/// What a repost does to the task.
#[derive(Debug)]
pub struct RepostEffect {
    /// The status that the task's row holds afterwards.
    pub status: String,
    /// Whether the ids at the remote side are forgotten.
    pub clear_remote_ids: bool,
    /// Whether what the last run made (clips, merged file, segments) goes.
    pub clear_derived: bool,
    /// Whether the workflow is started by this call.
    pub start_workflow: bool,
    /// What the caller is told.
    pub message: &'static str,
}

/// What the caller is told when the task was restarted.
pub const REPOST_STARTED: &'static str = "重新投稿已启动";

/// What the caller is told when sources are missing and are downloaded
/// again.
pub const REPOST_WAITS_FOR_DOWNLOADS: &'static str =
    "源视频缺失，已创建下载任务，下载完成后自动重新投稿";

/// What a plan does to a task whose row holds `stored_status`.
///
/// A restart puts the task back to pending, clears what the last run made,
/// forgets the remote ids where the plan says so, and starts the workflow. A
/// plan that downloads missing sources again leaves the task as it is: its
/// status and its remote ids stay, nothing is cleared, and no workflow is
/// started by the call.
pub fn repost_effect(plan: &RepostPlan, stored_status: &str) -> (r: RepostEffect)
    ensures
        match *plan {
            RepostPlan::Restart { workflow_type, clear_bvid } => {
                &&& r.status@ == TaskStatus::Pending.name()
                &&& r.clear_remote_ids == clear_bvid
                &&& r.clear_derived
                &&& r.start_workflow
                &&& r.message@ == REPOST_STARTED@
            },
            RepostPlan::Redownload { .. } => {
                &&& r.status@ == stored_status@
                &&& !r.clear_remote_ids
                &&& !r.clear_derived
                &&& !r.start_workflow
                &&& r.message@ == REPOST_WAITS_FOR_DOWNLOADS@
            },
        },
{
    match plan {
        RepostPlan::Restart { clear_bvid, .. } => RepostEffect {
            status: String::from_str(TaskStatus::Pending.as_str()),
            clear_remote_ids: *clear_bvid,
            clear_derived: true,
            start_workflow: true,
            message: REPOST_STARTED,
        },
        RepostPlan::Redownload { .. } => RepostEffect {
            status: String::from_str(stored_status),
            clear_remote_ids: false,
            clear_derived: false,
            start_workflow: false,
            message: REPOST_WAITS_FOR_DOWNLOADS,
        },
    }
}

/// The place of the download that fetches `path`: the last of the
/// downloads with that local path.
pub open spec fn download_for(records: Seq<IntegratedDownloadRecord>, path: Seq<char>) -> Option<
    int,
>
    decreases records.len(),
{
    if records.len() == 0 {
        None
    } else if records.last().local_path@ == path && !is_blank(path) {
        Some(records.len() - 1)
    } else {
        download_for(records.drop_last(), path)
    }
}

/// Finds the download that fetches `path`.
pub fn find_download(records: &Vec<IntegratedDownloadRecord>, path: &str) -> (r: Option<usize>)
    ensures
        match r {
            Some(i) => download_for(records@, path@) == Some(i as int) && i < records@.len(),
            None => download_for(records@, path@) is None,
        },
{
    if blank(path) {
        proof {
            lemma_no_download_for_blank(records@, path@);
        }
        return None;
    }
    let mut i = records.len();
    assert(records@.take(records@.len() as int) =~= records@);
    while i > 0
        invariant
            i <= records@.len(),
            !is_blank(path@),
            download_for(records@, path@) == download_for(records@.take(i as int), path@),
        decreases i,
    {
        proof {
            assert(records@.take(i as int).drop_last() =~= records@.take(i - 1));
        }
        if str_eq(records[i - 1].local_path.as_str(), path) {
            return Some(i - 1);
        }
        i -= 1;
    }
    None
}

/// No download fetches a blank path.
proof fn lemma_no_download_for_blank(records: Seq<IntegratedDownloadRecord>, path: Seq<char>)
    requires
        is_blank(path),
    ensures
        download_for(records, path) is None,
    decreases records.len(),
{
    if records.len() > 0 {
        lemma_no_download_for_blank(records.drop_last(), path);
    }
}

/// The kind of workflow that a repost starts, and whether it forgets the
/// ids at the remote side: integrating into the current submission is an
/// update and keeps them.
pub fn repost_workflow(integrate_current_bvid: bool) -> (r: (WorkflowType, bool))
    ensures
        r == if integrate_current_bvid {
            (WorkflowType::VideoUpdate, false)
        } else {
            (WorkflowType::VideoSubmission, true)
        },
{
    if integrate_current_bvid {
        (WorkflowType::VideoUpdate, false)
    } else {
        (WorkflowType::VideoSubmission, true)
    }
}

/// Whether a task may be run again, as far as its row and its sources say.
pub open spec fn repost_check(
    task_id: Seq<char>,
    task: SubmissionTaskRecord,
    source_count: nat,
    has_workflow_config: bool,
    integrate_current_bvid: bool,
) -> Option<CommandError> {
    if is_blank(task_id) {
        Some(CommandError::EmptyTaskId)
    } else if task.status@ == TaskStatus::Uploading.name() {
        Some(CommandError::Uploading)
    } else if source_count == 0 {
        Some(CommandError::NoSources)
    } else if !has_workflow_config {
        Some(CommandError::NoWorkflowConfig)
    } else if integrate_current_bvid && (task.bvid is None || is_blank(task.bvid->0@)) {
        Some(CommandError::NoBvid)
    } else {
        None
    }
}

/// Checks whether a task may be run again.
pub fn check_repost(
    task_id: &str,
    task: &SubmissionTaskRecord,
    source_count: usize,
    has_workflow_config: bool,
    integrate_current_bvid: bool,
) -> (r: Option<CommandError>)
    ensures
        r == repost_check(
            task_id@,
            *task,
            source_count as nat,
            has_workflow_config,
            integrate_current_bvid,
        ),
{
    if blank(task_id) {
        return Some(CommandError::EmptyTaskId);
    }
    if str_eq(task.status.as_str(), TaskStatus::Uploading.as_str()) {
        return Some(CommandError::Uploading);
    }
    if source_count == 0 {
        return Some(CommandError::NoSources);
    }
    if !has_workflow_config {
        return Some(CommandError::NoWorkflowConfig);
    }
    if integrate_current_bvid {
        let has_bvid = match &task.bvid {
            Some(bvid) => !blank(bvid.as_str()),
            None => false,
        };
        if !has_bvid {
            return Some(CommandError::NoBvid);
        }
    }
    None
}

/// Plans running a task again, given the paths of its missing sources and
/// the downloads that belong to it.
///
/// Without missing sources the task is restarted. Else every missing source
/// must have a download that fetches it; those downloads are queued again.
pub fn plan_repost(
    missing: &Vec<String>,
    downloads: &Vec<IntegratedDownloadRecord>,
    integrate_current_bvid: bool,
) -> (r: Result<RepostPlan, CommandError>)
    ensures
        match r {
            Ok(RepostPlan::Restart { workflow_type, clear_bvid }) => {
                &&& missing@.len() == 0
                &&& workflow_type == if integrate_current_bvid {
                    WorkflowType::VideoUpdate
                } else {
                    WorkflowType::VideoSubmission
                }
                &&& clear_bvid == !integrate_current_bvid
            },
            Ok(RepostPlan::Redownload { workflow_type, downloads: chosen }) => {
                &&& missing@.len() > 0
                &&& workflow_type == if integrate_current_bvid {
                    WorkflowType::VideoUpdate
                } else {
                    WorkflowType::VideoSubmission
                }
                &&& chosen@.len() == missing@.len()
                &&& forall|i: int|
                    0 <= i < chosen@.len() ==> download_for(downloads@, missing@[i]@) == Some(
                        (#[trigger] chosen@[i]) as int,
                    )
            },
            Err(e) => e == CommandError::SourceMissing && missing@.len() > 0 && exists|i: int|
                0 <= i < missing@.len() && download_for(downloads@, (#[trigger] missing@[i])@)
                    is None,
        },
{
    let (workflow_type, clear_bvid) = repost_workflow(integrate_current_bvid);
    if missing.len() == 0 {
        return Ok(RepostPlan::Restart { workflow_type, clear_bvid });
    }
    let mut chosen: Vec<usize> = Vec::new();
    let mut i: usize = 0;
    while i < missing.len()
        invariant
            i <= missing@.len(),
            chosen@.len() == i,
            forall|k: int|
                0 <= k < i ==> download_for(downloads@, missing@[k]@) == Some(
                    (#[trigger] chosen@[k]) as int,
                ),
        decreases missing@.len() - i,
    {
        match find_download(downloads, missing[i].as_str()) {
            Some(at) => {
                chosen.push(at);
            },
            None => {
                return Err(CommandError::SourceMissing);
            },
        }
        i += 1;
    }
    Ok(RepostPlan::Redownload { workflow_type, downloads: chosen })
}

/// Checks that a download can be queued again: it has an address and a
/// local path.
pub fn check_retry_download(record: &IntegratedDownloadRecord) -> (r: Option<CommandError>)
    ensures
        r == if is_blank(record.download_url@) {
            Some(CommandError::DownloadWithoutUrl)
        } else if is_blank(record.local_path@) {
            Some(CommandError::DownloadWithoutPath)
        } else {
            None
        },
{
    if blank(record.download_url.as_str()) {
        Some(CommandError::DownloadWithoutUrl)
    } else if blank(record.local_path.as_str()) {
        Some(CommandError::DownloadWithoutPath)
    } else {
        None
    }
}

/// Whether the merged file of a task may be cut anew, as far as the request
/// and the rows say. `merged_exists` tells whether the merged file is on
/// disk.
pub open spec fn resegment_check(
    task_id: Seq<char>,
    segment_duration_seconds: i64,
    status: Seq<char>,
    merged_path: Option<Seq<char>>,
    merged_exists: bool,
) -> Option<CommandError> {
    if is_blank(task_id) {
        Some(CommandError::EmptyTaskId)
    } else if segment_duration_seconds <= 0 {
        Some(CommandError::BadSegmentDuration)
    } else if status == TaskStatus::Uploading.name() {
        Some(CommandError::Uploading)
    } else if merged_path is None || is_blank(merged_path->0) {
        Some(CommandError::NoMergedVideo)
    } else if !merged_exists {
        Some(CommandError::MergedFileMissing)
    } else {
        None
    }
}

/// Checks whether the merged file of a task may be cut anew. A task without
/// a merged row has no merged path.
pub fn check_resegment(
    task_id: &str,
    segment_duration_seconds: i64,
    status: &str,
    merged_path: Option<&str>,
    merged_exists: bool,
) -> (r: Option<CommandError>)
    ensures
        r == resegment_check(
            task_id@,
            segment_duration_seconds,
            status@,
            match merged_path {
                Some(p) => Some(p@),
                None => None,
            },
            merged_exists,
        ),
{
    if blank(task_id) {
        return Some(CommandError::EmptyTaskId);
    }
    if segment_duration_seconds <= 0 {
        return Some(CommandError::BadSegmentDuration);
    }
    if str_eq(status, TaskStatus::Uploading.as_str()) {
        return Some(CommandError::Uploading);
    }
    match merged_path {
        Some(p) if !blank(p) => {},
        _ => {
            return Some(CommandError::NoMergedVideo);
        },
    }
    if !merged_exists {
        return Some(CommandError::MergedFileMissing);
    }
    None
}

/// How cutting anew ended.
#[derive(Clone, Copy, Debug, PartialEq, Eq, Structural)]
pub enum ResegmentRun {
    /// The tool failed.
    ToolFailed,
    /// The tool made no segment.
    NoOutput,
    /// The segments could not be stored.
    StoreFailed,
    /// The segments are stored.
    Stored,
}

/// The status of the task and of its workflow instance after cutting anew:
/// waiting for upload and complete where the segments are stored, else both
/// failed.
pub fn after_resegment(run: ResegmentRun) -> (r: (TaskStatus, WorkflowState, u8))
    ensures
        r == if run == ResegmentRun::Stored {
            (TaskStatus::WaitingUpload, WorkflowState::Completed, 100u8)
        } else {
            (TaskStatus::Failed, WorkflowState::Failed, 0u8)
        },
{
    match run {
        ResegmentRun::Stored => (TaskStatus::WaitingUpload, WorkflowState::Completed, 100),
        _ => (TaskStatus::Failed, WorkflowState::Failed, 0),
    }
}

/// Checks whether a task can be queued for upload: it waits for upload or
/// has failed, and is not being uploaded.
pub fn check_upload_execute(task_id: &str, status: &str) -> (r: Option<CommandError>)
    ensures
        r == if is_blank(task_id@) {
            Some(CommandError::EmptyTaskId)
        } else if status@ == TaskStatus::Uploading.name() {
            Some(CommandError::UploadingNow)
        } else if status@ != TaskStatus::WaitingUpload.name() && status@
            != TaskStatus::Failed.name() {
            Some(CommandError::NotQueueable)
        } else {
            None
        },
{
    if blank(task_id) {
        Some(CommandError::EmptyTaskId)
    } else if str_eq(status, TaskStatus::Uploading.as_str()) {
        Some(CommandError::UploadingNow)
    } else if !str_eq(status, TaskStatus::WaitingUpload.as_str()) && !str_eq(
        status,
        TaskStatus::Failed.as_str(),
    ) {
        Some(CommandError::NotQueueable)
    } else {
        None
    }
}

/// Checks whether a failed task whose downloads are all complete can be run
/// in one go.
pub fn check_integrated_execute(
    task_id: &str,
    status: &str,
    stats: Option<IntegratedDownloadStats>,
    workflow: Option<WorkflowState>,
) -> (r: Option<CommandError>)
    ensures
        r == if is_blank(task_id@) {
            Some(CommandError::EmptyTaskId)
        } else if status@ != TaskStatus::Failed.name() {
            Some(CommandError::NotIntegrable)
        } else if stats is None {
            Some(CommandError::NoLinkedDownloads)
        } else if stats->0.failed > 0 {
            Some(CommandError::DownloadsFailed)
        } else if stats->0.completed != stats->0.total {
            Some(CommandError::DownloadsUnfinished)
        } else if workflow == Some(WorkflowState::Running) {
            Some(CommandError::WorkflowRunning)
        } else {
            None
        },
{
    if blank(task_id) {
        return Some(CommandError::EmptyTaskId);
    }
    if !str_eq(status, TaskStatus::Failed.as_str()) {
        return Some(CommandError::NotIntegrable);
    }
    let stats = match stats {
        Some(s) => s,
        None => {
            return Some(CommandError::NoLinkedDownloads);
        },
    };
    if stats.failed > 0 {
        return Some(CommandError::DownloadsFailed);
    }
    if stats.completed != stats.total {
        return Some(CommandError::DownloadsUnfinished);
    }
    match workflow {
        Some(WorkflowState::Running) => Some(CommandError::WorkflowRunning),
        _ => None,
    }
}

/// What the retry of a segment's upload does.
#[derive(Clone, Copy, Debug, PartialEq, Eq, Structural)]
pub enum RetrySegment {
    /// The segment is uploaded already.
    AlreadyUploaded,
    /// The segment is uploaded again.
    Upload,
}

/// Decides whether the upload of a segment is tried again.
pub fn check_retry_segment(segment_status: &str, task_status: &str) -> (r: Result<
    RetrySegment,
    CommandError,
>)
    ensures
        r == if segment_status@ == "SUCCESS"@ {
            Ok::<RetrySegment, CommandError>(RetrySegment::AlreadyUploaded)
        } else if task_status@ == TaskStatus::Uploading.name() {
            Err::<RetrySegment, CommandError>(CommandError::UploadingRetryLater)
        } else {
            Ok::<RetrySegment, CommandError>(RetrySegment::Upload)
        },
{
    if str_eq(segment_status, "SUCCESS") {
        Ok(RetrySegment::AlreadyUploaded)
    } else if str_eq(task_status, TaskStatus::Uploading.as_str()) {
        Err(CommandError::UploadingRetryLater)
    } else {
        Ok(RetrySegment::Upload)
    }
}

/// Whether a failed task waits for upload again after a segment was
/// uploaded on retry: no segment is left to upload.
pub fn requeue_after_retry(remaining: i64, task_status: &str) -> (r: bool)
    ensures
        r == (remaining == 0 && task_status@ == TaskStatus::Failed.name()),
{
    remaining == 0 && str_eq(task_status, TaskStatus::Failed.as_str())
}

/// The status that a workflow instance gets when it is paused: only a
/// running one can be.
pub fn workflow_pause(instance: Option<WorkflowState>) -> (r: Result<WorkflowState, CommandError>)
    ensures
        r == match instance {
            Some(WorkflowState::Running) => Ok::<WorkflowState, CommandError>(
                WorkflowState::Paused,
            ),
            Some(_) => Err::<WorkflowState, CommandError>(CommandError::CannotPause),
            None => Err::<WorkflowState, CommandError>(CommandError::WorkflowMissing),
        },
{
    match instance {
        Some(WorkflowState::Running) => Ok(WorkflowState::Paused),
        Some(_) => Err(CommandError::CannotPause),
        None => Err(CommandError::WorkflowMissing),
    }
}

/// The status that a workflow instance gets when it is resumed: only a
/// paused one can be.
pub fn workflow_resume(instance: Option<WorkflowState>) -> (r: Result<WorkflowState, CommandError>)
    ensures
        r == match instance {
            Some(WorkflowState::Paused) => Ok::<WorkflowState, CommandError>(
                WorkflowState::Running,
            ),
            Some(_) => Err::<WorkflowState, CommandError>(CommandError::CannotResume),
            None => Err::<WorkflowState, CommandError>(CommandError::WorkflowMissing),
        },
{
    match instance {
        Some(WorkflowState::Paused) => Ok(WorkflowState::Running),
        Some(_) => Err(CommandError::CannotResume),
        None => Err(CommandError::WorkflowMissing),
    }
}

/// The statuses that a workflow instance and its task get when the
/// workflow is cancelled.
pub fn workflow_cancel() -> (r: (WorkflowState, TaskStatus))
    ensures
        r == (WorkflowState::Cancelled, TaskStatus::Cancelled),
{
    (WorkflowState::Cancelled, TaskStatus::Cancelled)
}

/// Pausing and resuming undo each other.
pub proof fn lemma_pause_resume()
    ensures
        forall|s: WorkflowState|
            s == WorkflowState::Running ==> (#[trigger] pause_of(Some(s))) == Some(
                WorkflowState::Paused,
            ) && resume_of(pause_of(Some(s))) == Some(s),
        forall|s: WorkflowState|
            s == WorkflowState::Paused ==> (#[trigger] resume_of(Some(s))) == Some(
                WorkflowState::Running,
            ) && pause_of(resume_of(Some(s))) == Some(s),
{
}

/// The status after a pause, if the instance can be paused.
pub open spec fn pause_of(instance: Option<WorkflowState>) -> Option<WorkflowState> {
    match instance {
        Some(WorkflowState::Running) => Some(WorkflowState::Paused),
        _ => None,
    }
}

/// The status after a resume, if the instance can be resumed.
pub open spec fn resume_of(instance: Option<WorkflowState>) -> Option<WorkflowState> {
    match instance {
        Some(WorkflowState::Paused) => Some(WorkflowState::Running),
        _ => None,
    }
}

/// The page and the page size of a listing: the first page and twenty
/// tasks where nothing is asked for, and never less than one.
pub fn page_bounds(page: Option<i64>, page_size: Option<i64>) -> (r: (i64, i64, i64))
    ensures
        r.0 == match page {
            Some(p) if p >= 1 => p,
            _ => 1,
        },
        r.1 == match page_size {
            Some(s) if s >= 1 => s,
            _ => if page_size is Some {
                1
            } else {
                20
            },
        },
        r.2 == if (r.0 - 1) * r.1 <= i64::MAX {
            (r.0 - 1) * r.1
        } else {
            i64::MAX as int
        },
{
    let p = match page {
        Some(p) if p >= 1 => p,
        _ => 1,
    };
    let s = match page_size {
        Some(s) if s >= 1 => s,
        Some(_) => 1,
        None => 20,
    };
    assert(0 <= (p - 1) * s <= 0x7fff_ffff_ffff_ffff * 0x7fff_ffff_ffff_ffff) by (nonlinear_arith)
        requires
            1 <= p <= 0x7fff_ffff_ffff_ffff,
            1 <= s <= 0x7fff_ffff_ffff_ffff,
    ;
    let wide = (p as i128 - 1) * (s as i128);
    let offset = if wide > i64::MAX as i128 {
        i64::MAX
    } else {
        wide as i64
    };
    (p, s, offset)
}

/// Whether sources may be added to a task and the task submitted again, as
/// far as the request says: it names the task, at least one source, and a
/// workflow configuration. The task itself must be editable.
pub fn check_update(task_id: &str, source_count: usize, has_workflow_config: bool) -> (r: Option<
    CommandError,
>)
    ensures
        r == if is_blank(task_id@) {
            Some(CommandError::EmptyTaskId)
        } else if source_count == 0 {
            Some(CommandError::NoSources)
        } else if !has_workflow_config {
            Some(CommandError::EmptyWorkflowConfig)
        } else {
            None
        },
{
    if blank(task_id) {
        Some(CommandError::EmptyTaskId)
    } else if source_count == 0 {
        Some(CommandError::NoSources)
    } else if !has_workflow_config {
        Some(CommandError::EmptyWorkflowConfig)
    } else {
        None
    }
}

/// The order number of a source that is added behind the sources of a task:
/// it goes on from the largest one that is there.
pub fn appended_sort_order(base_order: i64, index: usize) -> (r: i64)
    ensures
        r == if base_order + index + 1 <= i64::MAX {
            base_order + index + 1
        } else {
            i64::MAX as int
        },
{
    let wide = base_order as i128 + index as i128 + 1;
    if wide > i64::MAX as i128 {
        i64::MAX
    } else {
        wide as i64
    }
}

/// What creating a workflow instance came to.
#[derive(Debug)]
pub enum WorkflowCreation {
    /// No configuration was given: no instance was made.
    NotAsked,
    /// The instance was made, with this id and status.
    Created { instance_id: String, status: String },
    /// The instance could not be made.
    Failed { error: String },
}

/// What creating a task came to. The workflow of the task is started where
/// an instance was made.
pub fn task_creation_result(task_id: String, workflow: WorkflowCreation) -> (r: TaskCreationResult)
    ensures
        r.task_id == task_id,
        match workflow {
            WorkflowCreation::NotAsked => r.workflow_instance_id is None
                && r.workflow_status is None && r.workflow_error is None,
            WorkflowCreation::Created { instance_id, status } => r.workflow_instance_id == Some(
                instance_id,
            ) && r.workflow_status == Some(status) && r.workflow_error is None,
            WorkflowCreation::Failed { error } => r.workflow_instance_id is None
                && r.workflow_status is None && r.workflow_error == Some(error),
        },
{
    match workflow {
        WorkflowCreation::NotAsked => TaskCreationResult {
            task_id,
            workflow_instance_id: None,
            workflow_status: None,
            workflow_error: None,
        },
        WorkflowCreation::Created { instance_id, status } => TaskCreationResult {
            task_id,
            workflow_instance_id: Some(instance_id),
            workflow_status: Some(status),
            workflow_error: None,
        },
        WorkflowCreation::Failed { error } => TaskCreationResult {
            task_id,
            workflow_instance_id: None,
            workflow_status: None,
            workflow_error: Some(error),
        },
    }
}

/// Whether the workflow of a task that was just created is started.
pub fn starts_workflow(result: &TaskCreationResult) -> (r: bool)
    ensures
        r == (result.workflow_instance_id is Some),
{
    result.workflow_instance_id.is_some()
}

/// The name under which the configuration of a task's workflow is stored.
pub fn workflow_config_name(task_id: &str) -> (r: String)
    ensures
        r@ == "workflow_"@ + task_id@,
{
    let mut name = String::from_str("workflow_");
    name.append(task_id);
    name
}

/// The sync settings of a task.
#[derive(Debug)]
pub struct SyncConfig {
    pub enabled: bool,
    pub path: Option<String>,
    pub filename: Option<String>,
}

/// The sync settings of a task after a request that may name some of them:
/// what the request names replaces what is stored. A request that names
/// nothing changes nothing, and nothing is stored then.
pub fn merge_sync_config(
    current: SyncConfig,
    enabled: Option<bool>,
    path: Option<String>,
    filename: Option<String>,
) -> (r: Option<SyncConfig>)
    ensures
        match r {
            None => enabled is None && path is None && filename is None,
            Some(next) => {
                &&& !(enabled is None && path is None && filename is None)
                &&& next.enabled == match enabled {
                    Some(e) => e,
                    None => current.enabled,
                }
                &&& next.path == if path is Some {
                    path
                } else {
                    current.path
                }
                &&& next.filename == if filename is Some {
                    filename
                } else {
                    current.filename
                }
            },
        },
{
    if enabled.is_none() && path.is_none() && filename.is_none() {
        return None;
    }
    Some(
        SyncConfig {
            enabled: match enabled {
                Some(e) => e,
                None => current.enabled,
            },
            path: match path {
                Some(p) => Some(p),
                None => current.path,
            },
            filename: match filename {
                Some(f) => Some(f),
                None => current.filename,
            },
        },
    )
}

} // verus!
