//! The decisions of the upload queue: which segments a round uploads, what
//! the results of a round lead to, and how the submission is closed.

use vstd::prelude::*;
use crate::records::{
    opt_chars, MergedVideoRecord, SubmissionTaskRecord, TaskOutputSegmentRecord, TaskStatus,
};
use crate::submit::{
    build_uploaded_parts, is_success, part_of_segment, submittable, BatchPlan, PartsError,
    SubmissionSubmitResult, UploadedVideoPart,
};
use crate::text::{blank, is_blank, str_eq};
use crate::upload::{
    backoff, preupload_parse_error, preupload_parse_retry_delay_secs,
    PREUPLOAD_PARSE_RETRY_BASE_SECS, PREUPLOAD_PARSE_RETRY_LIMIT, PREUPLOAD_PARSE_RETRY_MAX_SECS,
};

verus! {

/// Seconds that the queue sleeps when nothing waits for upload.
pub const QUEUE_IDLE_SECS: u64 = 2;

/// How a task's files are uploaded.
#[derive(Clone, Copy, Debug, PartialEq, Eq, Structural)]
pub enum UploadMode {
    /// Every output segment is a part.
    Segmented,
    /// The merged file is the only part.
    Merged,
}

/// The mode of a task: segmented where the workflow is an update or the
/// configuration cuts segments.
pub fn upload_mode(is_update_workflow: bool, enable_segmentation: bool) -> (r: UploadMode)
    ensures
        r == if is_update_workflow || enable_segmentation {
            UploadMode::Segmented
        } else {
            UploadMode::Merged
        },
{
    if is_update_workflow || enable_segmentation {
        UploadMode::Segmented
    } else {
        UploadMode::Merged
    }
}

/// How many uploads run at once: what is configured, at least one.
pub fn effective_concurrency(configured: i64) -> (r: usize)
    ensures
        r >= 1,
        configured >= 1 && configured <= usize::MAX ==> r == configured,
        configured < 1 ==> r == 1,
        configured > usize::MAX ==> r == usize::MAX,
{
    if configured < 1 {
        1
    } else if configured as u64 > usize::MAX as u64 {
        usize::MAX
    } else {
        configured as usize
    }
}

/// Why the upload of a task ends in failure.
#[derive(Debug)]
pub enum QueueError {
    /// The task has no tags.
    EmptyTags,
    /// The task has no output segments.
    NoSegments,
    /// A segment failed to upload.
    SegmentFailed,
    /// Too many rounds in a row failed on a pre-upload answer that did not
    /// parse.
    ParseRetryExhausted,
    /// The task has no merged file.
    NoMergedVideo,
    /// The merged file has no path.
    EmptyMergedPath,
    /// There is nothing to submit.
    NoParts,
    /// The id of the submission to update is not known.
    NoAid,
    /// The credentials lack the token that requests must carry.
    MissingCsrf,
    /// The parts could not be put together.
    Parts(PartsError),
}

impl QueueError {
    /// The message that the error is shown as. An error of the parts shows
    /// what it lacks and for which segment.
    pub fn message(&self) -> (r: String)
        ensures
            self matches QueueError::EmptyTags ==> r@ == "投稿标签不能为空"@,
            self matches QueueError::NoSegments ==> r@ == "未找到分段文件"@,
            self matches QueueError::SegmentFailed ==> r@ == "存在分段上传失败，请重试失败分P"@,
            self matches QueueError::ParseRetryExhausted ==> r@ == "预上传解析失败重试次数已达上限"@,
            self matches QueueError::NoMergedVideo ==> r@ == "未找到合并视频"@,
            self matches QueueError::EmptyMergedPath ==> r@ == "合并视频路径为空"@,
            self matches QueueError::NoParts ==> r@ == "投稿文件为空"@,
            self matches QueueError::NoAid ==> r@ == "无法获取AID，无法更新"@,
            self matches QueueError::MissingCsrf ==> r@ == "登录信息缺少CSRF"@,
            self matches QueueError::Parts(PartsError::NotUploaded) ==> r@ == "存在分段未上传完成"@,
            self matches QueueError::Parts(PartsError::MissingCid { segment_id }) ==> r@
                == "分段缺少CID segment_id="@ + segment_id@,
            self matches QueueError::Parts(PartsError::MissingFileName { segment_id }) ==> r@
                == "分段缺少文件名 segment_id="@ + segment_id@,
    {
        match self {
            QueueError::EmptyTags => String::from_str("投稿标签不能为空"),
            QueueError::NoSegments => String::from_str("未找到分段文件"),
            QueueError::SegmentFailed => String::from_str("存在分段上传失败，请重试失败分P"),
            QueueError::ParseRetryExhausted => String::from_str("预上传解析失败重试次数已达上限"),
            QueueError::NoMergedVideo => String::from_str("未找到合并视频"),
            QueueError::EmptyMergedPath => String::from_str("合并视频路径为空"),
            QueueError::NoParts => String::from_str("投稿文件为空"),
            QueueError::NoAid => String::from_str("无法获取AID，无法更新"),
            QueueError::MissingCsrf => String::from_str("登录信息缺少CSRF"),
            QueueError::Parts(PartsError::NotUploaded) => String::from_str("存在分段未上传完成"),
            QueueError::Parts(PartsError::MissingCid { segment_id }) => {
                let mut out = String::from_str("分段缺少CID segment_id=");
                out.append(segment_id.as_str());
                out
            },
            QueueError::Parts(PartsError::MissingFileName { segment_id }) => {
                let mut out = String::from_str("分段缺少文件名 segment_id=");
                out.append(segment_id.as_str());
                out
            },
        }
    }
}

/// Whether the upload of a task may begin: it has tags.
pub fn check_tags(task: &SubmissionTaskRecord) -> (r: bool)
    ensures
        r == (task.tags is Some && !is_blank(task.tags->0@)),
{
    match &task.tags {
        Some(tags) => !blank(tags.as_str()),
        None => false,
    }
}

/// Whether a segment failed to upload.
pub open spec fn is_failed(segment: TaskOutputSegmentRecord) -> bool {
    segment.upload_status@ == "FAILED"@
}

/// The ids of the segments that are not uploaded yet, in their order.
pub open spec fn pending_ids(segments: Seq<TaskOutputSegmentRecord>) -> Seq<Seq<char>>
    decreases segments.len(),
{
    if segments.len() == 0 {
        Seq::empty()
    } else if is_success(segments.last()) {
        pending_ids(segments.drop_last())
    } else {
        pending_ids(segments.drop_last()).push(segments.last().segment_id@)
    }
}

/// What a round of the segmented upload does.
#[derive(Debug)]
pub enum RoundPlan {
    /// The upload ends in failure.
    Fail(QueueError),
    /// Every segment is uploaded: these parts are submitted.
    Submit(Vec<UploadedVideoPart>),
    /// These segments are marked as uploading and uploaded side by side;
    /// `pending` segments are not uploaded yet.
    Upload { batch: Vec<String>, pending: usize },
}

/// The texts of a list of strings.
pub open spec fn texts_of(list: Seq<String>) -> Seq<Seq<char>> {
    list.map_values(|s: String| s@)
}

/// Plans a round of the segmented upload.
///
/// A task without segments fails, and so does one with a failed segment.
/// Where every segment is uploaded the parts are put together. Else the
/// first `concurrency` segments that are not uploaded yet make the round.
pub fn plan_segment_round(
    task: &SubmissionTaskRecord,
    segments: &Vec<TaskOutputSegmentRecord>,
    is_update_workflow: bool,
    concurrency: usize,
) -> (r: RoundPlan)
    requires
        concurrency >= 1,
    ensures
        segments@.len() == 0 ==> r matches RoundPlan::Fail(QueueError::NoSegments),
        segments@.len() > 0 && (exists|i: int| 0 <= i < segments@.len() && is_failed(segments@[i]))
            ==> r matches RoundPlan::Fail(QueueError::SegmentFailed),
        segments@.len() > 0 && (forall|i: int| 0 <= i < segments@.len() ==> !is_failed(
            segments@[i],
        )) ==> {
            let waiting = pending_ids(segments@);
            if waiting.len() > 0 {
                &&& r matches RoundPlan::Upload { batch, pending }
                &&& pending == waiting.len()
                &&& texts_of(batch@) == waiting.take(
                    if concurrency <= waiting.len() {
                        concurrency as int
                    } else {
                        waiting.len() as int
                    },
                )
            } else {
                match r {
                    RoundPlan::Submit(parts) => {
                        &&& forall|i: int| 0 <= i < segments@.len() ==> submittable(segments@[i])
                        &&& parts@.len() == segments@.len()
                        &&& forall|i: int|
                            0 <= i < parts@.len() ==> (#[trigger] parts@[i])@ == part_of_segment(
                                segments@[i],
                                opt_chars(task.segment_prefix),
                                is_update_workflow,
                                (i + 1) as nat,
                            )
                    },
                    RoundPlan::Fail(QueueError::Parts(_)) => exists|i: int|
                        0 <= i < segments@.len() && !submittable(segments@[i]),
                    _ => false,
                }
            }
        },
{
    if segments.len() == 0 {
        return RoundPlan::Fail(QueueError::NoSegments);
    }
    let mut batch: Vec<String> = Vec::new();
    let mut pending: usize = 0;
    let mut i: usize = 0;
    assert(segments@.take(0) =~= Seq::<TaskOutputSegmentRecord>::empty());
    assert(texts_of(batch@) =~= Seq::<Seq<char>>::empty());
    while i < segments.len()
        invariant
            i <= segments@.len(),
            concurrency >= 1,
            forall|j: int| 0 <= j < i ==> !is_failed(segments@[j]),
            pending <= i,
            pending == pending_ids(segments@.take(i as int)).len(),
            texts_of(batch@) == pending_ids(segments@.take(i as int)).take(
                if concurrency <= pending {
                    concurrency as int
                } else {
                    pending as int
                },
            ),
        decreases segments@.len() - i,
    {
        let segment = &segments[i];
        proof {
            let upto = segments@.take(i + 1);
            assert(upto.drop_last() =~= segments@.take(i as int));
            assert(upto.last() == segments@[i as int]);
        }
        if str_eq(segment.upload_status.as_str(), "FAILED") {
            return RoundPlan::Fail(QueueError::SegmentFailed);
        }
        if !str_eq(segment.upload_status.as_str(), "SUCCESS") {
            let ghost before = texts_of(batch@);
            if batch.len() < concurrency {
                let ghost prev = batch@;
                batch.push(segment.segment_id.clone());
                assert(texts_of(batch@) =~= texts_of(prev).push(segment.segment_id@));
            }
            pending = pending + 1;
            proof {
                let waiting = pending_ids(segments@.take(i + 1));
                let old_waiting = pending_ids(segments@.take(i as int));
                assert(waiting == old_waiting.push(segment.segment_id@));
                let cut: int = if concurrency <= pending {
                    concurrency as int
                } else {
                    pending as int
                };
                assert(texts_of(batch@) =~= waiting.take(cut));
            }
        }
        i += 1;
    }
    assert(segments@.take(segments@.len() as int) =~= segments@);
    if pending > 0 {
        return RoundPlan::Upload { batch, pending };
    }
    match build_uploaded_parts(task, segments, is_update_workflow) {
        Ok(parts) => RoundPlan::Submit(parts),
        Err(e) => RoundPlan::Fail(QueueError::Parts(e)),
    }
}

/// What is stored for a segment after its upload was attempted.
#[derive(Debug)]
pub enum SegmentUpdate {
    /// The segment is uploaded.
    Success { cid: i64, filename: String },
    /// The checkpoint is cleared and the segment waits again.
    ResetToPending,
    /// The segment failed.
    Failed,
}

/// What is stored for a segment whose upload failed with `err`: after a
/// pre-upload answer that did not parse it waits again, after anything else
/// it failed.
pub fn update_for_failure(err: &str) -> (r: SegmentUpdate)
    ensures
        preupload_parse_error(err@) ==> r matches SegmentUpdate::ResetToPending,
        !preupload_parse_error(err@) ==> r matches SegmentUpdate::Failed,
{
    if crate::upload::is_preupload_parse_error(err) {
        SegmentUpdate::ResetToPending
    } else {
        SegmentUpdate::Failed
    }
}

/// What follows a round.
#[derive(Clone, Copy, Debug, PartialEq, Eq, Structural)]
pub enum RoundNext {
    /// A segment failed: the task fails.
    FailSegment,
    /// Too many rounds failed on the pre-upload answer: the task fails.
    FailParseRetries,
    /// The next round is planned after `secs` seconds; `round` rounds in a
    /// row failed on the pre-upload answer.
    RetryAfter { round: u32, secs: u64 },
    /// The next round is planned at once.
    Continue,
}

/// Decides what follows a round in which some segment failed on a
/// pre-upload answer that did not parse (`parse_error`) or on anything else
/// (`other_error`), after `round` such rounds in a row.
pub fn after_round(parse_error: bool, other_error: bool, round: u32) -> (r: RoundNext)
    ensures
        r == if other_error {
            RoundNext::FailSegment
        } else if parse_error {
            let next: u32 = if round < u32::MAX {
                (round + 1) as u32
            } else {
                u32::MAX
            };
            if next > PREUPLOAD_PARSE_RETRY_LIMIT {
                RoundNext::FailParseRetries
            } else {
                RoundNext::RetryAfter {
                    round: next,
                    secs: backoff(
                        PREUPLOAD_PARSE_RETRY_BASE_SECS as nat,
                        next as nat,
                        10,
                        PREUPLOAD_PARSE_RETRY_MAX_SECS as nat,
                    ) as u64,
                }
            }
        } else {
            RoundNext::Continue
        },
{
    if other_error {
        RoundNext::FailSegment
    } else if parse_error {
        let next = if round < u32::MAX {
            round + 1
        } else {
            u32::MAX
        };
        if next > PREUPLOAD_PARSE_RETRY_LIMIT {
            RoundNext::FailParseRetries
        } else {
            RoundNext::RetryAfter { round: next, secs: preupload_parse_retry_delay_secs(next) }
        }
    } else {
        RoundNext::Continue
    }
}

/// The number of rounds that failed in a row on the pre-upload answer, after
/// a round that ended as `next` says.
pub fn round_counter_after(next: RoundNext) -> (r: u32)
    ensures
        r == match next {
            RoundNext::RetryAfter { round, .. } => round,
            _ => 0,
        },
{
    match next {
        RoundNext::RetryAfter { round, .. } => round,
        _ => 0,
    }
}

/// The path of the merged file that is uploaded as the only part.
pub fn merged_upload_path(merged: Option<&MergedVideoRecord>) -> (r: Result<String, QueueError>)
    ensures
        match r {
            Ok(path) => merged is Some && merged->0.video_path is Some && path@
                == merged->0.video_path->0@ && !is_blank(path@),
            Err(QueueError::NoMergedVideo) => merged is None,
            Err(QueueError::EmptyMergedPath) => merged is Some && (merged->0.video_path is None
                || is_blank(merged->0.video_path->0@)),
            Err(_) => false,
        },
{
    match merged {
        None => Err(QueueError::NoMergedVideo),
        Some(record) => match &record.video_path {
            Some(path) if !blank(path.as_str()) => Ok(path.clone()),
            _ => Err(QueueError::EmptyMergedPath),
        },
    }
}

/// The id of the submission that an update edits: the stored one where it is
/// positive, else the one that was looked up; an id that is not positive is
/// none.
pub fn resolve_update_aid(stored: Option<i64>, looked_up: Option<i64>) -> (r: Result<
    i64,
    QueueError,
>)
    ensures
        match r {
            Ok(aid) => aid > 0 && (if stored is Some && stored->0 > 0 {
                aid == stored->0
            } else {
                looked_up == Some(aid)
            }),
            Err(QueueError::NoAid) => !(stored is Some && stored->0 > 0) && !(looked_up is Some
                && looked_up->0 > 0),
            Err(_) => false,
        },
{
    match stored {
        Some(aid) if aid > 0 => Ok(aid),
        _ => match looked_up {
            Some(aid) if aid > 0 => Ok(aid),
            _ => Err(QueueError::NoAid),
        },
    }
}

/// One request of a run of batches.
#[derive(Clone, Copy, Debug, PartialEq, Eq, Structural)]
pub enum BatchCall {
    /// The create request with the first `parts` parts.
    Create { parts: usize },
    /// An edit request with the first `parts` parts for submission `aid`.
    Edit { parts: usize, aid: i64 },
    /// Every request was made.
    Done,
}

/// The run of the requests of one submission.
#[derive(Debug)]
pub struct BatchRun {
    pub plan: BatchPlan,
    /// How many edits were made.
    pub edits_done: usize,
    /// What the create request yielded, once it was made.
    pub created: Option<SubmissionSubmitResult>,
    /// The id of the submission that the edits name.
    pub aid: i64,
}

impl BatchRun {
    /// The run of a new submission.
    pub fn for_create(plan: BatchPlan) -> (r: BatchRun)
        ensures
            r.plan == plan,
            r.edits_done == 0,
            r.created is None,
            r.aid == 0,
    {
        BatchRun { plan, edits_done: 0, created: None, aid: 0 }
    }

    /// The run of an update to submission `aid`.
    pub fn for_update(plan: BatchPlan, aid: i64) -> (r: BatchRun)
        ensures
            r.plan == plan,
            r.edits_done == 0,
            r.created is None,
            r.aid == aid,
    {
        BatchRun { plan, edits_done: 0, created: None, aid }
    }

    /// The request that is made next: the create request first, where there
    /// is one, then the edits in the order of the plan.
    pub fn next_call(&self) -> (r: BatchCall)
        ensures
            r == if self.plan.create is Some && self.created is None {
                BatchCall::Create { parts: self.plan.create->0 }
            } else if self.edits_done < self.plan.edits@.len() {
                BatchCall::Edit {
                    parts: self.plan.edits@[self.edits_done as int],
                    aid: self.aid,
                }
            } else {
                BatchCall::Done
            },
    {
        if let Some(parts) = self.plan.create {
            if self.created.is_none() {
                return BatchCall::Create { parts };
            }
        }
        if self.edits_done < self.plan.edits.len() {
            BatchCall::Edit { parts: self.plan.edits[self.edits_done], aid: self.aid }
        } else {
            BatchCall::Done
        }
    }

    /// Notes that the create request yielded `result`: the edits name its
    /// id.
    pub fn created(&mut self, result: SubmissionSubmitResult)
        ensures
            final(self).created == Some(result),
            final(self).aid == result.aid,
            final(self).plan == old(self).plan,
            final(self).edits_done == old(self).edits_done,
    {
        self.aid = result.aid;
        self.created = Some(result);
    }

    /// Notes that one more edit was made, where one was still to be made.
    pub fn edited(&mut self)
        ensures
            final(self).edits_done == if old(self).edits_done < old(self).plan.edits@.len() {
                (old(self).edits_done + 1) as usize
            } else {
                old(self).edits_done
            },
            final(self).plan == old(self).plan,
            final(self).created == old(self).created,
            final(self).aid == old(self).aid,
    {
        if self.edits_done < self.plan.edits.len() {
            self.edits_done = self.edits_done + 1;
        }
    }
}

/// How the upload of a task ends.
#[derive(Debug)]
pub struct UploadEnd {
    /// The status that the task gets.
    pub status: TaskStatus,
    /// The ids of the submission that are stored with the task.
    pub store_ids: Option<SubmissionSubmitResult>,
}

/// Decides how the upload of a task ends after its run of requests: the
/// task is completed where the run went through, else failed. What the
/// create request yielded is stored in either case, so that a failure among
/// the edits does not lose the submission.
pub fn end_of_upload(run: BatchRun, failed: bool) -> (r: UploadEnd)
    ensures
        r.status == if failed {
            TaskStatus::Failed
        } else {
            TaskStatus::Completed
        },
        r.store_ids == run.created,
{
    UploadEnd {
        status: if failed {
            TaskStatus::Failed
        } else {
            TaskStatus::Completed
        },
        store_ids: run.created,
    }
}

} // verus!
