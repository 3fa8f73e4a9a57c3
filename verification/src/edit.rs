//! Editing a submission that is complete: the checks of an edit, the parts
//! that it submits, and the cache of the uploads that it starts.

use vstd::prelude::*;
use crate::records::{
    opt_chars, MergedVideoRecord, SubmissionEditSegmentInput, SubmissionEditSubmitRequest,
    SubmissionTaskRecord, TaskOutputSegmentRecord, UploadStatus,
};
use crate::sorting::{is_stable_order, stable_order};
use crate::submit::{build_part_title, part_title, PartSpec, UploadedVideoPart};
use crate::text::{blank, is_blank, str_eq, trim, trimmed};
use crate::textmap::TextMap;
use crate::upload::UploadProgressSnapshot;

verus! {

/// Most characters of a title.
pub const MAX_TITLE_CHARS: usize = 80;

/// Most characters of a description.
pub const MAX_DESCRIPTION_CHARS: usize = 2000;

/// Why an edit is refused.
#[derive(Clone, Copy, Debug, PartialEq, Eq, Structural)]
pub enum EditError {
    EmptyTaskId,
    /// The task is being uploaded.
    Uploading,
    /// The task is not complete.
    NotCompleted,
    /// The task has no id at the remote side.
    MissingBvid,
    EmptyTitle,
    TitleTooLong,
    NoPartition,
    NoVideoType,
    DescriptionTooLong,
    NoTags,
    NoSegments,
    EmptySegmentId,
    DuplicateSegment,
    EmptyPartName,
    EmptyFilePath,
    /// A part lacks its id or its name at the endpoint.
    MissingUpload,
    /// The file of a part does not exist.
    FileMissing,
    /// The part belongs to another task.
    ForeignSegment,
}

impl EditError {
    /// The message that the error is shown as.
    pub fn message(self) -> (r: &'static str)
        ensures
            self == EditError::EmptyTaskId ==> r@ == "任务ID不能为空"@,
            self == EditError::Uploading ==> r@ == "任务正在投稿中，请稍后再试"@,
            self == EditError::NotCompleted ==> r@ == "任务未完成，无法编辑"@,
            self == EditError::MissingBvid ==> r@ == "缺少BVID，无法编辑"@,
            self == EditError::EmptyTitle ==> r@ == "投稿标题不能为空"@,
            self == EditError::TitleTooLong ==> r@ == "投稿标题不能超过 80 个字符"@,
            self == EditError::NoPartition ==> r@ == "请选择B站分区"@,
            self == EditError::NoVideoType ==> r@ == "请选择视频类型"@,
            self == EditError::DescriptionTooLong ==> r@ == "视频描述不能超过 2000 个字符"@,
            self == EditError::NoTags ==> r@ == "请填写至少一个投稿标签"@,
            self == EditError::NoSegments ==> r@ == "至少需要保留一个分P"@,
            self == EditError::EmptySegmentId ==> r@ == "分P ID不能为空"@,
            self == EditError::DuplicateSegment ==> r@ == "存在重复的分P"@,
            self == EditError::EmptyPartName ==> r@ == "分P名称不能为空"@,
            self == EditError::EmptyFilePath ==> r@ == "分P文件路径不能为空"@,
            self == EditError::MissingUpload ==> r@ == "分P上传信息缺失，请重新上传"@,
            self == EditError::FileMissing ==> r@ == "分P文件不存在"@,
            self == EditError::ForeignSegment ==> r@ == "分P不属于当前任务"@,
    {
        match self {
            EditError::EmptyTaskId => "任务ID不能为空",
            EditError::Uploading => "任务正在投稿中，请稍后再试",
            EditError::NotCompleted => "任务未完成，无法编辑",
            EditError::MissingBvid => "缺少BVID，无法编辑",
            EditError::EmptyTitle => "投稿标题不能为空",
            EditError::TitleTooLong => "投稿标题不能超过 80 个字符",
            EditError::NoPartition => "请选择B站分区",
            EditError::NoVideoType => "请选择视频类型",
            EditError::DescriptionTooLong => "视频描述不能超过 2000 个字符",
            EditError::NoTags => "请填写至少一个投稿标签",
            EditError::NoSegments => "至少需要保留一个分P",
            EditError::EmptySegmentId => "分P ID不能为空",
            EditError::DuplicateSegment => "存在重复的分P",
            EditError::EmptyPartName => "分P名称不能为空",
            EditError::EmptyFilePath => "分P文件路径不能为空",
            EditError::MissingUpload => "分P上传信息缺失，请重新上传",
            EditError::FileMissing => "分P文件不存在",
            EditError::ForeignSegment => "分P不属于当前任务",
        }
    }
}

/// Whether a task in the status `status` can be edited: it is complete, and
/// not being uploaded.
pub open spec fn editable_status(status: Seq<char>) -> Result<(), EditError> {
    if status == "UPLOADING"@ {
        Err(EditError::Uploading)
    } else if status != "COMPLETED"@ {
        Err(EditError::NotCompleted)
    } else {
        Ok(())
    }
}

/// Checks that a task in the status `status` can be edited.
pub fn ensure_editable_status(status: &str) -> (r: Result<(), EditError>)
    ensures
        r == editable_status(status@),
{
    if str_eq(status, "UPLOADING") {
        Err(EditError::Uploading)
    } else if !str_eq(status, "COMPLETED") {
        Err(EditError::NotCompleted)
    } else {
        Ok(())
    }
}

/// Whether a task can be edited: its status allows it, and it has an id at
/// the remote side.
pub open spec fn editable_task(task: SubmissionTaskRecord) -> Result<(), EditError> {
    match editable_status(task.status@) {
        Err(e) => Err(e),
        Ok(_) => if task.bvid is None || task.bvid->0@.len() == 0 {
            Err(EditError::MissingBvid)
        } else {
            Ok(())
        },
    }
}

/// Checks that a task can be edited.
pub fn ensure_editable_detail(task: &SubmissionTaskRecord) -> (r: Result<(), EditError>)
    ensures
        r == editable_task(*task),
{
    match ensure_editable_status(task.status.as_str()) {
        Err(e) => Err(e),
        Ok(_) => match &task.bvid {
            Some(bvid) if bvid.as_str().unicode_len() > 0 => Ok(()),
            _ => Err(EditError::MissingBvid),
        },
    }
}

/// What is wrong with the fields of an edit, the first such thing in the
/// order title, partition, kind, description, tags, parts.
pub open spec fn field_fault(request: SubmissionEditSubmitRequest) -> Option<EditError> {
    let title = trimmed(request.task.title@);
    if title.len() == 0 {
        Some(EditError::EmptyTitle)
    } else if title.len() > MAX_TITLE_CHARS {
        Some(EditError::TitleTooLong)
    } else if request.task.partition_id <= 0 {
        Some(EditError::NoPartition)
    } else if is_blank(request.task.video_type@) {
        Some(EditError::NoVideoType)
    } else if request.task.description is Some && request.task.description->0@.len()
        > MAX_DESCRIPTION_CHARS {
        Some(EditError::DescriptionTooLong)
    } else if request.task.tags is None || is_blank(request.task.tags->0@) {
        Some(EditError::NoTags)
    } else if request.segments@.len() == 0 {
        Some(EditError::NoSegments)
    } else {
        None
    }
}

/// What is wrong with one part of an edit, given the ids of the parts
/// before it.
pub open spec fn segment_fault(
    segment: SubmissionEditSegmentInput,
    seen: Seq<Seq<char>>,
) -> Option<EditError> {
    if trimmed(segment.segment_id@).len() == 0 {
        Some(EditError::EmptySegmentId)
    } else if seen.contains(trimmed(segment.segment_id@)) {
        Some(EditError::DuplicateSegment)
    } else if trimmed(segment.part_name@).len() == 0 {
        Some(EditError::EmptyPartName)
    } else if is_blank(segment.segment_file_path@) {
        Some(EditError::EmptyFilePath)
    } else if segment.cid is None || segment.cid->0 <= 0 {
        Some(EditError::MissingUpload)
    } else if segment.file_name is None || is_blank(segment.file_name->0@) {
        Some(EditError::MissingUpload)
    } else {
        None
    }
}

/// The part that a part of an edit is submitted as: its name at the
/// endpoint and its title, both trimmed, and its id there.
pub open spec fn edited_part(segment: SubmissionEditSegmentInput) -> PartSpec {
    PartSpec {
        filename: trimmed(segment.file_name->0@),
        cid: segment.cid->0,
        title: trimmed(segment.part_name@),
    }
}

/// The trimmed ids of the first `n` parts in the order `order`.
pub open spec fn seen_ids(
    segments: Seq<SubmissionEditSegmentInput>,
    order: Seq<usize>,
    n: int,
) -> Seq<Seq<char>> {
    Seq::new(n as nat, |i: int| trimmed(segments[order[i] as int].segment_id@))
}

/// The part orders of the parts of an edit.
pub open spec fn part_orders(segments: Seq<SubmissionEditSegmentInput>) -> Seq<i64> {
    segments.map_values(|s: SubmissionEditSegmentInput| s.part_order)
}

/// What an accepted edit submits.
#[derive(Debug)]
pub struct EditSubmission {
    /// The title, trimmed.
    pub title: String,
    /// The tags.
    pub tags: String,
    /// The places of the request's parts in the order of their part order.
    pub order: Vec<usize>,
    /// The parts, in that order.
    pub parts: Vec<UploadedVideoPart>,
}

/// The part orders of the parts.
fn collect_part_orders(segments: &Vec<SubmissionEditSegmentInput>) -> (keys: Vec<i64>)
    ensures
        keys@ == part_orders(segments@),
{
    let mut keys: Vec<i64> = Vec::new();
    let mut i: usize = 0;
    while i < segments.len()
        invariant
            i <= segments@.len(),
            keys@ == part_orders(segments@).take(i as int),
        decreases segments@.len() - i,
    {
        keys.push(segments[i].part_order);
        assert(keys@ =~= part_orders(segments@).take(i + 1));
        i += 1;
    }
    assert(keys@ =~= part_orders(segments@));
    keys
}

/// Whether `id` is among the trimmed ids of the first `n` parts in the
/// order `order`.
fn id_seen(
    segments: &Vec<SubmissionEditSegmentInput>,
    order: &Vec<usize>,
    n: usize,
    id: &str,
) -> (r: bool)
    requires
        n <= order@.len(),
        forall|i: int| 0 <= i < order@.len() ==> (#[trigger] order@[i]) < segments@.len(),
    ensures
        r == seen_ids(segments@, order@, n as int).contains(id@),
{
    let ghost seen = seen_ids(segments@, order@, n as int);
    let mut i: usize = 0;
    while i < n
        invariant
            i <= n <= order@.len(),
            forall|k: int| 0 <= k < order@.len() ==> (#[trigger] order@[k]) < segments@.len(),
            seen == seen_ids(segments@, order@, n as int),
            forall|k: int| 0 <= k < i ==> seen[k] != id@,
        decreases n - i,
    {
        let other = trim(segments[order[i]].segment_id.as_str());
        if str_eq(other.as_str(), id) {
            assert(seen[i as int] == id@);
            return true;
        }
        i += 1;
    }
    false
}

/// Checks part `i` of an edit, in the order `order`, and makes the part
/// that it is submitted as.
fn check_segment(segments: &Vec<SubmissionEditSegmentInput>, order: &Vec<usize>, i: usize) -> (r:
    Result<UploadedVideoPart, EditError>)
    requires
        i < order@.len(),
        forall|k: int| 0 <= k < order@.len() ==> (#[trigger] order@[k]) < segments@.len(),
    ensures
        match r {
            Ok(part) => segment_fault(
                segments@[order@[i as int] as int],
                seen_ids(segments@, order@, i as int),
            ) is None && part@ == edited_part(segments@[order@[i as int] as int]),
            Err(e) => segment_fault(
                segments@[order@[i as int] as int],
                seen_ids(segments@, order@, i as int),
            ) == Some(e),
        },
{
    let segment = &segments[order[i]];
    let segment_id = trim(segment.segment_id.as_str());
    if segment_id.as_str().unicode_len() == 0 {
        return Err(EditError::EmptySegmentId);
    }
    if id_seen(segments, order, i, segment_id.as_str()) {
        return Err(EditError::DuplicateSegment);
    }
    let part_name = trim(segment.part_name.as_str());
    if part_name.as_str().unicode_len() == 0 {
        return Err(EditError::EmptyPartName);
    }
    if blank(segment.segment_file_path.as_str()) {
        return Err(EditError::EmptyFilePath);
    }
    let cid = match segment.cid {
        Some(cid) if cid > 0 => cid,
        _ => {
            return Err(EditError::MissingUpload);
        },
    };
    let filename = match &segment.file_name {
        Some(name) if !blank(name.as_str()) => trim(name.as_str()),
        _ => {
            return Err(EditError::MissingUpload);
        },
    };
    Ok(UploadedVideoPart { filename, cid, title: part_name })
}

/// Checks an edit of `task` and puts its parts together.
///
/// The task must be editable, the fields in order, and every part complete;
/// the parts are taken in the order of their part order, parts of the same
/// part order in the order of the request. The first thing that is wrong is
/// the error.
pub fn validate_edit_submit(request: &SubmissionEditSubmitRequest, task: &SubmissionTaskRecord) -> (r:
    Result<EditSubmission, EditError>)
    ensures
        match r {
            Ok(edit) => {
                &&& !is_blank(request.task_id@)
                &&& editable_task(*task) is Ok
                &&& field_fault(*request) is None
                &&& is_stable_order(part_orders(request.segments@), edit.order@)
                &&& forall|i: int|
                    0 <= i < edit.order@.len() ==> segment_fault(
                        request.segments@[(#[trigger] edit.order@[i]) as int],
                        seen_ids(request.segments@, edit.order@, i),
                    ) is None
                &&& edit.parts@.len() == request.segments@.len()
                &&& forall|i: int|
                    0 <= i < edit.parts@.len() ==> (#[trigger] edit.parts@[i])@ == edited_part(
                        request.segments@[edit.order@[i] as int],
                    )
                &&& edit.title@ == trimmed(request.task.title@)
                &&& edit.tags@ == request.task.tags->0@
            },
            Err(e) => if is_blank(request.task_id@) {
                e == EditError::EmptyTaskId
            } else if editable_task(*task) is Err {
                editable_task(*task) == Err::<(), EditError>(e)
            } else if field_fault(*request) is Some {
                field_fault(*request) == Some(e)
            } else {
                exists|order: Seq<usize>, i: int|
                    #![trigger is_stable_order(part_orders(request.segments@), order), order[i]]
                    is_stable_order(part_orders(request.segments@), order) && 0 <= i < order.len()
                        && segment_fault(
                        request.segments@[order[i] as int],
                        seen_ids(request.segments@, order, i),
                    ) == Some(e) && (forall|j: int|
                        0 <= j < i ==> segment_fault(
                            request.segments@[(#[trigger] order[j]) as int],
                            seen_ids(request.segments@, order, j),
                        ) is None)
            },
        },
{
    if blank(request.task_id.as_str()) {
        return Err(EditError::EmptyTaskId);
    }
    if let Err(e) = ensure_editable_detail(task) {
        return Err(e);
    }
    let title = trim(request.task.title.as_str());
    let title_len = title.as_str().unicode_len();
    if title_len == 0 {
        return Err(EditError::EmptyTitle);
    }
    if title_len > MAX_TITLE_CHARS {
        return Err(EditError::TitleTooLong);
    }
    if request.task.partition_id <= 0 {
        return Err(EditError::NoPartition);
    }
    if blank(request.task.video_type.as_str()) {
        return Err(EditError::NoVideoType);
    }
    if let Some(description) = &request.task.description {
        if description.as_str().unicode_len() > MAX_DESCRIPTION_CHARS {
            return Err(EditError::DescriptionTooLong);
        }
    }
    let tags = match &request.task.tags {
        Some(tags) if !blank(tags.as_str()) => tags.clone(),
        _ => {
            return Err(EditError::NoTags);
        },
    };
    if request.segments.len() == 0 {
        return Err(EditError::NoSegments);
    }
    let keys = collect_part_orders(&request.segments);
    let order = stable_order(&keys);
    let mut parts: Vec<UploadedVideoPart> = Vec::new();
    let mut i: usize = 0;
    while i < order.len()
        invariant
            i <= order@.len(),
            !is_blank(request.task_id@),
            editable_task(*task) is Ok,
            field_fault(*request) is None,
            order@.len() == request.segments@.len(),
            is_stable_order(part_orders(request.segments@), order@),
            forall|k: int| 0 <= k < order@.len() ==> (#[trigger] order@[k]) < request.segments@.len(),
            parts@.len() == i,
            forall|k: int|
                0 <= k < i ==> segment_fault(
                    request.segments@[(#[trigger] order@[k]) as int],
                    seen_ids(request.segments@, order@, k),
                ) is None,
            forall|k: int|
                0 <= k < i ==> (#[trigger] parts@[k])@ == edited_part(
                    request.segments@[order@[k] as int],
                ),
        decreases order@.len() - i,
    {
        match check_segment(&request.segments, &order, i) {
            Ok(part) => {
                parts.push(part);
            },
            Err(e) => {
                assert(segment_fault(
                    request.segments@[order@[i as int] as int],
                    seen_ids(request.segments@, order@, i as int),
                ) == Some(e));
                return Err(e);
            },
        }
        i += 1;
    }
    Ok(EditSubmission { title, tags, order, parts })
}

impl View for TaskOutputSegmentRecord {
    type V = TaskOutputSegmentRecord;

    open spec fn view(&self) -> TaskOutputSegmentRecord {
        *self
    }
}

/// The uploads that edits have started, by segment id. They live outside
/// the store until the edit is submitted.
pub struct EditUploadState {
    pub segments: TextMap<TaskOutputSegmentRecord>,
}

impl View for EditUploadState {
    type V = Map<Seq<char>, TaskOutputSegmentRecord>;

    open spec fn view(&self) -> Map<Seq<char>, TaskOutputSegmentRecord> {
        self.segments@
    }
}

/// A copy of a segment record.
pub fn copy_segment(segment: &TaskOutputSegmentRecord) -> (r: TaskOutputSegmentRecord)
    ensures
        r == *segment,
{
    TaskOutputSegmentRecord {
        segment_id: segment.segment_id.clone(),
        task_id: segment.task_id.clone(),
        part_name: segment.part_name.clone(),
        segment_file_path: segment.segment_file_path.clone(),
        part_order: segment.part_order,
        upload_status: segment.upload_status.clone(),
        cid: segment.cid,
        file_name: copy_text(&segment.file_name),
        upload_uploaded_bytes: segment.upload_uploaded_bytes,
        upload_total_bytes: segment.upload_total_bytes,
        upload_session_id: copy_text(&segment.upload_session_id),
        upload_biz_id: segment.upload_biz_id,
        upload_endpoint: copy_text(&segment.upload_endpoint),
        upload_auth: copy_text(&segment.upload_auth),
        upload_uri: copy_text(&segment.upload_uri),
        upload_chunk_size: segment.upload_chunk_size,
        upload_last_part_index: segment.upload_last_part_index,
    }
}

/// A copy of an optional text.
pub fn copy_text(s: &Option<String>) -> (r: Option<String>)
    ensures
        r == *s,
{
    match s {
        Some(t) => Some(t.clone()),
        None => None,
    }
}

/// A stored count of bytes; a count that the store cannot hold is stored as
/// the largest that it can.
pub fn to_stored(n: u64) -> (r: i64)
    ensures
        r == if n <= i64::MAX {
            n as int
        } else {
            i64::MAX as int
        },
{
    if n <= i64::MAX as u64 {
        n as i64
    } else {
        i64::MAX
    }
}

/// What is wrong with a request to upload a part for an edit, the first
/// such thing. `file_exists` tells whether the file is on disk.
pub open spec fn add_segment_fault(
    task_id: Seq<char>,
    file_path: Seq<char>,
    file_exists: bool,
    status: Seq<char>,
) -> Option<EditError> {
    if is_blank(task_id) {
        Some(EditError::EmptyTaskId)
    } else if is_blank(file_path) {
        Some(EditError::EmptyFilePath)
    } else if !file_exists {
        Some(EditError::FileMissing)
    } else {
        match editable_status(status) {
            Err(e) => Some(e),
            Ok(_) => None,
        }
    }
}

/// Checks a request to upload one more part for an edit.
pub fn check_edit_add_segment(task_id: &str, file_path: &str, file_exists: bool, status: &str) -> (r:
    Option<EditError>)
    ensures
        r == add_segment_fault(task_id@, file_path@, file_exists, status@),
{
    if blank(task_id) {
        return Some(EditError::EmptyTaskId);
    }
    if blank(file_path) {
        return Some(EditError::EmptyFilePath);
    }
    if !file_exists {
        return Some(EditError::FileMissing);
    }
    match ensure_editable_status(status) {
        Err(e) => Some(e),
        Ok(_) => None,
    }
}

/// Checks a request to upload the file of a part again.
pub fn check_edit_reupload_segment(
    task_id: &str,
    segment_id: &str,
    file_path: &str,
    file_exists: bool,
    status: &str,
) -> (r: Option<EditError>)
    ensures
        r == if is_blank(task_id@) {
            Some(EditError::EmptyTaskId)
        } else if is_blank(segment_id@) {
            Some(EditError::EmptySegmentId)
        } else {
            add_segment_fault(task_id@, file_path@, file_exists, status@)
        },
{
    if blank(task_id) {
        return Some(EditError::EmptyTaskId);
    }
    if blank(segment_id) {
        return Some(EditError::EmptySegmentId);
    }
    check_edit_add_segment(task_id, file_path, file_exists, status)
}

/// A segment record without a checkpoint and without a result, as an upload
/// finds it when it begins.
pub open spec fn fresh_upload(
    segment_id: Seq<char>,
    task_id: Seq<char>,
    part_name: Seq<char>,
    file_path: Seq<char>,
    part_order: i64,
    total_bytes: i64,
    r: TaskOutputSegmentRecord,
) -> bool {
    &&& r.segment_id@ == segment_id
    &&& r.task_id@ == task_id
    &&& r.part_name@ == part_name
    &&& r.segment_file_path@ == file_path
    &&& r.part_order == part_order
    &&& r.upload_status@ == UploadStatus::Uploading.name()
    &&& r.cid is None
    &&& r.file_name is None
    &&& r.upload_uploaded_bytes == 0
    &&& r.upload_total_bytes == total_bytes
    &&& r.upload_session_id is None
    &&& r.upload_biz_id == 0
    &&& r.upload_endpoint is None
    &&& r.upload_auth is None
    &&& r.upload_uri is None
    &&& r.upload_chunk_size == 0
    &&& r.upload_last_part_index == 0
}

/// The record of a part whose upload begins.
pub fn new_upload_segment(
    segment_id: String,
    task_id: String,
    part_name: String,
    file_path: String,
    part_order: i64,
    total_bytes: u64,
) -> (r: TaskOutputSegmentRecord)
    ensures
        fresh_upload(
            segment_id@,
            task_id@,
            part_name@,
            file_path@,
            part_order,
            to_stored_spec(total_bytes),
            r,
        ),
{
    TaskOutputSegmentRecord {
        segment_id,
        task_id,
        part_name,
        segment_file_path: file_path,
        part_order,
        upload_status: String::from_str(UploadStatus::Uploading.as_str()),
        cid: None,
        file_name: None,
        upload_uploaded_bytes: 0,
        upload_total_bytes: to_stored(total_bytes),
        upload_session_id: None,
        upload_biz_id: 0,
        upload_endpoint: None,
        upload_auth: None,
        upload_uri: None,
        upload_chunk_size: 0,
        upload_last_part_index: 0,
    }
}

/// A count of bytes as it is stored.
pub open spec fn to_stored_spec(n: u64) -> i64 {
    if n <= i64::MAX {
        n as i64
    } else {
        i64::MAX
    }
}

/// The name of a part that is added to an edit: the given one, trimmed, or
/// where that is blank the name that the file gives.
pub fn added_part_name(given: Option<&str>, name_from_file: String) -> (r: String)
    ensures
        r@ == if given is Some && !is_blank(given->0@) {
            trimmed(given->0@)
        } else {
            name_from_file@
        },
{
    match given {
        Some(name) if !blank(name) => trim(name),
        _ => name_from_file,
    }
}

/// The name that a file gives to its part: its stem, trimmed, or `P` where
/// there is no stem or the stem is blank.
pub fn part_name_from_stem(stem: Option<&str>) -> (r: String)
    ensures
        r@ == if stem is Some && !is_blank(stem->0@) {
            trimmed(stem->0@)
        } else {
            "P"@
        },
{
    match stem {
        Some(s) if !blank(s) => trim(s),
        _ => String::from_str("P"),
    }
}

/// The record with which the upload of a part begins anew with another
/// file: what is known of the part stays (its task, its order), the rest
/// is as of a part whose upload begins.
pub fn reupload_segment(
    existing: Option<TaskOutputSegmentRecord>,
    task_id: &str,
    segment_id: &str,
    part_name: String,
    file_path: String,
    total_bytes: u64,
) -> (r: Result<TaskOutputSegmentRecord, EditError>)
    ensures
        match r {
            Ok(segment) => (existing is Some ==> existing->0.task_id@ == task_id@) && fresh_upload(
                match existing {
                    Some(e) => e.segment_id@,
                    None => segment_id@,
                },
                task_id@,
                part_name@,
                file_path@,
                match existing {
                    Some(e) => e.part_order,
                    None => 0,
                },
                to_stored_spec(total_bytes),
                segment,
            ),
            Err(e) => e == EditError::ForeignSegment && existing is Some && existing->0.task_id@
                != task_id@,
        },
{
    match existing {
        Some(segment) => {
            if !str_eq(segment.task_id.as_str(), task_id) {
                return Err(EditError::ForeignSegment);
            }
            Ok(
                new_upload_segment(
                    segment.segment_id,
                    segment.task_id,
                    part_name,
                    file_path,
                    segment.part_order,
                    total_bytes,
                ),
            )
        },
        None => Ok(
            new_upload_segment(
                String::from_str(segment_id),
                String::from_str(task_id),
                part_name,
                file_path,
                0,
                total_bytes,
            ),
        ),
    }
}

/// Whether a merged file counts as uploaded: its id at the endpoint is
/// positive and its name there is not blank.
pub open spec fn merged_uploaded(merged: MergedVideoRecord) -> bool {
    merged.upload_cid is Some && merged.upload_cid->0 > 0 && merged.upload_file_name is Some
        && !is_blank(merged.upload_file_name->0@)
}

/// Why an edit cannot be prepared.
#[derive(Clone, Copy, Debug, PartialEq, Eq, Structural)]
pub enum PrepareError {
    /// The task has no merged file.
    NoMergedVideo,
    /// The merged file has no path.
    EmptyMergedPath,
}

/// The part that stands for the merged file of a task without output
/// segments, when an edit is prepared: part one, named by the task's prefix,
/// uploaded if the merged file is. `file_size` is the size of the file on
/// disk; it counts where the row names no total.
pub fn merged_as_segment(
    task: &SubmissionTaskRecord,
    merged: Option<&MergedVideoRecord>,
    segment_id: String,
    file_size: u64,
) -> (r: Result<TaskOutputSegmentRecord, PrepareError>)
    ensures
        match r {
            Ok(segment) => {
                &&& merged is Some
                &&& merged->0.video_path is Some
                &&& !is_blank(merged->0.video_path->0@)
                &&& segment.segment_id@ == segment_id@
                &&& segment.task_id@ == task.task_id@
                &&& segment.part_name@ == part_title(opt_chars(task.segment_prefix), 1)
                &&& segment.segment_file_path@ == merged->0.video_path->0@
                &&& segment.part_order == 1
                &&& segment.upload_status@ == if merged_uploaded(*merged->0) {
                    UploadStatus::Success.name()
                } else {
                    UploadStatus::Pending.name()
                }
                &&& segment.cid == merged->0.upload_cid
                &&& segment.file_name == merged->0.upload_file_name
                &&& segment.upload_uploaded_bytes == merged->0.upload_uploaded_bytes
                &&& segment.upload_total_bytes == if merged->0.upload_total_bytes > 0 {
                    merged->0.upload_total_bytes
                } else {
                    to_stored_spec(file_size)
                }
                &&& segment.upload_session_id is None
                &&& segment.upload_biz_id == 0
                &&& segment.upload_endpoint is None
                &&& segment.upload_auth is None
                &&& segment.upload_uri is None
                &&& segment.upload_chunk_size == 0
                &&& segment.upload_last_part_index == 0
            },
            Err(PrepareError::NoMergedVideo) => merged is None,
            Err(PrepareError::EmptyMergedPath) => merged is Some && (merged->0.video_path is None
                || is_blank(merged->0.video_path->0@)),
        },
{
    let merged = match merged {
        Some(m) => m,
        None => {
            return Err(PrepareError::NoMergedVideo);
        },
    };
    let path = match &merged.video_path {
        Some(p) if !blank(p.as_str()) => p.clone(),
        _ => {
            return Err(PrepareError::EmptyMergedPath);
        },
    };
    let has_upload = match (merged.upload_cid, &merged.upload_file_name) {
        (Some(cid), Some(name)) => cid > 0 && !blank(name.as_str()),
        _ => false,
    };
    let status = if has_upload {
        UploadStatus::Success
    } else {
        UploadStatus::Pending
    };
    let part_name = match &task.segment_prefix {
        Some(p) => build_part_title(Some(p.as_str()), 1),
        None => build_part_title(None, 1),
    };
    Ok(
        TaskOutputSegmentRecord {
            segment_id,
            task_id: task.task_id.clone(),
            part_name,
            segment_file_path: path,
            part_order: 1,
            upload_status: String::from_str(status.as_str()),
            cid: merged.upload_cid,
            file_name: copy_text(&merged.upload_file_name),
            upload_uploaded_bytes: merged.upload_uploaded_bytes,
            upload_total_bytes: if merged.upload_total_bytes > 0 {
                merged.upload_total_bytes
            } else {
                to_stored(file_size)
            },
            upload_session_id: None,
            upload_biz_id: 0,
            upload_endpoint: None,
            upload_auth: None,
            upload_uri: None,
            upload_chunk_size: 0,
            upload_last_part_index: 0,
        },
    )
}

/// Why an upload of an edit cannot be updated.
#[derive(Clone, Copy, Debug, PartialEq, Eq, Structural)]
pub enum CacheError {
    /// The cache knows no such part.
    NotFound,
}

impl EditUploadState {
    /// A cache without uploads.
    pub fn new() -> (r: EditUploadState)
        ensures
            r@ == Map::<Seq<char>, TaskOutputSegmentRecord>::empty(),
    {
        EditUploadState { segments: TextMap::new() }
    }

    /// Enters a part under its id, in place of what was there.
    pub fn upsert_edit_upload_segment(&mut self, segment: TaskOutputSegmentRecord)
        ensures
            final(self)@ == old(self)@.insert(segment.segment_id@, segment),
    {
        let key = segment.segment_id.clone();
        self.segments.insert(key, segment);
    }

    /// The part with the id `segment_id`, if the cache knows it.
    pub fn load_edit_upload_segment(&self, segment_id: &str) -> (r: Option<TaskOutputSegmentRecord>)
        ensures
            r == if self@.dom().contains(segment_id@) {
                Some(self@[segment_id@])
            } else {
                None
            },
    {
        match self.segments.get(segment_id) {
            Some(segment) => Some(copy_segment(segment)),
            None => None,
        }
    }

    /// Sets the upload status of a part.
    pub fn set_status(&mut self, segment_id: &str, status: UploadStatus) -> (r: Result<
        (),
        CacheError,
    >)
        ensures
            match r {
                Ok(_) => old(self)@.dom().contains(segment_id@) && final(self)@.dom()
                    == old(self)@.dom().insert(segment_id@) && ({
                    let before = old(self)@[segment_id@];
                    let after = final(self)@[segment_id@];
                    &&& after.upload_status@ == status.name()
                    &&& after == (TaskOutputSegmentRecord {
                        upload_status: after.upload_status,
                        ..before
                    })
                }) && (forall|k: Seq<char>|
                    k != segment_id@ && old(self)@.dom().contains(k) ==> final(self)@[k] == old(
                        self,
                    )@[k]),
                Err(_) => !old(self)@.dom().contains(segment_id@) && final(self)@ == old(self)@,
            },
    {
        match self.segments.remove(segment_id) {
            Some(mut segment) => {
                segment.upload_status = String::from_str(status.as_str());
                self.segments.insert(String::from_str(segment_id), segment);
                Ok(())
            },
            None => {
                assert(self@ =~= old(self)@);
                Err(CacheError::NotFound)
            },
        }
    }

    /// Notes that the upload of a part went through.
    pub fn set_result(&mut self, segment_id: &str, cid: i64, filename: String) -> (r: Result<
        (),
        CacheError,
    >)
        ensures
            match r {
                Ok(_) => old(self)@.dom().contains(segment_id@) && final(self)@.dom()
                    == old(self)@.dom().insert(segment_id@) && ({
                    let before = old(self)@[segment_id@];
                    let after = final(self)@[segment_id@];
                    &&& after.upload_status@ == UploadStatus::Success.name()
                    &&& after.cid == Some(cid)
                    &&& after.file_name == Some(filename)
                    &&& after == (TaskOutputSegmentRecord {
                        upload_status: after.upload_status,
                        cid: after.cid,
                        file_name: after.file_name,
                        ..before
                    })
                }) && (forall|k: Seq<char>|
                    k != segment_id@ && old(self)@.dom().contains(k) ==> final(self)@[k] == old(
                        self,
                    )@[k]),
                Err(_) => !old(self)@.dom().contains(segment_id@) && final(self)@ == old(self)@,
            },
    {
        match self.segments.remove(segment_id) {
            Some(mut segment) => {
                segment.upload_status = String::from_str(UploadStatus::Success.as_str());
                segment.cid = Some(cid);
                segment.file_name = Some(filename);
                self.segments.insert(String::from_str(segment_id), segment);
                Ok(())
            },
            None => {
                assert(self@ =~= old(self)@);
                Err(CacheError::NotFound)
            },
        }
    }

    /// Stores the progress of the upload of a part.
    pub fn set_progress(&mut self, segment_id: &str, snapshot: &UploadProgressSnapshot) -> (r:
        Result<(), CacheError>)
        ensures
            match r {
                Ok(_) => old(self)@.dom().contains(segment_id@) && final(self)@.dom()
                    == old(self)@.dom().insert(segment_id@) && final(self)@[segment_id@] == (
                TaskOutputSegmentRecord {
                    upload_uploaded_bytes: to_stored_spec(snapshot.uploaded_bytes),
                    upload_total_bytes: to_stored_spec(snapshot.total_bytes),
                    upload_last_part_index: to_stored_spec(snapshot.last_part_index),
                    ..old(self)@[segment_id@]
                }) && (forall|k: Seq<char>|
                    k != segment_id@ && old(self)@.dom().contains(k) ==> final(self)@[k] == old(
                        self,
                    )@[k]),
                Err(_) => !old(self)@.dom().contains(segment_id@) && final(self)@ == old(self)@,
            },
    {
        match self.segments.remove(segment_id) {
            Some(mut segment) => {
                segment.upload_uploaded_bytes = to_stored(snapshot.uploaded_bytes);
                segment.upload_total_bytes = to_stored(snapshot.total_bytes);
                segment.upload_last_part_index = to_stored(snapshot.last_part_index);
                self.segments.insert(String::from_str(segment_id), segment);
                Ok(())
            },
            None => {
                assert(self@ =~= old(self)@);
                Err(CacheError::NotFound)
            },
        }
    }

    /// Clears the checkpoint of the upload of a part.
    pub fn clear_session(&mut self, segment_id: &str) -> (r: Result<(), CacheError>)
        ensures
            match r {
                Ok(_) => old(self)@.dom().contains(segment_id@) && final(self)@.dom()
                    == old(self)@.dom().insert(segment_id@) && final(self)@[segment_id@] == (
                TaskOutputSegmentRecord {
                    upload_session_id: None,
                    upload_biz_id: 0,
                    upload_endpoint: None,
                    upload_auth: None,
                    upload_uri: None,
                    upload_chunk_size: 0,
                    upload_uploaded_bytes: 0,
                    upload_total_bytes: 0,
                    upload_last_part_index: 0,
                    ..old(self)@[segment_id@]
                }) && (forall|k: Seq<char>|
                    k != segment_id@ && old(self)@.dom().contains(k) ==> final(self)@[k] == old(
                        self,
                    )@[k]),
                Err(_) => !old(self)@.dom().contains(segment_id@) && final(self)@ == old(self)@,
            },
    {
        match self.segments.remove(segment_id) {
            Some(mut segment) => {
                segment.upload_session_id = None;
                segment.upload_biz_id = 0;
                segment.upload_endpoint = None;
                segment.upload_auth = None;
                segment.upload_uri = None;
                segment.upload_chunk_size = 0;
                segment.upload_uploaded_bytes = 0;
                segment.upload_total_bytes = 0;
                segment.upload_last_part_index = 0;
                self.segments.insert(String::from_str(segment_id), segment);
                Ok(())
            },
            None => {
                assert(self@ =~= old(self)@);
                Err(CacheError::NotFound)
            },
        }
    }

    /// The parts of task `task_id` that the cache knows, and of them only
    /// those whose ids are among `segment_ids` where such are given.
    pub fn list_edit_upload_segments_by_task(
        &self,
        task_id: &str,
        segment_ids: Option<&Vec<String>>,
    ) -> (r: Vec<TaskOutputSegmentRecord>)
        ensures
            forall|i: int|
                0 <= i < r@.len() ==> {
                    let s = #[trigger] r@[i];
                    &&& self@.dom().contains(s.segment_id@)
                    &&& self@[s.segment_id@] == s
                    &&& s.task_id@ == task_id@
                    &&& segment_ids is Some ==> exists|j: int|
                        0 <= j < segment_ids->0@.len() && (#[trigger] segment_ids->0@[j])@
                            == s.segment_id@
                },
            forall|k: Seq<char>|
                self@.dom().contains(k) && self@[k].segment_id@ == k && self@[k].task_id@
                    == task_id@ && (segment_ids is Some ==> exists|j: int|
                    0 <= j < segment_ids->0@.len() && (#[trigger] segment_ids->0@[j])@ == k)
                    ==> exists|i: int| 0 <= i < r@.len() && (#[trigger] r@[i]) == self@[k],
    {
        let mut out: Vec<TaskOutputSegmentRecord> = Vec::new();
        let n = self.segments.len();
        let mut i: usize = 0;
        while i < n
            invariant
                i <= n,
                n == self.segments.keys().len(),
                forall|k: Seq<char>| self@.dom().contains(k) <==> self.segments.keys().contains(k),
                forall|x: int|
                    0 <= x < out@.len() ==> {
                        let s = #[trigger] out@[x];
                        &&& self@.dom().contains(s.segment_id@)
                        &&& self@[s.segment_id@] == s
                        &&& s.task_id@ == task_id@
                        &&& segment_ids is Some ==> exists|j: int|
                            0 <= j < segment_ids->0@.len() && (#[trigger] segment_ids->0@[j])@
                                == s.segment_id@
                    },
                forall|y: int|
                    0 <= y < i ==> {
                        let k = #[trigger] self.segments.keys()[y];
                        self@[k].segment_id@ == k && self@[k].task_id@ == task_id@ && (
                        segment_ids is Some ==> exists|j: int|
                            0 <= j < segment_ids->0@.len() && (#[trigger] segment_ids->0@[j])@
                                == k) ==> exists|x: int|
                            0 <= x < out@.len() && (#[trigger] out@[x]) == self@[k]
                    },
            decreases n - i,
        {
            let key = self.segments.key_at(i);
            let segment = self.segments.value_at(i);
            let ghost k = self.segments.keys()[i as int];
            let wanted = str_eq(segment.task_id.as_str(), task_id) && str_eq(
                segment.segment_id.as_str(),
                key.as_str(),
            ) && match segment_ids {
                Some(ids) => contains_text(ids, key.as_str()),
                None => true,
            };
            let ghost before = out@;
            if wanted {
                out.push(copy_segment(segment));
                assert(out@[before.len() as int] == self@[k]);
            }
            proof {
                assert forall|y: int| 0 <= y < i + 1 implies {
                    let kk = #[trigger] self.segments.keys()[y];
                    self@[kk].segment_id@ == kk && self@[kk].task_id@ == task_id@ && (
                    segment_ids is Some ==> exists|j: int|
                        0 <= j < segment_ids->0@.len() && (#[trigger] segment_ids->0@[j])@ == kk)
                        ==> exists|x: int| 0 <= x < out@.len() && (#[trigger] out@[x]) == self@[kk]
                } by {
                    let kk = self.segments.keys()[y];
                    if self@[kk].segment_id@ == kk && self@[kk].task_id@ == task_id@ && (
                    segment_ids is Some ==> exists|j: int|
                        0 <= j < segment_ids->0@.len() && (#[trigger] segment_ids->0@[j])@ == kk) {
                        if y < i {
                            let x = choose|x: int|
                                0 <= x < before.len() && (#[trigger] before[x]) == self@[kk];
                            assert(out@[x] == before[x]);
                        } else {
                            assert(out@[before.len() as int] == self@[kk]);
                        }
                    }
                }
            }
            i += 1;
        }
        proof {
            assert forall|k: Seq<char>|
                self@.dom().contains(k) && self@[k].segment_id@ == k && self@[k].task_id@
                    == task_id@ && (segment_ids is Some ==> exists|j: int|
                    0 <= j < segment_ids->0@.len() && (#[trigger] segment_ids->0@[j])@
                        == k) implies exists|x: int|
                0 <= x < out@.len() && (#[trigger] out@[x]) == self@[k] by {
                let y = choose|y: int|
                    0 <= y < self.segments.keys().len() && self.segments.keys()[y] == k;
                assert(self.segments.keys()[y] == k);
            }
        }
        out
    }

    /// Forgets the parts of task `task_id`.
    pub fn clear_edit_upload_segments_by_task(&mut self, task_id: &str)
        ensures
            forall|k: Seq<char>|
                final(self)@.dom().contains(k) <==> old(self)@.dom().contains(k) && old(
                    self,
                )@[k].task_id@ != task_id@,
            forall|k: Seq<char>|
                final(self)@.dom().contains(k) ==> final(self)@[k] == old(self)@[k],
    {
        let mut i: usize = 0;
        let mut n = self.segments.len();
        while i < n
            invariant
                i <= n,
                n == self.segments.keys().len(),
                self.segments.keys().no_duplicates(),
                forall|k: Seq<char>| self@.dom().contains(k) <==> self.segments.keys().contains(k),
                forall|k: Seq<char>| self@.dom().contains(k) ==> old(self)@.dom().contains(k),
                forall|k: Seq<char>| self@.dom().contains(k) ==> self@[k] == old(self)@[k],
                forall|k: Seq<char>|
                    old(self)@.dom().contains(k) && old(self)@[k].task_id@ != task_id@
                        ==> self@.dom().contains(k),
                forall|y: int|
                    0 <= y < i ==> self@[#[trigger] self.segments.keys()[y]].task_id@ != task_id@,
            decreases n - i,
        {
            let ghost keys_before = self.segments.keys();
            let ghost map_before = self@;
            let key = self.segments.key_at(i);
            let segment = self.segments.value_at(i);
            if str_eq(segment.task_id.as_str(), task_id) {
                let doomed = key.clone();
                let _ = self.segments.remove_at(i);
                n = self.segments.len();
                proof {
                    assert forall|y: int| 0 <= y < i implies self@[#[trigger] self.segments.keys()[y]].task_id@
                        != task_id@ by {
                        assert(self.segments.keys()[y] == keys_before[y]);
                        assert(keys_before[y] != keys_before[i as int]);
                    }
                }
            } else {
                i += 1;
            }
        }
        proof {
            assert forall|k: Seq<char>| self@.dom().contains(k) implies old(self)@[k].task_id@
                != task_id@ by {
                let y = choose|y: int|
                    0 <= y < self.segments.keys().len() && self.segments.keys()[y] == k;
                assert(self.segments.keys()[y] == k);
            }
        }
    }
}

/// Whether `text` is among `list`.
pub fn contains_text(list: &Vec<String>, text: &str) -> (r: bool)
    ensures
        r == exists|j: int| 0 <= j < list@.len() && (#[trigger] list@[j])@ == text@,
{
    let mut i: usize = 0;
    while i < list.len()
        invariant
            i <= list@.len(),
            forall|j: int| 0 <= j < i ==> (#[trigger] list@[j])@ != text@,
        decreases list@.len() - i,
    {
        if str_eq(list[i].as_str(), text) {
            return true;
        }
        i += 1;
    }
    false
}

/// What the store does with the output segments of a task when an edit is
/// submitted.
#[derive(Debug)]
pub struct SegmentSync {
    /// The ids of the edit's parts that the store has: their rows are
    /// updated.
    pub update: Vec<String>,
    /// The ids of the edit's parts that the store lacks: rows are inserted.
    pub insert: Vec<String>,
    /// The ids that the store has and the edit lacks: their rows are
    /// deleted.
    pub delete: Vec<String>,
}

/// Whether some text of `list` is `text`.
pub open spec fn has_text(list: Seq<String>, text: Seq<char>) -> bool {
    exists|j: int| 0 <= j < list.len() && (#[trigger] list[j])@ == text
}

/// Sorts the ids of an edit's parts (trimmed, in the edit's order) and the
/// ids that the store has into rows to update, to insert and to delete.
pub fn plan_segment_sync(edit_ids: &Vec<String>, existing_ids: &Vec<String>) -> (r: SegmentSync)
    ensures
        forall|i: int|
            0 <= i < edit_ids@.len() ==> (has_text(existing_ids@, (#[trigger] edit_ids@[i])@)
                ==> has_text(r.update@, edit_ids@[i]@)) && (!has_text(
                existing_ids@,
                edit_ids@[i]@,
            ) ==> has_text(r.insert@, edit_ids@[i]@)),
        forall|i: int|
            0 <= i < r.update@.len() ==> has_text(edit_ids@, (#[trigger] r.update@[i])@)
                && has_text(existing_ids@, r.update@[i]@),
        forall|i: int|
            0 <= i < r.insert@.len() ==> has_text(edit_ids@, (#[trigger] r.insert@[i])@)
                && !has_text(existing_ids@, r.insert@[i]@),
        forall|i: int|
            0 <= i < existing_ids@.len() ==> (!has_text(edit_ids@, (#[trigger] existing_ids@[i])@)
                ==> has_text(r.delete@, existing_ids@[i]@)),
        forall|i: int|
            0 <= i < r.delete@.len() ==> has_text(existing_ids@, (#[trigger] r.delete@[i])@)
                && !has_text(edit_ids@, r.delete@[i]@),
{
    let mut update: Vec<String> = Vec::new();
    let mut insert: Vec<String> = Vec::new();
    let mut i: usize = 0;
    while i < edit_ids.len()
        invariant
            i <= edit_ids@.len(),
            forall|x: int|
                0 <= x < i ==> (has_text(existing_ids@, (#[trigger] edit_ids@[x])@) ==> has_text(
                    update@,
                    edit_ids@[x]@,
                )) && (!has_text(existing_ids@, edit_ids@[x]@) ==> has_text(
                    insert@,
                    edit_ids@[x]@,
                )),
            forall|x: int|
                0 <= x < update@.len() ==> has_text(edit_ids@, (#[trigger] update@[x])@)
                    && has_text(existing_ids@, update@[x]@),
            forall|x: int|
                0 <= x < insert@.len() ==> has_text(edit_ids@, (#[trigger] insert@[x])@)
                    && !has_text(existing_ids@, insert@[x]@),
        decreases edit_ids@.len() - i,
    {
        let id = &edit_ids[i];
        let ghost old_update = update@;
        let ghost old_insert = insert@;
        if contains_text(existing_ids, id.as_str()) {
            update.push(id.clone());
            proof {
                assert(update@[old_update.len() as int]@ == id@);
                assert forall|x: int| 0 <= x < i implies (has_text(
                    existing_ids@,
                    (#[trigger] edit_ids@[x])@,
                ) ==> has_text(update@, edit_ids@[x]@)) by {
                    if has_text(old_update, edit_ids@[x]@) {
                        let j = choose|j: int|
                            0 <= j < old_update.len() && (#[trigger] old_update[j])@
                                == edit_ids@[x]@;
                        assert(update@[j] == old_update[j]);
                    }
                }
            }
        } else {
            insert.push(id.clone());
            proof {
                assert(insert@[old_insert.len() as int]@ == id@);
                assert forall|x: int| 0 <= x < i implies (!has_text(
                    existing_ids@,
                    (#[trigger] edit_ids@[x])@,
                ) ==> has_text(insert@, edit_ids@[x]@)) by {
                    if has_text(old_insert, edit_ids@[x]@) {
                        let j = choose|j: int|
                            0 <= j < old_insert.len() && (#[trigger] old_insert[j])@
                                == edit_ids@[x]@;
                        assert(insert@[j] == old_insert[j]);
                    }
                }
            }
        }
        proof {
            assert(edit_ids@[i as int]@ == id@);
        }
        i += 1;
    }
    let mut delete: Vec<String> = Vec::new();
    let mut k: usize = 0;
    while k < existing_ids.len()
        invariant
            k <= existing_ids@.len(),
            forall|x: int|
                0 <= x < k ==> (!has_text(edit_ids@, (#[trigger] existing_ids@[x])@) ==> has_text(
                    delete@,
                    existing_ids@[x]@,
                )),
            forall|x: int|
                0 <= x < delete@.len() ==> has_text(existing_ids@, (#[trigger] delete@[x])@)
                    && !has_text(edit_ids@, delete@[x]@),
        decreases existing_ids@.len() - k,
    {
        let id = &existing_ids[k];
        let ghost old_delete = delete@;
        if !contains_text(edit_ids, id.as_str()) {
            delete.push(id.clone());
            proof {
                assert(delete@[old_delete.len() as int]@ == id@);
                assert forall|x: int| 0 <= x < k implies (!has_text(
                    edit_ids@,
                    (#[trigger] existing_ids@[x])@,
                ) ==> has_text(delete@, existing_ids@[x]@)) by {
                    if has_text(old_delete, existing_ids@[x]@) {
                        let j = choose|j: int|
                            0 <= j < old_delete.len() && (#[trigger] old_delete[j])@
                                == existing_ids@[x]@;
                        assert(delete@[j] == old_delete[j]);
                    }
                }
            }
        }
        proof {
            assert(existing_ids@[k as int]@ == id@);
        }
        k += 1;
    }
    SegmentSync { update, insert, delete }
}

} // verus!
