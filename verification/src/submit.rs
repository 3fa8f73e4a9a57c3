//! The remote submission: the parts of a submission and their titles, the
//! batches in which they are sent, and what the requests carry.

use vstd::prelude::*;
use crate::json::{
    array_len_at, get_array_len, get_i64, get_text, has_node, i64_at, item_pointer, json_nodes,
    make_item_pointer, node_at, text_at, JsonNode,
};
use crate::records::{chars_or_empty, opt_chars, SubmissionTaskRecord, TaskOutputSegmentRecord};
use crate::text::{
    blank, decimal, is_blank, push_decimal, str_eq, trim, trimmed,
};

verus! {

/// The most parts that one request may carry.
pub const MAX_PARTS_PER_SUBMISSION: usize = 100;

/// The state filter of the audit listing.
pub const REMOTE_AUDIT_STATUS: &'static str = "is_pubing,not_pubed";

/// One part of a submission: the name under which the endpoint stored the
/// file, its id there, and its title.
#[derive(Clone, Debug)]
pub struct UploadedVideoPart {
    pub filename: String,
    pub cid: i64,
    pub title: String,
}

/// A part as plain values.
pub struct PartSpec {
    pub filename: Seq<char>,
    pub cid: i64,
    pub title: Seq<char>,
}

impl View for UploadedVideoPart {
    type V = PartSpec;

    open spec fn view(&self) -> PartSpec {
        PartSpec { filename: self.filename@, cid: self.cid, title: self.title@ }
    }
}

/// What a successful submission yields.
#[derive(Clone, Debug)]
pub struct SubmissionSubmitResult {
    pub bvid: String,
    pub aid: i64,
}

/// The title of part `index`: the prefix and the index, or `P` and the index
/// where the prefix is blank.
pub open spec fn part_title(prefix: Option<Seq<char>>, index: nat) -> Seq<char> {
    let p = match prefix {
        Some(p) => trimmed(p),
        None => Seq::empty(),
    };
    if p.len() == 0 {
        seq!['P'] + decimal(index)
    } else {
        p + decimal(index)
    }
}

/// Builds the title of part `index`.
pub fn build_part_title(prefix: Option<&str>, index: usize) -> (r: String)
    ensures
        r@ == part_title(
            match prefix {
                Some(p) => Some(p@),
                None => None,
            },
            index as nat,
        ),
{
    let mut out = match prefix {
        Some(p) => trim(p),
        None => String::new(),
    };
    if out.as_str().unicode_len() == 0 {
        proof {
            reveal_strlit("P");
        }
        out.append("P");
        assert(out@ =~= seq!['P']);
    }
    push_decimal(&mut out, index as u64);
    out
}

/// The title of a part that was submitted before: its stored name, trimmed,
/// so that an edited name stays; where no name is stored the title is built
/// anew.
pub open spec fn existing_part_title(
    prefix: Option<Seq<char>>,
    part_name: Seq<char>,
    index: nat,
) -> Seq<char> {
    let name = trimmed(part_name);
    if name.len() == 0 {
        part_title(prefix, index)
    } else {
        name
    }
}

/// Finds the title of a part that was submitted before.
pub fn resolve_existing_part_title(task: &SubmissionTaskRecord, part_name: &str, index: usize) -> (r:
    String)
    ensures
        r@ == existing_part_title(opt_chars(task.segment_prefix), part_name@, index as nat),
{
    let name = trim(part_name);
    if name.as_str().unicode_len() == 0 {
        match &task.segment_prefix {
            Some(p) => build_part_title(Some(p.as_str()), index),
            None => build_part_title(None, index),
        }
    } else {
        name
    }
}

/// Why the parts of a submission could not be put together.
#[derive(Debug)]
pub enum PartsError {
    /// A segment is not uploaded yet.
    NotUploaded,
    /// An uploaded segment has no id at the endpoint.
    MissingCid { segment_id: String },
    /// An uploaded segment has no name at the endpoint.
    MissingFileName { segment_id: String },
}

/// Whether a segment is uploaded.
pub open spec fn is_success(segment: TaskOutputSegmentRecord) -> bool {
    segment.upload_status@ == "SUCCESS"@
}

/// Whether a segment can be submitted: it is uploaded, its id at the
/// endpoint is positive, and its name there is not blank.
pub open spec fn submittable(segment: TaskOutputSegmentRecord) -> bool {
    &&& is_success(segment)
    &&& segment.cid is Some
    &&& segment.cid->0 > 0
    &&& segment.file_name is Some
    &&& !is_blank(segment.file_name->0@)
}

/// The part that segment number `index` (from one) is submitted as.
pub open spec fn part_of_segment(
    segment: TaskOutputSegmentRecord,
    prefix: Option<Seq<char>>,
    is_update: bool,
    index: nat,
) -> PartSpec {
    PartSpec {
        filename: segment.file_name->0@,
        cid: segment.cid->0,
        title: if is_update {
            existing_part_title(prefix, segment.part_name@, index)
        } else {
            part_title(prefix, index)
        },
    }
}

/// Puts the parts of a submission together from the output segments, in
/// their order. Nothing is submitted unless every segment is submittable.
pub fn build_uploaded_parts(
    task: &SubmissionTaskRecord,
    segments: &Vec<TaskOutputSegmentRecord>,
    is_update_workflow: bool,
) -> (r: Result<Vec<UploadedVideoPart>, PartsError>)
    ensures
        match r {
            Ok(parts) => {
                &&& forall|i: int| 0 <= i < segments@.len() ==> submittable(#[trigger] segments@[i])
                &&& parts@.len() == segments@.len()
                &&& forall|i: int|
                    0 <= i < parts@.len() ==> (#[trigger] parts@[i])@ == part_of_segment(
                        segments@[i],
                        opt_chars(task.segment_prefix),
                        is_update_workflow,
                        (i + 1) as nat,
                    )
            },
            Err(e) => exists|i: int|
                0 <= i < segments@.len() && !submittable(#[trigger] segments@[i]) && (forall|j: int|
                    0 <= j < i ==> submittable(#[trigger] segments@[j])) && match e {
                    PartsError::NotUploaded => !is_success(segments@[i]),
                    PartsError::MissingCid { segment_id } => is_success(segments@[i]) && !(
                    segments@[i].cid is Some && segments@[i].cid->0 > 0) && segment_id@
                        == segments@[i].segment_id@,
                    PartsError::MissingFileName { segment_id } => is_success(segments@[i])
                        && segments@[i].cid is Some && segments@[i].cid->0 > 0 && segment_id@
                        == segments@[i].segment_id@,
                },
        },
{
    let mut parts: Vec<UploadedVideoPart> = Vec::new();
    let mut index: usize = 0;
    while index < segments.len()
        invariant
            index <= segments@.len(),
            parts@.len() == index,
            forall|i: int| 0 <= i < index ==> submittable(#[trigger] segments@[i]),
            forall|i: int|
                0 <= i < index ==> (#[trigger] parts@[i])@ == part_of_segment(
                    segments@[i],
                    opt_chars(task.segment_prefix),
                    is_update_workflow,
                    (i + 1) as nat,
                ),
        decreases segments@.len() - index,
    {
        let segment = &segments[index];
        if !str_eq(segment.upload_status.as_str(), "SUCCESS") {
            return Err(PartsError::NotUploaded);
        }
        let cid = match segment.cid {
            Some(cid) if cid > 0 => cid,
            _ => {
                return Err(PartsError::MissingCid { segment_id: segment.segment_id.clone() });
            },
        };
        let filename = match &segment.file_name {
            Some(name) if !blank(name.as_str()) => name.clone(),
            _ => {
                return Err(PartsError::MissingFileName { segment_id: segment.segment_id.clone() });
            },
        };
        let title = if is_update_workflow {
            resolve_existing_part_title(task, segment.part_name.as_str(), index + 1)
        } else {
            match &task.segment_prefix {
                Some(p) => build_part_title(Some(p.as_str()), index + 1),
                None => build_part_title(None, index + 1),
            }
        };
        parts.push(UploadedVideoPart { filename, cid, title });
        index += 1;
    }
    Ok(parts)
}

/// The ends of the parts prefixes that the edits after `from` carry, for a
/// submission of `n` parts: each prefix is a hundred parts longer than the
/// one before, the last one is all `n` parts.
pub open spec fn edit_ends(n: nat, from: nat) -> Seq<nat>
    decreases n - from,
{
    if from >= n {
        Seq::empty()
    } else {
        let next = if from + MAX_PARTS_PER_SUBMISSION >= n {
            n
        } else {
            from + MAX_PARTS_PER_SUBMISSION as nat
        };
        seq![next] + edit_ends(n, next)
    }
}

/// How many parts the create request of a new submission carries.
pub open spec fn create_len(n: nat) -> nat {
    if n <= MAX_PARTS_PER_SUBMISSION {
        n
    } else {
        MAX_PARTS_PER_SUBMISSION as nat
    }
}

/// The requests of a submission, as the lengths of the parts prefixes that
/// they carry.
#[derive(Debug, PartialEq, Eq)]
pub struct BatchPlan {
    /// The length of the prefix that the create request carries; none for an
    /// update, which creates nothing.
    pub create: Option<usize>,
    /// The lengths of the prefixes that the edit requests carry, in order.
    pub edits: Vec<usize>,
}

/// The ends as plain numbers.
pub open spec fn ends_of(v: Seq<usize>) -> Seq<nat> {
    v.map_values(|e: usize| e as nat)
}

/// Appends the edits that follow a prefix of `from` parts.
fn push_edit_ends(edits: &mut Vec<usize>, n: usize, from: usize)
    requires
        from <= n,
    ensures
        ends_of(final(edits)@) == ends_of(old(edits)@) + edit_ends(n as nat, from as nat),
{
    let mut end = from;
    let ghost before = ends_of(edits@);
    assert(before + Seq::<nat>::empty() =~= before);
    while end < n
        invariant
            from <= end <= n,
            ends_of(edits@) + edit_ends(n as nat, end as nat) == before + edit_ends(
                n as nat,
                from as nat,
            ),
        decreases n - end,
    {
        let next = if n - end <= MAX_PARTS_PER_SUBMISSION {
            n
        } else {
            end + MAX_PARTS_PER_SUBMISSION
        };
        let ghost prev = edits@;
        edits.push(next);
        proof {
            assert(ends_of(edits@) =~= ends_of(prev).push(next as nat));
            assert(ends_of(prev).push(next as nat) + edit_ends(n as nat, next as nat) =~= ends_of(
                prev,
            ) + edit_ends(n as nat, end as nat));
        }
        end = next;
    }
    assert(ends_of(edits@) + Seq::<nat>::empty() =~= ends_of(edits@));
}

/// Plans the requests of a new submission of `n` parts: one create request
/// with the first hundred parts at most, then edits that each carry a
/// hundred parts more, up to all.
pub fn plan_create_batches(n: usize) -> (r: BatchPlan)
    ensures
        r.create == Some(create_len(n as nat) as usize),
        ends_of(r.edits@) == edit_ends(n as nat, create_len(n as nat)),
{
    let first = if n <= MAX_PARTS_PER_SUBMISSION {
        n
    } else {
        MAX_PARTS_PER_SUBMISSION
    };
    let mut edits: Vec<usize> = Vec::new();
    push_edit_ends(&mut edits, n, first);
    assert(Seq::<nat>::empty() + edit_ends(n as nat, first as nat) =~= edit_ends(
        n as nat,
        first as nat,
    ));
    assert(ends_of(Seq::<usize>::empty()) =~= Seq::<nat>::empty());
    BatchPlan { create: Some(first), edits }
}

/// Plans the requests of an update to `n` parts: edits only, beginning with
/// the first hundred parts at most. An update without parts is one edit
/// that carries none.
pub fn plan_update_batches(n: usize) -> (r: BatchPlan)
    ensures
        r.create is None,
        ends_of(r.edits@) == if n == 0 {
            seq![0nat]
        } else {
            edit_ends(n as nat, 0)
        },
{
    let mut edits: Vec<usize> = Vec::new();
    assert(ends_of(Seq::<usize>::empty()) =~= Seq::<nat>::empty());
    if n == 0 {
        edits.push(0);
        assert(ends_of(edits@) =~= seq![0nat]);
    } else {
        push_edit_ends(&mut edits, n, 0);
        assert(Seq::<nat>::empty() + edit_ends(n as nat, 0) =~= edit_ends(n as nat, 0));
    }
    BatchPlan { create: None, edits }
}

/// No request carries more than a hundred parts more than the one before
/// it; the edits carry prefixes that grow strictly, each a multiple of a
/// hundred parts or all parts, and the last edit carries all parts.
pub proof fn lemma_edit_ends(n: nat, from: nat)
    requires
        from % (MAX_PARTS_PER_SUBMISSION as nat) == 0,
        from <= n,
    ensures
        forall|i: int|
            0 <= i < edit_ends(n, from).len() ==> {
                let end = #[trigger] edit_ends(n, from)[i];
                &&& from < end <= n
                &&& (end % (MAX_PARTS_PER_SUBMISSION as nat) == 0 || end == n)
                &&& end <= from + (i + 1) * MAX_PARTS_PER_SUBMISSION
                &&& i > 0 ==> edit_ends(n, from)[i - 1] < end
            },
        from < n ==> edit_ends(n, from).len() > 0 && edit_ends(n, from).last() == n,
        from == n ==> edit_ends(n, from).len() == 0,
    decreases n - from,
{
    if from < n {
        let next: nat = if from + MAX_PARTS_PER_SUBMISSION >= n {
            n
        } else {
            from + MAX_PARTS_PER_SUBMISSION as nat
        };
        let rest = edit_ends(n, next);
        let all = edit_ends(n, from);
        assert(all == seq![next] + rest);
        if next < n {
            assert(next % (MAX_PARTS_PER_SUBMISSION as nat) == 0);
            lemma_edit_ends(n, next);
        } else {
            assert(rest.len() == 0);
        }
        assert forall|i: int| 0 <= i < all.len() implies {
            let end = #[trigger] all[i];
            &&& from < end <= n
            &&& (end % (MAX_PARTS_PER_SUBMISSION as nat) == 0 || end == n)
            &&& end <= from + (i + 1) * MAX_PARTS_PER_SUBMISSION
            &&& i > 0 ==> all[i - 1] < end
        } by {
            if i > 0 {
                assert(all[i] == rest[i - 1]);
                if i > 1 {
                    assert(all[i - 1] == rest[i - 2]);
                }
            }
        }
        if rest.len() > 0 {
            assert(all.last() == rest.last());
        }
    }
}

/// For a new submission of `n` parts the create request carries at most a
/// hundred parts, and the edits that follow carry strictly growing prefixes
/// whose lengths are multiples of a hundred, or `n`; the last request
/// carries all `n` parts.
pub proof fn lemma_create_batches(n: nat)
    ensures
        create_len(n) <= MAX_PARTS_PER_SUBMISSION,
        create_len(n) <= n,
        forall|i: int|
            0 <= i < edit_ends(n, create_len(n)).len() ==> {
                let end = #[trigger] edit_ends(n, create_len(n))[i];
                &&& create_len(n) < end <= n
                &&& (end % (MAX_PARTS_PER_SUBMISSION as nat) == 0 || end == n)
                &&& i > 0 ==> edit_ends(n, create_len(n))[i - 1] < end
            },
        n > MAX_PARTS_PER_SUBMISSION ==> edit_ends(n, create_len(n)).last() == n,
        n <= MAX_PARTS_PER_SUBMISSION ==> edit_ends(n, create_len(n)).len() == 0,
{
    if n > MAX_PARTS_PER_SUBMISSION {
        lemma_edit_ends(n, MAX_PARTS_PER_SUBMISSION as nat);
    } else {
        assert(edit_ends(n, n).len() == 0);
    }
}

/// The kind of a video as the endpoint counts it: 1 for the uploader's own
/// work, 2 for anything else.
pub open spec fn copyright_of(video_type: Seq<char>) -> int {
    if video_type == "ORIGINAL"@ {
        1
    } else {
        2
    }
}

/// The collection that a request names: the task's, where it is positive.
pub open spec fn season_of(collection_id: Option<i64>) -> Option<i64> {
    match collection_id {
        Some(id) if id > 0 => Some(id),
        _ => None,
    }
}

/// Subtitle settings of a request.
#[derive(Clone, Debug, PartialEq, Eq)]
pub struct SubtitleSetting {
    pub open: i64,
    pub lan: String,
}

/// One entry of a request's list of videos.
#[derive(Clone, Debug)]
pub struct SubmissionVideo {
    pub filename: String,
    pub title: String,
    pub desc: String,
    pub cid: i64,
}

/// What a create or edit request carries. `aid` is there for an edit only;
/// `human_type2` for a create only.
#[derive(Clone, Debug)]
pub struct SubmissionPayload {
    pub aid: Option<i64>,
    pub videos: Vec<SubmissionVideo>,
    pub cover: String,
    pub cover43: String,
    pub title: String,
    pub copyright: i64,
    pub tid: i64,
    pub human_type2: Option<i64>,
    pub tag: String,
    pub desc_format_id: i64,
    pub desc: String,
    pub recreate: i64,
    pub dynamic: String,
    pub interactive: i64,
    pub act_reserve_create: i64,
    pub no_disturbance: i64,
    pub no_reprint: i64,
    pub subtitle: SubtitleSetting,
    pub dolby: i64,
    pub lossless_music: i64,
    pub up_selection_reply: bool,
    pub up_close_reply: bool,
    pub up_close_danmu: bool,
    pub web_os: i64,
    pub season_id: Option<i64>,
}

impl SubmissionPayload {
    /// Whether the payload carries the task's fields, the given parts, and
    /// the fixed technical fields.
    pub open spec fn carries(
        self,
        task: SubmissionTaskRecord,
        parts: Seq<UploadedVideoPart>,
    ) -> bool {
        &&& self.videos@.len() == parts.len()
        &&& forall|i: int|
            0 <= i < parts.len() ==> {
                let v = #[trigger] self.videos@[i];
                &&& v.filename@ == parts[i].filename@
                &&& v.title@ == parts[i].title@
                &&& v.desc@.len() == 0
                &&& v.cid == parts[i].cid
            }
        &&& self.cover@ == chars_or_empty(task.cover_url)
        &&& self.cover43@.len() == 0
        &&& self.title@ == task.title@
        &&& self.copyright == copyright_of(task.video_type@)
        &&& self.tid == task.partition_id
        &&& self.tag@ == chars_or_empty(task.tags)
        &&& self.desc_format_id == 9999
        &&& self.desc@ == chars_or_empty(task.description)
        &&& self.recreate == -1
        &&& self.dynamic@.len() == 0
        &&& self.interactive == 0
        &&& self.act_reserve_create == 0
        &&& self.no_disturbance == 0
        &&& self.no_reprint == 1
        &&& self.subtitle.open == 0
        &&& self.subtitle.lan@.len() == 0
        &&& self.dolby == 0
        &&& self.lossless_music == 0
        &&& !self.up_selection_reply
        &&& !self.up_close_reply
        &&& !self.up_close_danmu
        &&& self.season_id == season_of(task.collection_id)
    }
}

/// The text of an optional string, or an empty one.
pub fn text_or_empty(s: &Option<String>) -> (r: String)
    ensures
        r@ == chars_or_empty(*s),
{
    match s {
        Some(t) => t.clone(),
        None => String::new(),
    }
}

/// The list of videos of a request.
pub fn build_submission_videos(parts: &Vec<UploadedVideoPart>) -> (r: Vec<SubmissionVideo>)
    ensures
        r@.len() == parts@.len(),
        forall|i: int|
            0 <= i < parts@.len() ==> {
                let v = #[trigger] r@[i];
                &&& v.filename@ == parts@[i].filename@
                &&& v.title@ == parts@[i].title@
                &&& v.desc@.len() == 0
                &&& v.cid == parts@[i].cid
            },
{
    let mut videos: Vec<SubmissionVideo> = Vec::new();
    let mut i: usize = 0;
    while i < parts.len()
        invariant
            i <= parts@.len(),
            videos@.len() == i,
            forall|j: int|
                0 <= j < i ==> {
                    let v = #[trigger] videos@[j];
                    &&& v.filename@ == parts@[j].filename@
                    &&& v.title@ == parts@[j].title@
                    &&& v.desc@.len() == 0
                    &&& v.cid == parts@[j].cid
                },
        decreases parts@.len() - i,
    {
        let part = &parts[i];
        videos.push(
            SubmissionVideo {
                filename: part.filename.clone(),
                title: part.title.clone(),
                desc: String::new(),
                cid: part.cid,
            },
        );
        i += 1;
    }
    videos
}

/// The common part of both payloads.
fn build_payload(
    task: &SubmissionTaskRecord,
    parts: &Vec<UploadedVideoPart>,
    aid: Option<i64>,
    human_type2: Option<i64>,
    web_os: i64,
) -> (r: SubmissionPayload)
    ensures
        r.carries(*task, parts@),
        r.aid == aid,
        r.human_type2 == human_type2,
        r.web_os == web_os,
{
    let copyright: i64 = if str_eq(task.video_type.as_str(), "ORIGINAL") {
        1
    } else {
        2
    };
    let season_id = match task.collection_id {
        Some(id) if id > 0 => Some(id),
        _ => None,
    };
    SubmissionPayload {
        aid,
        videos: build_submission_videos(parts),
        cover: text_or_empty(&task.cover_url),
        cover43: String::new(),
        title: task.title.clone(),
        copyright,
        tid: task.partition_id,
        human_type2,
        tag: text_or_empty(&task.tags),
        desc_format_id: 9999,
        desc: text_or_empty(&task.description),
        recreate: -1,
        dynamic: String::new(),
        interactive: 0,
        act_reserve_create: 0,
        no_disturbance: 0,
        no_reprint: 1,
        subtitle: SubtitleSetting { open: 0, lan: String::new() },
        dolby: 0,
        lossless_music: 0,
        up_selection_reply: false,
        up_close_reply: false,
        up_close_danmu: false,
        web_os,
        season_id,
    }
}

/// What the create request carries: the task, the parts, the partition
/// also as `human_type2`, and `web_os` 3.
pub fn build_add_payload(task: &SubmissionTaskRecord, parts: &Vec<UploadedVideoPart>) -> (r:
    SubmissionPayload)
    ensures
        r.carries(*task, parts@),
        r.aid is None,
        r.human_type2 == Some(task.partition_id),
        r.web_os == 3,
{
    build_payload(task, parts, None, Some(task.partition_id), 3)
}

/// What an edit request carries: the task, the parts, the id of the
/// submission, and `web_os` 1.
pub fn build_edit_payload(task: &SubmissionTaskRecord, parts: &Vec<UploadedVideoPart>, aid: i64) -> (r:
    SubmissionPayload)
    ensures
        r.carries(*task, parts@),
        r.aid == Some(aid),
        r.human_type2 is None,
        r.web_os == 1,
{
    build_payload(task, parts, Some(aid), None, 1)
}

/// Why a request about a collection is not made.
#[derive(Clone, Copy, Debug, PartialEq, Eq, Structural)]
pub enum CollectionError {
    /// Adding to a collection needs the ids of the submission and of its
    /// first part.
    MissingAidOrCid,
    /// Switching the collection needs the ids of the collection and of the
    /// submission.
    MissingSeasonOrAid,
}

/// Checks what adding a submission to a collection needs.
pub fn check_add_to_collection(aid: i64, cid: i64) -> (r: Result<(), CollectionError>)
    ensures
        r == if aid <= 0 || cid <= 0 {
            Err::<(), CollectionError>(CollectionError::MissingAidOrCid)
        } else {
            Ok::<(), CollectionError>(())
        },
{
    if aid <= 0 || cid <= 0 {
        Err(CollectionError::MissingAidOrCid)
    } else {
        Ok(())
    }
}

/// Checks what switching the collection of a submission needs.
pub fn check_switch_collection(season_id: i64, aid: i64) -> (r: Result<(), CollectionError>)
    ensures
        r == if season_id <= 0 || aid <= 0 {
            Err::<(), CollectionError>(CollectionError::MissingSeasonOrAid)
        } else {
            Ok::<(), CollectionError>(())
        },
{
    if season_id <= 0 || aid <= 0 {
        Err(CollectionError::MissingSeasonOrAid)
    } else {
        Ok(())
    }
}

/// Whether an edit switches the collection: the new one differs from the
/// old one and is positive. No collection counts as zero.
pub fn collection_switch_needed(current: Option<i64>, next: Option<i64>) -> (r: bool)
    ensures
        r == ({
            let from = match current {
                Some(id) => id,
                None => 0,
            };
            let to = match next {
                Some(id) => id,
                None => 0,
            };
            to != from && to > 0
        }),
{
    let from = match current {
        Some(id) => id,
        None => 0,
    };
    let to = match next {
        Some(id) => id,
        None => 0,
    };
    to != from && to > 0
}

/// What follows a failed request to the endpoint.
#[derive(Clone, Copy, Debug, PartialEq, Eq, Structural)]
pub enum ApiRetry {
    /// The credentials are refreshed and the request is made once more.
    RefreshAndRetry,
    /// The error is handed on.
    Fail,
}

/// Decides what follows a request that failed with `err`: an
/// authentication error is answered by one refresh and one more request.
pub fn after_api_failure(err: &str, refreshed_before: bool) -> (r: ApiRetry)
    ensures
        r == if crate::upload::auth_error(err@) && !refreshed_before {
            ApiRetry::RefreshAndRetry
        } else {
            ApiRetry::Fail
        },
{
    if !refreshed_before && crate::upload::is_auth_error(err) {
        ApiRetry::RefreshAndRetry
    } else {
        ApiRetry::Fail
    }
}

/// Why the answer to a create request is no success.
#[derive(Clone, Copy, Debug, PartialEq, Eq, Structural)]
pub enum SubmitAnswerError {
    /// The answer names no remote id.
    MissingBvid,
    /// The answer names no numeric id.
    MissingAid,
}

impl SubmitAnswerError {
    /// The message that the error is shown as.
    pub fn message(self) -> (r: &'static str)
        ensures
            self == SubmitAnswerError::MissingBvid ==> r@ == "投稿响应缺少BVID"@,
            self == SubmitAnswerError::MissingAid ==> r@ == "投稿响应缺少AID"@,
    {
        match self {
            SubmitAnswerError::MissingBvid => "投稿响应缺少BVID",
            SubmitAnswerError::MissingAid => "投稿响应缺少AID",
        }
    }
}

/// Reads the ids of the new submission out of the answer to a create
/// request.
pub fn parse_submit_answer(data: &serde_json::Value) -> (r: Result<
    SubmissionSubmitResult,
    SubmitAnswerError,
>)
    ensures
        match r {
            Ok(ids) => text_at(json_nodes(*data), "/bvid"@) == Some(ids.bvid@) && i64_at(
                json_nodes(*data),
                "/aid"@,
            ) == Some(ids.aid as int),
            Err(SubmitAnswerError::MissingBvid) => text_at(json_nodes(*data), "/bvid"@) is None,
            Err(SubmitAnswerError::MissingAid) => text_at(json_nodes(*data), "/bvid"@) is Some
                && i64_at(json_nodes(*data), "/aid"@) is None,
        },
{
    let bvid = match get_text(data, "/bvid") {
        Some(b) => b,
        None => {
            return Err(SubmitAnswerError::MissingBvid);
        },
    };
    match get_i64(data, "/aid") {
        Some(aid) => Ok(SubmissionSubmitResult { bvid, aid }),
        None => Err(SubmitAnswerError::MissingAid),
    }
}

/// The id of the section to which parts of collection `season_id` are
/// added, as the first `count` collections of the listing tell it.
///
/// The listing is read in order. A collection without a numeric id ends
/// the reading without a section. The collection with the id `season_id`
/// gives the id of its first section, or zero where it names none.
pub open spec fn section_upto(nodes: Map<Seq<char>, JsonNode>, season_id: i64, count: nat) -> Option<
    Option<int>,
>
    decreases count,
{
    if count == 0 {
        None
    } else {
        match section_upto(nodes, season_id, (count - 1) as nat) {
            Some(found) => Some(found),
            None => {
                let at = (count - 1) as nat;
                match i64_at(nodes, item_pointer("/seasons"@, at, "/season/id"@)) {
                    None => Some(None),
                    Some(id) => if id != season_id {
                        None
                    } else {
                        Some(
                            Some(
                                match i64_at(
                                    nodes,
                                    item_pointer("/seasons"@, at, "/sections/sections/0/id"@),
                                ) {
                                    Some(section) => section,
                                    None => 0,
                                },
                            ),
                        )
                    },
                }
            },
        }
    }
}

/// The id of the section to which parts of collection `season_id` are
/// added, as the listing of the collections tells it; none where the
/// listing does not hold the collection.
pub open spec fn section_of(nodes: Map<Seq<char>, JsonNode>, season_id: i64) -> Option<int> {
    match array_len_at(nodes, "/seasons"@) {
        None => None,
        Some(n) => match section_upto(nodes, season_id, n) {
            Some(found) => found,
            None => None,
        },
    }
}

/// Once the reading of the listing has ended, later collections do not
/// change what it found.
proof fn lemma_section_stays(nodes: Map<Seq<char>, JsonNode>, season_id: i64, at: nat, count: nat)
    requires
        at <= count,
        section_upto(nodes, season_id, at) is Some,
    ensures
        section_upto(nodes, season_id, count) == section_upto(nodes, season_id, at),
    decreases count - at,
{
    if at < count {
        lemma_section_stays(nodes, season_id, at, (count - 1) as nat);
    }
}

/// Finds the section of a collection in the listing of the collections.
pub fn fetch_collection_section_id(data: &serde_json::Value, season_id: i64) -> (r: Option<i64>)
    ensures
        match r {
            Some(id) => section_of(json_nodes(*data), season_id) == Some(id as int),
            None => section_of(json_nodes(*data), season_id) is None,
        },
{
    let count = match get_array_len(data, "/seasons") {
        Some(n) => n,
        None => {
            return None;
        },
    };
    let mut index: usize = 0;
    while index < count
        invariant
            index <= count,
            array_len_at(json_nodes(*data), "/seasons"@) == Some(count as nat),
            section_upto(json_nodes(*data), season_id, index as nat) is None,
        decreases count - index,
    {
        let id_pointer = make_item_pointer("/seasons", index, "/season/id");
        let id = match get_i64(data, id_pointer.as_str()) {
            Some(id) => id,
            None => {
                proof {
                    assert(section_upto(json_nodes(*data), season_id, (index + 1) as nat) == Some(
                        None::<int>,
                    ));
                    lemma_section_stays(
                        json_nodes(*data),
                        season_id,
                        (index + 1) as nat,
                        count as nat,
                    );
                }
                return None;
            },
        };
        if id == season_id {
            let section_pointer = make_item_pointer("/seasons", index, "/sections/sections/0/id");
            let section = match get_i64(data, section_pointer.as_str()) {
                Some(s) => s,
                None => 0,
            };
            proof {
                assert(section_upto(json_nodes(*data), season_id, (index + 1) as nat) == Some(
                    Some(section as int),
                ));
                lemma_section_stays(json_nodes(*data), season_id, (index + 1) as nat, count as nat);
            }
            return Some(section);
        }
        index += 1;
    }
    None
}

/// What the request carries that adds a submission to a collection: the
/// section, and one episode that is not charged for.
#[derive(Clone, Debug, PartialEq, Eq)]
pub struct CollectionAddPayload {
    pub section_id: i64,
    pub title: String,
    pub aid: i64,
    pub cid: i64,
    pub charging_pay: i64,
}

/// Builds what the request carries that adds a submission to a collection.
/// A section that could not be found is named as zero.
pub fn build_collection_add(title: &str, section_id: Option<i64>, aid: i64, cid: i64) -> (r: Result<
    CollectionAddPayload,
    CollectionError,
>)
    ensures
        match r {
            Ok(p) => aid > 0 && cid > 0 && p.section_id == (match section_id {
                Some(id) => id,
                None => 0,
            }) && p.title@ == title@ && p.aid == aid && p.cid == cid && p.charging_pay == 0,
            Err(e) => e == CollectionError::MissingAidOrCid && (aid <= 0 || cid <= 0),
        },
{
    if let Err(e) = check_add_to_collection(aid, cid) {
        return Err(e);
    }
    Ok(
        CollectionAddPayload {
            section_id: match section_id {
                Some(id) => id,
                None => 0,
            },
            title: String::from_str(title),
            aid,
            cid,
            charging_pay: 0,
        },
    )
}

/// What the request carries that moves a submission to another collection.
#[derive(Clone, Debug, PartialEq, Eq)]
pub struct CollectionSwitchPayload {
    pub season_id: i64,
    pub section_id: i64,
    pub title: String,
    pub aid: i64,
    pub csrf: String,
}

/// Builds what the request carries that moves a submission to another
/// collection.
pub fn build_collection_switch(
    title: &str,
    season_id: i64,
    section_id: Option<i64>,
    aid: i64,
    csrf: &str,
) -> (r: Result<CollectionSwitchPayload, CollectionError>)
    ensures
        match r {
            Ok(p) => season_id > 0 && aid > 0 && p.season_id == season_id && p.section_id == (
            match section_id {
                Some(id) => id,
                None => 0,
            }) && p.title@ == title@ && p.aid == aid && p.csrf@ == csrf@,
            Err(e) => e == CollectionError::MissingSeasonOrAid && (season_id <= 0 || aid <= 0),
        },
{
    if let Err(e) = check_switch_collection(season_id, aid) {
        return Err(e);
    }
    Ok(
        CollectionSwitchPayload {
            season_id,
            section_id: match section_id {
                Some(id) => id,
                None => 0,
            },
            title: String::from_str(title),
            aid,
            csrf: String::from_str(csrf),
        },
    )
}

} // verus!
