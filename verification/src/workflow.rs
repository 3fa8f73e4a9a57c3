//! The submission workflow of a task: its phases, what it does while it
//! waits for its sources, how it names what it cuts, and what it reads from
//! its configuration.

use vstd::prelude::*;
use crate::json::{
    array_len_at, bool_at, get_array_len, get_bool, get_i64, get_text, has_node, i64_at,
    item_pointer, json_nodes, make_item_pointer, node_at, text_at, JsonNode,
};
use crate::records::{opt_chars, TaskStatus, WorkflowState, WorkflowType};
use crate::sorting::{is_stable_order, stable_order};
use crate::submit::{build_part_title, part_title};
use crate::text::{blank, is_blank, trim, trimmed};

verus! {

/// Seconds between two looks at the size of a source.
pub const SOURCE_READY_STABLE_DELAY_SECS: u64 = 2;

/// How often the sources are looked at before the task fails.
pub const SOURCE_READY_MAX_RETRIES: u32 = 30;

/// Longest wait between two looks at the sources.
pub const SOURCE_READY_MAX_WAIT_SECS: u64 = 30;

/// Length of a segment in seconds where the configuration names none.
pub const DEFAULT_SEGMENT_SECONDS: i64 = 133;

/// Seconds that a paused workflow sleeps before it looks again.
pub const PAUSE_POLL_SECS: u64 = 1;

/// One source of a task: a file and the bounds of the clip that is cut from
/// it, as timecodes.
#[derive(Clone, Debug)]
pub struct ClipSource {
    pub input_path: String,
    pub start_time: Option<String>,
    pub end_time: Option<String>,
    pub order: i64,
}

/// A source as plain values.
pub struct ClipSourceSpec {
    pub input_path: Seq<char>,
    pub start_time: Option<Seq<char>>,
    pub end_time: Option<Seq<char>>,
    pub order: i64,
}

impl View for ClipSource {
    type V = ClipSourceSpec;

    open spec fn view(&self) -> ClipSourceSpec {
        ClipSourceSpec {
            input_path: self.input_path@,
            start_time: opt_chars(self.start_time),
            end_time: opt_chars(self.end_time),
            order: self.order,
        }
    }
}

/// What a workflow reads from its configuration.
#[derive(Clone, Debug)]
pub struct WorkflowSettings {
    pub enable_segmentation: bool,
    pub segment_duration_seconds: i64,
    pub segment_prefix: Option<String>,
}

/// A text, trimmed, unless that leaves nothing.
pub open spec fn trimmed_text(s: Option<Seq<char>>) -> Option<Seq<char>> {
    match s {
        Some(t) => if trimmed(t).len() > 0 {
            Some(trimmed(t))
        } else {
            None
        },
        None => None,
    }
}

/// A text, trimmed, unless that leaves nothing.
pub fn normalize_optional_text(value: Option<String>) -> (r: Option<String>)
    ensures
        opt_chars(r) == trimmed_text(opt_chars(value)),
{
    match value {
        Some(raw) => {
            let t = trim(raw.as_str());
            if t.as_str().unicode_len() == 0 {
                None
            } else {
                Some(t)
            }
        },
        None => None,
    }
}

/// The settings that the fields of a configuration make up: segments are
/// cut where `segmentationConfig.enabled` says so, or, where that is
/// missing, `enableSegmentation`; a segment is 133 seconds long unless the
/// configuration says otherwise; the prefix is trimmed.
pub fn settings_from_fields(
    segmentation_enabled: Option<bool>,
    enable_segmentation: Option<bool>,
    segment_duration_seconds: Option<i64>,
    segment_prefix: Option<String>,
) -> (r: WorkflowSettings)
    ensures
        r.enable_segmentation == match segmentation_enabled {
            Some(b) => b,
            None => match enable_segmentation {
                Some(b) => b,
                None => false,
            },
        },
        r.segment_duration_seconds == match segment_duration_seconds {
            Some(n) => n,
            None => DEFAULT_SEGMENT_SECONDS,
        },
        opt_chars(r.segment_prefix) == trimmed_text(opt_chars(segment_prefix)),
{
    WorkflowSettings {
        enable_segmentation: match segmentation_enabled {
            Some(b) => b,
            None => match enable_segmentation {
                Some(b) => b,
                None => false,
            },
        },
        segment_duration_seconds: match segment_duration_seconds {
            Some(n) => n,
            None => DEFAULT_SEGMENT_SECONDS,
        },
        segment_prefix: normalize_optional_text(segment_prefix),
    }
}

/// Reads the settings of a workflow from its configuration. Without a
/// configuration no segments are cut.
pub fn parse_workflow_settings(config: Option<&serde_json::Value>) -> (r: WorkflowSettings)
    ensures
        match config {
            Some(doc) => {
                let nodes = json_nodes(*doc);
                &&& r.enable_segmentation == match bool_at(nodes, "/segmentationConfig/enabled"@) {
                    Some(b) => b,
                    None => match bool_at(nodes, "/enableSegmentation"@) {
                        Some(b) => b,
                        None => false,
                    },
                }
                &&& r.segment_duration_seconds == match i64_at(
                    nodes,
                    "/segmentationConfig/segmentDurationSeconds"@,
                ) {
                    Some(n) => n,
                    None => DEFAULT_SEGMENT_SECONDS as int,
                }
                &&& opt_chars(r.segment_prefix) == trimmed_text(text_at(nodes, "/segmentPrefix"@))
            },
            None => {
                &&& !r.enable_segmentation
                &&& r.segment_duration_seconds == DEFAULT_SEGMENT_SECONDS
                &&& r.segment_prefix is None
            },
        },
{
    match config {
        Some(doc) => settings_from_fields(
            get_bool(doc, "/segmentationConfig/enabled"),
            get_bool(doc, "/enableSegmentation"),
            get_i64(doc, "/segmentationConfig/segmentDurationSeconds"),
            get_text(doc, "/segmentPrefix"),
        ),
        None => settings_from_fields(None, None, None, None),
    }
}

/// The text under the first of two names that an item has; the second name
/// counts only where the first is missing.
pub open spec fn text_under(
    nodes: Map<Seq<char>, JsonNode>,
    first: Seq<char>,
    second: Seq<char>,
) -> Option<Seq<char>> {
    if node_at(nodes, first) is Some {
        text_at(nodes, first)
    } else {
        text_at(nodes, second)
    }
}

/// The number under the first of two names that an item has.
pub open spec fn number_under(
    nodes: Map<Seq<char>, JsonNode>,
    first: Seq<char>,
    second: Seq<char>,
) -> Option<int> {
    if node_at(nodes, first) is Some {
        i64_at(nodes, first)
    } else {
        i64_at(nodes, second)
    }
}

/// The source that item `index` of `updateSources` names, if it names a
/// file: the path trimmed, the bounds trimmed and left out where blank, the
/// order as given or else the place in the list, counted from one.
pub open spec fn update_source_at(nodes: Map<Seq<char>, JsonNode>, index: nat) -> Option<
    ClipSourceSpec,
> {
    let at = |field: Seq<char>| item_pointer("/updateSources"@, index, field);
    let path = match text_under(nodes, at("/sourceFilePath"@), at("/source_file_path"@)) {
        Some(p) => trimmed(p),
        None => Seq::empty(),
    };
    if path.len() == 0 {
        None
    } else {
        Some(
            ClipSourceSpec {
                input_path: path,
                start_time: trimmed_text(
                    text_under(nodes, at("/startTime"@), at("/start_time"@)),
                ),
                end_time: trimmed_text(text_under(nodes, at("/endTime"@), at("/end_time"@))),
                order: match number_under(nodes, at("/sortOrder"@), at("/sort_order"@)) {
                    Some(n) => n as i64,
                    None => if index + 1 <= i64::MAX {
                        (index + 1) as i64
                    } else {
                        i64::MAX
                    },
                },
            },
        )
    }
}

/// The sources that the first `count` items of `updateSources` name, in
/// their order.
pub open spec fn update_sources_upto(nodes: Map<Seq<char>, JsonNode>, count: nat) -> Seq<
    ClipSourceSpec,
>
    decreases count,
{
    if count == 0 {
        Seq::empty()
    } else {
        let before = update_sources_upto(nodes, (count - 1) as nat);
        match update_source_at(nodes, (count - 1) as nat) {
            Some(source) => before.push(source),
            None => before,
        }
    }
}

/// The sources that the configuration of an update names, in the order of
/// its list; none where it has no such list.
pub open spec fn update_sources(nodes: Map<Seq<char>, JsonNode>) -> Seq<ClipSourceSpec> {
    match array_len_at(nodes, "/updateSources"@) {
        Some(n) => update_sources_upto(nodes, n),
        None => Seq::empty(),
    }
}

/// The sources that a list stands for.
pub open spec fn sources_of(list: Seq<ClipSource>) -> Seq<ClipSourceSpec> {
    list.map_values(|s: ClipSource| s@)
}

/// Reads the text under the first of two names.
fn read_text_under(doc: &serde_json::Value, first: &str, second: &str) -> (r: Option<String>)
    ensures
        opt_chars(r) == text_under(json_nodes(*doc), first@, second@),
{
    if has_node(doc, first) {
        get_text(doc, first)
    } else {
        get_text(doc, second)
    }
}

/// Reads the source that one item of `updateSources` names.
fn read_update_source(doc: &serde_json::Value, index: usize) -> (r: Option<ClipSource>)
    ensures
        match r {
            Some(source) => update_source_at(json_nodes(*doc), index as nat) == Some(source@),
            None => update_source_at(json_nodes(*doc), index as nat) is None,
        },
{
    let list = "/updateSources";
    let path_a = make_item_pointer(list, index, "/sourceFilePath");
    let path_b = make_item_pointer(list, index, "/source_file_path");
    let input_path = match read_text_under(doc, path_a.as_str(), path_b.as_str()) {
        Some(p) => trim(p.as_str()),
        None => String::new(),
    };
    if input_path.as_str().unicode_len() == 0 {
        return None;
    }
    let start_a = make_item_pointer(list, index, "/startTime");
    let start_b = make_item_pointer(list, index, "/start_time");
    let start_time = normalize_optional_text(
        read_text_under(doc, start_a.as_str(), start_b.as_str()),
    );
    let end_a = make_item_pointer(list, index, "/endTime");
    let end_b = make_item_pointer(list, index, "/end_time");
    let end_time = normalize_optional_text(read_text_under(doc, end_a.as_str(), end_b.as_str()));
    let order_a = make_item_pointer(list, index, "/sortOrder");
    let order_b = make_item_pointer(list, index, "/sort_order");
    let given = if has_node(doc, order_a.as_str()) {
        get_i64(doc, order_a.as_str())
    } else {
        get_i64(doc, order_b.as_str())
    };
    let order = match given {
        Some(n) => n,
        None => if (index as u64) < i64::MAX as u64 {
            (index as u64 + 1) as i64
        } else {
            i64::MAX
        },
    };
    Some(ClipSource { input_path, start_time, end_time, order })
}

/// Reads the sources that the configuration of an update names, in the
/// order of the list.
pub fn collect_update_sources(doc: &serde_json::Value) -> (r: Vec<ClipSource>)
    ensures
        sources_of(r@) == update_sources(json_nodes(*doc)),
{
    let mut sources: Vec<ClipSource> = Vec::new();
    assert(sources_of(sources@) =~= Seq::<ClipSourceSpec>::empty());
    let count = match get_array_len(doc, "/updateSources") {
        Some(n) => n,
        None => {
            return sources;
        },
    };
    let mut index: usize = 0;
    while index < count
        invariant
            index <= count,
            sources_of(sources@) == update_sources_upto(json_nodes(*doc), index as nat),
        decreases count - index,
    {
        let ghost before = sources@;
        if let Some(source) = read_update_source(doc, index) {
            sources.push(source);
            assert(sources_of(sources@) =~= sources_of(before).push(source@));
        }
        index += 1;
    }
    sources
}

/// The order numbers of a list of sources.
pub open spec fn order_keys(list: Seq<ClipSourceSpec>) -> Seq<i64> {
    list.map_values(|s: ClipSourceSpec| s.order)
}

/// Whether `sorted` holds the items of `list` in the places that `order`
/// gives them, where `order` is the stable order of the order numbers.
pub open spec fn sorted_with(
    list: Seq<ClipSourceSpec>,
    sorted: Seq<ClipSourceSpec>,
    order: Seq<usize>,
) -> bool {
    &&& is_stable_order(order_keys(list), order)
    &&& sorted.len() == list.len()
    &&& forall|i: int| 0 <= i < sorted.len() ==> #[trigger] sorted[i] == list[order[i] as int]
}

/// Whether `sorted` holds the items of `list` by ascending order number,
/// items with the same number in the order of the list.
pub open spec fn is_sorted_by_order(list: Seq<ClipSourceSpec>, sorted: Seq<ClipSourceSpec>) -> bool {
    exists|order: Seq<usize>| #[trigger] sorted_with(list, sorted, order)
}

/// Puts sources in the order of their order numbers.
pub fn sort_sources(list: Vec<ClipSource>) -> (r: Vec<ClipSource>)
    ensures
        is_sorted_by_order(sources_of(list@), sources_of(r@)),
{
    let mut keys: Vec<i64> = Vec::new();
    let mut i: usize = 0;
    while i < list.len()
        invariant
            i <= list@.len(),
            keys@ == order_keys(sources_of(list@)).take(i as int),
        decreases list@.len() - i,
    {
        keys.push(list[i].order);
        assert(keys@ =~= order_keys(sources_of(list@)).take(i + 1));
        i += 1;
    }
    assert(keys@ =~= order_keys(sources_of(list@)));
    let order = stable_order(&keys);
    let mut sorted: Vec<ClipSource> = Vec::new();
    let mut k: usize = 0;
    while k < order.len()
        invariant
            k <= order@.len(),
            order@.len() == list@.len(),
            forall|j: int| 0 <= j < order@.len() ==> (#[trigger] order@[j]) < list@.len(),
            sorted@.len() == k,
            forall|j: int| 0 <= j < k ==> (#[trigger] sorted@[j])@ == list@[order@[j] as int]@,
        decreases order@.len() - k,
    {
        sorted.push(list[order[k]].clone_source());
        k += 1;
    }
    proof {
        let a = sources_of(list@);
        let b = sources_of(sorted@);
        assert forall|j: int| 0 <= j < b.len() implies #[trigger] b[j] == a[order@[j] as int] by {
            assert(b[j] == sorted@[j]@);
        }
        assert(sorted_with(a, b, order@));
    }
    sorted
}

impl ClipSource {
    /// A copy of the source.
    pub fn clone_source(&self) -> (r: ClipSource)
        ensures
            r@ == self@,
    {
        ClipSource {
            input_path: self.input_path.clone(),
            start_time: match &self.start_time {
                Some(t) => Some(t.clone()),
                None => None,
            },
            end_time: match &self.end_time {
                Some(t) => Some(t.clone()),
                None => None,
            },
            order: self.order,
        }
    }
}

/// The sources of an update as its configuration names them, by their order
/// numbers; none where the configuration names no source.
pub fn load_update_sources(config: Option<&serde_json::Value>) -> (r: Option<Vec<ClipSource>>)
    ensures
        match r {
            Some(sorted) => config is Some && sorted@.len() > 0 && is_sorted_by_order(
                update_sources(json_nodes(*config->0)),
                sources_of(sorted@),
            ),
            None => config is None || update_sources(json_nodes(*config->0)).len() == 0,
        },
{
    let doc = match config {
        Some(doc) => doc,
        None => {
            return None;
        },
    };
    let list = collect_update_sources(doc);
    if list.len() == 0 {
        assert(list@.len() == sources_of(list@).len());
        return None;
    }
    let sorted = sort_sources(list);
    assert(sorted@.len() == sources_of(sorted@).len());
    Some(sorted)
}

/// The sources that a workflow works on: an update prefers the sources that
/// its configuration names; everything else, and an update whose
/// configuration names none, takes the sources stored with the task.
pub fn resolve_sources(
    workflow_type: WorkflowType,
    update_sources: Option<Vec<ClipSource>>,
    stored: Vec<ClipSource>,
) -> (r: Vec<ClipSource>)
    ensures
        r == if workflow_type == WorkflowType::VideoUpdate && update_sources is Some {
            update_sources->0
        } else {
            stored
        },
{
    match workflow_type {
        WorkflowType::VideoUpdate => match update_sources {
            Some(list) => list,
            None => stored,
        },
        _ => stored,
    }
}

/// The order number that a source of an update is stored with in the
/// configuration: the given one, at least one and at least the place in the
/// list, counted from one.
pub open spec fn source_order(sort_order: i64, index: nat) -> int {
    let place: int = if index + 1 <= i64::MAX {
        (index + 1) as int
    } else {
        i64::MAX as int
    };
    let least: int = if sort_order < 1 {
        1
    } else {
        sort_order as int
    };
    if least < place {
        place
    } else {
        least
    }
}

/// Finds the order number of a source of an update.
pub fn update_source_order(sort_order: i64, index: usize) -> (r: i64)
    ensures
        r == source_order(sort_order, index as nat),
{
    let place: i64 = if (index as u64) < i64::MAX as u64 {
        (index as u64 + 1) as i64
    } else {
        i64::MAX
    };
    let least = if sort_order < 1 {
        1
    } else {
        sort_order
    };
    if least < place {
        place
    } else {
        least
    }
}

/// The length of a segment that a request to cut anew is stored with: the
/// asked one, at least one second.
pub fn resegment_duration(seconds: i64) -> (r: i64)
    ensures
        r == if seconds < 1 {
            1
        } else {
            seconds
        },
{
    if seconds < 1 {
        1
    } else {
        seconds
    }
}

/// Whether the clips are cut by copying the streams: only where the look
/// at the sources' timestamps said so. Where that look failed, the clips
/// are encoded anew.
pub fn clip_uses_copy(decision: Option<bool>) -> (r: bool)
    ensures
        r == (decision == Some(true)),
{
    match decision {
        Some(copy) => copy,
        None => false,
    }
}

/// What a workflow does when it looks at its instance.
#[derive(Clone, Copy, Debug, PartialEq, Eq, Structural)]
pub enum ReadyDecision {
    /// It goes on.
    Proceed,
    /// It sleeps a second and looks again.
    Wait,
    /// It ends, and the task is cancelled.
    Cancelled,
}

/// Decides whether a workflow goes on: a cancelled instance ends it, a
/// paused one makes it wait; without an instance it goes on.
pub fn wait_for_workflow_ready(instance: Option<WorkflowState>) -> (r: ReadyDecision)
    ensures
        r == match instance {
            Some(WorkflowState::Cancelled) => ReadyDecision::Cancelled,
            Some(WorkflowState::Paused) => ReadyDecision::Wait,
            _ => ReadyDecision::Proceed,
        },
{
    match instance {
        Some(WorkflowState::Cancelled) => ReadyDecision::Cancelled,
        Some(WorkflowState::Paused) => ReadyDecision::Wait,
        _ => ReadyDecision::Proceed,
    }
}

/// Why a source is not ready.
#[derive(Clone, Copy, Debug, PartialEq, Eq, Structural)]
pub enum SourceNotReady {
    /// The file is empty.
    Empty,
    /// The file grew or shrank while it was watched.
    StillWritten,
}

/// Checks a source by its size before and after the watch.
pub fn check_source_size(size_before: u64, size_after: u64) -> (r: Result<(), SourceNotReady>)
    ensures
        r == if size_before == 0 {
            Err::<(), SourceNotReady>(SourceNotReady::Empty)
        } else if size_after != size_before {
            Err::<(), SourceNotReady>(SourceNotReady::StillWritten)
        } else {
            Ok::<(), SourceNotReady>(())
        },
{
    if size_before == 0 {
        Err(SourceNotReady::Empty)
    } else if size_after != size_before {
        Err(SourceNotReady::StillWritten)
    } else {
        Ok(())
    }
}

/// The wait for sources that are not ready.
#[derive(Clone, Copy, Debug, PartialEq, Eq, Structural)]
pub struct SourceRetry {
    pub attempt: u32,
    pub wait_secs: u64,
}

/// What follows a look at sources that were not ready.
#[derive(Clone, Copy, Debug, PartialEq, Eq, Structural)]
pub enum SourceRetryStep {
    /// The task fails.
    GiveUp,
    /// The sources are looked at again after so many seconds.
    Sleep { secs: u64 },
}

impl SourceRetry {
    /// The wait before the first look.
    pub fn new() -> (r: SourceRetry)
        ensures
            r == (SourceRetry { attempt: 0, wait_secs: SOURCE_READY_STABLE_DELAY_SECS }),
    {
        SourceRetry { attempt: 0, wait_secs: SOURCE_READY_STABLE_DELAY_SECS }
    }

    /// Counts a look at sources that were not ready. After thirty such
    /// looks the task fails; else the wait doubles, up to thirty seconds.
    pub fn on_not_ready(&mut self) -> (r: SourceRetryStep)
        ensures
            final(self).attempt == if old(self).attempt < SOURCE_READY_MAX_RETRIES {
                (old(self).attempt + 1) as u32
            } else {
                old(self).attempt
            },
            r == if final(self).attempt >= SOURCE_READY_MAX_RETRIES {
                SourceRetryStep::GiveUp
            } else {
                SourceRetryStep::Sleep { secs: old(self).wait_secs }
            },
            final(self).wait_secs == if final(self).attempt >= SOURCE_READY_MAX_RETRIES {
                old(self).wait_secs
            } else if old(self).wait_secs * 2 > SOURCE_READY_MAX_WAIT_SECS {
                SOURCE_READY_MAX_WAIT_SECS
            } else {
                (old(self).wait_secs * 2) as u64
            },
    {
        if self.attempt < SOURCE_READY_MAX_RETRIES {
            self.attempt = self.attempt + 1;
        }
        if self.attempt >= SOURCE_READY_MAX_RETRIES {
            return SourceRetryStep::GiveUp;
        }
        let secs = self.wait_secs;
        self.wait_secs = if self.wait_secs > SOURCE_READY_MAX_WAIT_SECS / 2 {
            SOURCE_READY_MAX_WAIT_SECS
        } else {
            self.wait_secs * 2
        };
        SourceRetryStep::Sleep { secs }
    }
}

/// A phase of the workflow in which an outside tool works on the files.
#[derive(Clone, Copy, Debug, PartialEq, Eq, Structural)]
pub enum Phase {
    Clipping,
    Merging,
    Segmenting,
}

impl Phase {
    /// The task status of the phase.
    pub open spec fn task_status(self) -> TaskStatus {
        match self {
            Phase::Clipping => TaskStatus::Clipping,
            Phase::Merging => TaskStatus::Merging,
            Phase::Segmenting => TaskStatus::Segmenting,
        }
    }

    /// The progress in percent at which the phase begins.
    pub open spec fn progress(self) -> u8 {
        match self {
            Phase::Clipping => 0,
            Phase::Merging => 40,
            Phase::Segmenting => 70,
        }
    }
}

/// What is stored of a task and of its latest workflow instance.
#[derive(Clone, Copy, Debug, PartialEq, Eq, Structural)]
pub struct WorkflowSnapshot {
    pub task: TaskStatus,
    pub instance: WorkflowState,
    pub step: Option<Phase>,
    pub progress: u8,
}

impl WorkflowSnapshot {
    /// Whether the task and its instance agree: the task is in one of the
    /// three phases exactly where the instance runs that phase as its step.
    pub open spec fn consistent(self) -> bool {
        (self.task == TaskStatus::Clipping || self.task == TaskStatus::Merging || self.task
            == TaskStatus::Segmenting) <==> (self.instance == WorkflowState::Running
            && self.step is Some && self.step->0.task_status() == self.task)
    }
}

/// What happens to a workflow.
#[derive(Clone, Copy, Debug, PartialEq, Eq, Structural)]
pub enum WorkflowEvent {
    /// A phase begins.
    Enter(Phase),
    /// The sources are not ready yet: the task waits for them.
    SourcesNotReady,
    /// The sources did not get ready, or there are none: the task fails.
    SourcesFailed,
    /// All phases are done: the task waits for upload. Downloads of its
    /// sources may still be under way.
    Finished { downloads_pending: bool },
    /// The workflow was cancelled.
    Cancelled,
    /// A phase failed while a request to cut anew ran.
    PhaseFailed,
    /// The process starts anew and finds the task unfinished.
    Recovered,
}

/// What is stored after an event.
pub open spec fn after_event(before: WorkflowSnapshot, event: WorkflowEvent) -> WorkflowSnapshot {
    match event {
        WorkflowEvent::Enter(phase) => WorkflowSnapshot {
            task: phase.task_status(),
            instance: WorkflowState::Running,
            step: Some(phase),
            progress: phase.progress(),
        },
        WorkflowEvent::SourcesNotReady => WorkflowSnapshot {
            task: TaskStatus::Pending,
            instance: WorkflowState::VideoDownloading,
            step: None,
            progress: 0,
        },
        WorkflowEvent::SourcesFailed => WorkflowSnapshot {
            task: TaskStatus::Failed,
            instance: WorkflowState::Failed,
            step: None,
            progress: 0,
        },
        WorkflowEvent::Finished { downloads_pending } => WorkflowSnapshot {
            task: TaskStatus::WaitingUpload,
            instance: if downloads_pending {
                WorkflowState::VideoDownloading
            } else {
                WorkflowState::Completed
            },
            step: None,
            progress: 100,
        },
        WorkflowEvent::Cancelled => WorkflowSnapshot {
            task: TaskStatus::Cancelled,
            instance: WorkflowState::Cancelled,
            ..before
        },
        WorkflowEvent::PhaseFailed => WorkflowSnapshot {
            task: TaskStatus::Failed,
            instance: WorkflowState::Failed,
            progress: 0,
            ..before
        },
        WorkflowEvent::Recovered => WorkflowSnapshot {
            task: TaskStatus::Pending,
            instance: WorkflowState::Pending,
            ..before
        },
    }
}

/// Applies an event to what is stored.
pub fn apply_event(before: WorkflowSnapshot, event: WorkflowEvent) -> (r: WorkflowSnapshot)
    ensures
        r == after_event(before, event),
{
    match event {
        WorkflowEvent::Enter(phase) => {
            let (task, progress) = match phase {
                Phase::Clipping => (TaskStatus::Clipping, 0u8),
                Phase::Merging => (TaskStatus::Merging, 40u8),
                Phase::Segmenting => (TaskStatus::Segmenting, 70u8),
            };
            WorkflowSnapshot {
                task,
                instance: WorkflowState::Running,
                step: Some(phase),
                progress,
            }
        },
        WorkflowEvent::SourcesNotReady => WorkflowSnapshot {
            task: TaskStatus::Pending,
            instance: WorkflowState::VideoDownloading,
            step: None,
            progress: 0,
        },
        WorkflowEvent::SourcesFailed => WorkflowSnapshot {
            task: TaskStatus::Failed,
            instance: WorkflowState::Failed,
            step: None,
            progress: 0,
        },
        WorkflowEvent::Finished { downloads_pending } => WorkflowSnapshot {
            task: TaskStatus::WaitingUpload,
            instance: if downloads_pending {
                WorkflowState::VideoDownloading
            } else {
                WorkflowState::Completed
            },
            step: None,
            progress: 100,
        },
        WorkflowEvent::Cancelled => WorkflowSnapshot {
            task: TaskStatus::Cancelled,
            instance: WorkflowState::Cancelled,
            step: before.step,
            progress: before.progress,
        },
        WorkflowEvent::PhaseFailed => WorkflowSnapshot {
            task: TaskStatus::Failed,
            instance: WorkflowState::Failed,
            step: before.step,
            progress: 0,
        },
        WorkflowEvent::Recovered => WorkflowSnapshot {
            task: TaskStatus::Pending,
            instance: WorkflowState::Pending,
            step: before.step,
            progress: before.progress,
        },
    }
}

/// After every event the task and its instance agree: the task is in one
/// of the phases clipping, merging and segmenting exactly where its
/// instance runs that phase as its step.
pub proof fn lemma_events_keep_consistent(before: WorkflowSnapshot, event: WorkflowEvent)
    ensures
        after_event(before, event).consistent(),
{
}

/// The phase that follows `phase`, if one follows: clipping, merging, and
/// then segmenting where the settings cut segments.
pub fn next_phase(phase: Option<Phase>, enable_segmentation: bool) -> (r: Option<Phase>)
    ensures
        r == match phase {
            None => Some(Phase::Clipping),
            Some(Phase::Clipping) => Some(Phase::Merging),
            Some(Phase::Merging) => if enable_segmentation {
                Some(Phase::Segmenting)
            } else {
                None
            },
            Some(Phase::Segmenting) => None,
        },
{
    match phase {
        None => Some(Phase::Clipping),
        Some(Phase::Clipping) => Some(Phase::Merging),
        Some(Phase::Merging) => if enable_segmentation {
            Some(Phase::Segmenting)
        } else {
            None
        },
        Some(Phase::Segmenting) => None,
    }
}

/// How the downloads that a task waits for stand.
#[derive(Clone, Copy, Debug, PartialEq, Eq, Structural)]
pub struct IntegratedDownloadStats {
    pub total: i64,
    pub completed: i64,
    pub failed: i64,
}

/// Whether downloads of the task's sources are still under way: some are
/// known and not all of them are complete.
pub fn downloads_pending(stats: Option<IntegratedDownloadStats>) -> (r: bool)
    ensures
        r == match stats {
            Some(s) => s.completed < s.total,
            None => false,
        },
{
    match stats {
        Some(s) => s.completed < s.total,
        None => false,
    }
}

/// How the segments of a finished workflow are stored.
#[derive(Clone, Copy, Debug, PartialEq, Eq, Structural)]
pub enum SegmentStore {
    /// The segments that were cut replace all output segments.
    Replace,
    /// The segments that were cut are added behind the output segments.
    AppendSegments,
    /// The merged file is added behind the output segments as one segment.
    AppendMerged,
    /// Nothing is stored: the merged file is the only part.
    Nothing,
}

/// Decides how the segments of a finished workflow are stored: an update
/// adds to what is there, anything else replaces it.
pub fn segment_store(is_update_workflow: bool, enable_segmentation: bool) -> (r: SegmentStore)
    ensures
        r == if enable_segmentation {
            if is_update_workflow {
                SegmentStore::AppendSegments
            } else {
                SegmentStore::Replace
            }
        } else if is_update_workflow {
            SegmentStore::AppendMerged
        } else {
            SegmentStore::Nothing
        },
{
    if enable_segmentation {
        if is_update_workflow {
            SegmentStore::AppendSegments
        } else {
            SegmentStore::Replace
        }
    } else if is_update_workflow {
        SegmentStore::AppendMerged
    } else {
        SegmentStore::Nothing
    }
}

/// The index with which the names of the segments of an update begin: with
/// a prefix, one; else behind the segments that are there; where there are
/// none, two if the merged file was uploaded before, else one.
pub fn resolve_update_name_start_index(
    existing_count: usize,
    prefix: Option<&str>,
    has_uploaded_merged: bool,
) -> (r: usize)
    ensures
        r == if prefix is Some && !is_blank(prefix->0@) {
            1
        } else if existing_count > 0 {
            if existing_count < usize::MAX {
                existing_count + 1
            } else {
                usize::MAX as int
            }
        } else if has_uploaded_merged {
            2
        } else {
            1
        },
{
    let has_prefix = match prefix {
        Some(p) => !blank(p),
        None => false,
    };
    if has_prefix {
        1
    } else if existing_count > 0 {
        if existing_count < usize::MAX {
            existing_count + 1
        } else {
            usize::MAX
        }
    } else if has_uploaded_merged {
        2
    } else {
        1
    }
}

/// An output segment that is to be stored.
#[derive(Debug)]
pub struct NewSegment {
    pub part_name: String,
    pub segment_file_path: String,
    pub part_order: i64,
}

/// The segments that replace the output segments of a task: they are
/// numbered from one and named by the prefix and their number, or by `P`
/// and their number where there is no prefix.
pub fn plan_saved_segments(paths: &Vec<String>, prefix: Option<&str>) -> (r: Vec<NewSegment>)
    requires
        paths@.len() < i64::MAX,
    ensures
        r@.len() == paths@.len(),
        forall|i: int|
            0 <= i < r@.len() ==> {
                let s = #[trigger] r@[i];
                &&& s.part_name@ == part_title(
                    match prefix {
                        Some(p) => Some(p@),
                        None => None,
                    },
                    (i + 1) as nat,
                )
                &&& s.segment_file_path@ == paths@[i]@
                &&& s.part_order == i + 1
            },
{
    let mut out: Vec<NewSegment> = Vec::new();
    let mut i: usize = 0;
    while i < paths.len()
        invariant
            i <= paths@.len(),
            paths@.len() < i64::MAX,
            out@.len() == i,
            forall|j: int|
                0 <= j < i ==> {
                    let s = #[trigger] out@[j];
                    &&& s.part_name@ == part_title(
                        match prefix {
                            Some(p) => Some(p@),
                            None => None,
                        },
                        (j + 1) as nat,
                    )
                    &&& s.segment_file_path@ == paths@[j]@
                    &&& s.part_order == j + 1
                },
        decreases paths@.len() - i,
    {
        out.push(
            NewSegment {
                part_name: build_part_title(prefix, i + 1),
                segment_file_path: paths[i].clone(),
                part_order: (i + 1) as i64,
            },
        );
        i += 1;
    }
    out
}

/// The segments that are added behind the output segments of a task: their
/// order goes on from `part_order_start`, their names from
/// `name_start_index`.
pub fn plan_appended_segments(
    paths: &Vec<String>,
    prefix: Option<&str>,
    part_order_start: i64,
    name_start_index: usize,
) -> (r: Vec<NewSegment>)
    requires
        0 <= part_order_start,
        part_order_start + paths@.len() <= i64::MAX,
        name_start_index + paths@.len() <= usize::MAX,
    ensures
        r@.len() == paths@.len(),
        forall|i: int|
            0 <= i < r@.len() ==> {
                let s = #[trigger] r@[i];
                &&& s.part_name@ == part_title(
                    match prefix {
                        Some(p) => Some(p@),
                        None => None,
                    },
                    (name_start_index + i) as nat,
                )
                &&& s.segment_file_path@ == paths@[i]@
                &&& s.part_order == part_order_start + i
            },
{
    let mut out: Vec<NewSegment> = Vec::new();
    let mut i: usize = 0;
    while i < paths.len()
        invariant
            i <= paths@.len(),
            0 <= part_order_start,
            part_order_start + paths@.len() <= i64::MAX,
            name_start_index + paths@.len() <= usize::MAX,
            out@.len() == i,
            forall|j: int|
                0 <= j < i ==> {
                    let s = #[trigger] out@[j];
                    &&& s.part_name@ == part_title(
                        match prefix {
                            Some(p) => Some(p@),
                            None => None,
                        },
                        (name_start_index + j) as nat,
                    )
                    &&& s.segment_file_path@ == paths@[j]@
                    &&& s.part_order == part_order_start + j
                },
        decreases paths@.len() - i,
    {
        out.push(
            NewSegment {
                part_name: build_part_title(prefix, name_start_index + i),
                segment_file_path: paths[i].clone(),
                part_order: part_order_start + i as i64,
            },
        );
        i += 1;
    }
    out
}

/// What the start of the process does with a task that it finds in
/// `status`.
#[derive(Clone, Copy, Debug, PartialEq, Eq, Structural)]
pub enum RecoveryAction {
    /// The task waits for upload again.
    RequeueUpload,
    /// The task and its instance are pending again, and the workflow is
    /// run from its start.
    RestartWorkflow,
    /// The task is left alone.
    Leave,
}

/// Decides what the start of the process does with a task.
pub fn recover_submission_task(status: TaskStatus) -> (r: RecoveryAction)
    ensures
        r == match status {
            TaskStatus::Uploading => RecoveryAction::RequeueUpload,
            TaskStatus::Pending | TaskStatus::Clipping | TaskStatus::Merging
            | TaskStatus::Segmenting => RecoveryAction::RestartWorkflow,
            _ => RecoveryAction::Leave,
        },
{
    match status {
        TaskStatus::Uploading => RecoveryAction::RequeueUpload,
        TaskStatus::Pending | TaskStatus::Clipping | TaskStatus::Merging
        | TaskStatus::Segmenting => RecoveryAction::RestartWorkflow,
        _ => RecoveryAction::Leave,
    }
}

/// The status of a task after the start of the process looked at it.
pub open spec fn recovered_status(status: TaskStatus) -> TaskStatus {
    match status {
        TaskStatus::Uploading => TaskStatus::WaitingUpload,
        TaskStatus::Pending | TaskStatus::Clipping | TaskStatus::Merging
        | TaskStatus::Segmenting => TaskStatus::Pending,
        other => other,
    }
}

/// After the start of the process no task is left in a status that only a
/// running workflow or a running upload gives.
pub proof fn lemma_recovery_leaves_no_orphan(status: TaskStatus)
    ensures
        recovered_status(status) != TaskStatus::Uploading,
        recovered_status(status) != TaskStatus::Clipping,
        recovered_status(status) != TaskStatus::Merging,
        recovered_status(status) != TaskStatus::Segmenting,
        recovered_status(recovered_status(status)) == recovered_status(status)
            || recovered_status(status) == TaskStatus::Pending,
{
}

} // verus!
