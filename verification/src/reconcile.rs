//! Reconciling the tasks with what the remote side says of their
//! submissions: the audit listing is read page by page, then every task
//! that has a remote id gets the state found for it.

use vstd::prelude::*;
use crate::json::{
    array_len_at, get_array_len, get_i64, get_text, has_node, i64_at, item_pointer, json_nodes,
    make_item_pointer, node_at, text_at, JsonNode,
};
use crate::records::opt_chars;
use crate::text::trimmed;
use crate::textmap::TextMap;
use crate::workflow::{normalize_optional_text, trimmed_text};

verus! {

/// How many submissions one page of the audit listing holds.
pub const AUDIT_PAGE_SIZE: i64 = 20;

/// Least minutes between two reconciliations.
pub const MIN_REFRESH_MINUTES: i64 = 1;

/// What the remote side says of one submission.
#[derive(Clone, Debug)]
pub struct RemoteAuditInfo {
    pub state: i64,
    pub reject_reason: Option<String>,
}

/// An audit as plain values.
pub struct AuditSpec {
    pub state: i64,
    pub reject_reason: Option<Seq<char>>,
}

impl View for RemoteAuditInfo {
    type V = AuditSpec;

    open spec fn view(&self) -> AuditSpec {
        AuditSpec { state: self.state, reject_reason: opt_chars(self.reject_reason) }
    }
}

/// The first reason for rejection among the first `count` details of item
/// `item` that is a text.
pub open spec fn first_detail_reason(nodes: Map<Seq<char>, JsonNode>, item: nat, count: nat) -> Option<
    Seq<char>,
>
    decreases count,
{
    if count == 0 {
        None
    } else {
        match first_detail_reason(nodes, item, (count - 1) as nat) {
            Some(r) => Some(r),
            None => text_at(
                nodes,
                item_pointer(
                    item_pointer("/arc_audits"@, item, "/problem_detail"@),
                    (count - 1) as nat,
                    "/reject_reason"@,
                ),
            ),
        }
    }
}

/// The reason for which item `item` was rejected: the first one among its
/// details, else the one of its archive; trimmed, and none where that
/// leaves nothing.
pub open spec fn item_reason(nodes: Map<Seq<char>, JsonNode>, item: nat) -> Option<Seq<char>> {
    let among_details = match array_len_at(
        nodes,
        item_pointer("/arc_audits"@, item, "/problem_detail"@),
    ) {
        Some(n) => first_detail_reason(nodes, item, n),
        None => None,
    };
    trimmed_text(
        match among_details {
            Some(r) => Some(r),
            None => text_at(nodes, item_pointer("/arc_audits"@, item, "/Archive/reject_reason"@)),
        },
    )
}

/// The remote id of item `item`, if the item has an archive with an id that
/// is not blank.
pub open spec fn item_bvid(nodes: Map<Seq<char>, JsonNode>, item: nat) -> Option<Seq<char>> {
    if node_at(nodes, item_pointer("/arc_audits"@, item, "/Archive"@)) is None {
        None
    } else {
        trimmed_text(text_at(nodes, item_pointer("/arc_audits"@, item, "/Archive/bvid"@)))
    }
}

/// The state of item `item`, zero where it names none.
pub open spec fn item_state(nodes: Map<Seq<char>, JsonNode>, item: nat) -> i64 {
    match i64_at(nodes, item_pointer("/arc_audits"@, item, "/Archive/state"@)) {
        Some(s) => s as i64,
        None => 0,
    }
}

/// The audits after the first `count` items of a page were entered: a later
/// item replaces an earlier one with the same remote id.
pub open spec fn audits_upto(
    base: Map<Seq<char>, AuditSpec>,
    nodes: Map<Seq<char>, JsonNode>,
    count: nat,
) -> Map<Seq<char>, AuditSpec>
    decreases count,
{
    if count == 0 {
        base
    } else {
        let before = audits_upto(base, nodes, (count - 1) as nat);
        match item_bvid(nodes, (count - 1) as nat) {
            Some(bvid) => before.insert(
                bvid,
                AuditSpec {
                    state: item_state(nodes, (count - 1) as nat),
                    reject_reason: item_reason(nodes, (count - 1) as nat),
                },
            ),
            None => before,
        }
    }
}

/// The number of items on a page.
pub open spec fn page_items(nodes: Map<Seq<char>, JsonNode>) -> nat {
    match array_len_at(nodes, "/arc_audits"@) {
        Some(n) => n,
        None => 0,
    }
}

/// Reads the reason for which an item was rejected.
fn read_item_reason(doc: &serde_json::Value, item: usize) -> (r: Option<String>)
    ensures
        opt_chars(r) == item_reason(json_nodes(*doc), item as nat),
{
    let details = make_item_pointer("/arc_audits", item, "/problem_detail");
    let mut found: Option<String> = None;
    if let Some(count) = get_array_len(doc, details.as_str()) {
        let mut j: usize = 0;
        while j < count && found.is_none()
            invariant
                j <= count,
                details@ == item_pointer("/arc_audits"@, item as nat, "/problem_detail"@),
                opt_chars(found) == first_detail_reason(json_nodes(*doc), item as nat, j as nat),
            decreases count - j,
        {
            let pointer = make_item_pointer(details.as_str(), j, "/reject_reason");
            found = get_text(doc, pointer.as_str());
            j += 1;
        }
        proof {
            if found is Some {
                lemma_first_reason_stays(json_nodes(*doc), item as nat, j as nat, count as nat);
            }
        }
    }
    let reason = match found {
        Some(r) => Some(r),
        None => {
            let pointer = make_item_pointer("/arc_audits", item, "/Archive/reject_reason");
            get_text(doc, pointer.as_str())
        },
    };
    normalize_optional_text(reason)
}

/// Once a reason is found among the details, later details do not change
/// it.
proof fn lemma_first_reason_stays(nodes: Map<Seq<char>, JsonNode>, item: nat, at: nat, count: nat)
    requires
        at <= count,
        first_detail_reason(nodes, item, at) is Some,
    ensures
        first_detail_reason(nodes, item, count) == first_detail_reason(nodes, item, at),
    decreases count - at,
{
    if at < count {
        lemma_first_reason_stays(nodes, item, at, (count - 1) as nat);
    }
}

/// Enters the items of one page of the audit listing into `audits`.
pub fn collect_audit_page(doc: &serde_json::Value, audits: &mut TextMap<RemoteAuditInfo>) -> (items:
    usize)
    ensures
        items == page_items(json_nodes(*doc)),
        final(audits)@ == audits_upto(old(audits)@, json_nodes(*doc), items as nat),
{
    let count = match get_array_len(doc, "/arc_audits") {
        Some(n) => n,
        None => 0,
    };
    let mut i: usize = 0;
    while i < count
        invariant
            i <= count,
            audits@ == audits_upto(old(audits)@, json_nodes(*doc), i as nat),
        decreases count - i,
    {
        let archive = make_item_pointer("/arc_audits", i, "/Archive");
        if has_node(doc, archive.as_str()) {
            let bvid_pointer = make_item_pointer("/arc_audits", i, "/Archive/bvid");
            let bvid = normalize_optional_text(get_text(doc, bvid_pointer.as_str()));
            if let Some(bvid) = bvid {
                let state_pointer = make_item_pointer("/arc_audits", i, "/Archive/state");
                let state = match get_i64(doc, state_pointer.as_str()) {
                    Some(s) => s,
                    None => 0,
                };
                let reject_reason = read_item_reason(doc, i);
                audits.insert(bvid, RemoteAuditInfo { state, reject_reason });
            }
        }
        i += 1;
    }
    count
}

/// The number of submissions that the listing reports in all, zero where it
/// reports none.
pub fn audit_total(doc: &serde_json::Value) -> (r: i64)
    ensures
        r == match i64_at(json_nodes(*doc), "/page/count"@) {
            Some(n) => n,
            None => 0,
        },
{
    match get_i64(doc, "/page/count") {
        Some(n) => n,
        None => 0,
    }
}

/// The page of the audit listing that is read after page `page`, if one
/// is: reading ends where the listing reports no submissions, where the
/// pages read hold as many as it reports, and where a page is empty.
pub fn next_audit_page(page: i64, total_count: i64, items_on_page: usize) -> (r: Option<i64>)
    ensures
        r == if total_count <= 0 || page * AUDIT_PAGE_SIZE >= total_count || items_on_page == 0 {
            None
        } else {
            Some((page + 1) as i64)
        },
{
    if total_count <= 0 {
        return None;
    }
    if (page as i128) * (AUDIT_PAGE_SIZE as i128) >= total_count as i128 {
        return None;
    }
    if items_on_page == 0 {
        return None;
    }
    Some(page + 1)
}

/// What is stored for one task after a reconciliation.
#[derive(Debug)]
pub struct RemoteUpdate {
    pub task_id: String,
    pub remote_state: i64,
    pub reject_reason: Option<String>,
}

/// A task that has a remote id.
#[derive(Debug)]
pub struct TaskBvid {
    pub task_id: String,
    pub bvid: String,
}

/// What is stored for a task with the remote id `bvid`: what the remote
/// side says of it, or state zero and no reason where it says nothing.
pub open spec fn reconciled(audits: Map<Seq<char>, AuditSpec>, bvid: Seq<char>) -> AuditSpec {
    if audits.dom().contains(bvid) {
        audits[bvid]
    } else {
        AuditSpec { state: 0, reject_reason: None }
    }
}

/// Decides what is stored for every task that has a remote id.
pub fn reconcile_remote_state(tasks: &Vec<TaskBvid>, audits: &TextMap<RemoteAuditInfo>) -> (r: Vec<
    RemoteUpdate,
>)
    ensures
        r@.len() == tasks@.len(),
        forall|i: int|
            0 <= i < r@.len() ==> {
                let update = #[trigger] r@[i];
                &&& update.task_id@ == tasks@[i].task_id@
                &&& update.remote_state == reconciled(audits@, tasks@[i].bvid@).state
                &&& opt_chars(update.reject_reason) == reconciled(
                    audits@,
                    tasks@[i].bvid@,
                ).reject_reason
            },
{
    let mut updates: Vec<RemoteUpdate> = Vec::new();
    let mut i: usize = 0;
    while i < tasks.len()
        invariant
            i <= tasks@.len(),
            updates@.len() == i,
            forall|k: int|
                0 <= k < i ==> {
                    let update = #[trigger] updates@[k];
                    &&& update.task_id@ == tasks@[k].task_id@
                    &&& update.remote_state == reconciled(audits@, tasks@[k].bvid@).state
                    &&& opt_chars(update.reject_reason) == reconciled(
                        audits@,
                        tasks@[k].bvid@,
                    ).reject_reason
                },
        decreases tasks@.len() - i,
    {
        let task = &tasks[i];
        let update = match audits.get(task.bvid.as_str()) {
            Some(info) => RemoteUpdate {
                task_id: task.task_id.clone(),
                remote_state: info.state,
                reject_reason: crate::edit::copy_text(&info.reject_reason),
            },
            None => RemoteUpdate {
                task_id: task.task_id.clone(),
                remote_state: 0,
                reject_reason: None,
            },
        };
        updates.push(update);
        i += 1;
    }
    updates
}

/// After a reconciliation every task whose remote id the remote side did
/// not list has state zero and no reason for rejection.
pub proof fn lemma_absent_is_cleared(audits: Map<Seq<char>, AuditSpec>, bvid: Seq<char>)
    requires
        !audits.dom().contains(bvid),
    ensures
        reconciled(audits, bvid).state == 0,
        reconciled(audits, bvid).reject_reason is None,
{
}

/// The minutes between two reconciliations: what is configured, at least
/// one.
pub fn refresh_interval_minutes(configured: i64) -> (r: i64)
    ensures
        r == if configured < MIN_REFRESH_MINUTES {
            MIN_REFRESH_MINUTES
        } else {
            configured
        },
{
    if configured < MIN_REFRESH_MINUTES {
        MIN_REFRESH_MINUTES
    } else {
        configured
    }
}

} // verus!
