//! Concurrent layer download orchestration.
//!
//! Given a manifest's ordered layer list — possibly holding the same digest
//! more than once — the orchestrator schedules exactly one fetch task per
//! unique digest, in first-occurrence order.  Each running task emits
//! progress events on a shared ordered channel; a single consumer owns the
//! authoritative progress table and folds the events into it, one entry per
//! event, until every task is completed.  Only the consumer mutates the
//! table, so no update is lost and no two parties race on an entry.
//!
//! The task spawning, the channel and the sinks live with the caller; the
//! scheduling decisions and the table are here, as plain functions of their
//! inputs.

use crate::digest::{Digest, DigestView};
use crate::manifest::Layer;
use vstd::prelude::*;

verus! {

/// One scheduled fetch: the unique digest to retrieve and the size its
/// first layer declared.  Its position in the schedule is its task index.
#[derive(Debug)]
pub struct DownloadTask {
    pub digest: Digest,
    pub size: usize,
}

/// Error: two layers share a digest but declare different sizes, so the
/// manifest is inconsistent about that content.
#[derive(Debug, PartialEq, Eq, Structural)]
pub struct LayerSizeMismatch;

/// The digests of a layer list, in layer order.
pub open spec fn layer_digests(layers: Seq<Layer>) -> Seq<DigestView> {
    layers.map_values(|l: Layer| l.digest@)
}

/// The digests of a task list, in task order.
pub open spec fn task_digests(tasks: Seq<DownloadTask>) -> Seq<DigestView> {
    tasks.map_values(|t: DownloadTask| t.digest@)
}

/// The sequence with every digest's first occurrence kept, in order, and
/// every repeat dropped.
pub open spec fn unique_digests(s: Seq<DigestView>) -> Seq<DigestView>
    decreases s.len(),
{
    if s.len() == 0 {
        Seq::empty()
    } else {
        let pre = unique_digests(s.drop_last());
        if s.drop_last().contains(s.last()) {
            pre
        } else {
            pre.push(s.last())
        }
    }
}

/// Whether a task's digest and size both come from one of the layers.
pub open spec fn task_from_layers(layers: Seq<Layer>, t: DownloadTask) -> bool {
    exists|i: int|
        0 <= i < layers.len() && (#[trigger] layers[i].digest@) == t.digest@ && layers[i].size
            == t.size
}

/// Whether every two layers that share a digest declare the same size.
pub open spec fn sizes_agree(layers: Seq<Layer>) -> bool {
    forall|i: int, j: int|
        0 <= i < layers.len() && 0 <= j < layers.len() && (#[trigger] layers[i]).digest@ == (
        #[trigger] layers[j]).digest@ ==> layers[i].size == layers[j].size
}

/// Scans the layers in order and schedules one download task per unique
/// digest.
///
/// A layer whose digest already appeared among earlier layers is skipped —
/// the earlier task's result satisfies both positions — unless it declares
/// a different size than the earlier layer, which is a validation error.
/// On success the scheduled digests are exactly the unique layer digests in
/// first-occurrence order, each with the size its layers declared.
pub fn schedule_tasks(layers: &Vec<Layer>) -> (r: Result<Vec<DownloadTask>, LayerSizeMismatch>)
    ensures
        r is Ok <==> sizes_agree(layers@),
        (r matches Ok(tasks) ==> {
            &&& task_digests(tasks@) == unique_digests(layer_digests(layers@))
            &&& forall|k: int|
                0 <= k < tasks@.len() ==> task_from_layers(layers@, #[trigger] tasks@[k])
        }),
{
    let mut tasks: Vec<DownloadTask> = Vec::new();
    let mut n: usize = 0;
    while n < layers.len()
        invariant
            n <= layers@.len(),
            forall|i: int, j: int|
                0 <= i < n && 0 <= j < n && (#[trigger] layers@[i]).digest@ == (
                #[trigger] layers@[j]).digest@ ==> layers@[i].size == layers@[j].size,
            task_digests(tasks@) == unique_digests(layer_digests(layers@.take(n as int))),
            forall|k: int|
                0 <= k < tasks@.len() ==> task_from_layers(layers@.take(n as int), #[trigger] tasks@[k]),
        decreases layers@.len() - n,
    {
        let mut m: usize = 0;
        let mut dup: bool = false;
        while m < n && !dup
            invariant
                m <= n < layers@.len(),
                !dup ==> forall|j: int| 0 <= j < m ==> layers@[j].digest@ != layers@[n as int].digest@,
                dup ==> m < n && layers@[m as int].digest@ == layers@[n as int].digest@
                    && layers@[m as int].size == layers@[n as int].size,
            decreases n - m + (if dup { 0int } else { 1int }),
        {
            if layers[m].digest == layers[n].digest {
                if layers[m].size != layers[n].size {
                    proof {
                        assert(layers@[m as int].digest@ == layers@[n as int].digest@
                            && layers@[m as int].size != layers@[n as int].size);
                        assert(!sizes_agree(layers@));
                    }
                    return Err(LayerSizeMismatch);
                }
                dup = true;
            } else {
                m = m + 1;
            }
        }
        proof {
            assert(layer_digests(layers@.take(n as int + 1)).drop_last() =~= layer_digests(
                layers@.take(n as int),
            ));
            assert(layer_digests(layers@.take(n as int + 1)).last() == layers@[n as int].digest@);
        }
        if !dup {
            tasks.push(DownloadTask { digest: layers[n].digest.clone(), size: layers[n].size });
            proof {
                assert(!layer_digests(layers@.take(n as int)).contains(
                    layers@[n as int].digest@,
                ));
                assert(task_digests(tasks@) =~= unique_digests(
                    layer_digests(layers@.take(n as int + 1)),
                ));
            }
        } else {
            proof {
                assert(layer_digests(layers@.take(n as int))[m as int] == layers@[n as int].digest@);
                assert(layer_digests(layers@.take(n as int)).contains(layers@[n as int].digest@));
            }
        }
        proof {
            assert forall|i: int, j: int|
                0 <= i < n + 1 && 0 <= j < n + 1 && (#[trigger] layers@[i]).digest@ == (
                #[trigger] layers@[j]).digest@ implies layers@[i].size == layers@[j].size by {
                if dup {
                    assert(layers@[m as int].digest@ == layers@[n as int].digest@);
                }
            }
        }
        n = n + 1;
    }
    proof {
        assert(layers@.take(layers@.len() as int) =~= layers@);
    }
    Ok(tasks)
}

/// The download state of one task, as the progress table records it.
#[derive(Debug)]
pub enum LayerDownloadStatus {
    /// Scheduled; no event observed yet.
    Unknown(Digest),
    /// Bytes received so far, and the total when the response declared one.
    Downloading(Digest, usize, Option<usize>),
    /// All content received: the final byte count matched a known total, or
    /// end of stream was observed.
    Completed(Digest, usize),
    /// The task failed mid-stream; its progress ended without completion.
    Failed(Digest),
}

/// The percentage shown for a task: only a downloading task with a known,
/// consistent total has one.  With the total absent — as when the response
/// carried no content-length — no percentage exists.
pub open spec fn spec_percent(s: LayerDownloadStatus) -> Option<u8> {
    match s {
        LayerDownloadStatus::Downloading(_, d, total) => if total matches Some(t) && 0 < t && d
            <= t {
            Some((d as int * 100 / total->Some_0 as int) as u8)
        } else {
            None
        },
        _ => None,
    }
}

impl LayerDownloadStatus {
    /// Whether the download has completed.
    pub fn completed(&self) -> (r: bool)
        ensures
            r == (*self is Completed),
    {
        match self {
            LayerDownloadStatus::Completed(_, _) => true,
            _ => false,
        }
    }

    /// The whole-number percentage of the download progress, when one is
    /// defined: never for an unknown total, so an absent content-length is
    /// never divided by.
    pub fn percent(&self) -> (r: Option<u8>)
        ensures
            r == spec_percent(*self),
    {
        match self {
            LayerDownloadStatus::Downloading(_, d, Some(t)) => {
                if 0 < *t && *d <= *t {
                    let p = ((*d as u128) * 100 / (*t as u128)) as u8;
                    proof {
                        assert((*d as int) * 100 / (*t as int) <= 100) by (nonlinear_arith)
                            requires
                                0 < *t,
                                *d <= *t,
                        ;
                    }
                    Some(p)
                } else {
                    None
                }
            },
            _ => None,
        }
    }
}

/// One event on the shared progress channel, emitted by a download task
/// and consumed by the single table owner.
#[derive(Debug)]
pub enum ProgressEvent {
    /// A chunk was received: the bytes downloaded so far and the total
    /// when the response declared one.
    Chunk { task: usize, digest: Digest, downloaded: usize, total: Option<usize> },
    /// The task's stream ended after `downloaded` bytes.
    EndOfStream { task: usize, digest: Digest, downloaded: usize },
    /// The task failed mid-stream; this is terminal and distinct from
    /// completion.
    Failed { task: usize, digest: Digest },
}

impl ProgressEvent {
    /// The index of the table entry this event names.
    pub open spec fn task_index(self) -> int {
        match self {
            ProgressEvent::Chunk { task, .. } => task as int,
            ProgressEvent::EndOfStream { task, .. } => task as int,
            ProgressEvent::Failed { task, .. } => task as int,
        }
    }

    /// Whether this event completes its task: the chunk that reaches a
    /// known total, or the explicit end-of-stream signal.
    pub open spec fn completing(self) -> bool {
        match self {
            ProgressEvent::Chunk { downloaded, total, .. } => total matches Some(t) && downloaded
                == t,
            ProgressEvent::EndOfStream { .. } => true,
            ProgressEvent::Failed { .. } => false,
        }
    }
}

/// The table entry an event sets for its task.
pub open spec fn event_entry(ev: ProgressEvent) -> LayerDownloadStatus {
    match ev {
        ProgressEvent::Chunk { digest, downloaded, total, .. } => if ev.completing() {
            LayerDownloadStatus::Completed(digest, downloaded)
        } else {
            LayerDownloadStatus::Downloading(digest, downloaded, total)
        },
        ProgressEvent::EndOfStream { digest, downloaded, .. } => LayerDownloadStatus::Completed(
            digest,
            downloaded,
        ),
        ProgressEvent::Failed { digest, .. } => LayerDownloadStatus::Failed(digest),
    }
}

/// One event folded into the table: exactly the entry the event names
/// changes, to the state the event carries.
pub open spec fn apply_event_spec(
    entries: Seq<LayerDownloadStatus>,
    ev: ProgressEvent,
) -> Seq<LayerDownloadStatus> {
    if 0 <= ev.task_index() < entries.len() {
        entries.update(ev.task_index(), event_entry(ev))
    } else {
        entries
    }
}

/// A sequence of events folded into the table in delivery order.
pub open spec fn apply_events_spec(
    entries: Seq<LayerDownloadStatus>,
    evs: Seq<ProgressEvent>,
) -> Seq<LayerDownloadStatus>
    decreases evs.len(),
{
    if evs.len() == 0 {
        entries
    } else {
        apply_events_spec(apply_event_spec(entries, evs[0]), evs.drop_first())
    }
}

/// The authoritative progress view: one entry per scheduled task, owned
/// and mutated by the single consumer alone.
pub struct ProgressTable {
    pub entries: Vec<LayerDownloadStatus>,
}

impl ProgressTable {
    /// A fresh table for a schedule: one `Unknown` entry per task, in task
    /// order.  A schedule of zero tasks gives the empty table, which is
    /// already complete.
    pub fn new(tasks: &Vec<DownloadTask>) -> (t: ProgressTable)
        ensures
            t.entries@.len() == tasks@.len(),
            forall|i: int|
                0 <= i < tasks@.len() ==> ((#[trigger] t.entries@[i]) matches LayerDownloadStatus::Unknown(d)
                    && d@ == tasks@[i].digest@),
    {
        let mut entries: Vec<LayerDownloadStatus> = Vec::new();
        let mut i: usize = 0;
        while i < tasks.len()
            invariant
                i <= tasks@.len(),
                entries@.len() == i,
                forall|k: int|
                    0 <= k < i ==> ((#[trigger] entries@[k]) matches LayerDownloadStatus::Unknown(d) && d@
                        == tasks@[k].digest@),
            decreases tasks@.len() - i,
        {
            entries.push(LayerDownloadStatus::Unknown(tasks[i].digest.clone()));
            i = i + 1;
        }
        ProgressTable { entries }
    }

    /// Folds one delivered event into the table: the entry the event names
    /// is replaced by the state the event carries; no other entry changes.
    pub fn apply_event(&mut self, ev: ProgressEvent)
        requires
            ev.task_index() < old(self).entries@.len(),
        ensures
            final(self).entries@ == apply_event_spec(old(self).entries@, ev),
    {
        let (task, entry) = match ev {
            ProgressEvent::Chunk { task, digest, downloaded, total } => {
                let entry = match total {
                    Some(t) if downloaded == t => LayerDownloadStatus::Completed(
                        digest,
                        downloaded,
                    ),
                    _ => LayerDownloadStatus::Downloading(digest, downloaded, total),
                };
                (task, entry)
            },
            ProgressEvent::EndOfStream { task, digest, downloaded } => (
                task,
                LayerDownloadStatus::Completed(digest, downloaded),
            ),
            ProgressEvent::Failed { task, digest } => (task, LayerDownloadStatus::Failed(digest)),
        };
        self.entries[task] = entry;
    }

    /// Whether every task has completed.  False while any task is still
    /// unknown, downloading, or failed, so overall completion is never
    /// declared over a failed task; true of the empty table.
    pub fn all_completed(&self) -> (r: bool)
        ensures
            r == (forall|i: int| 0 <= i < self.entries@.len() ==> self.entries@[i] is Completed),
    {
        let mut i: usize = 0;
        while i < self.entries.len()
            invariant
                i <= self.entries@.len(),
                forall|k: int| 0 <= k < i ==> self.entries@[k] is Completed,
            decreases self.entries@.len() - i,
        {
            if !self.entries[i].completed() {
                return false;
            }
            i = i + 1;
        }
        true
    }

    /// Whether any task has failed, for the caller's failure policy.
    pub fn any_failed(&self) -> (r: bool)
        ensures
            r == (exists|i: int| 0 <= i < self.entries@.len() && self.entries@[i] is Failed),
    {
        let mut i: usize = 0;
        while i < self.entries.len()
            invariant
                i <= self.entries@.len(),
                forall|k: int| 0 <= k < i ==> !(self.entries@[k] is Failed),
            decreases self.entries@.len() - i,
        {
            let failed = match &self.entries[i] {
                LayerDownloadStatus::Failed(_) => true,
                _ => false,
            };
            if failed {
                return true;
            }
            i = i + 1;
        }
        false
    }
}

/// Policy choice the orchestrator exposes: whether one task's failure
/// aborts the sibling downloads, or the others run on.
#[derive(Debug, Clone, Copy, PartialEq, Eq, Structural)]
pub enum FailurePolicy {
    AbortOnFailure,
    ContinueOnFailure,
}

impl FailurePolicy {
    /// Whether a failure of one task should cancel its siblings.
    pub fn aborts_siblings(&self) -> (r: bool)
        ensures
            r == (*self is AbortOnFailure),
    {
        match self {
            FailurePolicy::AbortOnFailure => true,
            FailurePolicy::ContinueOnFailure => false,
        }
    }
}

/// Law: a task whose completing event — the chunk reaching its known
/// total, or its end-of-stream signal — was never delivered is not
/// Completed in the table, whatever other events arrive.  In particular, a
/// download cancelled mid-stream leaves no task reported Completed whose
/// last chunk was never received.
pub proof fn lemma_no_completion_without_completing_event(
    entries: Seq<LayerDownloadStatus>,
    evs: Seq<ProgressEvent>,
    j: int,
)
    requires
        0 <= j < entries.len(),
        !(entries[j] is Completed),
        forall|k: int| 0 <= k < evs.len() ==> !(#[trigger] evs[k].completing() && evs[k].task_index() == j),
    ensures
        apply_events_spec(entries, evs).len() == entries.len(),
        !(apply_events_spec(entries, evs)[j] is Completed),
    decreases evs.len(),
{
    if evs.len() > 0 {
        let next = apply_event_spec(entries, evs[0]);
        assert(!(evs[0].completing() && evs[0].task_index() == j));
        assert(!(next[j] is Completed));
        assert forall|k: int| 0 <= k < evs.drop_first().len() implies !(#[trigger] evs.drop_first()[k].completing()
            && evs.drop_first()[k].task_index() == j) by {
            assert(evs.drop_first()[k] == evs[k + 1]);
        }
        lemma_no_completion_without_completing_event(next, evs.drop_first(), j);
    }
}

/// Law: a task with no known total is completed by its end-of-stream
/// signal alone, and never shows a percentage while downloading.
pub proof fn lemma_unknown_total(task: usize, digest: Digest, downloaded: usize)
    ensures
        (spec_percent(LayerDownloadStatus::Downloading(digest, downloaded, None)) is None),
        (!(ProgressEvent::Chunk { task, digest, downloaded, total: None }).completing()),
        (event_entry(ProgressEvent::EndOfStream { task, digest, downloaded })
            == LayerDownloadStatus::Completed(digest, downloaded)),
{
}

} // verus!
