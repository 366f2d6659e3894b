//! The bounded-concurrency download engine: one task per content item, a
//! global cap on simultaneously in-flight transfers, and per-task byte
//! progress. The engine here is the coordination state machine; the caller
//! performs the actual transfers and reports events back.

use vstd::prelude::*;
use crate::manifest::{ModProvider, ModRef};
use crate::text::{spec_last_segment, last_url_segment, str_eq};
use crate::MAX_ACTIVE_DOWNLOADS;

verus! {

/// Lifecycle of one download task.
#[derive(Clone, Copy, PartialEq, Eq, Structural, Debug)]
pub enum TaskState {
    Pending,
    InProgress,
    Complete,
    Failed,
}

/// Runtime tracking record for one content fetch: the immutable description
/// of the item plus its mutable progress fields.
pub struct DownloadTask {
    pub name: String,
    pub source_url: String,
    pub version: String,
    pub provider: ModProvider,
    pub bytes_downloaded: u64,
    pub bytes_total: Option<u64>,
    pub state: TaskState,
}

impl Clone for DownloadTask {
    fn clone(&self) -> (r: Self)
        ensures
            r == *self,
    {
        DownloadTask {
            name: self.name.clone(),
            source_url: self.source_url.clone(),
            version: self.version.clone(),
            provider: self.provider,
            bytes_downloaded: self.bytes_downloaded,
            bytes_total: self.bytes_total,
            state: self.state,
        }
    }
}

/// The task a batch starts with for one content item: nothing fetched yet.
pub open spec fn initial_task(m: ModRef) -> DownloadTask {
    DownloadTask {
        name: m.name,
        source_url: m.source_url,
        version: m.version,
        provider: m.provider,
        bytes_downloaded: 0,
        bytes_total: None,
        state: TaskState::Pending,
    }
}

/// How many tasks of `tasks` are in state `st`.
pub open spec fn count_state(tasks: Seq<DownloadTask>, st: TaskState) -> int
    decreases tasks.len(),
{
    if tasks.len() == 0 {
        0
    } else {
        count_state(tasks.drop_last(), st) + if tasks.last().state == st {
            1int
        } else {
            0int
        }
    }
}

pub proof fn lemma_count_push(tasks: Seq<DownloadTask>, t: DownloadTask, st: TaskState)
    ensures
        count_state(tasks.push(t), st) == count_state(tasks, st) + if t.state == st {
            1int
        } else {
            0int
        },
{
    assert(tasks.push(t).drop_last() =~= tasks);
}

pub proof fn lemma_count_update(tasks: Seq<DownloadTask>, i: int, t: DownloadTask, st: TaskState)
    requires
        0 <= i < tasks.len(),
    ensures
        count_state(tasks.update(i, t), st) == count_state(tasks, st) - (if tasks[i].state == st {
            1int
        } else {
            0int
        }) + (if t.state == st {
            1int
        } else {
            0int
        }),
    decreases tasks.len(),
{
    if i == tasks.len() - 1 {
        assert(tasks.update(i, t).drop_last() =~= tasks.drop_last());
    } else {
        assert(tasks.update(i, t).drop_last() =~= tasks.drop_last().update(i, t));
        lemma_count_update(tasks.drop_last(), i, t, st);
    }
}

/// A task in state `st` witnesses that the count of `st` is at least one.
pub proof fn lemma_count_at_least_one(tasks: Seq<DownloadTask>, i: int, st: TaskState)
    requires
        0 <= i < tasks.len(),
        tasks[i].state == st,
    ensures
        count_state(tasks, st) >= 1,
    decreases tasks.len(),
{
    lemma_count_bounds(tasks.drop_last(), st);
    if i < tasks.len() - 1 {
        lemma_count_at_least_one(tasks.drop_last(), i, st);
    }
}

pub proof fn lemma_count_bounds(tasks: Seq<DownloadTask>, st: TaskState)
    ensures
        0 <= count_state(tasks, st) <= tasks.len(),
    decreases tasks.len(),
{
    if tasks.len() != 0 {
        lemma_count_bounds(tasks.drop_last(), st);
    }
}

/// Every task is in state `st` exactly when the count of `st` is the length.
pub proof fn lemma_count_full(tasks: Seq<DownloadTask>, st: TaskState)
    ensures
        count_state(tasks, st) == tasks.len() <==> (forall|i: int|
            0 <= i < tasks.len() ==> tasks[i].state == st),
    decreases tasks.len(),
{
    lemma_count_bounds(tasks, st);
    if tasks.len() != 0 {
        lemma_count_full(tasks.drop_last(), st);
        lemma_count_bounds(tasks.drop_last(), st);
        assert(forall|i: int|
            0 <= i < tasks.len() - 1 ==> tasks[i] == tasks.drop_last()[i]);
    }
}

/// Per-task well-formedness: progress never exceeds a known total, a
/// completed task has received exactly its total, and nothing has been
/// received before a task starts.
pub open spec fn task_wf(t: DownloadTask) -> bool {
    &&& t.bytes_total is Some ==> t.bytes_downloaded <= t.bytes_total->0
    &&& t.state == TaskState::Complete && t.bytes_total is Some ==> t.bytes_downloaded
        == t.bytes_total->0
    &&& t.state == TaskState::Pending ==> t.bytes_downloaded == 0 && t.bytes_total is None
}

/// A batch of download tasks together with the concurrency cap: the count
/// of in-flight transfers, capped at `MAX_ACTIVE_DOWNLOADS`.
pub struct DownloadBatch {
    tasks: Vec<DownloadTask>,
    in_flight: usize,
}

impl View for DownloadBatch {
    type V = Seq<DownloadTask>;

    closed spec fn view(&self) -> Seq<DownloadTask> {
        self.tasks@
    }
}

impl DownloadBatch {
    /// The cap's own count of in-flight transfers.
    pub closed spec fn spec_in_flight(&self) -> int {
        self.in_flight as int
    }

    /// Batch invariant: the in-flight count equals the number of tasks in
    /// `InProgress`, never exceeds the cap, and every task is well formed.
    pub open spec fn wf(&self) -> bool {
        &&& self.spec_in_flight() == count_state(self@, TaskState::InProgress)
        &&& self.spec_in_flight() <= MAX_ACTIVE_DOWNLOADS
        &&& forall|i: int| 0 <= i < self@.len() ==> task_wf(#[trigger] self@[i])
    }

    /// One fresh `Pending` task per mod of the profile, in order.
    pub fn new(mods: &Vec<ModRef>) -> (b: DownloadBatch)
        ensures
            b.wf(),
            b@.len() == mods@.len(),
            forall|i: int| 0 <= i < mods@.len() ==> b@[i] == initial_task(#[trigger] mods@[i]),
            b.spec_in_flight() == 0,
    {
        let mut tasks: Vec<DownloadTask> = Vec::new();
        let mut i: usize = 0;
        while i < mods.len()
            invariant
                i <= mods@.len(),
                tasks@.len() == i,
                forall|j: int| 0 <= j < i ==> tasks@[j] == initial_task(#[trigger] mods@[j]),
                count_state(tasks@, TaskState::InProgress) == 0,
            decreases mods@.len() - i,
        {
            let m = &mods[i];
            let t = DownloadTask {
                name: m.name.clone(),
                source_url: m.source_url.clone(),
                version: m.version.clone(),
                provider: m.provider,
                bytes_downloaded: 0,
                bytes_total: None,
                state: TaskState::Pending,
            };
            proof {
                lemma_count_push(tasks@, t, TaskState::InProgress);
            }
            tasks.push(t);
            i = i + 1;
        }
        assert forall|j: int| 0 <= j < tasks@.len() implies task_wf(#[trigger] tasks@[j]) by {
            assert(tasks@[j] == initial_task(mods@[j]));
        }
        DownloadBatch { tasks, in_flight: 0 }
    }

    pub fn len(&self) -> (n: usize)
        ensures
            n == self@.len(),
    {
        self.tasks.len()
    }

    /// Read access to one task.
    pub fn task(&self, i: usize) -> (t: &DownloadTask)
        requires
            i < self@.len(),
        ensures
            *t == self@[i as int],
    {
        &self.tasks[i]
    }

    /// Whether a transfer slot is free: only then may a transfer begin.
    pub fn can_start(&self) -> (r: bool)
        ensures
            r == (self.spec_in_flight() < MAX_ACTIVE_DOWNLOADS),
    {
        self.in_flight < MAX_ACTIVE_DOWNLOADS
    }

    /// Acquire a transfer slot and move task `i` from `Pending` to `InProgress`.
    pub fn start(&mut self, i: usize)
        requires
            old(self).wf(),
            i < old(self)@.len(),
            old(self)@[i as int].state == TaskState::Pending,
            old(self).spec_in_flight() < MAX_ACTIVE_DOWNLOADS,
        ensures
            final(self).wf(),
            final(self)@ == old(self)@.update(
                i as int,
                DownloadTask { state: TaskState::InProgress, ..old(self)@[i as int] },
            ),
            final(self).spec_in_flight() == old(self).spec_in_flight() + 1,
    {
        proof {
            lemma_count_update(
                self@,
                i as int,
                DownloadTask { state: TaskState::InProgress, ..self@[i as int] },
                TaskState::InProgress,
            );
        }
        self.tasks[i].state = TaskState::InProgress;
        self.in_flight = self.in_flight + 1;
    }

    /// Record the declared content length of task `i`'s response.
    pub fn set_total(&mut self, i: usize, total: u64)
        requires
            old(self).wf(),
            i < old(self)@.len(),
            old(self)@[i as int].state == TaskState::InProgress,
            old(self)@[i as int].bytes_downloaded <= total,
        ensures
            final(self).wf(),
            final(self)@ == old(self)@.update(
                i as int,
                DownloadTask { bytes_total: Some(total), ..old(self)@[i as int] },
            ),
            final(self).spec_in_flight() == old(self).spec_in_flight(),
    {
        proof {
            lemma_count_update(
                self@,
                i as int,
                DownloadTask { bytes_total: Some(total), ..self@[i as int] },
                TaskState::InProgress,
            );
        }
        self.tasks[i].bytes_total = Some(total);
    }

    /// Record the arrival of `n` more bytes for task `i`. Progress is
    /// monotone: the new count is never below the old one.
    pub fn record_chunk(&mut self, i: usize, n: u64)
        requires
            old(self).wf(),
            i < old(self)@.len(),
            old(self)@[i as int].state == TaskState::InProgress,
            old(self)@[i as int].bytes_downloaded + n <= u64::MAX,
            old(self)@[i as int].bytes_total is Some ==> old(self)@[i as int].bytes_downloaded + n
                <= old(self)@[i as int].bytes_total->0,
        ensures
            final(self).wf(),
            final(self)@ == old(self)@.update(
                i as int,
                DownloadTask {
                    bytes_downloaded: (old(self)@[i as int].bytes_downloaded + n) as u64,
                    ..old(self)@[i as int]
                },
            ),
            final(self)@[i as int].bytes_downloaded >= old(self)@[i as int].bytes_downloaded,
            final(self).spec_in_flight() == old(self).spec_in_flight(),
    {
        proof {
            lemma_count_update(
                self@,
                i as int,
                DownloadTask {
                    bytes_downloaded: (self@[i as int].bytes_downloaded + n) as u64,
                    ..self@[i as int]
                },
                TaskState::InProgress,
            );
        }
        let current = self.tasks[i].bytes_downloaded;
        self.tasks[i].bytes_downloaded = current + n;
    }

    /// Record the arrival of `n` more bytes when they fit; report whether
    /// they did. Bytes beyond a known total, or beyond what the counter can
    /// hold, leave the task unchanged and are the caller's failure signal.
    /// Either way the byte count never decreases.
    pub fn record_chunk_checked(&mut self, i: usize, n: u64) -> (ok: bool)
        requires
            old(self).wf(),
            i < old(self)@.len(),
            old(self)@[i as int].state == TaskState::InProgress,
        ensures
            final(self).wf(),
            ok == ({
                &&& old(self)@[i as int].bytes_downloaded + n <= u64::MAX
                &&& (old(self)@[i as int].bytes_total is Some ==> old(self)@[
                    i as int
                ].bytes_downloaded + n <= old(self)@[i as int].bytes_total->0)
            }),
            ok ==> final(self)@ == old(self)@.update(
                i as int,
                DownloadTask {
                    bytes_downloaded: (old(self)@[i as int].bytes_downloaded + n) as u64,
                    ..old(self)@[i as int]
                },
            ),
            !ok ==> *final(self) == *old(self),
            final(self)@[i as int].bytes_downloaded >= old(self)@[i as int].bytes_downloaded,
            final(self).spec_in_flight() == old(self).spec_in_flight(),
    {
        let current = self.tasks[i].bytes_downloaded;
        let fits_counter = n <= u64::MAX - current;
        let fits = match self.tasks[i].bytes_total {
            Some(total) => fits_counter && current + n <= total,
            None => fits_counter,
        };
        if fits {
            self.record_chunk(i, n);
            true
        } else {
            false
        }
    }

    /// Release the transfer slot and mark task `i` complete. When the total is
    /// known, completion requires that exactly that many bytes arrived.
    pub fn complete(&mut self, i: usize)
        requires
            old(self).wf(),
            i < old(self)@.len(),
            old(self)@[i as int].state == TaskState::InProgress,
            old(self)@[i as int].bytes_total is Some ==> old(self)@[i as int].bytes_downloaded
                == old(self)@[i as int].bytes_total->0,
        ensures
            final(self).wf(),
            final(self)@ == old(self)@.update(
                i as int,
                DownloadTask { state: TaskState::Complete, ..old(self)@[i as int] },
            ),
            final(self).spec_in_flight() == old(self).spec_in_flight() - 1,
    {
        proof {
            lemma_count_update(
                self@,
                i as int,
                DownloadTask { state: TaskState::Complete, ..self@[i as int] },
                TaskState::InProgress,
            );
            lemma_count_at_least_one(self@, i as int, TaskState::InProgress);
        }
        self.tasks[i].state = TaskState::Complete;
        self.in_flight = self.in_flight - 1;
    }

    /// Release the transfer slot and mark task `i` failed. A failed task does
    /// not abort the batch; it blocks completion instead.
    pub fn fail(&mut self, i: usize)
        requires
            old(self).wf(),
            i < old(self)@.len(),
            old(self)@[i as int].state == TaskState::InProgress,
        ensures
            final(self).wf(),
            final(self)@ == old(self)@.update(
                i as int,
                DownloadTask { state: TaskState::Failed, ..old(self)@[i as int] },
            ),
            final(self).spec_in_flight() == old(self).spec_in_flight() - 1,
    {
        proof {
            lemma_count_update(
                self@,
                i as int,
                DownloadTask { state: TaskState::Failed, ..self@[i as int] },
                TaskState::InProgress,
            );
            lemma_count_at_least_one(self@, i as int, TaskState::InProgress);
        }
        self.tasks[i].state = TaskState::Failed;
        self.in_flight = self.in_flight - 1;
    }

    /// How many tasks have completed.
    pub fn complete_count(&self) -> (n: usize)
        ensures
            n == count_state(self@, TaskState::Complete),
    {
        proof {
            lemma_count_bounds(self@, TaskState::Complete);
        }
        let mut n: usize = 0;
        let mut i: usize = 0;
        while i < self.tasks.len()
            invariant
                i <= self@.len(),
                n == count_state(self@.subrange(0, i as int), TaskState::Complete),
                n <= i,
            decreases self@.len() - i,
        {
            proof {
                assert(self@.subrange(0, i + 1).drop_last() =~= self@.subrange(0, i as int));
                assert(self@.subrange(0, i + 1).last() == self@[i as int]);
            }
            if matches!(self.tasks[i].state, TaskState::Complete) {
                n = n + 1;
            }
            i = i + 1;
        }
        proof {
            assert(self@.subrange(0, self@.len() as int) =~= self@);
        }
        n
    }

    /// How many tasks have not yet completed.
    pub fn remaining(&self) -> (n: usize)
        ensures
            n == self@.len() - count_state(self@, TaskState::Complete),
    {
        proof {
            lemma_count_bounds(self@, TaskState::Complete);
        }
        self.tasks.len() - self.complete_count()
    }

    /// The batch is done exactly when every task is `Complete`.
    pub fn all_complete(&self) -> (r: bool)
        ensures
            r == (forall|i: int|
                0 <= i < self@.len() ==> self@[i].state == TaskState::Complete),
    {
        proof {
            lemma_count_full(self@, TaskState::Complete);
        }
        self.complete_count() == self.tasks.len()
    }

    /// Whether any task has failed; the pipeline refuses to advance past the
    /// download stage while this holds.
    pub fn has_failure(&self) -> (r: bool)
        ensures
            r == (exists|i: int| 0 <= i < self@.len() && self@[i].state == TaskState::Failed),
    {
        let mut i: usize = 0;
        while i < self.tasks.len()
            invariant
                i <= self@.len(),
                forall|j: int| 0 <= j < i ==> self@[j].state != TaskState::Failed,
            decreases self@.len() - i,
        {
            if matches!(self.tasks[i].state, TaskState::Failed) {
                return true;
            }
            i = i + 1;
        }
        false
    }

    /// The tasks in display order: everything still pending, running or
    /// failed first, completed tasks after, each group in original order.
    #[verifier::loop_isolation(false)]
    pub fn display_order(&self) -> (r: Vec<DownloadTask>)
        ensures
            r@ == self@.filter(|t: DownloadTask| t.state != TaskState::Complete) + self@.filter(
                |t: DownloadTask| t.state == TaskState::Complete,
            ),
    {
        let ghost not_done = |t: DownloadTask| t.state != TaskState::Complete;
        let ghost done = |t: DownloadTask| t.state == TaskState::Complete;
        let mut active: Vec<DownloadTask> = Vec::new();
        let mut finished: Vec<DownloadTask> = Vec::new();
        let mut i: usize = 0;
        while i < self.tasks.len()
            invariant
                i <= self@.len(),
                active@ == self@.subrange(0, i as int).filter(not_done),
                finished@ == self@.subrange(0, i as int).filter(done),
            decreases self@.len() - i,
        {
            proof {
                assert(self@.subrange(0, i + 1).drop_last() =~= self@.subrange(0, i as int));
                assert(self@.subrange(0, i + 1).last() == self@[i as int]);
            }
            let ghost prefix = self@.subrange(0, i as int);
            proof {
                assert(self@.subrange(0, i + 1) =~= prefix.push(self@[i as int]));
                prefix.lemma_filter_push(self@[i as int], not_done);
                prefix.lemma_filter_push(self@[i as int], done);
            }
            let t = self.tasks[i].clone();
            if matches!(t.state, TaskState::Complete) {
                finished.push(t);
            } else {
                active.push(t);
            }
            i = i + 1;
        }
        proof {
            assert(self@.subrange(0, self@.len() as int) =~= self@);
        }
        let mut r = active;
        r.append(&mut finished);
        r
    }
}

/// Under the batch invariant, no more than `MAX_ACTIVE_DOWNLOADS` tasks are
/// ever simultaneously in flight.
pub proof fn lemma_in_flight_bounded(b: DownloadBatch)
    requires
        b.wf(),
    ensures
        count_state(b@, TaskState::InProgress) <= MAX_ACTIVE_DOWNLOADS,
{
}

/// Under the batch invariant, a completed task with a known total has
/// downloaded exactly that many bytes.
pub proof fn lemma_complete_means_all_bytes(b: DownloadBatch, i: int)
    requires
        b.wf(),
        0 <= i < b@.len(),
        b@[i].state == TaskState::Complete,
        b@[i].bytes_total is Some,
    ensures
        b@[i].bytes_downloaded == b@[i].bytes_total->0,
{
}

/// Two distinct items whose URLs end in the same final path segment would
/// be written to the same destination file.
pub open spec fn spec_filename_collision(mods: Seq<ModRef>) -> bool {
    exists|i: int, j: int|
        0 <= i < j < mods.len() && spec_last_segment(mods[i].source_url@) == spec_last_segment(
            mods[j].source_url@,
        )
}

/// Whether two items of the batch would download to the same filename.
/// A collision is reported to the caller rather than silently overwritten.
pub fn filename_collision(mods: &Vec<ModRef>) -> (r: bool)
    ensures
        r == spec_filename_collision(mods@),
{
    let mut segments: Vec<String> = Vec::new();
    let mut i: usize = 0;
    while i < mods.len()
        invariant
            i <= mods@.len(),
            segments@.len() == i,
            forall|k: int|
                0 <= k < i ==> segments@[k]@ == spec_last_segment(
                    #[trigger] mods@[k].source_url@,
                ),
        decreases mods@.len() - i,
    {
        segments.push(last_url_segment(mods[i].source_url.as_str()));
        i = i + 1;
    }
    let mut a: usize = 0;
    while a < segments.len()
        invariant
            a <= segments@.len(),
            segments@.len() == mods@.len(),
            forall|k: int|
                0 <= k < segments@.len() ==> segments@[k]@ == spec_last_segment(
                    #[trigger] mods@[k].source_url@,
                ),
            forall|i: int, j: int|
                0 <= i < j < segments@.len() && i < a ==> segments@[i]@ != segments@[j]@,
        decreases segments@.len() - a,
    {
        let mut b: usize = a + 1;
        while b < segments.len()
            invariant
                a < segments@.len(),
                a + 1 <= b <= segments@.len(),
                segments@.len() == mods@.len(),
                forall|k: int|
                    0 <= k < segments@.len() ==> segments@[k]@ == spec_last_segment(
                        #[trigger] mods@[k].source_url@,
                    ),
                forall|j: int| a < j < b ==> segments@[a as int]@ != segments@[j]@,
            decreases segments@.len() - b,
        {
            if str_eq(segments[a].as_str(), segments[b].as_str()) {
                assert(spec_last_segment(mods@[a as int].source_url@) == spec_last_segment(
                    mods@[b as int].source_url@,
                ));
                return true;
            }
            b = b + 1;
        }
        a = a + 1;
    }
    false
}

/// Integer percentage of a transfer, rounded down; `None` when the total is
/// unknown or zero, so reporting can degrade gracefully.
pub fn percent_done(bytes: u64, total: Option<u64>) -> (r: Option<u64>)
    requires
        total is Some ==> bytes <= total->0,
    ensures
        match total {
            Some(t) => if t > 0 {
                r == Some(((bytes as int) * 100 / (t as int)) as u64)
            } else {
                r is None
            },
            None => r is None,
        },
{
    match total {
        Some(t) => {
            if t > 0 {
                let p = (bytes as u128) * 100 / (t as u128);
                proof {
                    assert((bytes as int) * 100 / (t as int) <= 100) by (nonlinear_arith)
                        requires 1 <= t, bytes <= t;
                }
                Some(p as u64)
            } else {
                None
            }
        },
        None => None,
    }
}

} // verus!
