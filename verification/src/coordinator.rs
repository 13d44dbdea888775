//! The interaction coordinator: the decision core of the three-phase
//! start / poll / consume protocol.
//!
//! Every operation here is a pure decision over the task store and plain
//! values handed in by the caller (the contents of the durable record, the
//! outcome of a liveness probe, the bytes of the response file).  The caller
//! performs the file reads, process spawns and sleeps that the decisions ask
//! for, and feeds the results back in; the decisions themselves are verified.

use vstd::prelude::*;

use crate::task::{PendingTask, PersistedPendingTask, RecordModel, TaskModel, TaskStatus, TaskStore};
use crate::text::all_blank;

verus! {

/// The files of a task that left the store, for the caller to delete, and
/// the identifier whose durable record must be cleared if it matches.
pub struct CleanupOrder {
    pub task_id: String,
    pub request_file: String,
    pub response_file: String,
}

/// Mathematical model of a cleanup order.
pub ghost struct CleanupModel {
    pub task_id: Seq<char>,
    pub request_file: Seq<char>,
    pub response_file: Seq<char>,
}

impl View for CleanupOrder {
    type V = CleanupModel;

    open spec fn view(&self) -> CleanupModel {
        CleanupModel {
            task_id: self.task_id@,
            request_file: self.request_file@,
            response_file: self.response_file@,
        }
    }
}

/// What reconciliation decided about a durable record found on disk.
pub enum AdmitAction {
    /// The store was not empty, or there was no record: nothing changed.
    Kept,
    /// The record had no process id, so it is unrecoverable: the caller must
    /// delete the listed files and the record itself.
    Discarded(CleanupOrder),
    /// The record was re-admitted into the store as a pending task.
    Adopted,
}

/// What one wait-loop tick decided.
pub enum TickAction {
    /// The response file has visible content: parse and consume it.
    Complete,
    /// No response, and the UI process is gone: the task is abandoned.
    Abandoned,
    /// No response yet, UI still alive: keep waiting.
    KeepWaiting,
}

/// The set of identifiers of pending tasks in a store model.
pub open spec fn pending_ids(m: Map<Seq<char>, TaskModel>) -> Set<Seq<char>> {
    m.dom().filter(|k: Seq<char>| m[k].status is Pending)
}

/// True when some task in the model is pending.
pub open spec fn has_pending(m: Map<Seq<char>, TaskModel>) -> bool {
    exists|k: Seq<char>| m.contains_key(k) && m[k].status is Pending
}

/// The task model a durable record stands for when it is re-admitted.
pub open spec fn task_of_record(r: RecordModel) -> TaskModel {
    TaskModel {
        request_file: r.request_file,
        response_file: r.response_file,
        status: TaskStatus::Pending,
        ui_pid: r.ui_pid,
    }
}

/// The interaction coordinator: the task store together with the verified
/// decision steps of the start / poll protocol.  One instance is shared,
/// behind the caller's lock, by all concurrent tool invocations of a process.
pub struct InteractionTool {
    store: TaskStore,
}

impl View for InteractionTool {
    type V = Map<Seq<char>, TaskModel>;

    closed spec fn view(&self) -> Map<Seq<char>, TaskModel> {
        self.store@
    }
}

impl InteractionTool {
    /// Well-formedness of the underlying store.
    pub closed spec fn wf(&self) -> bool {
        self.store.wf()
    }

    pub fn new() -> (r: InteractionTool)
        ensures
            r@ == Map::<Seq<char>, TaskModel>::empty(),
            r.wf(),
    {
        InteractionTool { store: TaskStore::new() }
    }

    /// First reconciliation step of *start* and *poll*: when the in-memory
    /// store is empty, a durable record left by a previous process is either
    /// discarded (no process id: unrecoverable) or re-admitted as a pending
    /// task under its old identifier.
    pub fn admit_record(&mut self, record: Option<PersistedPendingTask>) -> (r: AdmitAction)
        requires
            old(self).wf(),
        ensures
            final(self).wf(),
            match r {
                AdmitAction::Kept => final(self)@ == old(self)@ && (old(self)@ != Map::<
                    Seq<char>,
                    TaskModel,
                >::empty() || record is None),
                AdmitAction::Discarded(order) => {
                    &&& final(self)@ == old(self)@
                    &&& old(self)@ == Map::<Seq<char>, TaskModel>::empty()
                    &&& record matches Some(rec) && rec.ui_pid is None && order@.task_id
                        == rec@.task_id && order@.request_file == rec@.request_file
                        && order@.response_file == rec@.response_file
                },
                AdmitAction::Adopted => {
                    &&& old(self)@ == Map::<Seq<char>, TaskModel>::empty()
                    &&& record matches Some(rec) && rec.ui_pid is Some && final(self)@ == old(
                        self,
                    )@.insert(rec@.task_id, task_of_record(rec@))
                },
            },
    {
        if !self.store.is_empty() {
            return AdmitAction::Kept;
        }
        match record {
            None => AdmitAction::Kept,
            Some(rec) => {
                if rec.ui_pid.is_none() {
                    AdmitAction::Discarded(
                        CleanupOrder {
                            task_id: rec.task_id,
                            request_file: rec.request_file,
                            response_file: rec.response_file,
                        },
                    )
                } else {
                    let task = PendingTask {
                        request_file: rec.request_file,
                        response_file: rec.response_file,
                        status: TaskStatus::Pending,
                        ui_pid: rec.ui_pid,
                    };
                    self.store.insert(rec.task_id, task);
                    AdmitAction::Adopted
                }
            },
        }
    }

    /// The identifiers and process ids that the caller must probe for
    /// liveness: every pending task with a known process id.
    pub fn pending_probes(&self) -> (r: Vec<(String, u32)>)
        requires
            self.wf(),
        ensures
            forall|i: int|
                0 <= i < r@.len() ==> {
                    &&& self@.contains_key((#[trigger] r@[i]).0@)
                    &&& self@[r@[i].0@].status is Pending
                    &&& self@[r@[i].0@].ui_pid == Some(r@[i].1)
                },
            forall|k: Seq<char>|
                self@.contains_key(k) && (#[trigger] self@[k]).status is Pending
                    && self@[k].ui_pid is Some ==> exists|i: int|
                    0 <= i < r@.len() && (#[trigger] r@[i]).0@ == k,
    {
        self.store.pending_probes()
    }

    /// Discards a pending task whose UI process the caller found dead.  The
    /// returned order lists the files to delete.  Nothing changes when the
    /// task is gone already, is not pending, has no process id, or is alive.
    pub fn remove_if_dead(&mut self, task_id: &str, alive: bool) -> (r: Option<CleanupOrder>)
        requires
            old(self).wf(),
        ensures
            final(self).wf(),
            match r {
                Some(order) => {
                    &&& !alive
                    &&& old(self)@.contains_key(task_id@)
                    &&& old(self)@[task_id@].status is Pending
                    &&& old(self)@[task_id@].ui_pid is Some
                    &&& final(self)@ == old(self)@.remove(task_id@)
                    &&& order@.task_id == task_id@
                    &&& order@.request_file == old(self)@[task_id@].request_file
                    &&& order@.response_file == old(self)@[task_id@].response_file
                },
                None => {
                    &&& final(self)@ == old(self)@
                    &&& (alive || !old(self)@.contains_key(task_id@) || !(
                    old(self)@[task_id@].status is Pending) || old(
                        self,
                    )@[task_id@].ui_pid is None)
                },
            },
    {
        if alive {
            return None;
        }
        match self.store.get(task_id) {
            None => None,
            Some(task) => {
                let is_pending = matches!(task.status, TaskStatus::Pending);
                if is_pending && task.ui_pid.is_some() {
                    let removed = self.store.remove(task_id);
                    match removed {
                        Some(t) => Some(
                            CleanupOrder {
                                task_id: task_id.to_owned(),
                                request_file: t.request_file,
                                response_file: t.response_file,
                            },
                        ),
                        None => None,  // unreachable: the entry was just found
                    }
                } else {
                    None
                }
            },
        }
    }

    /// Whether a task with this identifier is held in the store.
    pub fn contains(&self, task_id: &str) -> (r: bool)
        requires
            self.wf(),
        ensures
            r == self@.contains_key(task_id@),
    {
        self.store.get(task_id).is_some()
    }

    /// The identifier of a task that is still pending, if any: a *start*
    /// call that finds one returns it unchanged instead of spawning a second
    /// UI.
    pub fn existing_pending(&self) -> (r: Option<String>)
        requires
            self.wf(),
        ensures
            match r {
                Some(id) => self@.contains_key(id@) && self@[id@].status is Pending,
                None => !has_pending(self@),
            },
    {
        self.store.first_pending()
    }

    /// Registers a freshly started task and hands back the durable record
    /// that must be written before *start* returns.  The caller must have
    /// found no pending task (single-flight) and a fresh identifier.
    pub fn register_task(
        &mut self,
        task_id: String,
        request_file: String,
        response_file: String,
        ui_pid: u32,
    ) -> (r: PersistedPendingTask)
        requires
            old(self).wf(),
            !old(self)@.contains_key(task_id@),
            !has_pending(old(self)@),
        ensures
            final(self).wf(),
            final(self)@ == old(self)@.insert(
                task_id@,
                TaskModel {
                    request_file: request_file@,
                    response_file: response_file@,
                    status: TaskStatus::Pending,
                    ui_pid: Some(ui_pid),
                },
            ),
            r@ == (RecordModel {
                task_id: task_id@,
                request_file: request_file@,
                response_file: response_file@,
                ui_pid: Some(ui_pid),
            }),
            pending_ids(final(self)@) =~= set![task_id@],
    {
        let record = PersistedPendingTask {
            task_id: task_id.clone(),
            request_file: request_file.clone(),
            response_file: response_file.clone(),
            ui_pid: Some(ui_pid),
        };
        let task = PendingTask {
            request_file,
            response_file,
            status: TaskStatus::Pending,
            ui_pid: Some(ui_pid),
        };
        self.store.insert(task_id, task);
        proof {
            lemma_register_single_flight(old(self)@, final(self)@, task_id@);
        }
        record
    }

    /// Looks the polled task up, adopting it from the durable record when
    /// this process has no in-memory entry for it.  `None` means the task is
    /// unknown: the caller must report "task not found".
    pub fn poll_lookup(&mut self, task_id: &str, record: Option<PersistedPendingTask>) -> (r:
        Option<PendingTask>)
        requires
            old(self).wf(),
        ensures
            final(self).wf(),
            match r {
                Some(task) => {
                    if old(self)@.contains_key(task_id@) {
                        final(self)@ == old(self)@ && task@ == old(self)@[task_id@]
                    } else {
                        record matches Some(rec) && rec@.task_id == task_id@ && final(self)@
                            == old(self)@.insert(task_id@, task_of_record(rec@)) && task@
                            == task_of_record(rec@)
                    }
                },
                None => {
                    &&& final(self)@ == old(self)@
                    &&& !old(self)@.contains_key(task_id@)
                    &&& !(record matches Some(rec) && rec@.task_id == task_id@)
                },
            },
    {
        match self.store.get(task_id) {
            Some(task) => Some(task),
            None => {
                match record {
                    Some(rec) => {
                        if crate::text::str_eq(rec.task_id.as_str(), task_id) {
                            let task = PendingTask {
                                request_file: rec.request_file,
                                response_file: rec.response_file,
                                status: TaskStatus::Pending,
                                ui_pid: rec.ui_pid,
                            };
                            let copy = task.duplicate();
                            self.store.insert(rec.task_id, task);
                            Some(copy)
                        } else {
                            None
                        }
                    },
                    None => None,
                }
            },
        }
    }

    /// Takes a task out of the store on either terminal outcome (Ready or
    /// Abandoned).  The order lists exactly the task's request and response
    /// files, so no terminal state leaves residue.
    pub fn finish(&mut self, task_id: &str) -> (r: Option<CleanupOrder>)
        requires
            old(self).wf(),
        ensures
            final(self).wf(),
            final(self)@ == old(self)@.remove(task_id@),
            !final(self)@.contains_key(task_id@),
            match r {
                Some(order) => {
                    &&& old(self)@.contains_key(task_id@)
                    &&& order@.task_id == task_id@
                    &&& order@.request_file == old(self)@[task_id@].request_file
                    &&& order@.response_file == old(self)@[task_id@].response_file
                },
                None => !old(self)@.contains_key(task_id@),
            },
    {
        match self.store.remove(task_id) {
            Some(task) => Some(
                CleanupOrder {
                    task_id: task_id.to_owned(),
                    request_file: task.request_file,
                    response_file: task.response_file,
                },
            ),
            None => None,
        }
    }
}

/// Decision of one wait-loop tick: a response file with visible content
/// completes the task; otherwise a dead (or never known) UI process means
/// the task was abandoned; otherwise keep waiting.
pub fn poll_tick(response: &Option<String>, ui_alive: bool) -> (r: TickAction)
    ensures
        (r is Complete) <==> (response matches Some(s) && !all_blank(s@)),
        (r is Abandoned) <==> (!(response matches Some(s) && !all_blank(s@))
            && !ui_alive),
        (r is KeepWaiting) <==> (!(response matches Some(s) && !all_blank(s@))
            && ui_alive),
{
    match response {
        Some(s) => {
            if !crate::text::is_blank(s.as_str()) {
                return TickAction::Complete;
            }
            if ui_alive {
                TickAction::KeepWaiting
            } else {
                TickAction::Abandoned
            }
        },
        None => {
            if ui_alive {
                TickAction::KeepWaiting
            } else {
                TickAction::Abandoned
            }
        },
    }
}

/// The effective wait budget of one *poll* call: an explicit override wins,
/// else the configured interaction wait; zero or nothing means "wait
/// forever in this call".
pub fn effective_wait_ms(override_ms: Option<u64>, config_ms: Option<u64>) -> (r: Option<u64>)
    ensures
        ({
            let raw = if override_ms is Some {
                override_ms->0
            } else if config_ms is Some {
                config_ms->0
            } else {
                0u64
            };
            r == if raw == 0 {
                Option::<u64>::None
            } else {
                Some(raw)
            }
        }),
{
    let raw = match override_ms {
        Some(v) => v,
        None => match config_ms {
            Some(v) => v,
            None => 0,
        },
    };
    if raw == 0 {
        None
    } else {
        Some(raw)
    }
}

/// Whether the bounded wait is over: only a finite budget ever expires.
pub fn budget_exhausted(elapsed_ms: u64, budget: Option<u64>) -> (r: bool)
    ensures
        r == (budget matches Some(b) && elapsed_ms >= b),
{
    match budget {
        Some(b) => elapsed_ms >= b,
        None => false,
    }
}

/// Whether a durable record belongs to the given task, deciding if the
/// record file must be deleted during cleanup.
pub fn record_matches(record: &Option<PersistedPendingTask>, task_id: &str) -> (r: bool)
    ensures
        r == (record matches Some(rec) && rec@.task_id == task_id@),
{
    match record {
        Some(rec) => crate::text::str_eq(rec.task_id.as_str(), task_id),
        None => false,
    }
}

/// Relies on `uuid::Uuid::new_v4` and its hyphenated `Display` form: a fresh
/// random version-4 identifier always renders as 36 characters.  Nothing
/// else can be promised of a random value.
#[verifier::external_body]
pub fn new_task_id() -> (r: String)
    ensures
        r@.len() == 36,
{
    uuid::Uuid::new_v4().to_string()
}

/// Single-flight: registering a task when none is pending makes its
/// identifier the one and only pending identifier.  Hence every concurrent
/// *start* call serialized after the winner finds this identifier through
/// `existing_pending` and returns it instead of spawning a second UI.
pub proof fn lemma_register_single_flight(
    m0: Map<Seq<char>, TaskModel>,
    m1: Map<Seq<char>, TaskModel>,
    id: Seq<char>,
)
    requires
        !has_pending(m0),
        m1 == m0.insert(
            id,
            TaskModel {
                request_file: m1[id].request_file,
                response_file: m1[id].response_file,
                status: TaskStatus::Pending,
                ui_pid: m1[id].ui_pid,
            },
        ),
    ensures
        pending_ids(m1) =~= set![id],
        has_pending(m1),
{
    assert forall|k: Seq<char>| pending_ids(m1).contains(k) implies k == id by {
        if k != id {
            assert(m0.contains_key(k) && m0[k].status is Pending);
        }
    }
    assert(m1.contains_key(id));
    assert(m1[id].status is Pending);
    assert(pending_ids(m1).contains(id));
}

/// When exactly one identifier is pending, every pending task carries it:
/// whichever serialized *start* call looks, `existing_pending` can only hand
/// back the winner's identifier, so all concurrent calls return the same
/// one.
pub proof fn lemma_pending_id_unique(m: Map<Seq<char>, TaskModel>, id: Seq<char>, k: Seq<char>)
    requires
        pending_ids(m) =~= set![id],
        m.contains_key(k),
        m[k].status is Pending,
    ensures
        k == id,
{
    assert(pending_ids(m).contains(k));
}

/// Recovery across restart: a durable record re-admitted into an empty
/// store leaves exactly its old identifier pending, so the first *start*
/// call of a fresh process returns that identifier rather than spawning a
/// second UI.
pub proof fn lemma_recovery(rec: RecordModel)
    requires
        rec.ui_pid is Some,
    ensures
        pending_ids(
            Map::<Seq<char>, TaskModel>::empty().insert(rec.task_id, task_of_record(rec)),
        ) =~= set![rec.task_id],
{
    let m1 = Map::<Seq<char>, TaskModel>::empty().insert(rec.task_id, task_of_record(rec));
    lemma_register_single_flight(Map::empty(), m1, rec.task_id);
}

/// Idempotent poll after completion: once a task has been consumed (taken
/// out of the store by `finish`, its durable record cleared), a second poll
/// of the same identifier finds nothing, in memory or on disk, and so
/// reports "task not found" rather than a duplicate answer.
pub proof fn lemma_poll_after_finish(m: Map<Seq<char>, TaskModel>, id: Seq<char>)
    ensures
        !m.remove(id).contains_key(id),
{
}

} // verus!
