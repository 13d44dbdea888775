//! The task store: an in-memory map from task identifier to task state,
//! mirrored to a single-slot durable record so that a freshly started
//! process can rediscover a task left pending by a previous one.

use vstd::prelude::*;

verus! {

/// Lifecycle position of a task held in the store.  Only `Pending` tasks are
/// ever stored; the terminal outcomes are inferred from the response file and
/// never written back.
#[derive(Clone, Copy)]
pub enum TaskStatus {
    Pending,
    Ready,
    Cancelled,
}

/// One pending human interaction: the files the UI reads and writes, and the
/// process id of the spawned UI when it is known.
pub struct PendingTask {
    pub request_file: String,
    pub response_file: String,
    pub status: TaskStatus,
    pub ui_pid: Option<u32>,
}

/// Mathematical model of a task: the same fields over sequences.
pub ghost struct TaskModel {
    pub request_file: Seq<char>,
    pub response_file: Seq<char>,
    pub status: TaskStatus,
    pub ui_pid: Option<u32>,
}

impl View for PendingTask {
    type V = TaskModel;

    open spec fn view(&self) -> TaskModel {
        TaskModel {
            request_file: self.request_file@,
            response_file: self.response_file@,
            status: self.status,
            ui_pid: self.ui_pid,
        }
    }
}

impl PendingTask {
    /// A field-for-field copy.
    pub fn duplicate(&self) -> (r: PendingTask)
        ensures
            r@ == self@,
    {
        PendingTask {
            request_file: self.request_file.clone(),
            response_file: self.response_file.clone(),
            status: self.status,
            ui_pid: self.ui_pid,
        }
    }
}

/// The single-slot durable record: the most recent pending task's identity,
/// written whenever a task is registered and deleted when it is resolved,
/// found stale, or cleared.
pub struct PersistedPendingTask {
    pub task_id: String,
    pub request_file: String,
    pub response_file: String,
    pub ui_pid: Option<u32>,
}

/// Mathematical model of a durable record.
pub ghost struct RecordModel {
    pub task_id: Seq<char>,
    pub request_file: Seq<char>,
    pub response_file: Seq<char>,
    pub ui_pid: Option<u32>,
}

impl View for PersistedPendingTask {
    type V = RecordModel;

    open spec fn view(&self) -> RecordModel {
        RecordModel {
            task_id: self.task_id@,
            request_file: self.request_file@,
            response_file: self.response_file@,
            ui_pid: self.ui_pid,
        }
    }
}

/// In-memory map from task identifier to task state.  Keys are unique; the
/// view is a map from the identifier's character sequence to the task model.
pub struct TaskStore {
    entries: Vec<(String, PendingTask)>,
}

spec fn map_of(entries: Seq<(String, PendingTask)>) -> Map<Seq<char>, TaskModel>
    decreases entries.len(),
{
    if entries.len() == 0 {
        Map::empty()
    } else {
        map_of(entries.drop_last()).insert(entries.last().0@, entries.last().1@)
    }
}

impl View for TaskStore {
    type V = Map<Seq<char>, TaskModel>;

    closed spec fn view(&self) -> Map<Seq<char>, TaskModel> {
        map_of(self.entries@)
    }
}

proof fn lemma_map_of_contains(entries: Seq<(String, PendingTask)>, k: Seq<char>)
    ensures
        map_of(entries).contains_key(k) <==> exists|i: int|
            0 <= i < entries.len() && entries[i].0@ == k,
    decreases entries.len(),
{
    if entries.len() > 0 {
        lemma_map_of_contains(entries.drop_last(), k);
        if entries.last().0@ != k && map_of(entries).contains_key(k) {
            let i = choose|i: int| 0 <= i < entries.drop_last().len() && entries.drop_last()[i].0@ == k;
            assert(entries[i].0@ == k);
        }
        if exists|i: int| 0 <= i < entries.len() && entries[i].0@ == k {
            let i = choose|i: int| 0 <= i < entries.len() && entries[i].0@ == k;
            if i < entries.len() - 1 {
                assert(entries.drop_last()[i].0@ == k);
            }
        }
    }
}

proof fn lemma_map_of_index(entries: Seq<(String, PendingTask)>, i: int)
    requires
        0 <= i < entries.len(),
        forall|p: int, q: int|
            0 <= p < q < entries.len() ==> (#[trigger] entries[p]).0@ != (#[trigger] entries[q]).0@,
    ensures
        map_of(entries).contains_key(entries[i].0@),
        map_of(entries)[entries[i].0@] == entries[i].1@,
    decreases entries.len(),
{
    if i == entries.len() - 1 {
        lemma_map_of_contains(entries.drop_last(), entries[i].0@);
    } else {
        lemma_map_of_index(entries.drop_last(), i);
        assert(entries.drop_last()[i] == entries[i]);
    }
}

impl TaskStore {
    /// Key uniqueness: constructors establish it and every operation keeps it.
    pub closed spec fn wf(&self) -> bool {
        forall|p: int, q: int|
            0 <= p < q < self.entries@.len() ==> (#[trigger] self.entries@[p]).0@ != (
            #[trigger] self.entries@[q]).0@
    }

    pub fn new() -> (r: TaskStore)
        ensures
            r@ == Map::<Seq<char>, TaskModel>::empty(),
            r.wf(),
    {
        TaskStore { entries: Vec::new() }
    }

    /// True when no task at all is held.
    pub fn is_empty(&self) -> (r: bool)
        ensures
            r <==> self@ == Map::<Seq<char>, TaskModel>::empty(),
    {
        proof {
            if self.entries@.len() > 0 {
                lemma_map_of_contains(self.entries@, self.entries@.last().0@);
                assert(self@.contains_key(self.entries@.last().0@));
            }
            assert(self.entries@.len() == 0 ==> self@ =~= Map::<Seq<char>, TaskModel>::empty());
        }
        self.entries.len() == 0
    }

    fn position_of(&self, task_id: &str) -> (r: Option<usize>)
        ensures
            match r {
                Some(i) => i < self.entries@.len() && self.entries@[i as int].0@ == task_id@,
                None => !self@.contains_key(task_id@),
            },
    {
        proof {
            lemma_map_of_contains(self.entries@, task_id@);
        }
        let n = self.entries.len();
        let mut i: usize = 0;
        while i < n
            invariant
                n == self.entries@.len(),
                i <= n,
                forall|j: int| 0 <= j < i ==> (#[trigger] self.entries@[j]).0@ != task_id@,
            decreases n - i,
        {
            if crate::text::str_eq(self.entries[i].0.as_str(), task_id) {
                return Some(i);
            }
            i += 1;
        }
        proof {
            lemma_map_of_contains(self.entries@, task_id@);
        }
        None
    }

    /// Looks a task up by identifier, handing back a copy of its state.
    pub fn get(&self, task_id: &str) -> (r: Option<PendingTask>)
        requires
            self.wf(),
        ensures
            match r {
                Some(t) => self@.contains_key(task_id@) && t@ == self@[task_id@],
                None => !self@.contains_key(task_id@),
            },
    {
        match self.position_of(task_id) {
            Some(i) => {
                proof {
                    lemma_map_of_index(self.entries@, i as int);
                }
                Some(self.entries[i].1.duplicate())
            },
            None => None,
        }
    }

    /// Inserts a task under a fresh identifier.
    pub fn insert(&mut self, task_id: String, task: PendingTask)
        requires
            old(self).wf(),
            !old(self)@.contains_key(task_id@),
        ensures
            final(self)@ == old(self)@.insert(task_id@, task@),
            final(self).wf(),
    {
        proof {
            lemma_map_of_contains(self.entries@, task_id@);
        }
        let ghost pre = self.entries@;
        self.entries.push((task_id, task));
        proof {
            assert(self.entries@.drop_last() == pre);
            assert forall|p: int, q: int|
                0 <= p < q < self.entries@.len() implies (#[trigger] self.entries@[p]).0@ != (
            #[trigger] self.entries@[q]).0@ by {
                if q < self.entries@.len() - 1 {
                    assert(pre[p].0@ != pre[q].0@);
                } else {
                    assert(pre[p].0@ != self.entries@[q].0@);
                }
            }
        }
    }

    /// The identifier of some task whose status is pending, when one exists.
    pub fn first_pending(&self) -> (r: Option<String>)
        requires
            self.wf(),
        ensures
            match r {
                Some(id) => self@.contains_key(id@) && self@[id@].status is Pending,
                None => forall|k: Seq<char>|
                    self@.contains_key(k) ==> !((#[trigger] self@[k]).status
                        is Pending),
            },
    {
        let n = self.entries.len();
        let mut i: usize = 0;
        while i < n
            invariant
                self.wf(),
                n == self.entries@.len(),
                i <= n,
                forall|j: int|
                    0 <= j < i ==> !((#[trigger] self.entries@[j]).1.status
                        is Pending),
            decreases n - i,
        {
            if matches!(self.entries[i].1.status, TaskStatus::Pending) {
                proof {
                    lemma_map_of_index(self.entries@, i as int);
                }
                return Some(self.entries[i].0.clone());
            }
            i += 1;
        }
        proof {
            assert forall|k: Seq<char>| self@.contains_key(k) implies !((#[trigger] self@[k]).status
                is Pending) by {
                lemma_map_of_contains(self.entries@, k);
                let j = choose|j: int| 0 <= j < self.entries@.len() && self.entries@[j].0@ == k;
                lemma_map_of_index(self.entries@, j);
            }
        }
        None
    }

    /// Every pending task with a known process id, paired with that id, for
    /// the caller to probe for liveness.
    pub fn pending_probes(&self) -> (r: Vec<(String, u32)>)
        requires
            self.wf(),
        ensures
            forall|i: int|
                0 <= i < r@.len() ==> {
                    &&& self@.contains_key((#[trigger] r@[i]).0@)
                    &&& self@[r@[i].0@].status is Pending
                    &&& self@[r@[i].0@].ui_pid == Some(r@[i].1)
                },
            forall|k: Seq<char>|
                self@.contains_key(k) && (#[trigger] self@[k]).status is Pending
                    && self@[k].ui_pid is Some ==> exists|i: int|
                    0 <= i < r@.len() && (#[trigger] r@[i]).0@ == k,
    {
        let n = self.entries.len();
        let mut out: Vec<(String, u32)> = Vec::new();
        let mut i: usize = 0;
        while i < n
            invariant
                self.wf(),
                n == self.entries@.len(),
                i <= n,
                forall|p: int|
                    0 <= p < out@.len() ==> {
                        &&& self@.contains_key((#[trigger] out@[p]).0@)
                        &&& self@[out@[p].0@].status is Pending
                        &&& self@[out@[p].0@].ui_pid == Some(out@[p].1)
                    },
                forall|j: int|
                    0 <= j < i && (#[trigger] self.entries@[j]).1.status is Pending
                        && self.entries@[j].1.ui_pid is Some ==> exists|p: int|
                        0 <= p < out@.len() && (#[trigger] out@[p]).0@ == self.entries@[j].0@,
            decreases n - i,
        {
            let pending = matches!(self.entries[i].1.status, TaskStatus::Pending);
            if pending {
                if let Some(pid) = self.entries[i].1.ui_pid {
                    proof {
                        lemma_map_of_index(self.entries@, i as int);
                    }
                    let ghost pre = out@;
                    out.push((self.entries[i].0.clone(), pid));
                    proof {
                        assert forall|j: int|
                            0 <= j < i + 1 && (#[trigger] self.entries@[j]).1.status
                                is Pending && self.entries@[j].1.ui_pid
                                is Some implies exists|p: int|
                            0 <= p < out@.len() && (#[trigger] out@[p]).0@
                                == self.entries@[j].0@ by {
                            if j < i {
                                let p = choose|p: int|
                                    0 <= p < pre.len() && (#[trigger] pre[p]).0@
                                        == self.entries@[j].0@;
                                assert(out@[p].0@ == self.entries@[j].0@);
                            } else {
                                assert(out@[out@.len() - 1].0@ == self.entries@[j].0@);
                            }
                        }
                    }
                }
            }
            i += 1;
        }
        proof {
            assert forall|k: Seq<char>|
                self@.contains_key(k) && (#[trigger] self@[k]).status is Pending
                    && self@[k].ui_pid is Some implies exists|p: int|
                0 <= p < out@.len() && (#[trigger] out@[p]).0@ == k by {
                lemma_map_of_contains(self.entries@, k);
                let j = choose|j: int| 0 <= j < self.entries@.len() && self.entries@[j].0@ == k;
                lemma_map_of_index(self.entries@, j);
            }
        }
        out
    }

    /// Removes a task by identifier, handing its state back when present.
    pub fn remove(&mut self, task_id: &str) -> (r: Option<PendingTask>)
        requires
            old(self).wf(),
        ensures
            final(self)@ == old(self)@.remove(task_id@),
            final(self).wf(),
            match r {
                Some(t) => old(self)@.contains_key(task_id@) && t@ == old(self)@[task_id@],
                None => !old(self)@.contains_key(task_id@),
            },
    {
        match self.position_of(task_id) {
            Some(i) => {
                proof {
                    lemma_map_of_index(self.entries@, i as int);
                }
                let ghost pre = self.entries@;
                let (_, task) = self.entries.remove(i);
                proof {
                    lemma_remove_preserves(pre, i as int, task_id@);
                }
                Some(task)
            },
            None => {
                proof {
                    assert(self@.remove(task_id@) =~= self@);
                }
                None
            },
        }
    }
}

/// Removing entry `i`, whose key is `k`, from a store with unique keys
/// removes exactly `k` from the model map.
proof fn lemma_remove_preserves(entries: Seq<(String, PendingTask)>, i: int, k: Seq<char>)
    requires
        0 <= i < entries.len(),
        entries[i].0@ == k,
        forall|p: int, q: int|
            0 <= p < q < entries.len() ==> (#[trigger] entries[p]).0@ != (#[trigger] entries[q]).0@,
    ensures
        map_of(entries.remove(i)) == map_of(entries).remove(k),
        forall|p: int, q: int|
            0 <= p < q < entries.remove(i).len() ==> (#[trigger] entries.remove(i)[p]).0@ != (
        #[trigger] entries.remove(i)[q]).0@,
    decreases entries.len(),
{
    let shorter = entries.remove(i);
    assert forall|p: int, q: int|
        0 <= p < q < shorter.len() implies (#[trigger] shorter[p]).0@ != (
    #[trigger] shorter[q]).0@ by {
        let p0 = if p < i { p } else { p + 1 };
        let q0 = if q < i { q } else { q + 1 };
        assert(shorter[p] == entries[p0]);
        assert(shorter[q] == entries[q0]);
    }
    if i == entries.len() - 1 {
        assert(shorter =~= entries.drop_last());
        lemma_map_of_contains(entries.drop_last(), k);
        assert(map_of(entries.drop_last()).remove(k) =~= map_of(entries.drop_last()));
        assert(map_of(entries) == map_of(entries.drop_last()).insert(k, entries[i].1@));
        assert(map_of(entries).remove(k) =~= map_of(entries.drop_last()));
    } else {
        lemma_remove_preserves(entries.drop_last(), i, k);
        assert(shorter.drop_last() =~= entries.drop_last().remove(i));
        assert(shorter.last() == entries.last());
        assert(map_of(shorter) == map_of(entries.drop_last().remove(i)).insert(
            entries.last().0@,
            entries.last().1@,
        ));
        assert(map_of(entries).remove(k) =~= map_of(entries.drop_last()).remove(k).insert(
            entries.last().0@,
            entries.last().1@,
        ));
    }
}

} // verus!
