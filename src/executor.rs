//! The cooperative scheduler, as a state machine over task ids. The caller
//! asks which task to poll, polls it, and reports whether it completed or
//! suspended; wake-ups make a suspended task runnable again. When nothing
//! is runnable the caller parks the processor until the next interrupt.
use vstd::prelude::*;

verus! {

/// Where a task stands.
#[derive(Clone, Copy, Debug, PartialEq, Eq, Structural)]
pub enum TaskState {
    /// Waiting to be polled.
    Runnable,
    /// Being polled; `woken` records a wake-up that arrived meanwhile.
    Running { woken: bool },
    /// Suspended until its wake-up fires.
    Waiting,
}

#[derive(Clone, Copy, Debug, PartialEq, Eq, Structural)]
pub struct TaskEntry {
    pub id: u64,
    pub state: TaskState,
}

/// The first index at or after `i` whose task is runnable, or the end.
pub open spec fn first_runnable(s: Seq<TaskEntry>, i: int) -> int
    decreases s.len() - i,
{
    if i < 0 || i >= s.len() || s[i].state == TaskState::Runnable {
        i
    } else {
        first_runnable(s, i + 1)
    }
}

/// The first index at or after `i` holding task `id`, or the end.
pub open spec fn index_of(s: Seq<TaskEntry>, id: u64, i: int) -> int
    decreases s.len() - i,
{
    if i < 0 || i >= s.len() || s[i].id == id {
        i
    } else {
        index_of(s, id, i + 1)
    }
}

/// The state of task `id`, or `None` once it has completed or when it was
/// never spawned.
pub open spec fn state_of(s: Seq<TaskEntry>, id: u64) -> Option<TaskState> {
    let i = index_of(s, id, 0);
    if i < s.len() {
        Some(s[i].state)
    } else {
        None
    }
}

pub open spec fn unique_ids(s: Seq<TaskEntry>) -> bool {
    forall|i: int, j: int| 0 <= i < j < s.len() ==> s[i].id != s[j].id
}

/// Picking the next task to poll: the first runnable one, which becomes
/// running; `None` when no task is runnable.
pub open spec fn picked(s: Seq<TaskEntry>) -> (Option<u64>, Seq<TaskEntry>) {
    let i = first_runnable(s, 0);
    if i < s.len() {
        (Some(s[i].id), s.update(i, TaskEntry { id: s[i].id, state: TaskState::Running { woken: false } }))
    } else {
        (None, s)
    }
}

/// Recording the end of a poll of `id`: a completed task is removed; a
/// suspended one waits, unless a wake-up came while it ran, in which case
/// it is runnable again. A task that is not running is left alone.
pub open spec fn finished(s: Seq<TaskEntry>, id: u64, completed: bool) -> Seq<TaskEntry> {
    let i = index_of(s, id, 0);
    if i < s.len() && s[i].state is Running {
        if completed {
            s.remove(i)
        } else if s[i].state == (TaskState::Running { woken: true }) {
            s.update(i, TaskEntry { id, state: TaskState::Runnable })
        } else {
            s.update(i, TaskEntry { id, state: TaskState::Waiting })
        }
    } else {
        s
    }
}

/// A wake-up of `id`: a waiting task becomes runnable, a running one is
/// marked to be polled again; anything else is unchanged.
pub open spec fn woken(s: Seq<TaskEntry>, id: u64) -> Seq<TaskEntry> {
    let i = index_of(s, id, 0);
    if i < s.len() && s[i].state == TaskState::Waiting {
        s.update(i, TaskEntry { id, state: TaskState::Runnable })
    } else if i < s.len() && s[i].state is Running {
        s.update(i, TaskEntry { id, state: TaskState::Running { woken: true } })
    } else {
        s
    }
}

pub struct Executor {
    tasks: Vec<TaskEntry>,
    next_id: u64,
}

impl View for Executor {
    type V = Seq<TaskEntry>;

    closed spec fn view(&self) -> Seq<TaskEntry> {
        self.tasks@
    }
}

impl Executor {
    /// The id the next spawned task receives.
    pub closed spec fn next_id(&self) -> u64 {
        self.next_id
    }

    pub closed spec fn wf(&self) -> bool {
        &&& unique_ids(self.tasks@)
        &&& forall|i: int| 0 <= i < self.tasks@.len() ==> self.tasks@[i].id < self.next_id
    }

    pub fn new() -> (e: Executor)
        ensures
            e.wf(),
            e@ == Seq::<TaskEntry>::empty(),
            e.next_id() == 0,
    {
        Executor { tasks: Vec::new(), next_id: 0 }
    }

    /// Adds a new task, runnable, under a fresh id.
    pub fn spawn(&mut self) -> (id: u64)
        requires
            old(self).wf(),
            old(self).next_id() < u64::MAX,
        ensures
            final(self).wf(),
            id == old(self).next_id(),
            final(self).next_id() == id + 1,
            final(self)@ == old(self)@.push(TaskEntry { id, state: TaskState::Runnable }),
            state_of(old(self)@, id) is None,
    {
        let id = self.next_id;
        proof {
            lemma_index_of(self.tasks@, id, 0);
        }
        self.tasks.push(TaskEntry { id, state: TaskState::Runnable });
        self.next_id = id + 1;
        id
    }

    fn find(&self, id: u64) -> (r: usize)
        ensures
            r == index_of(self@, id, 0),
    {
        let n = self.tasks.len();
        let mut i: usize = 0;
        while i < n && self.tasks[i].id != id
            invariant
                n == self@.len(),
                i <= n,
                index_of(self@, id, i as int) == index_of(self@, id, 0),
            decreases n - i,
        {
            i = i + 1;
        }
        i
    }

    /// Picks the next task to poll and marks it running; `None` when no
    /// task is runnable, and the caller may then park the processor.
    pub fn next_task(&mut self) -> (r: Option<u64>)
        requires
            old(self).wf(),
        ensures
            final(self).wf(),
            final(self).next_id() == old(self).next_id(),
            (r, final(self)@) == picked(old(self)@),
    {
        let n = self.tasks.len();
        let mut i: usize = 0;
        while i < n && self.tasks[i].state != TaskState::Runnable
            invariant
                n == self@.len(),
                i <= n,
                first_runnable(self@, i as int) == first_runnable(self@, 0),
            decreases n - i,
        {
            i = i + 1;
        }
        if i < n {
            let id = self.tasks[i].id;
            self.tasks.set(i, TaskEntry { id, state: TaskState::Running { woken: false } });
            Some(id)
        } else {
            None
        }
    }

    /// Whether some task is runnable; when none is, the caller parks the
    /// processor until the next interrupt.
    pub fn has_runnable(&self) -> (r: bool)
        ensures
            r == (first_runnable(self@, 0) < self@.len()),
    {
        let n = self.tasks.len();
        let mut i: usize = 0;
        while i < n && self.tasks[i].state != TaskState::Runnable
            invariant
                n == self@.len(),
                i <= n,
                first_runnable(self@, i as int) == first_runnable(self@, 0),
            decreases n - i,
        {
            i = i + 1;
        }
        i < n
    }

    /// Records the end of a poll of `id`: `completed` when the task
    /// finished, otherwise it suspended.
    pub fn finish_poll(&mut self, id: u64, completed: bool)
        requires
            old(self).wf(),
        ensures
            final(self).wf(),
            final(self).next_id() == old(self).next_id(),
            final(self)@ == finished(old(self)@, id, completed),
    {
        let i = self.find(id);
        proof {
            lemma_index_of(self@, id, 0);
        }
        if i < self.tasks.len() {
            match self.tasks[i].state {
                TaskState::Running { woken } => {
                    if completed {
                        self.tasks.remove(i);
                        assert forall|a: int, b: int| 0 <= a < b < self@.len() implies self@[a].id
                            != self@[b].id by {
                            let s0 = old(self)@;
                            let b0 = if b < i { b } else { b + 1 };
                            let a0 = if a < i { a } else { a + 1 };
                            assert(self@[a] == s0[a0] && self@[b] == s0[b0]);
                        }
                        assert forall|a: int| 0 <= a < self@.len() implies self@[a].id
                            < self.next_id by {
                            let a0 = if a < i { a } else { a + 1 };
                            assert(self@[a] == old(self)@[a0]);
                        }
                    } else if woken {
                        self.tasks.set(i, TaskEntry { id, state: TaskState::Runnable });
                    } else {
                        self.tasks.set(i, TaskEntry { id, state: TaskState::Waiting });
                    }
                },
                _ => {},
            }
        }
    }

    /// The wake-up of `id`, fired by its wake slot's signal.
    pub fn wake(&mut self, id: u64)
        requires
            old(self).wf(),
        ensures
            final(self).wf(),
            final(self).next_id() == old(self).next_id(),
            final(self)@ == woken(old(self)@, id),
    {
        let i = self.find(id);
        proof {
            lemma_index_of(self@, id, 0);
        }
        if i < self.tasks.len() {
            match self.tasks[i].state {
                TaskState::Waiting => {
                    self.tasks.set(i, TaskEntry { id, state: TaskState::Runnable });
                },
                TaskState::Running { .. } => {
                    self.tasks.set(i, TaskEntry { id, state: TaskState::Running { woken: true } });
                },
                TaskState::Runnable => {},
            }
        }
    }
}

pub proof fn lemma_index_of(s: Seq<TaskEntry>, id: u64, i: int)
    requires
        0 <= i <= s.len(),
    ensures
        i <= index_of(s, id, i) <= s.len(),
        index_of(s, id, i) < s.len() ==> s[index_of(s, id, i)].id == id,
        forall|j: int| i <= j < index_of(s, id, i) ==> s[j].id != id,
    decreases s.len() - i,
{
    if i < s.len() && s[i].id != id {
        lemma_index_of(s, id, i + 1);
    }
}

pub proof fn lemma_first_runnable(s: Seq<TaskEntry>, i: int)
    requires
        0 <= i <= s.len(),
    ensures
        i <= first_runnable(s, i) <= s.len(),
        first_runnable(s, i) < s.len() ==> s[first_runnable(s, i)].state == TaskState::Runnable,
    decreases s.len() - i,
{
    if i < s.len() && s[i].state != TaskState::Runnable {
        lemma_first_runnable(s, i + 1);
    }
}

/// With unique ids, the entry that holds `id` is the one `index_of` finds.
pub proof fn lemma_index_of_unique(s: Seq<TaskEntry>, id: u64, k: int)
    requires
        unique_ids(s),
        0 <= k < s.len(),
        s[k].id == id,
    ensures
        index_of(s, id, 0) == k,
{
    lemma_index_of(s, id, 0);
}

/// `index_of` reads the ids alone.
pub proof fn lemma_index_of_same_ids(s: Seq<TaskEntry>, t: Seq<TaskEntry>, id: u64, i: int)
    requires
        0 <= i <= s.len(),
        s.len() == t.len(),
        forall|j: int| 0 <= j < s.len() ==> s[j].id == t[j].id,
    ensures
        index_of(s, id, i) == index_of(t, id, i),
    decreases s.len() - i,
{
    if i < s.len() && s[i].id != id {
        lemma_index_of_same_ids(s, t, id, i + 1);
    }
}

/// A suspended task is not polled again until its wake-up fires: picking
/// the next task never picks it, and neither picking nor the end of a poll
/// of any other task changes its state; its own wake-up makes it runnable.
pub proof fn lemma_waiting_not_polled(s: Seq<TaskEntry>, id: u64, other: u64, completed: bool)
    requires
        unique_ids(s),
        state_of(s, id) == Some(TaskState::Waiting),
        other != id,
    ensures
        picked(s).0 != Some(id),
        state_of(picked(s).1, id) == Some(TaskState::Waiting),
        state_of(finished(s, other, completed), id) == Some(TaskState::Waiting),
        state_of(woken(s, id), id) == Some(TaskState::Runnable),
        first_runnable(woken(s, id), 0) < woken(s, id).len(),
{
    lemma_index_of(s, id, 0);
    let k = index_of(s, id, 0);
    lemma_first_runnable(s, 0);
    let r = first_runnable(s, 0);
    if r < s.len() {
        if s[r].id == id {
            lemma_index_of_unique(s, id, r);
        }
        lemma_index_of_same_ids(s, picked(s).1, id, 0);
    }
    lemma_index_of(s, other, 0);
    let i = index_of(s, other, 0);
    let f = finished(s, other, completed);
    if i < s.len() && s[i].state is Running {
        if completed {
            let k1 = if k < i { k } else { k - 1 };
            assert(f[k1] == s[k]);
            assert forall|a: int, b: int| 0 <= a < b < f.len() implies f[a].id != f[b].id by {
                let a0 = if a < i { a } else { a + 1 };
                let b0 = if b < i { b } else { b + 1 };
                assert(f[a] == s[a0] && f[b] == s[b0]);
            }
            lemma_index_of_unique(f, id, k1);
        } else {
            lemma_index_of_same_ids(s, f, id, 0);
        }
    }
    let w = woken(s, id);
    lemma_index_of_same_ids(s, w, id, 0);
    lemma_first_runnable(w, 0);
    assert(w[k].state == TaskState::Runnable);
    if first_runnable(w, 0) >= w.len() {
        lemma_first_runnable_none(w, 0, k);
    }
}

/// A wake-up that races with a poll in progress is not lost: when the task
/// then reports that it suspended, it is runnable again.
pub proof fn lemma_wake_during_poll(s: Seq<TaskEntry>, id: u64)
    requires
        unique_ids(s),
        state_of(s, id) matches Some(TaskState::Running { .. }),
    ensures
        state_of(finished(woken(s, id), id, false), id) == Some(TaskState::Runnable),
{
    lemma_index_of(s, id, 0);
    let w = woken(s, id);
    lemma_index_of_same_ids(s, w, id, 0);
    let f = finished(w, id, false);
    lemma_index_of_same_ids(w, f, id, 0);
}

proof fn lemma_first_runnable_none(s: Seq<TaskEntry>, i: int, k: int)
    requires
        0 <= i <= k < s.len(),
        s[k].state == TaskState::Runnable,
    ensures
        first_runnable(s, i) <= k,
    decreases s.len() - i,
{
    if i < k && s[i].state != TaskState::Runnable {
        lemma_first_runnable_none(s, i + 1, k);
    }
}

} // verus!
