use vstd::prelude::*;

verus! {

/// Where one flow task stands.
#[derive(Clone, Copy, Debug, PartialEq, Eq, Structural)]
pub enum TaskStatus {
    Running,
    Completed,
    Failed,
}

/// The accept loop's record of the flow tasks it spawned, in order of
/// acceptance, and whether it still takes new flows.
pub struct Dispatcher {
    tasks: Vec<TaskStatus>,
    accepting: bool,
}

/// The mathematical state of a dispatcher.
pub struct DispatchState {
    pub tasks: Seq<TaskStatus>,
    pub accepting: bool,
}

/// A fresh loop that has accepted `n` flows, none finished yet.
pub open spec fn spawned(n: nat) -> DispatchState {
    DispatchState { tasks: Seq::new(n, |i: int| TaskStatus::Running), accepting: true }
}

/// Accepting a flow spawns one more running task; after shutdown nothing changes.
pub open spec fn after_accept(s: DispatchState) -> DispatchState {
    if s.accepting {
        DispatchState { tasks: s.tasks.push(TaskStatus::Running), accepting: true }
    } else {
        s
    }
}

/// Task `id` ends, successfully or not; only a running task changes, and only
/// that one. The loop's own state is untouched.
pub open spec fn after_finish(s: DispatchState, id: int, ok: bool) -> DispatchState {
    if 0 <= id < s.tasks.len() && s.tasks[id] == TaskStatus::Running {
        DispatchState {
            tasks: s.tasks.update(
                id,
                if ok {
                    TaskStatus::Completed
                } else {
                    TaskStatus::Failed
                },
            ),
            accepting: s.accepting,
        }
    } else {
        s
    }
}

/// The interrupt stops acceptance; tasks in flight are left running.
pub open spec fn after_shutdown(s: DispatchState) -> DispatchState {
    DispatchState { tasks: s.tasks, accepting: false }
}

impl Dispatcher {
    pub closed spec fn view(&self) -> DispatchState {
        DispatchState { tasks: self.tasks@, accepting: self.accepting }
    }

    /// A loop that takes flows and has spawned nothing.
    pub fn new() -> (r: Dispatcher)
        ensures
            r.view() == spawned(0),
    {
        let r = Dispatcher { tasks: Vec::new(), accepting: true };
        assert(r.view().tasks =~= spawned(0).tasks);
        r
    }

    /// Records a newly accepted flow; returns its task id, or `None` once the
    /// loop has shut down.
    pub fn accept(&mut self) -> (r: Option<usize>)
        ensures
            final(self).view() == after_accept(old(self).view()),
            old(self).view().accepting ==> r == Some(old(self).view().tasks.len() as usize),
            !old(self).view().accepting ==> r is None,
    {
        if self.accepting {
            let id = self.tasks.len();
            self.tasks.push(TaskStatus::Running);
            Some(id)
        } else {
            None
        }
    }

    /// Records the end of task `id`.
    pub fn finish(&mut self, id: usize, ok: bool)
        ensures
            final(self).view() == after_finish(old(self).view(), id as int, ok),
    {
        if id < self.tasks.len() && self.tasks[id] == TaskStatus::Running {
            let status = if ok {
                TaskStatus::Completed
            } else {
                TaskStatus::Failed
            };
            self.tasks.set(id, status);
        }
    }

    /// Stops acceptance on the interrupt signal.
    pub fn shutdown(&mut self)
        ensures
            final(self).view() == after_shutdown(old(self).view()),
    {
        self.accepting = false;
    }

    /// Whether the loop still takes flows.
    pub fn is_accepting(&self) -> (r: bool)
        ensures
            r == self.view().accepting,
    {
        self.accepting
    }

    /// The status of task `id`, if there is one.
    pub fn status(&self, id: usize) -> (r: Option<TaskStatus>)
        ensures
            id < self.view().tasks.len() ==> r == Some(self.view().tasks[id as int]),
            id >= self.view().tasks.len() ==> r is None,
    {
        if id < self.tasks.len() {
            Some(self.tasks[id])
        } else {
            None
        }
    }
}

/// Of `n` spawned tasks, task `k` failing leaves the loop accepting and every
/// other task running, and each of those can still complete.
pub proof fn lemma_failure_is_isolated(n: nat, k: nat)
    requires
        k < n,
    ensures
        ({
            let s = after_finish(spawned(n), k as int, false);
            &&& s.accepting
            &&& s.tasks.len() == n
            &&& s.tasks[k as int] == TaskStatus::Failed
            &&& forall|j: int|
                0 <= j < n && j != k ==> #[trigger] s.tasks[j] == TaskStatus::Running
                    && after_finish(s, j, true).tasks[j] == TaskStatus::Completed
                    && after_finish(s, j, true).accepting
            &&& after_accept(s).tasks.len() == n + 1
        }),
{
}

/// Finishing one task, whatever its outcome, changes no other task and not
/// the loop.
pub proof fn lemma_finish_touches_one(s: DispatchState, id: int, ok: bool)
    ensures
        after_finish(s, id, ok).accepting == s.accepting,
        after_finish(s, id, ok).tasks.len() == s.tasks.len(),
        forall|j: int|
            0 <= j < s.tasks.len() && j != id ==> #[trigger] after_finish(s, id, ok).tasks[j]
                == s.tasks[j],
{
}

} // verus!
