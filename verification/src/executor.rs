//! The bookkeeping of the cooperative task executor.
//!
//! Tasks run on the owning thread only, one at a time, and give way only
//! where they wait. The executor decides which task is polled next and
//! which is never polled again; polling itself is done by the embedding
//! layer, which reports back what came of it.

use vstd::prelude::*;

verus! {

/// The number of a task: the place in which the executor keeps it.
#[derive(Debug, PartialEq, Eq, Clone, Copy, Structural)]
pub struct TaskId(pub usize);

/// Where a task stands.
#[derive(Debug, PartialEq, Eq, Clone, Copy, Structural)]
pub enum TaskState {
    /// Waiting in the queue to be polled.
    Queued,
    /// Being polled.
    Running,
    /// Woken while it was being polled: it goes back to the queue if the
    /// poll leaves it unfinished.
    Notified,
    /// Waiting to be woken.
    Suspended,
    /// Ran to its end.
    Finished,
    /// Its handle was dropped, or the executor was stopped: it is never
    /// polled again.
    Cancelled,
}

/// What can happen to a task.
#[derive(Debug, PartialEq, Eq, Clone, Copy, Structural)]
pub enum TaskEvent {
    /// The executor takes the task out of the queue to poll it.
    Taken,
    /// The poll ended and left the task unfinished.
    Pending,
    /// The poll ended and the task ran to its end.
    Completed,
    /// Something the task waits for has happened.
    Woken,
    /// The handle of the task was dropped.
    Dropped,
    /// The executor was stopped.
    Stopped,
}

impl TaskState {
    /// A task that will never be polled again.
    pub open spec fn is_over(self) -> bool {
        self == TaskState::Finished || self == TaskState::Cancelled
    }

    /// The state after `event`. An event that does not concern a task in
    /// this state leaves it as it is.
    pub open spec fn step(self, event: TaskEvent) -> TaskState {
        match (self, event) {
            (TaskState::Queued, TaskEvent::Taken) => TaskState::Running,
            (TaskState::Running, TaskEvent::Pending) => TaskState::Suspended,
            (TaskState::Running, TaskEvent::Completed) => TaskState::Finished,
            (TaskState::Running, TaskEvent::Woken) => TaskState::Notified,
            (TaskState::Notified, TaskEvent::Pending) => TaskState::Queued,
            (TaskState::Notified, TaskEvent::Completed) => TaskState::Finished,
            (TaskState::Suspended, TaskEvent::Woken) => TaskState::Queued,
            (TaskState::Finished, _) => TaskState::Finished,
            (_, TaskEvent::Dropped) => TaskState::Cancelled,
            (_, TaskEvent::Stopped) => TaskState::Cancelled,
            (state, _) => state,
        }
    }
}

/// The state of a task after a sequence of events.
pub open spec fn task_after(state: TaskState, events: Seq<TaskEvent>) -> TaskState
    decreases events.len(),
{
    if events.len() == 0 {
        state
    } else {
        task_after(state, events.drop_last()).step(events.last())
    }
}

/// A task that finished or was cancelled stays as it is, whatever happens.
pub proof fn lemma_over_is_terminal(state: TaskState, events: Seq<TaskEvent>)
    requires
        state.is_over(),
    ensures
        task_after(state, events) == state,
    decreases events.len(),
{
    if events.len() > 0 {
        lemma_over_is_terminal(state, events.drop_last());
    }
}

/// Once the handle of a task is dropped, the task is never polled again: no
/// wake-up and no turn of the executor brings it back, and if it had
/// finished before, it stays finished.
pub proof fn lemma_dropped_never_resumes(
    state: TaskState,
    before: Seq<TaskEvent>,
    after: Seq<TaskEvent>,
)
    ensures
        task_after(state, before.push(TaskEvent::Dropped) + after).is_over(),
        task_after(state, before.push(TaskEvent::Dropped) + after) == task_after(
            state,
            before.push(TaskEvent::Dropped),
        ),
    decreases after.len(),
{
    let all = before.push(TaskEvent::Dropped) + after;
    if after.len() == 0 {
        assert(all =~= before.push(TaskEvent::Dropped));
        assert(all.drop_last() =~= before);
    } else {
        lemma_dropped_never_resumes(state, before, after.drop_last());
        assert(all.drop_last() =~= before.push(TaskEvent::Dropped) + after.drop_last());
        assert(before.push(TaskEvent::Dropped).drop_last() =~= before);
    }
}

/// The tasks of a plugin and the queue of those that are ready to run.
pub struct Executor {
    tasks: Vec<TaskState>,
    queue: Vec<usize>,
    running: bool,
}

/// The queue holds each task at most once, and exactly the queued ones.
spec fn queue_matches(tasks: Seq<TaskState>, queue: Seq<usize>) -> bool {
    &&& forall|i: int| 0 <= i < queue.len() ==> (#[trigger] queue[i]) < tasks.len()
    &&& forall|i: int| 0 <= i < queue.len()
        ==> tasks[(#[trigger] queue[i]) as int] == TaskState::Queued
    &&& forall|i: int, j: int| 0 <= i < j < queue.len()
        ==> #[trigger] queue[i] != #[trigger] queue[j]
}

impl Executor {
    /// What taking the task `id` in makes of the executor `before`: the
    /// task is new, it waits at the end of the queue, and every other task
    /// is as it was.
    pub open spec fn spawned(&self, before: &Executor, id: TaskId) -> bool {
        &&& id.0 == before.count()
        &&& self.count() == before.count() + 1
        &&& self.state_of(id) == TaskState::Queued
        &&& self.ready() == before.ready().push(id)
        &&& self.is_running() == before.is_running()
        &&& forall|other: TaskId|
            other.0 < before.count() ==> self.state_of(other) == before.state_of(other)
    }

    /// What stopping makes of the executor `before`: nothing waits in the
    /// queue, and every task that had not finished is cancelled.
    pub open spec fn stopped(&self, before: &Executor) -> bool {
        &&& !self.is_running()
        &&& self.count() == before.count()
        &&& self.ready() == Seq::<TaskId>::empty()
        &&& forall|id: TaskId|
            id.0 < before.count() ==> self.state_of(id) == before.state_of(id).step(
                TaskEvent::Stopped,
            )
    }

    #[verifier::type_invariant]
    spec fn well_formed(self) -> bool {
        &&& queue_matches(self.tasks@, self.queue@)
        &&& !self.running ==> self.queue@.len() == 0 && forall|i: int|
            0 <= i < self.tasks@.len() ==> (#[trigger] self.tasks@[i]).is_over()
    }

    /// Whether the executor accepts and runs tasks.
    pub closed spec fn is_running(&self) -> bool {
        self.running
    }

    /// How many tasks were ever spawned.
    pub closed spec fn count(&self) -> nat {
        self.tasks@.len()
    }

    /// The state of the task `id`.
    pub closed spec fn state_of(&self, id: TaskId) -> TaskState
        recommends
            id.0 < self.count(),
    {
        self.tasks@[id.0 as int]
    }

    /// The tasks that are ready to run, the next one first.
    pub closed spec fn ready(&self) -> Seq<TaskId> {
        Seq::new(self.queue@.len(), |i: int| TaskId(self.queue@[i]))
    }

    /// Every task but `id` is in the state it was in.
    pub open spec fn others_unchanged(&self, before: &Executor, id: TaskId) -> bool {
        &&& self.count() == before.count()
        &&& forall|other: TaskId|
            other.0 < before.count() && other != id ==> self.state_of(other) == before.state_of(
                other,
            )
    }

    /// Starts an executor that has no tasks.
    pub fn start() -> (executor: Executor)
        ensures
            executor.is_running(),
            executor.count() == 0,
            executor.ready() == Seq::<TaskId>::empty(),
    {
        let executor = Executor { tasks: Vec::new(), queue: Vec::new(), running: true };
        assert(executor.ready() =~= Seq::<TaskId>::empty());
        executor
    }

    /// Tells whether the executor accepts and runs tasks.
    pub fn running(&self) -> (running: bool)
        ensures
            running == self.is_running(),
    {
        self.running
    }

    /// Returns the state of the task `id`, if there is such a task.
    pub fn state(&self, id: TaskId) -> (state: Option<TaskState>)
        ensures
            state is Some <==> id.0 < self.count(),
            state is Some ==> state->0 == self.state_of(id),
    {
        if id.0 < self.tasks.len() {
            Some(self.tasks[id.0])
        } else {
            None
        }
    }

    /// Takes a new task in and puts it at the end of the queue. A stopped
    /// executor takes nothing in.
    pub fn spawn(&mut self) -> (handle: Option<TaskId>)
        requires
            old(self).count() < usize::MAX,
        ensures
            handle is Some <==> old(self).is_running(),
            handle matches Some(id) ==> final(self).spawned(old(self), id),
            handle matches Some(id) ==> (
                id.0 == old(self).count()
                && final(self).count() == old(self).count() + 1
                && final(self).state_of(id) == TaskState::Queued
                && final(self).ready() == old(self).ready().push(id)
            ),
            handle is None ==> (
                final(self).count() == old(self).count()
                && final(self).ready() == old(self).ready()
            ),
            final(self).is_running() == old(self).is_running(),
            forall|other: TaskId|
                other.0 < old(self).count() ==> final(self).state_of(other) == old(self).state_of(
                    other,
                ),
    {
        proof {
            use_type_invariant(&*self);
        }
        if !self.running {
            return None;
        }
        let mut tasks: Vec<TaskState> = Vec::new();
        let mut queue: Vec<usize> = Vec::new();
        std::mem::swap(&mut queue, &mut self.queue);
        std::mem::swap(&mut tasks, &mut self.tasks);
        let ghost ready_before = Seq::new(queue@.len(), |i: int| TaskId(queue@[i]));
        let id: usize = tasks.len();
        tasks.push(TaskState::Queued);
        queue.push(id);
        proof {
            assert(Seq::new(queue@.len(), |i: int| TaskId(queue@[i])) =~= ready_before.push(
                TaskId(id),
            ));
        }
        self.tasks = tasks;
        self.queue = queue;
        Some(TaskId(id))
    }

    /// Takes the next task that is ready out of the queue, to be polled.
    pub fn next(&mut self) -> (task: Option<TaskId>)
        ensures
            task is Some <==> old(self).ready().len() > 0,
            task matches Some(id) ==> (
                id == old(self).ready()[0]
                && id.0 < old(self).count()
                && old(self).state_of(id) == TaskState::Queued
                && final(self).state_of(id) == old(self).state_of(id).step(TaskEvent::Taken)
                && final(self).ready() == old(self).ready().drop_first()
                && final(self).others_unchanged(old(self), id)
            ),
            task is None ==> (
                final(self).ready() == old(self).ready()
                && final(self).count() == old(self).count()
                && forall|other: TaskId|
                    other.0 < old(self).count() ==> final(self).state_of(other) == old(self).state_of(other)
            ),
            final(self).is_running() == old(self).is_running(),
    {
        proof {
            use_type_invariant(&*self);
        }
        if self.queue.len() == 0 {
            return None;
        }
        let mut tasks: Vec<TaskState> = Vec::new();
        let mut queue: Vec<usize> = Vec::new();
        std::mem::swap(&mut queue, &mut self.queue);
        std::mem::swap(&mut tasks, &mut self.tasks);
        let ghost queue_before = queue@;
        let ghost ready_before = Seq::new(queue@.len(), |i: int| TaskId(queue@[i]));
        let id: usize = queue.remove(0);
        tasks[id] = TaskState::Running;
        proof {
            assert(Seq::new(queue@.len(),
                |i: int| TaskId(queue@[i])) =~= ready_before.drop_first());
            assert forall|i: int| 0 <= i < queue@.len() implies tasks@[(#[trigger] queue@[i]) as int]
                == TaskState::Queued by {
                assert(queue@[i] == queue_before[i + 1]);
                assert(queue_before[0] != queue_before[i + 1]);
            }
            assert forall|i: int, j: int| 0 <= i < j < queue@.len() implies #[trigger] queue@[i]
                != #[trigger] queue@[j] by {
                assert(queue_before[i + 1] != queue_before[j + 1]);
            }
            assert forall|i: int| 0 <= i < queue@.len() implies (#[trigger] queue@[i])
                < tasks@.len() by {
                assert(queue@[i] == queue_before[i + 1]);
            }
        }
        self.tasks = tasks;
        self.queue = queue;
        Some(TaskId(id))
    }

    /// Notes what came of polling the task `id`: it finished, or it waits.
    /// A task that was woken while it was polled goes back to the end of
    /// the queue. A task that is not being polled stays as it is.
    pub fn polled(&mut self, id: TaskId, finished: bool)
        ensures
            final(self).is_running() == old(self).is_running(),
            final(self).count() == old(self).count(),
            id.0 < old(self).count() ==> final(self).state_of(id) == old(self).state_of(id).step(
                if finished {
                    TaskEvent::Completed
                } else {
                    TaskEvent::Pending
                },
            ),
            final(self).ready() == (if id.0 < old(self).count() && old(self).state_of(id)
                == TaskState::Notified && !finished {
                old(self).ready().push(id)
            } else {
                old(self).ready()
            }),
            final(self).others_unchanged(old(self), id),
    {
        proof {
            use_type_invariant(&*self);
        }
        if id.0 >= self.tasks.len() {
            return ;
        }
        let state = self.tasks[id.0];
        let mut tasks: Vec<TaskState> = Vec::new();
        let mut queue: Vec<usize> = Vec::new();
        std::mem::swap(&mut queue, &mut self.queue);
        std::mem::swap(&mut tasks, &mut self.tasks);
        let ghost ready_before = Seq::new(queue@.len(), |i: int| TaskId(queue@[i]));
        match state {
            TaskState::Running => {
                tasks[id.0] = if finished {
                    TaskState::Finished
                } else {
                    TaskState::Suspended
                };
            },
            TaskState::Notified => {
                if finished {
                    tasks[id.0] = TaskState::Finished;
                } else {
                    tasks[id.0] = TaskState::Queued;
                    queue.push(id.0);
                    proof {
                        assert(Seq::new(queue@.len(), |i: int| TaskId(queue@[i]))
                            =~= ready_before.push(id));
                    }
                }
            },
            _ => {},
        }
        self.tasks = tasks;
        self.queue = queue;
    }

    /// Wakes the task `id`. A waiting task goes to the end of the queue; a
    /// task that is being polled is marked to go there. Returns whether the
    /// task will be polled again because of this call: never for a task
    /// that finished or was cancelled.
    pub fn wake(&mut self, id: TaskId) -> (woken: bool)
        ensures
            woken == (id.0 < old(self).count() && (old(self).state_of(id) == TaskState::Suspended
                || old(self).state_of(id) == TaskState::Running)),
            final(self).is_running() == old(self).is_running(),
            final(self).count() == old(self).count(),
            id.0 < old(self).count() ==> final(self).state_of(id) == old(self).state_of(id).step(
                TaskEvent::Woken,
            ),
            final(self).ready() == (if id.0 < old(self).count() && old(self).state_of(id)
                == TaskState::Suspended {
                old(self).ready().push(id)
            } else {
                old(self).ready()
            }),
            final(self).others_unchanged(old(self), id),
    {
        proof {
            use_type_invariant(&*self);
        }
        if id.0 >= self.tasks.len() {
            return false;
        }
        let state = self.tasks[id.0];
        let mut tasks: Vec<TaskState> = Vec::new();
        let mut queue: Vec<usize> = Vec::new();
        std::mem::swap(&mut queue, &mut self.queue);
        std::mem::swap(&mut tasks, &mut self.tasks);
        let ghost ready_before = Seq::new(queue@.len(), |i: int| TaskId(queue@[i]));
        let woken = match state {
            TaskState::Suspended => {
                tasks[id.0] = TaskState::Queued;
                queue.push(id.0);
                proof {
                    assert(Seq::new(queue@.len(), |i: int| TaskId(queue@[i])) =~= ready_before.push(
                        id,
                    ));
                }
                true
            },
            TaskState::Running => {
                tasks[id.0] = TaskState::Notified;
                true
            },
            _ => false,
        };
        self.tasks = tasks;
        self.queue = queue;
        woken
    }

    /// The handle of the task `id` was dropped: the task is taken out of
    /// the queue and is never polled again. A task that finished stays
    /// finished.
    pub fn cancel(&mut self, id: TaskId)
        ensures
            final(self).is_running() == old(self).is_running(),
            final(self).count() == old(self).count(),
            id.0 < old(self).count() ==> final(self).state_of(id) == old(self).state_of(id).step(
                TaskEvent::Dropped,
            ),
            !final(self).ready().contains(id),
            final(self).ready() == (if old(self).ready().contains(id) {
                old(self).ready().remove(old(self).ready().index_of(id))
            } else {
                old(self).ready()
            }),
            forall|other: TaskId|
                other != id
                    ==> (final(self).ready().contains(other) <==> old(self).ready().contains(other)),
            final(self).others_unchanged(old(self), id),
    {
        proof {
            use_type_invariant(&*self);
        }
        if id.0 >= self.tasks.len() {
            proof {
                if self.ready().contains(id) {
                    let k = choose|k: int| 0 <= k < self.ready().len() && self.ready()[k] == id;
                    assert(self.queue@[k] == id.0);
                }
            }
            return ;
        }
        let state = self.tasks[id.0];
        let mut tasks: Vec<TaskState> = Vec::new();
        let mut queue: Vec<usize> = Vec::new();
        std::mem::swap(&mut queue, &mut self.queue);
        std::mem::swap(&mut tasks, &mut self.tasks);
        let ghost queue_before = queue@;
        let ghost tasks_before = tasks@;
        let ghost ready_before = Seq::new(queue@.len(), |i: int| TaskId(queue@[i]));
        let ghost mut at: int = -1;
        if let TaskState::Queued = state {
            let mut i: usize = 0;
            while i < queue.len() && queue[i] != id.0
                invariant
                    0 <= i <= queue@.len(),
                    queue@ == queue_before,
                    forall|j: int| 0 <= j < i ==> queue@[j] != id.0,
                decreases queue@.len() - i,
            {
                i += 1;
            }
            if i < queue.len() {
                queue.remove(i);
                proof {
                    at = i as int;
                }
            }
        }
        if let TaskState::Finished = state {
        } else {
            tasks[id.0] = TaskState::Cancelled;
        }
        proof {
            let ready_after = Seq::new(queue@.len(), |i: int| TaskId(queue@[i]));
            if at >= 0 {
                assert(queue@ =~= queue_before.remove(at));
                assert(queue_before[at] == id.0);
                assert(ready_before[at] == id);
                let k = ready_before.index_of(id);
                assert(0 <= k < ready_before.len() && ready_before[k] == id);
                if k != at {
                    if k < at {
                        assert(queue_before[k] != queue_before[at]);
                    } else {
                        assert(queue_before[at] != queue_before[k]);
                    }
                }
                assert(ready_after =~= ready_before.remove(at));
                assert forall|a: int| 0 <= a < queue@.len() implies #[trigger] queue@[a] != id.0 by {
                    let a2 = if a < at {
                        a
                    } else {
                        a + 1
                    };
                    assert(queue@[a] == queue_before[a2]);
                    assert(queue_before[a2] != queue_before[at]);
                }
                assert forall|a: int, b: int| 0 <= a < b < queue@.len() implies #[trigger] queue@[a]
                    != #[trigger] queue@[b] by {
                    let a2 = if a < at {
                        a
                    } else {
                        a + 1
                    };
                    let b2 = if b < at {
                        b
                    } else {
                        b + 1
                    };
                    assert(queue_before[a2] != queue_before[b2]);
                }
                assert forall|other: TaskId| other != id implies (ready_after.contains(other)
                    <==> ready_before.contains(other)) by {
                    if ready_after.contains(other) {
                        let k = choose|k: int| 0 <= k < ready_after.len()
                            && ready_after[k] == other;
                        let k2 = if k < at {
                            k
                        } else {
                            k + 1
                        };
                        assert(ready_before[k2] == other);
                    }
                    if ready_before.contains(other) {
                        let k = choose|k: int|
                            0 <= k < ready_before.len() && ready_before[k] == other;
                        let k2 = if k < at {
                            k
                        } else {
                            k - 1
                        };
                        assert(ready_after[k2] == other);
                    }
                }
            } else {
                assert(queue@ == queue_before);
                assert(ready_after =~= ready_before);
                assert forall|a: int| 0 <= a < queue@.len() implies #[trigger] queue@[a] != id.0 by {
                    if queue@[a] == id.0 {
                        assert(tasks_before[queue_before[a] as int] == TaskState::Queued);
                    }
                }
            }
            assert(!ready_after.contains(id)) by {
                if ready_after.contains(id) {
                    let k = choose|k: int| 0 <= k < ready_after.len() && ready_after[k] == id;
                    assert(queue@[k] == id.0);
                }
            }
            assert forall|a: int| 0 <= a < queue@.len() implies tasks@[(#[trigger] queue@[a]) as int]
                == TaskState::Queued && queue@[a] < tasks@.len() by {
                let a2 = if at >= 0 && a >= at {
                    a + 1
                } else {
                    a
                };
                assert(queue@[a] == queue_before[a2]);
            }
        }
        self.tasks = tasks;
        self.queue = queue;
    }

    /// Stops the executor: the queue is emptied and every task that has not
    /// finished is cancelled.
    pub fn free(&mut self)
        ensures
            final(self).stopped(old(self)),
            !final(self).is_running(),
            final(self).count() == old(self).count(),
            final(self).ready() == Seq::<TaskId>::empty(),
            forall|id: TaskId|
                id.0 < old(self).count() ==> final(self).state_of(id) == old(self).state_of(
                    id,
                ).step(TaskEvent::Stopped),
    {
        proof {
            use_type_invariant(&*self);
        }
        let mut tasks: Vec<TaskState> = Vec::new();
        self.queue = Vec::new();
        std::mem::swap(&mut tasks, &mut self.tasks);
        self.running = false;
        let ghost before = tasks@;
        let mut i: usize = 0;
        while i < tasks.len()
            invariant
                0 <= i <= tasks@.len(),
                tasks@.len() == before.len(),
                forall|j: int|
                    0 <= j < i ==> (#[trigger] tasks@[j]) == (if before[j] == TaskState::Finished {
                        TaskState::Finished
                    } else {
                        TaskState::Cancelled
                    }),
                forall|j: int| i <= j < tasks@.len() ==> (#[trigger] tasks@[j]) == before[j],
            decreases tasks@.len() - i,
        {
            if let TaskState::Finished = tasks[i] {
            } else {
                tasks[i] = TaskState::Cancelled;
            }
            i += 1;
        }
        self.tasks = tasks;
        assert(self.ready() =~= Seq::<TaskId>::empty());
    }
}

} // verus!
