//! Executors: the handle that stops an executor, and the bookkeeping of the
//! workqueue executor — whether it still accepts tasks and which tasks it
//! must cancel when stopped.

use vstd::prelude::*;
use std::sync::Arc;
use crate::error::{Error, EBUSY};
use crate::revocable::{AsyncRevocable, AsyncRevocableGuard};

verus! {

/// Types whose task is woken through a shared pointer to them.
pub trait ArcWake: Sized {
    /// Wake the task, consuming one reference.
    fn wake(this: crate::sync::Arc<Self>);

    /// Wake the task without consuming the reference: wakes a new
    /// reference to the same value.
    fn wake_by_ref(this: &crate::sync::Arc<Self>) {
        Self::wake(this.clone_arc());
    }
}

/// A spawned task that can be revoked (never polled again) and flushed
/// (any running poll has finished).
pub trait RevocableTask {
    /// Revoke the task.
    fn revoke(&self);

    /// Wait until no poll of the task is running.
    fn flush(&self);
}

/// An executor that can be stopped: after `stop`, no new task can be
/// spawned and all existing tasks have been cancelled.
pub trait Executor {
    /// Stop the executor.
    fn stop(&self);
}

/// Holds an executor for its owner, who calls [`AutoStopHandle::stop`]
/// when done with it.
pub struct AutoStopHandle<T: Executor> {
    executor: Arc<T>,
}

impl<T: Executor> AutoStopHandle<T> {
    /// The executor this handle stops.
    pub closed spec fn executor_spec(&self) -> T {
        *self.executor
    }

    /// A handle for `executor`.
    pub fn new(executor: Arc<T>) -> (h: Self)
        ensures
            h.executor_spec() == *executor,
    {
        AutoStopHandle { executor }
    }

    /// The underlying executor (for spawning).
    pub fn executor(&self) -> (e: &T)
        ensures
            *e == self.executor_spec(),
    {
        &*self.executor
    }

    /// Stop the executor now.
    pub fn stop(&self) {
        self.executor.stop();
    }
}

/// The workqueue executor's shared state: whether it has been stopped, and
/// the tasks it still has to cancel.
pub struct ExecutorState {
    stopped: bool,
    tasks: Vec<usize>,
}

impl ExecutorState {
    /// The executor has been stopped.
    pub closed spec fn is_stopped(&self) -> bool {
        self.stopped
    }

    /// The registered tasks, oldest first.
    pub closed spec fn task_list(&self) -> Seq<usize> {
        self.tasks@
    }

    /// A running executor with no tasks.
    pub fn new() -> (s: Self)
        ensures
            !s.is_stopped(),
            s.task_list() == Seq::<usize>::empty(),
    {
        ExecutorState { stopped: false, tasks: Vec::new() }
    }

    /// Whether a new task may be built: `EBUSY` once stopped.
    pub fn check_spawn(&self) -> (r: Result<(), Error>)
        ensures
            self.is_stopped() ==> (r matches Err(e) && e@ == -EBUSY),
            !self.is_stopped() ==> r.is_ok(),
    {
        if self.stopped {
            Err(Error::ebusy())
        } else {
            Ok(())
        }
    }

    /// Register a built task: `EBUSY` if the executor was stopped meanwhile
    /// (the caller then revokes the task), otherwise the task is recorded.
    pub fn register(&mut self, task: usize) -> (r: Result<(), Error>)
        ensures
            final(self).is_stopped() == old(self).is_stopped(),
            old(self).is_stopped() ==> (r matches Err(e) && e@ == -EBUSY) && final(self).task_list()
                == old(self).task_list(),
            !old(self).is_stopped() ==> r.is_ok() && final(self).task_list() == old(self).task_list().push(
                task,
            ),
    {
        if self.stopped {
            return Err(Error::ebusy());
        }
        self.tasks.push(task);
        Ok(())
    }

    /// Stop the executor: no task is accepted any more, and every
    /// registered task is handed back to be revoked and flushed.
    pub fn stop(&mut self) -> (cancel: Vec<usize>)
        ensures
            final(self).is_stopped(),
            final(self).task_list() == Seq::<usize>::empty(),
            cancel@ == old(self).task_list(),
    {
        self.stopped = true;
        let mut taken: Vec<usize> = Vec::new();
        std::mem::swap(&mut taken, &mut self.tasks);
        taken
    }
}

/// The end of a task's poll on the workqueue: the guard is given back and,
/// if the future completed, the future is revoked so it is never polled
/// again. If the executor revoked the task while it was being polled, this
/// was the last guard, and the future is dropped now.
pub fn finish_task_poll<F>(future: &mut AsyncRevocable<F>, guard: AsyncRevocableGuard, ready: bool)
    requires
        old(future).wf(),
        old(future).guards() == 1,
        guard.owner() == old(future).id(),
    ensures
        final(future).wf(),
        final(future).guards() == 0,
        final(future).revoked() == (old(future).revoked() || ready),
        final(future).value().is_none() == (old(future).revoked() || ready),
        !old(future).revoked() && !ready ==> final(future).value() == old(future).value(),
{
    guard.release(future);
    if ready {
        future.revoke();
    }
}

} // verus!
