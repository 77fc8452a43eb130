use vstd::prelude::*;

verus! {

/// Why a task could not be enqueued; the task is handed back.
#[derive(Debug)]
pub enum ScheduleError<T> {
    Stopped(T),
}

/// A first-in first-out task queue between the hooks that produce tasks and
/// the component that consumes them.
///
/// Once stopped, it refuses every new task.
pub struct Scheduler<T> {
    queue: Vec<T>,
    stopped: bool,
}

impl<T> Scheduler<T> {
    /// The tasks waiting to be received, oldest first.
    pub closed spec fn pending(&self) -> Seq<T> {
        self.queue@
    }

    pub closed spec fn is_stopped(&self) -> bool {
        self.stopped
    }

    pub fn new() -> (r: Scheduler<T>)
        ensures
            r.pending() == Seq::<T>::empty(),
            !r.is_stopped(),
    {
        Scheduler { queue: Vec::new(), stopped: false }
    }

    /// Appends `task` at the back of the queue, unless the queue is stopped.
    pub fn schedule(&mut self, task: T) -> (r: Result<(), ScheduleError<T>>)
        ensures
            final(self).is_stopped() == old(self).is_stopped(),
            old(self).is_stopped() ==> {
                &&& r == Err::<(), ScheduleError<T>>(ScheduleError::Stopped(task))
                &&& final(self).pending() == old(self).pending()
            },
            !old(self).is_stopped() ==> {
                &&& r is Ok
                &&& final(self).pending() == old(self).pending().push(task)
            },
    {
        if self.stopped {
            return Err(ScheduleError::Stopped(task));
        }
        self.queue.push(task);
        Ok(())
    }

    /// Refuses every task from now on; tasks already queued stay receivable.
    pub fn stop(&mut self)
        ensures
            final(self).is_stopped(),
            final(self).pending() == old(self).pending(),
    {
        self.stopped = true;
    }

    /// Takes the oldest waiting task, if any.
    pub fn try_recv(&mut self) -> (r: Option<T>)
        ensures
            final(self).is_stopped() == old(self).is_stopped(),
            old(self).pending().len() == 0 ==> {
                &&& r is None
                &&& final(self).pending() == old(self).pending()
            },
            old(self).pending().len() > 0 ==> {
                &&& r == Some(old(self).pending()[0])
                &&& final(self).pending() == old(self).pending().drop_first()
            },
    {
        if self.queue.len() == 0 {
            return None;
        }
        let t = self.queue.remove(0);
        proof {
            assert(self.queue@ =~= old(self).queue@.drop_first());
        }
        Some(t)
    }

    /// The number of waiting tasks.
    pub fn len(&self) -> (r: usize)
        ensures
            r == self.pending().len(),
    {
        self.queue.len()
    }
}

} // verus!
