//! The convention of blocking tasks: a screen that asks for a task may ask
//! that nothing else be started until that task has completed. The event loop
//! enforces nothing of the kind; the user interface keeps to it through this
//! latch.

use vstd::prelude::*;
use crate::event::{Event, UiFeedback};
use crate::task::Task;

verus! {

/// Whether the user interface may ask for a task.
#[derive(Clone, Copy, Debug, PartialEq, Eq, Structural)]
pub struct DispatchLatch {
    /// Whether a task that blocks is in flight.
    pub blocked: bool,
}

impl DispatchLatch {
    /// The latch, open.
    pub fn new() -> (latch: DispatchLatch)
        ensures
            !latch.blocked,
    {
        DispatchLatch { blocked: false }
    }

    /// What asking for `task` leads to: the task is started where the latch is
    /// open, and the latch closes behind it where the task blocks; nothing is
    /// asked of the loop where the latch is closed.
    pub open spec fn asked(self, task: Task, block: bool) -> (DispatchLatch, UiFeedback) {
        if self.blocked {
            (self, UiFeedback::Nothing)
        } else {
            (DispatchLatch { blocked: block }, UiFeedback::ExecuteTask(task, block))
        }
    }

    /// What an event does to the latch: a completion from the backend opens
    /// it, and nothing else changes it.
    pub open spec fn observed(self, event: Event) -> DispatchLatch {
        match event {
            Event::Backend(_) => DispatchLatch { blocked: false },
            _ => self,
        }
    }

    /// Asks for `task`.
    pub fn request(&mut self, task: Task, block: bool) -> (feedback: UiFeedback)
        ensures
            (*final(self), feedback) == old(self).asked(task, block),
            old(self).blocked ==> !(feedback is ExecuteTask),
    {
        if self.blocked {
            UiFeedback::Nothing
        } else {
            self.blocked = block;
            UiFeedback::ExecuteTask(task, block)
        }
    }

    /// Takes note of an event before the screen sees it.
    pub fn observe(&mut self, event: &Event)
        ensures
            *final(self) == old(self).observed(*event),
    {
        match event {
            Event::Backend(_) => {
                self.blocked = false;
            },
            _ => {},
        }
    }
}

/// Between a task that blocks and its completion the user interface asks for
/// no task: whatever is asked in the meantime comes to nothing, and the first
/// completion opens the latch again.
pub proof fn blocking_task_suppresses_dispatch(
    latch: DispatchLatch,
    first: Task,
    second: Task,
    block: bool,
    completion: Event,
)
    requires
        !latch.blocked,
        completion is Backend,
    ensures
        latch.asked(first, true).1 == UiFeedback::ExecuteTask(first, true),
        latch.asked(first, true).0.asked(second, block) == (latch.asked(first, true).0, UiFeedback::Nothing),
        latch.asked(first, true).0.observed(completion).asked(second, block).1
            == UiFeedback::ExecuteTask(second, block),
{
}

} // verus!
