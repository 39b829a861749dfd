//! What holds of the main loop.

use vstd::prelude::*;
use crate::backend::completion;
use crate::event::{Event, UiFeedback};
use crate::multiplexer::{ticket_after, Dispatch, LoopAction, Multiplexer, Wake, REDRAW_DEBOUNCE_MILLIS};
use crate::task::{BackendEvent, CompletedTaskPayload, StateDiff, Task, TaskError};

verus! {

/// The loop after it has taken `feedbacks`, in order.
pub open spec fn after_feedbacks(start: Multiplexer, feedbacks: Seq<UiFeedback>) -> Multiplexer
    decreases feedbacks.len(),
{
    if feedbacks.len() == 0 {
        start
    } else {
        after_feedbacks(start, feedbacks.drop_last()).feedback(feedbacks.last()).0
    }
}

/// The ticket that comes `count` tickets after `ticket`.
pub open spec fn ticket_plus(ticket: u64, count: nat) -> u64 {
    ((ticket + count) % 0x1_0000_0000_0000_0000) as u64
}

/// Tasks that are started one after the other get one ticket after the other,
/// and the last of them is the one in flight.
pub proof fn tickets_count_up(start: Multiplexer, feedbacks: Seq<UiFeedback>)
    requires
        start.active,
        forall|i: int| 0 <= i < feedbacks.len() ==> feedbacks[i] is ExecuteTask,
    ensures
        after_feedbacks(start, feedbacks).active,
        after_feedbacks(start, feedbacks).redraw_armed == start.redraw_armed,
        after_feedbacks(start, feedbacks).next_ticket == ticket_plus(start.next_ticket, feedbacks.len()),
        feedbacks.len() > 0 ==> after_feedbacks(start, feedbacks).in_flight == Some(
            ticket_plus(start.next_ticket, (feedbacks.len() - 1) as nat),
        ),
    decreases feedbacks.len(),
{
    if feedbacks.len() > 0 {
        tickets_count_up(start, feedbacks.drop_last());
        let before = ticket_plus(start.next_ticket, (feedbacks.len() - 1) as nat);
        assert(ticket_after(before) == ticket_plus(start.next_ticket, feedbacks.len()));
    }
}

/// Supersession: after any number of `ExecuteTask` feedbacks with no
/// completion in between, the loop waits for the task that was submitted last,
/// and for it alone. The completion of any task that was submitted before it
/// is dropped when it arrives. (Tickets repeat after 2^64 tasks; a task that
/// was submitted that many tasks before the last is not told apart from it.)
pub proof fn supersession(start: Multiplexer, feedbacks: Seq<UiFeedback>)
    requires
        start.active,
        feedbacks.len() > 0,
        forall|i: int| 0 <= i < feedbacks.len() ==> feedbacks[i] is ExecuteTask,
    ensures
        ({
            let before = after_feedbacks(start, feedbacks.drop_last());
            let end = after_feedbacks(start, feedbacks);
            let last = ticket_plus(start.next_ticket, (feedbacks.len() - 1) as nat);
            &&& before.feedback(feedbacks.last()) == (
                end,
                LoopAction::StartTask {
                    ticket: last,
                    task: feedbacks.last()->ExecuteTask_0,
                    block: feedbacks.last()->ExecuteTask_1,
                },
            )
            &&& end.active
            &&& end.in_flight == Some(last)
            &&& forall|i: int|
                0 <= i < feedbacks.len() - 1 && feedbacks.len() - 1 - i < 0x1_0000_0000_0000_0000
                    ==> #[trigger] ticket_plus(start.next_ticket, i as nat) != last
            &&& forall|ticket: u64, event: BackendEvent|
                ticket != last ==> #[trigger] end.wake(Wake::BackendFinished { ticket, event }) == (
                    end,
                    Dispatch::Nothing,
                )
        }),
{
    tickets_count_up(start, feedbacks);
    tickets_count_up(start, feedbacks.drop_last());
}

/// Completion correspondence: a task that is dispatched once is started once,
/// under a ticket of its own; the event that reports on it carries the task
/// itself; that event reaches the screen once, and after it no completion is
/// delivered until another task is started.
pub proof fn completion_correspondence(
    start: Multiplexer,
    task: Task,
    block: bool,
    execution_result: Result<CompletedTaskPayload, TaskError>,
    state_diff: Option<StateDiff>,
)
    requires
        start.active,
    ensures
        ({
            let (started, action) = start.feedback(UiFeedback::ExecuteTask(task, block));
            let event = completion(task, execution_result, state_diff);
            let (delivered, dispatch) = started.wake(
                Wake::BackendFinished { ticket: start.next_ticket, event },
            );
            &&& action == LoopAction::StartTask { ticket: start.next_ticket, task, block }
            &&& event.spec_task() == task
            &&& event.spec_execution_result() == execution_result
            &&& dispatch == Dispatch::Forward(Event::Backend(event))
            &&& delivered.in_flight is None
            &&& forall|ticket: u64, again: BackendEvent| #[trigger]
                delivered.wake(Wake::BackendFinished { ticket, event: again }) == (
                    delivered,
                    Dispatch::Nothing,
                )
        }),
{
}

/// What a run of `Redraw` feedbacks leaves behind: the timer armed, and
/// nothing else changed.
pub proof fn redraw_requests_arm_the_timer(start: Multiplexer, feedbacks: Seq<UiFeedback>)
    requires
        start.active,
        feedbacks.len() > 0,
        forall|i: int| 0 <= i < feedbacks.len() ==> feedbacks[i] == UiFeedback::Redraw,
    ensures
        after_feedbacks(start, feedbacks) == (Multiplexer { redraw_armed: true, ..start }),
    decreases feedbacks.len(),
{
    if feedbacks.len() > 1 {
        redraw_requests_arm_the_timer(start, feedbacks.drop_last());
    } else {
        assert(after_feedbacks(start, feedbacks.drop_last()) == start);
    }
}

/// Redraw coalescing: any number of `Redraw` feedbacks that come before the
/// timer runs out lead to one render. Each of them arms the timer anew, for
/// the debounce interval, and renders nothing; the timer renders once when it
/// runs out, and is then disarmed, so that it cannot render again.
pub proof fn redraw_coalescing(start: Multiplexer, feedbacks: Seq<UiFeedback>)
    requires
        start.active,
        feedbacks.len() > 0,
        forall|i: int| 0 <= i < feedbacks.len() ==> feedbacks[i] == UiFeedback::Redraw,
    ensures
        ({
            let end = after_feedbacks(start, feedbacks);
            let rendered = Multiplexer { redraw_armed: false, ..start };
            &&& forall|i: int|
                0 <= i < feedbacks.len() ==> (#[trigger] after_feedbacks(
                    start,
                    feedbacks.take(i),
                )).feedback(feedbacks[i]).1 == (LoopAction::ArmRedrawTimer {
                    millis: REDRAW_DEBOUNCE_MILLIS,
                })
            &&& end.wake(Wake::RedrawTimerElapsed) == (rendered, Dispatch::Render)
            &&& rendered.wake(Wake::RedrawTimerElapsed) == (rendered, Dispatch::Nothing)
        }),
{
    redraw_requests_arm_the_timer(start, feedbacks);
    assert forall|i: int| 0 <= i < feedbacks.len() implies (#[trigger] after_feedbacks(
        start,
        feedbacks.take(i),
    )).feedback(feedbacks[i]).1 == (LoopAction::ArmRedrawTimer { millis: REDRAW_DEBOUNCE_MILLIS }) by {
        if i > 0 {
            redraw_requests_arm_the_timer(start, feedbacks.take(i));
        }
    }
}

} // verus!
