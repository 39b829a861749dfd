//! The event multiplexer: the decisions of the main loop.
//!
//! The loop waits on three sources at once: the terminal, the backend task in
//! flight (if any) and the redraw timer (if armed). Whichever is ready first
//! wakes it. The multiplexer turns the wake into what is to be done with it,
//! and the feedback of the user interface into the loop's next action. It does
//! no waiting itself.

use vstd::prelude::*;

pub mod laws;

use crate::event::{Event, UiFeedback};
use crate::keys::KeyEvent;
use crate::task::{BackendEvent, Task};

verus! {

/// The quiet interval after which a requested redraw is rendered.
pub const REDRAW_DEBOUNCE_MILLIS: u64 = 10;

/// What the terminal's event stream gave.
#[derive(Clone, Copy, Debug, PartialEq, Eq, Structural)]
pub enum TerminalInput {
    /// The stream has ended.
    Closed,
    /// The stream gave an error.
    Failed,
    /// The window has this many columns and rows now.
    Resize(u16, u16),
    Key(KeyEvent),
    /// Anything else: the mouse, a paste, the focus.
    Other,
}

/// What woke the loop.
#[derive(Debug, PartialEq, Eq)]
pub enum Wake {
    Terminal(TerminalInput),
    /// The backend task that was started under this ticket has completed.
    BackendFinished { ticket: u64, event: BackendEvent },
    RedrawTimerElapsed,
}

/// What the loop does with a wake.
#[derive(Debug, PartialEq, Eq)]
pub enum Dispatch {
    /// Hand the event to the active screen, and its feedback back to the
    /// multiplexer.
    Forward(Event),
    /// Render now. No screen is asked.
    Render,
    Nothing,
    /// The terminal is gone, and no command can ever arrive again: give up.
    Fatal,
}

/// What the loop does after a feedback.
#[derive(Debug, PartialEq, Eq)]
pub enum LoopAction {
    /// Leave the loop.
    Stop,
    /// Start the task under this ticket in place of the one in flight, if any,
    /// and render now.
    StartTask { ticket: u64, task: Task, block: bool },
    /// Arm the redraw timer anew, for this many milliseconds.
    ArmRedrawTimer { millis: u64 },
    Nothing,
}

/// The state of the main loop.
#[derive(Clone, Copy, Debug, PartialEq, Eq, Structural)]
pub struct Multiplexer {
    /// Whether the loop goes on.
    pub active: bool,
    /// The ticket of the backend task in flight.
    pub in_flight: Option<u64>,
    /// The ticket that the next task will be started under.
    pub next_ticket: u64,
    /// Whether the redraw timer is armed.
    pub redraw_armed: bool,
}

/// The ticket after `ticket`. After the last one the count starts anew.
pub open spec fn ticket_after(ticket: u64) -> u64 {
    if ticket == u64::MAX {
        0
    } else {
        (ticket + 1) as u64
    }
}

impl Multiplexer {
    /// The loop as it starts: active, with no task in flight and no timer.
    pub open spec fn spec_new() -> Multiplexer {
        Multiplexer { active: true, in_flight: None, next_ticket: 0, redraw_armed: false }
    }

    /// What a wake leads to.
    ///
    /// A resize is rendered at once and reaches no screen. A key press is
    /// forwarded. The completion of the task in flight is forwarded, and the
    /// task is in flight no more; a completion under any other ticket belongs
    /// to a task that was superseded or never started, and is dropped. The
    /// timer, if armed, renders and is disarmed. A terminal that has closed or
    /// failed ends the loop.
    pub open spec fn wake(self, wake: Wake) -> (Multiplexer, Dispatch) {
        if !self.active {
            (self, Dispatch::Nothing)
        } else {
            match wake {
                Wake::Terminal(TerminalInput::Closed) => (
                    Multiplexer { active: false, ..self },
                    Dispatch::Fatal,
                ),
                Wake::Terminal(TerminalInput::Failed) => (
                    Multiplexer { active: false, ..self },
                    Dispatch::Fatal,
                ),
                Wake::Terminal(TerminalInput::Resize(_, _)) => (self, Dispatch::Render),
                Wake::Terminal(TerminalInput::Key(key)) => (self, Dispatch::Forward(Event::Key(key))),
                Wake::Terminal(TerminalInput::Other) => (self, Dispatch::Nothing),
                Wake::BackendFinished { ticket, event } => if self.in_flight == Some(ticket) {
                    (Multiplexer { in_flight: None, ..self }, Dispatch::Forward(Event::Backend(event)))
                } else {
                    (self, Dispatch::Nothing)
                },
                Wake::RedrawTimerElapsed => if self.redraw_armed {
                    (Multiplexer { redraw_armed: false, ..self }, Dispatch::Render)
                } else {
                    (self, Dispatch::Nothing)
                },
            }
        }
    }

    /// What a feedback leads to.
    ///
    /// `Quit` ends the loop. `ExecuteTask` starts the task under a fresh
    /// ticket, which takes the place of the one in flight. `Redraw` arms the
    /// timer anew. `Nothing` changes nothing.
    pub open spec fn feedback(self, feedback: UiFeedback) -> (Multiplexer, LoopAction) {
        if !self.active {
            (self, LoopAction::Nothing)
        } else {
            match feedback {
                UiFeedback::Nothing => (self, LoopAction::Nothing),
                UiFeedback::Redraw => (
                    Multiplexer { redraw_armed: true, ..self },
                    LoopAction::ArmRedrawTimer { millis: REDRAW_DEBOUNCE_MILLIS },
                ),
                UiFeedback::Quit => (Multiplexer { active: false, ..self }, LoopAction::Stop),
                UiFeedback::ExecuteTask(task, block) => (
                    Multiplexer {
                        in_flight: Some(self.next_ticket),
                        next_ticket: ticket_after(self.next_ticket),
                        ..self
                    },
                    LoopAction::StartTask { ticket: self.next_ticket, task, block },
                ),
            }
        }
    }

    /// The loop as it starts.
    #[verifier::when_used_as_spec(spec_new)]
    pub fn new() -> (multiplexer: Multiplexer)
        ensures
            multiplexer == Self::spec_new(),
    {
        Multiplexer { active: true, in_flight: None, next_ticket: 0, redraw_armed: false }
    }

    /// Whether the loop goes on.
    pub fn is_active(&self) -> (active: bool)
        ensures
            active == self.active,
    {
        self.active
    }

    /// The ticket of the backend task that the loop waits for, if it waits for
    /// one.
    pub fn awaited_task(&self) -> (ticket: Option<u64>)
        ensures
            ticket == (if self.active {
                self.in_flight
            } else {
                None
            }),
    {
        if self.active {
            self.in_flight
        } else {
            None
        }
    }

    /// Whether the loop waits for the redraw timer.
    pub fn awaits_redraw_timer(&self) -> (armed: bool)
        ensures
            armed == (self.active && self.redraw_armed),
    {
        self.active && self.redraw_armed
    }

    /// Takes a wake, and says what to do with it.
    pub fn on_wake(&mut self, wake: Wake) -> (dispatch: Dispatch)
        ensures
            (*final(self), dispatch) == old(self).wake(wake),
    {
        if !self.active {
            return Dispatch::Nothing;
        }
        match wake {
            Wake::Terminal(TerminalInput::Closed) => {
                self.active = false;
                Dispatch::Fatal
            },
            Wake::Terminal(TerminalInput::Failed) => {
                self.active = false;
                Dispatch::Fatal
            },
            Wake::Terminal(TerminalInput::Resize(_, _)) => Dispatch::Render,
            Wake::Terminal(TerminalInput::Key(key)) => Dispatch::Forward(Event::Key(key)),
            Wake::Terminal(TerminalInput::Other) => Dispatch::Nothing,
            Wake::BackendFinished { ticket, event } => {
                if self.in_flight == Some(ticket) {
                    self.in_flight = None;
                    Dispatch::Forward(Event::Backend(event))
                } else {
                    Dispatch::Nothing
                }
            },
            Wake::RedrawTimerElapsed => {
                if self.redraw_armed {
                    self.redraw_armed = false;
                    Dispatch::Render
                } else {
                    Dispatch::Nothing
                }
            },
        }
    }

    /// Takes the feedback of the user interface, and says what to do next.
    pub fn on_feedback(&mut self, feedback: UiFeedback) -> (action: LoopAction)
        ensures
            (*final(self), action) == old(self).feedback(feedback),
    {
        if !self.active {
            return LoopAction::Nothing;
        }
        match feedback {
            UiFeedback::Nothing => LoopAction::Nothing,
            UiFeedback::Redraw => {
                self.redraw_armed = true;
                LoopAction::ArmRedrawTimer { millis: REDRAW_DEBOUNCE_MILLIS }
            },
            UiFeedback::Quit => {
                self.active = false;
                LoopAction::Stop
            },
            UiFeedback::ExecuteTask(task, block) => {
                let ticket = self.next_ticket;
                self.in_flight = Some(ticket);
                self.next_ticket = if ticket == u64::MAX {
                    0
                } else {
                    ticket + 1
                };
                LoopAction::StartTask { ticket, task, block }
            },
        }
    }
}

} // verus!
