//! What reaches the active screen, and what the user interface answers.

use vstd::prelude::*;
use crate::keys::KeyEvent;
use crate::task::{BackendEvent, Task};

verus! {

/// A high-level event, as the event loop produces it.
#[derive(Debug, PartialEq, Eq)]
pub enum Event {
    /// A key was pressed.
    Key(KeyEvent),
    /// The backend task in flight has completed.
    Backend(BackendEvent),
    /// The redraw timer ran out. The loop consumes this itself.
    RedrawDebounceTimeout,
}

/// What the user interface asks of the event loop after an event.
#[derive(Debug, PartialEq, Eq)]
pub enum UiFeedback {
    /// Nothing is asked for.
    Nothing,
    /// Render, once requests have stopped coming for the debounce interval.
    Redraw,
    /// Leave the loop.
    Quit,
    /// Start the task given. The flag says that the user interface will ask for no
    /// other task until this one has completed.
    ExecuteTask(Task, bool),
}

} // verus!
