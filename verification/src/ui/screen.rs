//! What all screens have in common: the keys they list, and the feedback they
//! give on an event.

use vstd::prelude::*;
use crate::task::Task;
use crate::ui::views::contested_resources::ContestedResourceVoteFormController;

verus! {

/// A key that a screen answers to, as the screen lists it for the operator.
#[derive(Clone, Copy, Debug, PartialEq, Eq)]
pub struct ScreenCommandKey {
    pub keybinding: &'static str,
    pub description: &'static str,
}

/// A key that switches something on and off, as the screen lists it.
#[derive(Clone, Copy, Debug, PartialEq, Eq)]
pub struct ScreenToggleKey {
    pub keybinding: &'static str,
    pub description: &'static str,
    pub toggle: bool,
}

impl ScreenCommandKey {
    /// A key and what it does.
    pub fn new(keybinding: &'static str, description: &'static str) -> (key: ScreenCommandKey)
        ensures
            key == (ScreenCommandKey { keybinding, description }),
    {
        ScreenCommandKey { keybinding, description }
    }
}

/// What a screen answers to an event.
pub enum ScreenFeedback {
    Nothing,
    /// The screen has changed and is to be drawn again.
    Redraw,
    /// Go back to the screen before this one.
    PreviousScreen,
    /// Run the task given. The flag says that the screen takes no further command
    /// until the task has completed.
    Task { task: Task, block: bool },
    /// Open this form.
    Form(ContestedResourceVoteFormController),
}

} // verus!
