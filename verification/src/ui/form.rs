//! Forms: a choice among options, and what a form answers to a key.

use vstd::prelude::*;
use tui_realm_stdlib::List;
use crate::keys::{Key, KeyEvent};
use crate::task::Task;
use crate::ui::list::{
    index_above, index_below, list_index, list_len, list_rewinds, move_down, move_up, scrolling_list,
    selected_index,
};

verus! {

/// What an input answers to a key.
#[derive(Debug, PartialEq, Eq)]
pub enum InputStatus<T> {
    /// The input is complete, with this value.
    Done(T),
    /// The input has changed and is to be drawn again.
    Redraw,
    /// The operator has left the input.
    Exit,
    Nothing,
}

/// What a form answers to a key.
#[derive(Debug, PartialEq, Eq)]
pub enum FormStatus {
    /// The form is complete, and the task given is to be run.
    Done { task: Task, block: bool },
    Redraw,
    Exit,
    Nothing,
}

/// What a form answers when its input answered `status` and is not complete.
pub open spec fn status_of_input<T>(status: InputStatus<T>) -> FormStatus {
    match status {
        InputStatus::Redraw => FormStatus::Redraw,
        InputStatus::Exit => FormStatus::Exit,
        _ => FormStatus::Nothing,
    }
}

/// A choice among options, as the contracts speak of it.
pub struct SelectView {
    /// The texts of the options, in order.
    pub options: Seq<Seq<char>>,
    /// The index of the option that the cursor is on.
    pub selected: nat,
}

impl SelectView {
    /// The cursor is on an option, if there is any option.
    pub open spec fn wf(self) -> bool {
        if self.options.len() == 0 {
            self.selected == 0
        } else {
            self.selected < self.options.len()
        }
    }

    /// The choice after a key: `Down` and `Up` move the cursor by one option
    /// and stop at the ends.
    pub open spec fn after(self, event: KeyEvent) -> SelectView {
        match event.code {
            Key::Down => SelectView {
                selected: index_below(self.selected, self.options.len(), false),
                ..self
            },
            Key::Up => SelectView {
                selected: index_above(self.selected, self.options.len(), false),
                ..self
            },
            _ => self,
        }
    }

    /// The answer to a key: `Enter` completes the input with the option that
    /// the cursor is on, `Down` and `Up` ask for a redraw, and control with
    /// `q` leaves.
    pub open spec fn answer(self, event: KeyEvent) -> InputStatus<Seq<char>> {
        match event.code {
            Key::Enter => if self.selected < self.options.len() {
                InputStatus::Done(self.options[self.selected as int])
            } else {
                InputStatus::Nothing
            },
            Key::Down => InputStatus::Redraw,
            Key::Up => InputStatus::Redraw,
            _ => if event == KeyEvent::ctrl('q') {
                InputStatus::Exit
            } else {
                InputStatus::Nothing
            },
        }
    }
}

/// The texts of `options`.
pub open spec fn texts(options: Seq<String>) -> Seq<Seq<char>> {
    Seq::new(options.len(), |i: int| options[i]@)
}

/// `status`, with the text of its value in the value's place.
pub open spec fn text_of(status: InputStatus<String>) -> InputStatus<Seq<char>> {
    match status {
        InputStatus::Done(value) => InputStatus::Done(value@),
        InputStatus::Redraw => InputStatus::Redraw,
        InputStatus::Exit => InputStatus::Exit,
        InputStatus::Nothing => InputStatus::Nothing,
    }
}

/// A choice among options of text.
pub struct SelectInput {
    options: Vec<String>,
    select: List,
}

impl View for SelectInput {
    type V = SelectView;

    closed spec fn view(&self) -> SelectView {
        SelectView { options: texts(self.options@), selected: list_index(self.select) }
    }
}

impl SelectInput {
    /// What holds of every choice that this module made.
    pub closed spec fn wf(&self) -> bool {
        &&& self@.wf()
        &&& list_len(self.select) == self.options@.len()
        &&& !list_rewinds(self.select)
    }

    /// A choice among `options`, with the cursor on the first.
    pub fn new(options: Vec<String>) -> (input: SelectInput)
        ensures
            input.wf(),
            input@ == (SelectView { options: texts(options@), selected: 0 }),
    {
        let select = scrolling_list(&options);
        SelectInput { options, select }
    }

    /// The options, in order.
    pub fn options(&self) -> (options: &Vec<String>)
        ensures
            texts(options@) == self@.options,
    {
        &self.options
    }

    /// The index of the option that the cursor is on.
    pub fn selected(&self) -> (selected: usize)
        ensures
            selected == self@.selected,
    {
        selected_index(&self.select)
    }

    /// Takes a key.
    pub fn on_event(&mut self, event: KeyEvent) -> (status: InputStatus<String>)
        requires
            old(self).wf(),
        ensures
            final(self).wf(),
            final(self)@ == old(self)@.after(event),
            text_of(status) == old(self)@.answer(event),
    {
        match event.code {
            Key::Enter => {
                let at = selected_index(&self.select);
                if at < self.options.len() {
                    assert(texts(self.options@)[at as int] == self.options@[at as int]@);
                    InputStatus::Done(self.options[at].clone())
                } else {
                    InputStatus::Nothing
                }
            },
            Key::Down => {
                move_down(&mut self.select);
                InputStatus::Redraw
            },
            Key::Up => {
                move_up(&mut self.select);
                InputStatus::Redraw
            },
            _ => {
                if event.is_ctrl('q') {
                    InputStatus::Exit
                } else {
                    InputStatus::Nothing
                }
            },
        }
    }
}

} // verus!
