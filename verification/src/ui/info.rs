//! The text panel of a screen: a text, and how far it is scrolled.

use vstd::prelude::*;
use vstd::utf8::encode_utf8;
use crate::keys::{Key, KeyEvent};

verus! {

/// How many line breaks `bytes`, a text in UTF-8, holds.
pub open spec fn line_breaks(bytes: Seq<u8>) -> nat
    decreases bytes.len(),
{
    if bytes.len() == 0 {
        0
    } else {
        line_breaks(bytes.drop_last()) + if bytes.last() == 10u8 {
            1nat
        } else {
            0nat
        }
    }
}

/// Counts the line breaks of `text`.
pub fn count_line_breaks(text: &str) -> (count: usize)
    ensures
        count == line_breaks(encode_utf8(text@)),
{
    let bytes = text.as_bytes();
    let mut count: usize = 0;
    let mut i: usize = 0;
    while i < bytes.len()
        invariant
            i <= bytes@.len(),
            count <= i,
            count == line_breaks(bytes@.take(i as int)),
        decreases bytes.len() - i,
    {
        assert(bytes@.take(i + 1).drop_last() =~= bytes@.take(i as int));
        if bytes[i] == 10u8 {
            count += 1;
        }
        i += 1;
    }
    assert(bytes@.take(i as int) =~= bytes@);
    count
}

/// A text panel.
#[derive(Clone, Debug, PartialEq, Eq)]
pub struct Info {
    pub text: String,
    /// Whether the panel scrolls.
    pub scrollable: bool,
    /// Whether the text reports a failure.
    pub error: bool,
    /// The index of the last line of the text.
    pub last_line: usize,
    /// The index of the line that the panel starts at.
    pub offset: usize,
}

impl Info {
    /// A panel that holds `text`, from its first line on.
    pub open spec fn holds(self, text: Seq<char>, scrollable: bool, error: bool) -> bool {
        &&& self.text@ == text
        &&& self.scrollable == scrollable
        &&& self.error == error
        &&& self.last_line == line_breaks(encode_utf8(self.text@))
        &&& self.offset == 0
    }

    /// The panel after `event`: it scrolls down a line on `Down` unless it is
    /// at the last line, up a line on `Up` unless it is at the first, and
    /// stays as it is on any other key and where it does not scroll.
    pub open spec fn after(self, event: KeyEvent) -> Info {
        if !self.scrollable {
            self
        } else if event.code == Key::Down && self.offset < self.last_line {
            Info { offset: (self.offset + 1) as usize, ..self }
        } else if event.code == Key::Up && self.offset > 0 {
            Info { offset: (self.offset - 1) as usize, ..self }
        } else {
            self
        }
    }

    fn with_text(text: String, scrollable: bool, error: bool) -> (info: Info)
        ensures
            info.holds(text@, scrollable, error),
            info.text == text,
    {
        let last_line = count_line_breaks(text.as_str());
        Info { text, scrollable, error, last_line, offset: 0 }
    }

    /// A panel that does not scroll.
    pub fn new_fixed(text: &str) -> (info: Info)
        ensures
            info.holds(text@, false, false),
    {
        Info::with_text(text.to_owned(), false, false)
    }

    /// A panel that scrolls.
    pub fn new_scrollable(text: &str) -> (info: Info)
        ensures
            info.holds(text@, true, false),
    {
        Info::with_text(text.to_owned(), true, false)
    }

    /// A panel that reports a failure.
    pub fn new_error(text: &str) -> (info: Info)
        ensures
            info.holds(text@, false, true),
    {
        Info::with_text(text.to_owned(), false, true)
    }

    /// A panel for the result of an operation: its text where it succeeded,
    /// the failure where it failed.
    pub fn new_from_result(result: Result<String, String>) -> (info: Info)
        ensures
            match result {
                Ok(text) => info.holds(text@, false, false),
                Err(failure) => info.holds(failure@, false, true),
            },
    {
        match result {
            Ok(text) => Info::with_text(text, false, false),
            Err(failure) => Info::with_text(failure, false, true),
        }
    }

    /// Scrolls the panel on `Down` and `Up`.
    pub fn on_event(&mut self, event: &KeyEvent)
        ensures
            *final(self) == old(self).after(*event),
    {
        if !self.scrollable {
            return ;
        }
        match event.code {
            Key::Down => {
                if self.offset < self.last_line {
                    self.offset = self.offset + 1;
                }
            },
            Key::Up => {
                if self.offset > 0 {
                    self.offset = self.offset - 1;
                }
            },
            _ => {},
        }
    }
}

} // verus!
