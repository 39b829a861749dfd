//! The scrolling list of `tui_realm_stdlib`, as the screens use it: a count
//! of rows and a cursor on one of them.

use vstd::prelude::*;
use tui_realm_stdlib::List;
use tuirealm::command::{Cmd, Direction};
use tuirealm::props::{AttrValue, Attribute, BorderSides, Borders, Color, TextSpan};
use tuirealm::MockComponent;

verus! {

/// `tui_realm_stdlib::List`, carried as it is: nothing inside it is read
/// here but through the functions below.
#[verifier::external_type_specification]
#[verifier::external_body]
pub struct ExList(List);

/// The number of rows that a list counts: its `states.list_len`.
pub uninterp spec fn list_len(list: List) -> nat;

/// The index of the row that the cursor of a list is on: its
/// `states.list_index`.
pub uninterp spec fn list_index(list: List) -> nat;

/// Whether the cursor of a list goes round from one end to the other: its
/// `Rewind` attribute, which is off unless set.
pub uninterp spec fn list_rewinds(list: List) -> bool;

/// The index after the cursor went down one row: the next row; on the last
/// row the first where the list goes round, and the same where it does not.
pub open spec fn index_below(index: nat, len: nat, rewinds: bool) -> nat {
    if index + 1 < len {
        index + 1
    } else if rewinds {
        0
    } else {
        index
    }
}

/// The index after the cursor went up one row: the row before; on the first
/// row the last where the list goes round and has rows, and the same where it
/// does not.
pub open spec fn index_above(index: nat, len: nat, rewinds: bool) -> nat {
    if index > 0 {
        (index - 1) as nat
    } else if rewinds && len > 0 {
        (len - 1) as nat
    } else {
        index
    }
}

/// Builds a `List` with the builder calls `rows`, `borders`, `selected_line`
/// and `highlighted_color`, each row one span of the text given, then sets its
/// `Scroll` and `Focus` attributes. Claimed: the list counts one row for each
/// text (`attr` with `Content` sets the length); its cursor is on row 0 (the
/// index of a new list is 0, and `selected_line` moves nothing while the list
/// does not yet scroll); and it does not go round (no `Rewind` attribute is
/// set).
#[verifier::external_body]
pub(crate) fn scrolling_list(rows: &Vec<String>) -> (list: List)
    ensures
        list_len(list) == rows@.len(),
        list_index(list) == 0,
        !list_rewinds(list),
{
    let table = rows.iter().map(|row| vec![TextSpan::new(row.as_str())]).collect();
    let mut list = List::default()
        .rows(table)
        .borders(Borders::default().sides(BorderSides::LEFT | BorderSides::TOP | BorderSides::BOTTOM))
        .selected_line(0)
        .highlighted_color(Color::Magenta);
    list.attr(Attribute::Scroll, AttrValue::Flag(true));
    list.attr(Attribute::Focus, AttrValue::Flag(true));
    list
}

/// Calls `perform` with `Cmd::Move(Direction::Down)`. Claimed: the count of
/// rows and the going round stay, and the cursor goes down one row as
/// `ListStates::incr_list_index` moves it.
#[verifier::external_body]
pub(crate) fn move_down(list: &mut List)
    ensures
        list_len(*final(list)) == list_len(*old(list)),
        list_rewinds(*final(list)) == list_rewinds(*old(list)),
        list_index(*final(list)) == index_below(
            list_index(*old(list)),
            list_len(*old(list)),
            list_rewinds(*old(list)),
        ),
{
    list.perform(Cmd::Move(Direction::Down));
}

/// Calls `perform` with `Cmd::Move(Direction::Up)`. Claimed: the count of rows
/// and the going round stay, and the cursor goes up one row as
/// `ListStates::decr_list_index` moves it.
#[verifier::external_body]
pub(crate) fn move_up(list: &mut List)
    ensures
        list_len(*final(list)) == list_len(*old(list)),
        list_rewinds(*final(list)) == list_rewinds(*old(list)),
        list_index(*final(list)) == index_above(
            list_index(*old(list)),
            list_len(*old(list)),
            list_rewinds(*old(list)),
        ),
{
    list.perform(Cmd::Move(Direction::Up));
}

/// Reads the public field `states.list_index` of a `List`, which is what the
/// list's `state` reports while it scrolls. Claimed: it is the index of the
/// row that the cursor is on.
#[verifier::external_body]
pub(crate) fn selected_index(list: &List) -> (index: usize)
    ensures
        index == list_index(*list),
{
    list.states.list_index
}

} // verus!
