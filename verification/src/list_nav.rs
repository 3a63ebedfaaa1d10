//! Moving the selection of a list, as `ratatui`'s `ListState` moves it.
use ratatui::widgets::ListState;
use vstd::prelude::*;

verus! {

/// `a + b`, or `usize::MAX` where that overflows.
pub open spec fn saturating_add(a: usize, b: int) -> usize {
    if a + b <= usize::MAX {
        (a + b) as usize
    } else {
        usize::MAX
    }
}

/// `a - b`, or 0 where that is negative.
pub open spec fn saturating_sub(a: usize, b: int) -> usize {
    if a - b >= 0 {
        (a - b) as usize
    } else {
        0
    }
}

/// The selection after "next": one further down, or the first row when nothing is selected.
pub open spec fn next_selection(selected: Option<usize>) -> Option<usize> {
    match selected {
        Some(i) => Some(saturating_add(i, 1)),
        None => Some(0),
    }
}

/// The selection after "previous": one further up, or the last possible row
/// (`usize::MAX`) when nothing is selected.
pub open spec fn previous_selection(selected: Option<usize>) -> Option<usize> {
    match selected {
        Some(i) => Some(saturating_sub(i, 1)),
        None => Some(usize::MAX),
    }
}

/// The selection after scrolling down by `amount` rows, counting from row 0
/// when nothing is selected.
pub open spec fn scrolled_down(selected: Option<usize>, amount: u16) -> Option<usize> {
    Some(
        saturating_add(
            match selected {
                Some(i) => i,
                None => 0,
            },
            amount as int,
        ),
    )
}

/// The selection after scrolling up by `amount` rows, counting from row 0
/// when nothing is selected.
pub open spec fn scrolled_up(selected: Option<usize>, amount: u16) -> Option<usize> {
    Some(
        saturating_sub(
            match selected {
                Some(i) => i,
                None => 0,
            },
            amount as int,
        ),
    )
}

/// Calls `ListState::select_next` on a list state with the given selection and
/// gives back the new selection: `selected.map_or(0, |i| i.saturating_add(1))`.
#[verifier::external_body]
pub(crate) fn list_select_next(selected: Option<usize>) -> (r: Option<usize>)
    ensures
        r == next_selection(selected),
{
    let mut state = ListState::default().with_selected(selected);
    state.select_next();
    state.selected()
}

/// Calls `ListState::select_previous` on a list state with the given selection and
/// gives back the new selection: `selected.map_or(usize::MAX, |i| i.saturating_sub(1))`.
#[verifier::external_body]
pub(crate) fn list_select_previous(selected: Option<usize>) -> (r: Option<usize>)
    ensures
        r == previous_selection(selected),
{
    let mut state = ListState::default().with_selected(selected);
    state.select_previous();
    state.selected()
}

/// Calls `ListState::scroll_down_by` on a list state with the given selection and
/// gives back the new selection: `selected.unwrap_or_default().saturating_add(amount)`.
#[verifier::external_body]
pub(crate) fn list_scroll_down_by(selected: Option<usize>, amount: u16) -> (r: Option<usize>)
    ensures
        r == scrolled_down(selected, amount),
{
    let mut state = ListState::default().with_selected(selected);
    state.scroll_down_by(amount);
    state.selected()
}

/// Calls `ListState::scroll_up_by` on a list state with the given selection and
/// gives back the new selection: `selected.unwrap_or_default().saturating_sub(amount)`.
#[verifier::external_body]
pub(crate) fn list_scroll_up_by(selected: Option<usize>, amount: u16) -> (r: Option<usize>)
    ensures
        r == scrolled_up(selected, amount),
{
    let mut state = ListState::default().with_selected(selected);
    state.scroll_up_by(amount);
    state.selected()
}

} // verus!
