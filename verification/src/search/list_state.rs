//! Which item of a list is selected.
//!
//! The state is held as plain values; the moves of the selection are those
//! of `ratatui`'s list widget, which are called here.

use vstd::prelude::*;

verus! {

/// Selection state of a list: the selected item, if any, and the first
/// item shown.
#[derive(Debug, Clone, Copy, PartialEq, Eq, Structural)]
pub struct ListState {
    pub offset: usize,
    pub selected: Option<usize>,
}

/// The index after `selected`: the first item where nothing is selected;
/// the largest index stays.
pub open spec fn next_index(selected: Option<usize>) -> usize {
    match selected {
        None => 0,
        Some(i) => if i == usize::MAX {
            i
        } else {
            (i + 1) as usize
        },
    }
}

/// The index before `selected`: the largest index, which stands for the
/// last item, where nothing is selected; the first item stays.
pub open spec fn previous_index(selected: Option<usize>) -> usize {
    match selected {
        None => usize::MAX,
        Some(i) => if i == 0 {
            i
        } else {
            (i - 1) as usize
        },
    }
}

/// `ListState::select` of `ratatui`. Trusted: the selection becomes
/// `index`, and the offset is reset to 0 where `index` is `None` and kept
/// otherwise.
#[verifier::external_body]
fn widget_select(state: ListState, index: Option<usize>) -> (r: ListState)
    ensures
        r.selected == index,
        r.offset == if index.is_none() {
            0
        } else {
            state.offset
        },
{
    let mut s = ratatui::widgets::ListState::default().with_offset(state.offset).with_selected(
        state.selected,
    );
    s.select(index);
    ListState { offset: s.offset(), selected: s.selected() }
}

/// `ListState::select_next` of `ratatui`. Trusted: the selection moves to
/// the index after the selected one, saturating at the largest index, or
/// to 0 where nothing was selected; the offset is kept.
#[verifier::external_body]
fn widget_select_next(state: ListState) -> (r: ListState)
    ensures
        r.selected == Some(next_index(state.selected)),
        r.offset == state.offset,
{
    let mut s = ratatui::widgets::ListState::default().with_offset(state.offset).with_selected(
        state.selected,
    );
    s.select_next();
    ListState { offset: s.offset(), selected: s.selected() }
}

/// `ListState::select_previous` of `ratatui`. Trusted: the selection moves
/// to the index before the selected one, saturating at 0, or to the
/// largest index where nothing was selected; the offset is kept.
#[verifier::external_body]
fn widget_select_previous(state: ListState) -> (r: ListState)
    ensures
        r.selected == Some(previous_index(state.selected)),
        r.offset == state.offset,
{
    let mut s = ratatui::widgets::ListState::default().with_offset(state.offset).with_selected(
        state.selected,
    );
    s.select_previous();
    ListState { offset: s.offset(), selected: s.selected() }
}

/// `ListState::select_first` of `ratatui`. Trusted: index 0 becomes
/// selected; the offset is kept.
#[verifier::external_body]
fn widget_select_first(state: ListState) -> (r: ListState)
    ensures
        r.selected == Some(0usize),
        r.offset == state.offset,
{
    let mut s = ratatui::widgets::ListState::default().with_offset(state.offset).with_selected(
        state.selected,
    );
    s.select_first();
    ListState { offset: s.offset(), selected: s.selected() }
}

/// `ListState::select_last` of `ratatui`. Trusted: the largest index, which
/// stands for the last item, becomes selected; the offset is kept.
#[verifier::external_body]
fn widget_select_last(state: ListState) -> (r: ListState)
    ensures
        r.selected == Some(usize::MAX),
        r.offset == state.offset,
{
    let mut s = ratatui::widgets::ListState::default().with_offset(state.offset).with_selected(
        state.selected,
    );
    s.select_last();
    ListState { offset: s.offset(), selected: s.selected() }
}

impl ListState {
    /// The index that stands for the last item of a list, whatever its
    /// length.
    pub const LAST: usize = usize::MAX;

    /// The selected index as stored, `LAST` included.
    pub fn selected(&self) -> (r: Option<usize>)
        ensures
            r == self.selected,
    {
        self.selected
    }

    /// The first item shown.
    pub fn offset(&self) -> (r: usize)
        ensures
            r == self.offset,
    {
        self.offset
    }

    /// Selects `index`, or nothing. Selecting nothing also shows the list
    /// from its first item again.
    pub fn select(&mut self, index: Option<usize>)
        ensures
            final(self).selected == index,
            final(self).offset == if index.is_none() {
                0
            } else {
                old(self).offset
            },
    {
        *self = widget_select(*self, index);
    }

    /// Selects the item after the selected one, or the first item where
    /// nothing is selected.
    pub fn select_next(&mut self)
        ensures
            final(self).selected == Some(next_index(old(self).selected)),
            final(self).offset == old(self).offset,
    {
        *self = widget_select_next(*self);
    }

    /// Selects the item before the selected one, or the last item where
    /// nothing is selected.
    pub fn select_previous(&mut self)
        ensures
            final(self).selected == Some(previous_index(old(self).selected)),
            final(self).offset == old(self).offset,
    {
        *self = widget_select_previous(*self);
    }

    /// Selects the first item.
    pub fn select_first(&mut self)
        ensures
            final(self).selected == Some(0usize),
            final(self).offset == old(self).offset,
    {
        *self = widget_select_first(*self);
    }

    /// Selects the last item, whatever the length of the list.
    pub fn select_last(&mut self)
        ensures
            final(self).selected == Some(usize::MAX),
            final(self).offset == old(self).offset,
    {
        *self = widget_select_last(*self);
    }
}

impl Default for ListState {
    fn default() -> (r: ListState)
        ensures
            r.selected.is_none(),
            r.offset == 0,
    {
        ListState { offset: 0, selected: None }
    }
}

} // verus!
