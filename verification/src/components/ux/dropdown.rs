//! A list of choices of which one is selected.

use vstd::prelude::*;

use crate::search::list_state::{next_index, previous_index, ListState};
use crate::search::search_options::{Scope, Sort};
use crate::tui::KeyCode;

verus! {

/// A choice that a dropdown can list.
pub trait DropdownItem: Sized + Copy {
    /// The choice listed at `ix`, if there is one.
    spec fn spec_item_at(ix: usize) -> Option<Self>;

    /// The choice that counts as selected where the selection points at
    /// none.
    spec fn spec_default_item() -> Self;

    /// The choice listed at `ix`, if there is one.
    fn item_at(ix: usize) -> (r: Option<Self>)
        ensures
            r == Self::spec_item_at(ix),
    ;

    /// The choice that counts as selected where the selection points at
    /// none.
    fn default_item() -> (r: Self)
        ensures
            r == Self::spec_default_item(),
    ;
}

impl DropdownItem for Scope {
    open spec fn spec_item_at(ix: usize) -> Option<Scope> {
        if ix == 0 {
            Some(Scope::All)
        } else if ix == 1 {
            Some(Scope::Online)
        } else if ix == 2 {
            Some(Scope::Project)
        } else if ix == 3 {
            Some(Scope::Installed)
        } else {
            None
        }
    }

    open spec fn spec_default_item() -> Scope {
        Scope::Online
    }

    fn item_at(ix: usize) -> (r: Option<Scope>) {
        Scope::from_index(ix)
    }

    fn default_item() -> (r: Scope) {
        Scope::Online
    }
}

impl DropdownItem for Sort {
    open spec fn spec_item_at(ix: usize) -> Option<Sort> {
        if ix == 0 {
            Some(Sort::Relevance)
        } else if ix == 1 {
            Some(Sort::Name)
        } else if ix == 2 {
            Some(Sort::Downloads)
        } else if ix == 3 {
            Some(Sort::RecentDownloads)
        } else if ix == 4 {
            Some(Sort::RecentlyUpdated)
        } else if ix == 5 {
            Some(Sort::NewlyAdded)
        } else {
            None
        }
    }

    open spec fn spec_default_item() -> Sort {
        Sort::Relevance
    }

    fn item_at(ix: usize) -> (r: Option<Sort>) {
        Sort::from_index(ix)
    }

    fn default_item() -> (r: Sort) {
        Sort::Relevance
    }
}

/// The selection of a dropdown after a key press: with the focus, Up and
/// Down move it.
pub open spec fn spec_dropdown_selection(is_focused: bool, selected: Option<usize>, code: KeyCode) -> Option<
    usize,
> {
    if !is_focused {
        selected
    } else if code == KeyCode::Up {
        Some(previous_index(selected))
    } else if code == KeyCode::Down {
        Some(next_index(selected))
    } else {
        selected
    }
}

/// A dropdown over the choices of type `T`.
#[derive(Debug, PartialEq, Eq)]
pub struct Dropdown<T> {
    pub header: String,
    pub is_focused: bool,
    pub state: ListState,
    pub fallback: T,
}

/// The dropdown of search scopes.
pub type ScopeDropdown = Dropdown<Scope>;

/// The dropdown of sort keys.
pub type SortDropdown = Dropdown<Sort>;

impl<T: DropdownItem> Dropdown<T> {
    /// The selected choice: the one the selection points at, the default
    /// one where it points at none.
    pub open spec fn spec_selected(&self) -> T {
        match self.state.selected {
            Some(ix) => match T::spec_item_at(ix) {
                Some(v) => v,
                None => T::spec_default_item(),
            },
            None => T::spec_default_item(),
        }
    }

    /// A dropdown titled `header` with the choice at `selected_ix`
    /// selected.
    pub fn new(header: String, selected_ix: usize) -> (r: Dropdown<T>)
        ensures
            r.header == header,
            !r.is_focused,
            r.state == (ListState { offset: 0, selected: Some(selected_ix) }),
            r.fallback == T::spec_default_item(),
    {
        Dropdown {
            header,
            is_focused: false,
            state: ListState { offset: 0, selected: Some(selected_ix) },
            fallback: T::default_item(),
        }
    }

    /// Gives the dropdown the focus, or takes it away.
    pub fn set_is_focused(&mut self, focused: bool)
        ensures
            final(self).is_focused == focused,
            final(self).header == old(self).header,
            final(self).state == old(self).state,
            final(self).fallback == old(self).fallback,
    {
        self.is_focused = focused;
    }

    /// The selected choice.
    pub fn get_selected(&self) -> (r: T)
        ensures
            r == self.spec_selected(),
    {
        if let Some(ix) = self.state.selected() {
            if let Some(value) = T::item_at(ix) {
                return value;
            }
        }
        T::default_item()
    }

    /// Takes a key press. Without the focus nothing happens. Up and Down
    /// move the selection; Enter returns the selected choice.
    pub fn handle_key_event(&mut self, key: KeyCode) -> (r: Option<T>)
        ensures
            final(self).header == old(self).header,
            final(self).is_focused == old(self).is_focused,
            final(self).fallback == old(self).fallback,
            final(self).state.offset == old(self).state.offset,
            final(self).state.selected == spec_dropdown_selection(
                old(self).is_focused,
                old(self).state.selected,
                key,
            ),
            r == if old(self).is_focused && key == KeyCode::Enter {
                Some(old(self).spec_selected())
            } else {
                None
            },
    {
        if !self.is_focused {
            return None;
        }
        match key {
            KeyCode::Up => {
                self.state.select_previous();
                None
            },
            KeyCode::Down => {
                self.state.select_next();
                None
            },
            KeyCode::Enter => Some(self.get_selected()),
            _ => None,
        }
    }

    /// Prepares the dropdown for being drawn: with the focus and nothing
    /// selected, the first choice becomes selected. Returns whether the
    /// dropdown is to be drawn.
    pub fn before_draw(&mut self) -> (r: bool)
        ensures
            r == old(self).is_focused,
            final(self).header == old(self).header,
            final(self).is_focused == old(self).is_focused,
            final(self).fallback == old(self).fallback,
            final(self).state.offset == old(self).state.offset,
            final(self).state.selected == if old(self).is_focused && old(
                self,
            ).state.selected.is_none() {
                Some(0usize)
            } else {
                old(self).state.selected
            },
    {
        if !self.is_focused {
            return false;
        }
        if self.state.selected().is_none() {
            self.state.select_first();
        }
        true
    }
}

} // verus!
