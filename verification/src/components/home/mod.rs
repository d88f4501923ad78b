//! The home screen: search box, result list and crate details.

pub mod action_handler;
pub mod draw;
pub mod focusable;
pub mod key_handler;

use vstd::prelude::*;

pub use crate::action::{HomeAction, SearchAction};
use crate::action::Action;
pub use crate::components::home::focusable::{is_results_or_details_focused, Focusable};
use crate::components::ux::dropdown::{Dropdown, ScopeDropdown, SortDropdown};
use crate::search::cargo_crate::Crate;
use crate::search::crate_search_manager::CrateSearchManager;
use crate::search::search_options::{Scope, Sort};
use crate::search::search_results::SearchResults;
use crate::text::{concat2, decimal, to_decimal};

verus! {

/// The home (main) component.
#[derive(Debug)]
pub struct Home {
    pub crate_search_manager: CrateSearchManager,
    pub left_column_width_percent: u16,
    pub show_usage: bool,
    pub focused: Focusable,
    /// The text of the search box.
    pub input: String,
    pub scope_dropdown: ScopeDropdown,
    pub sort_dropdown: SortDropdown,
    pub is_searching: bool,
    pub search_results: Option<SearchResults>,
    pub vertical_usage_scroll: usize,
}

/// The status shown while page `page` loads.
pub open spec fn loading_page_text(page: usize) -> Seq<char> {
    "Loading page "@ + decimal(page as nat)
}

/// Whether `action` asks for page `page` of the search for `query`, with
/// the usage left as it is and the loading status.
pub open spec fn is_page_request(action: Action, query: String, page: usize) -> bool {
    action matches Action::Home(
        HomeAction::Search(SearchAction::Search { term, page: p, hide_usage, status }),
    ) && term == query && p == page && !hide_usage && (status matches Some(text) && text@
        == loading_page_text(page))
}

impl Home {
    /// The parts of the state are well-formed, and the left column takes
    /// no more than the whole width.
    pub open spec fn wf(&self) -> bool {
        &&& self.crate_search_manager.wf()
        &&& self.left_column_width_percent <= 100
        &&& self.search_results.is_some() ==> self.search_results.unwrap().wf()
    }

    /// Whether the focus is on a button of the details pane.
    pub open spec fn spec_is_details_focused(&self) -> bool {
        self.focused.is_details()
    }

    /// Whether the focus is on the result list or on a button of the
    /// details pane.
    pub open spec fn spec_is_results_or_details_focused(&self) -> bool {
        self.focused == Focusable::Results || self.focused.is_details()
    }

    /// The selected record, where there are results and the selection
    /// points at one.
    pub open spec fn spec_selected(&self) -> Option<Crate> {
        match self.search_results {
            Some(results) => results.spec_selected(),
            None => None,
        }
    }

    /// The selected record, where the focus is on the results or the
    /// details.
    pub open spec fn spec_focused_crate(&self) -> Option<Crate> {
        if self.spec_is_results_or_details_focused() {
            self.spec_selected()
        } else {
            None
        }
    }

    /// Whether the button is shown: the documentation and repository
    /// buttons where the selected record names the link, the other two
    /// where a record is selected. Parts that are no button are not shown.
    pub open spec fn spec_should_show_button(&self, f: Focusable) -> bool {
        match f {
            Focusable::DocsButton => self.spec_selected().is_some()
                && self.spec_selected().unwrap().documentation.is_some(),
            Focusable::RepositoryButton => self.spec_selected().is_some()
                && self.spec_selected().unwrap().repository.is_some(),
            Focusable::CratesIoButton => self.spec_selected().is_some(),
            Focusable::LibRsButton => self.spec_selected().is_some(),
            _ => false,
        }
    }

    /// Whether the state is well-formed.
    pub fn is_wf(&self) -> (r: bool)
        ensures
            r == self.wf(),
    {
        let results_ok = match &self.search_results {
            Some(results) => results.is_wf(),
            None => true,
        };
        self.crate_search_manager.is_wf() && self.left_column_width_percent <= 100 && results_ok
    }

    /// The home screen at the start: the usage shown, the focus on the
    /// search box, which holds the initial search term if there is one, and
    /// nothing searched.
    pub fn new(initial_search_term: Option<String>) -> (r: Home)
        ensures
            r.wf(),
            r.crate_search_manager.can_issue(),
            r.left_column_width_percent == 40,
            r.show_usage,
            r.focused == Focusable::Search,
            r.input@ == match initial_search_term {
                Some(t) => t@,
                None => Seq::<char>::empty(),
            },
            r.scope_dropdown.spec_selected() == Scope::Online,
            r.sort_dropdown.spec_selected() == Sort::Relevance,
            !r.scope_dropdown.is_focused,
            !r.sort_dropdown.is_focused,
            !r.is_searching,
            r.search_results.is_none(),
            r.vertical_usage_scroll == 0,
    {
        let input = match initial_search_term {
            Some(t) => t,
            None => String::new(),
        };
        Home {
            crate_search_manager: CrateSearchManager::new(),
            left_column_width_percent: 40,
            show_usage: true,
            focused: Focusable::Search,
            input,
            scope_dropdown: Dropdown::new(String::from_str("Search in"), 1),
            sort_dropdown: Dropdown::new(String::from_str("Sort by"), 0),
            is_searching: false,
            search_results: None,
            vertical_usage_scroll: 0,
        }
    }

    /// The action with which the screen starts: a search for the initial
    /// term, where there is one.
    pub fn init(&self) -> (r: Option<Action>)
        ensures
            self.input@.len() == 0 ==> r.is_none(),
            self.input@.len() > 0 ==> r == Some(
                Action::Home(
                    HomeAction::Search(
                        SearchAction::Search {
                            term: self.input,
                            page: 1,
                            hide_usage: true,
                            status: None,
                        },
                    ),
                ),
            ),
    {
        if !self.input.as_str().is_empty() {
            Some(
                Action::Home(
                    HomeAction::Search(
                        SearchAction::Search {
                            term: self.input.clone(),
                            page: 1,
                            hide_usage: true,
                            status: None,
                        },
                    ),
                ),
            )
        } else {
            None
        }
    }

    /// The action that leads to page `page` of the search for `query`:
    /// a search for the page brought into the range of pages that exist,
    /// or none where that is the current page or nothing has been
    /// searched.
    pub fn go_to_page(&self, page: usize, query: String) -> (r: Option<Action>)
        requires
            self.wf(),
        ensures
            match self.search_results {
                Some(results) => match results@.go_to_page(page as int) {
                    Some(target) => r.is_some() && is_page_request(
                        r.unwrap(),
                        query,
                        target as usize,
                    ),
                    None => r.is_none(),
                },
                None => r.is_none(),
            },
    {
        match &self.search_results {
            Some(results) => match results.go_to_page(page) {
                Some(target) => Some(page_request(query, target)),
                None => None,
            },
            None => None,
        }
    }

    /// The action that leads `pages` pages back.
    pub fn go_pages_back(&self, pages: usize, query: String) -> (r: Option<Action>)
        requires
            self.wf(),
        ensures
            match self.search_results {
                Some(results) => match results@.go_to_page(results@.page_back(pages as int)) {
                    Some(target) => r.is_some() && is_page_request(
                        r.unwrap(),
                        query,
                        target as usize,
                    ),
                    None => r.is_none(),
                },
                None => r.is_none(),
            },
    {
        match &self.search_results {
            Some(results) => match results.go_pages_back(pages) {
                Some(target) => Some(page_request(query, target)),
                None => None,
            },
            None => None,
        }
    }

    /// The action that leads `pages` pages forward.
    pub fn go_pages_forward(&self, pages: usize, query: String) -> (r: Option<Action>)
        requires
            self.wf(),
        ensures
            match self.search_results {
                Some(results) => match results@.go_to_page(results@.page_forward(pages as int)) {
                    Some(target) => r.is_some() && is_page_request(
                        r.unwrap(),
                        query,
                        target as usize,
                    ),
                    None => r.is_none(),
                },
                None => r.is_none(),
            },
    {
        match &self.search_results {
            Some(results) => match results.go_pages_forward(pages) {
                Some(target) => Some(page_request(query, target)),
                None => None,
            },
            None => None,
        }
    }

    /// Whether the focus is on a button of the details pane.
    pub fn is_details_focused(&self) -> (r: bool)
        ensures
            r == self.spec_is_details_focused(),
    {
        self.focused == Focusable::DocsButton || self.focused == Focusable::RepositoryButton
            || self.focused == Focusable::CratesIoButton || self.focused == Focusable::LibRsButton
    }

    /// Whether the focus is on the result list or on a button of the
    /// details pane.
    pub fn is_results_or_details_focused(&self) -> (r: bool)
        ensures
            r == self.spec_is_results_or_details_focused(),
    {
        self.focused == Focusable::Results || self.is_details_focused()
    }

    /// The selected record, where there are results and the selection
    /// points at one.
    pub fn selected(&self) -> (r: Option<&Crate>)
        ensures
            match r {
                Some(c) => self.spec_selected() == Some(*c),
                None => self.spec_selected().is_none(),
            },
    {
        match &self.search_results {
            Some(results) => results.selected(),
            None => None,
        }
    }

    /// The selected record, where the focus is on the results or the
    /// details.
    pub fn get_focused_crate(&self) -> (r: Option<&Crate>)
        ensures
            match r {
                Some(c) => self.spec_focused_crate() == Some(*c),
                None => self.spec_focused_crate().is_none(),
            },
    {
        if self.is_results_or_details_focused() {
            self.selected()
        } else {
            None
        }
    }

    /// Whether the button is shown.
    pub fn should_show_button(&self, f: &Focusable) -> (r: bool)
        ensures
            r == self.spec_should_show_button(*f),
    {
        match self.selected() {
            Some(selected) => match f {
                Focusable::DocsButton => selected.documentation.is_some(),
                Focusable::RepositoryButton => selected.repository.is_some(),
                Focusable::CratesIoButton => true,
                Focusable::LibRsButton => true,
                _ => false,
            },
            None => false,
        }
    }
}

/// The action that asks for page `page` of the search for `query`.
pub fn page_request(query: String, page: usize) -> (r: Action)
    ensures
        is_page_request(r, query, page),
{
    let number = to_decimal(page as u64);
    let status = concat2("Loading page ", number.as_str());
    Action::Home(
        HomeAction::Search(
            SearchAction::Search { term: query, page, hide_usage: false, status: Some(status) },
        ),
    )
}

} // verus!
