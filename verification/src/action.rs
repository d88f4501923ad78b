//! The actions that drive the application.

use vstd::prelude::*;

use crate::components::home::focusable::Focusable;
use crate::components::status_bar::StatusAction;
use crate::search::cargo_crate::RegistryCrate;
use crate::search::search_options::{Scope, Sort};
use crate::search::search_results::SearchResults;

verus! {

/// What is asked of the search and of the result list.
#[derive(Debug, Clone, PartialEq, Eq)]
pub enum SearchAction {
    Clear,
    Search { term: String, page: usize, hide_usage: bool, status: Option<String> },
    Error(String),
    SortBy(Sort),
    Scope(Scope),
    Render(SearchResults),
    NavPagesForward(usize),
    NavPagesBack(usize),
    NavFirstPage,
    NavLastPage,
    SelectIndex(Option<usize>),
    SelectNext,
    SelectPrev,
    SelectFirst,
    SelectLast,
}

/// What is asked of the home screen.
#[derive(Debug, Clone, PartialEq, Eq)]
pub enum HomeAction {
    Focus(Focusable),
    FocusNext,
    FocusPrevious,
    ToggleUsage,
    Search(SearchAction),
    OpenDocs,
    OpenReadme,
    RenderReadme(String),
    OpenCratesIo,
    OpenLibRs,
}

/// What is asked of Cargo, and what is reported of the Cargo environment.
#[derive(Debug, Clone, PartialEq, Eq)]
pub enum CargoAction {
    Add { name: String, version: String },
    Remove(String),
    Install { name: String, version: String },
    Uninstall(String),
    RefreshCargoEnv,
    CargoEnvRefreshed,
    CrateMetadataLoaded(RegistryCrate),
}

/// An action of the application.
#[derive(Debug, Clone, PartialEq, Eq)]
pub enum Action {
    Tick,
    Render,
    Resize { w: u16, h: u16 },
    Suspend,
    Resume,
    Quit,
    ClearScreen,
    Error(String),
    Help,
    Home(HomeAction),
    Status(StatusAction),
    Cargo(CargoAction),
    ToggleSettings,
}

} // verus!
