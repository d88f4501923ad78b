//! How an action changes the home screen.
//!
//! The screen does no work of its own outside its state: what is to be
//! done beyond it comes back as a list of effects for the caller to carry
//! out.

use vstd::prelude::*;

use crate::action::{Action, CargoAction, HomeAction, SearchAction};
use crate::cargo::cargo_env::CargoEnv;
use crate::components::home::focusable::Focusable;
use crate::components::home::Home;
use crate::components::status_bar::{StatusAction, StatusDuration, StatusLevel};
use crate::search::crate_search_manager::{
    hydrated, local_results, quota_left, refreshed, search_term, CrateSearchManager,
    HydrationRequest, SearchTask,
};
use crate::search::list_state::{next_index, previous_index, ListState};
use crate::search::search_options::{Scope, SearchOptions, Sort};
use crate::search::search_results::SearchResults;
use crate::text::{concat2, decimal, to_decimal};

verus! {

/// Something for the caller to carry out.
#[derive(Debug)]
pub enum Effect {
    /// Put the action on the queue.
    Send(Action),
    /// Ask the registry what the task's query says, and come back with
    /// the reply.
    StartSearch(SearchTask),
    /// Fetch the metadata of the crate once the debounce delay has
    /// passed, if the request is still due.
    FetchMetadata(HydrationRequest),
    /// Open the address in the browser, if it is a valid one.
    OpenUrl(String),
    /// Show the text of a readme.
    ShowReadme(String),
    /// Move the spinner on by one step.
    AdvanceSpinner,
    /// Empty the search box.
    ResetInput,
}

/// What an action leads to: an action that follows it at once, and the
/// effects to carry out.
#[derive(Debug)]
pub struct Update {
    pub next: Option<Action>,
    pub effects: Vec<Effect>,
}

/// The part to which the focus goes forward from `f`: the next one that
/// is neither the usage nor a dropdown.
pub open spec fn spec_next_stop(f: Focusable) -> Focusable {
    match f {
        Focusable::Usage => Focusable::Search,
        Focusable::Search => Focusable::Results,
        Focusable::Sort => Focusable::Results,
        Focusable::Scope => Focusable::Results,
        Focusable::Results => Focusable::DocsButton,
        Focusable::DocsButton => Focusable::RepositoryButton,
        Focusable::RepositoryButton => Focusable::CratesIoButton,
        Focusable::CratesIoButton => Focusable::LibRsButton,
        Focusable::LibRsButton => Focusable::Search,
    }
}

/// The part to which the focus goes back from `f`: the one before that is
/// neither the usage nor a dropdown.
pub open spec fn spec_previous_stop(f: Focusable) -> Focusable {
    match f {
        Focusable::Usage => Focusable::LibRsButton,
        Focusable::Search => Focusable::LibRsButton,
        Focusable::Sort => Focusable::Search,
        Focusable::Scope => Focusable::Search,
        Focusable::Results => Focusable::Search,
        Focusable::DocsButton => Focusable::Results,
        Focusable::RepositoryButton => Focusable::DocsButton,
        Focusable::CratesIoButton => Focusable::RepositoryButton,
        Focusable::LibRsButton => Focusable::CratesIoButton,
    }
}

/// Whether the focus passes over the part when it cycles.
pub open spec fn is_skipped(f: Focusable) -> bool {
    f == Focusable::Usage || f == Focusable::Sort || f == Focusable::Scope
}

/// The part to which the focus goes forward from `f`.
pub fn next_stop(f: Focusable) -> (r: Focusable)
    ensures
        r == spec_next_stop(f),
        !is_skipped(r),
{
    let mut next = f.next();
    let mut left: usize = 3;
    while next == Focusable::Usage || next == Focusable::Sort || next == Focusable::Scope
        invariant
            spec_next_stop(next) == spec_next_stop(f) || (!is_skipped(next) && next
                == spec_next_stop(f)),
            !is_skipped(next) ==> next == spec_next_stop(f),
            next == Focusable::Sort ==> left >= 2,
            is_skipped(next) ==> left >= 1,
        decreases left,
    {
        next = next.next();
        left -= 1;
    }
    next
}

/// The part to which the focus goes back from `f`.
pub fn previous_stop(f: Focusable) -> (r: Focusable)
    ensures
        r == spec_previous_stop(f),
        !is_skipped(r),
{
    let mut prev = f.prev();
    let mut left: usize = 3;
    while prev == Focusable::Usage || prev == Focusable::Sort || prev == Focusable::Scope
        invariant
            !is_skipped(prev) ==> prev == spec_previous_stop(f),
            is_skipped(prev) ==> spec_previous_stop(prev) == spec_previous_stop(f),
            prev == Focusable::Scope ==> left >= 2,
            is_skipped(prev) ==> left >= 1,
        decreases left,
    {
        prev = prev.prev();
        left -= 1;
    }
    prev
}

/// The home screen with the focus on `f`: the dropdown that has the focus
/// knows it, the other does not.
pub open spec fn focused_on(home: Home, f: Focusable) -> Home {
    Home {
        focused: f,
        sort_dropdown: crate::components::ux::dropdown::Dropdown {
            is_focused: f == Focusable::Sort,
            ..home.sort_dropdown
        },
        scope_dropdown: crate::components::ux::dropdown::Dropdown {
            is_focused: f == Focusable::Scope,
            ..home.scope_dropdown
        },
        ..home
    }
}

/// Where Tab leads: between the usage and the search box while the usage
/// is shown or nothing has been searched, and on to the next stop
/// otherwise.
pub open spec fn spec_focus_next(home: Home) -> Focusable {
    if home.search_results.is_none() || home.show_usage {
        if home.focused == Focusable::Usage {
            Focusable::Search
        } else {
            Focusable::Usage
        }
    } else {
        spec_next_stop(home.focused)
    }
}

/// Where Shift-Tab leads.
pub open spec fn spec_focus_previous(home: Home) -> Focusable {
    if home.search_results.is_none() || home.show_usage {
        if home.focused == Focusable::Usage {
            Focusable::Search
        } else {
            Focusable::Usage
        }
    } else {
        spec_previous_stop(home.focused)
    }
}

/// The status shown once a page of `n` records has arrived.
pub open spec fn loaded_text(n: usize) -> Seq<char> {
    if n > 0 {
        "Loaded "@ + decimal(n as nat) + " results"@
    } else {
        "No results"@
    }
}

/// Whether `e` asks that a status be shown.
pub open spec fn is_status(e: Effect, level: StatusLevel, text: Seq<char>) -> bool {
    e matches Effect::Send(Action::Status(StatusAction::UpdateStatus(l, t))) && l == level && t@
        == text
}

/// Whether `e` asks that a status be shown for a duration.
pub open spec fn is_timed_status(
    e: Effect,
    level: StatusLevel,
    duration: StatusDuration,
    text: Seq<char>,
) -> bool {
    e matches Effect::Send(Action::Status(StatusAction::UpdateStatusWithDuration(l, d, t))) && l
        == level && d == duration && t@ == text
}

/// Whether the effects are those of a look at the selection: a request
/// for the metadata of the selected record where it has none loaded, under
/// the manager's next ticket, and nothing otherwise.
pub open spec fn is_hydrate_check(
    results: SearchResults,
    before: CrateSearchManager,
    after: CrateSearchManager,
    effects: Seq<Effect>,
) -> bool {
    match results.spec_selected() {
        Some(cr) => if cr@.is_metadata_loaded() {
            after == before && effects.len() == 0
        } else {
            &&& after == before.spec_start_hydration()
            &&& effects.len() == 1
            &&& effects[0] matches Effect::FetchMetadata(request)
            &&& request.ticket == before.next_ticket
            &&& request.name@ == cr.name@
            &&& request.delay_ms == 700
        },
        None => after == before && effects.len() == 0,
    }
}

/// Asks for the metadata of the selected record, where it has none
/// loaded.
pub fn check_needs_hydrate(
    results: &SearchResults,
    crate_search_manager: &mut CrateSearchManager,
    effects: &mut Vec<Effect>,
)
    requires
        old(crate_search_manager).wf(),
        old(crate_search_manager).can_issue(),
    ensures
        final(crate_search_manager).wf(),
        final(effects)@.len() >= old(effects)@.len(),
        final(effects)@.take(old(effects)@.len() as int) == old(effects)@,
        is_hydrate_check(
            *results,
            *old(crate_search_manager),
            *final(crate_search_manager),
            final(effects)@.skip(old(effects)@.len() as int),
        ),
{
    let ghost before = effects@;
    match results.selected() {
        Some(cr) => {
            if CrateSearchManager::needs_hydration(cr) {
                let request = crate_search_manager.get_crate_data(cr.name.as_str());
                effects.push(Effect::FetchMetadata(request));
                proof {
                    assert(effects@.take(before.len() as int) =~= before);
                    assert(effects@.skip(before.len() as int) =~= seq![
                        Effect::FetchMetadata(request),
                    ]);
                }
                return ;
            }
        },
        None => {},
    }
    proof {
        assert(effects@.take(before.len() as int) =~= before);
        assert(effects@.skip(before.len() as int) =~= Seq::<Effect>::empty());
    }
}

/// The search that a request for `term` on page `page` starts with the
/// sort key and scope chosen: pages count from 1 and hold 100 records.
pub open spec fn search_options(home: Home, term: String, page: usize) -> SearchOptions {
    SearchOptions {
        term: Some(term),
        page: Some(
            if page < 1 {
                1
            } else {
                page
            },
        ),
        per_page: Some(100),
        sort: home.sort_dropdown.spec_selected(),
        scope: home.scope_dropdown.spec_selected(),
    }
}

/// The state after a search has been asked for, and what is to be done:
/// the status is shown, and the search runs under a new ticket.
pub open spec fn search_started(
    before: Home,
    term: String,
    page: usize,
    hide_usage: bool,
    status: Option<String>,
    env: CargoEnv,
    after: Home,
    r: Update,
) -> bool {
    let options = search_options(before, term, page);
    &&& after == (Home {
        is_searching: true,
        show_usage: before.show_usage && !hide_usage,
        crate_search_manager: before.crate_search_manager.spec_start_search(),
        ..before
    })
    &&& r.next.is_none()
    &&& r.effects@.len() == 2
    &&& is_status(
        r.effects@[0],
        StatusLevel::Progress,
        match status {
            Some(s) => s@,
            None => "Searching"@,
        },
    )
    &&& r.effects@[1] matches Effect::StartSearch(task)
    &&& task.ticket == before.crate_search_manager.next_ticket
    &&& task.results@ == local_results(options, env@)
    &&& task.cargo_env@ == env@
    &&& (options.scope.includes_online() <==> task.query.is_some())
    &&& task.query.is_some() ==> task.query.unwrap().term@ == search_term(options)
        && task.query.unwrap().sort == options.sort && task.query.unwrap().page
        == options.spec_page() && task.query.unwrap().per_page == quota_left(task.results@)
}

/// The state after the results of a search have arrived, and what is to
/// be done: the first exact match is selected and gets the focus, else
/// the first record is selected; the metadata of the selected record is
/// asked for where it has none; the usage gives way to the results.
pub open spec fn results_rendered(before: Home, results: SearchResults, after: Home, r: Update) -> bool {
    let exact = choose|ix: Option<usize>| results.is_exact_match_index(ix);
    let shown = SearchResults {
        list_state: if exact.is_some() {
            ListState { selected: exact, ..results.list_state }
        } else if results.crates@.len() > 0 {
            ListState { selected: Some(0usize), ..results.list_state }
        } else {
            results.list_state
        },
        ..results
    };
    let focus_effects: int = if exact.is_some() {
        1
    } else {
        0
    };
    &&& after == (Home {
        is_searching: false,
        show_usage: false,
        search_results: Some(shown),
        crate_search_manager: after.crate_search_manager,
        ..before
    })
    &&& r.next.is_none()
    &&& r.effects@.len() >= focus_effects + 1
    &&& exact.is_some() ==> r.effects@[0] == Effect::Send(
        Action::Home(HomeAction::Focus(Focusable::Results)),
    )
    &&& is_hydrate_check(
        shown,
        before.crate_search_manager,
        after.crate_search_manager,
        r.effects@.subrange(focus_effects, r.effects@.len() - 1),
    )
    &&& is_timed_status(
        r.effects@.last(),
        StatusLevel::Success,
        StatusDuration::Short,
        loaded_text(results.crates@.len() as usize),
    )
}

/// The selection after a selection action.
pub open spec fn spec_select(action: SearchAction, state: ListState) -> ListState {
    match action {
        SearchAction::SelectIndex(index) => ListState {
            selected: index,
            offset: if index.is_none() {
                0
            } else {
                state.offset
            },
        },
        SearchAction::SelectNext => ListState {
            selected: Some(next_index(state.selected)),
            ..state
        },
        SearchAction::SelectPrev => ListState {
            selected: Some(previous_index(state.selected)),
            ..state
        },
        SearchAction::SelectFirst => ListState { selected: Some(0usize), ..state },
        SearchAction::SelectLast => ListState { selected: Some(usize::MAX), ..state },
        _ => state,
    }
}

/// Whether the action moves the selection.
pub open spec fn is_select(action: SearchAction) -> bool {
    action is SelectIndex || action is SelectNext || action is SelectPrev || action is SelectFirst
        || action is SelectLast
}

/// The state after the selection has moved, and what is to be done: the
/// metadata of the newly selected record is asked for where it has none.
/// Without results nothing happens.
pub open spec fn selection_moved(before: Home, action: SearchAction, after: Home, r: Update) -> bool {
    &&& r.next.is_none()
    &&& match before.search_results {
        Some(results) => {
            let moved = SearchResults {
                list_state: spec_select(action, results.list_state),
                ..results
            };
            &&& after == (Home {
                search_results: Some(moved),
                crate_search_manager: after.crate_search_manager,
                ..before
            })
            &&& is_hydrate_check(
                moved,
                before.crate_search_manager,
                after.crate_search_manager,
                r.effects@,
            )
        },
        None => after == before && r.effects@.len() == 0,
    }
}

/// The address of a crate on a site that lists crates by identifier.
pub open spec fn crate_url(base: Seq<char>, id: Seq<char>) -> Seq<char> {
    base + id
}

/// Whether the effects open `url`, or do nothing where there is none.
pub open spec fn opens(effects: Seq<Effect>, url: Option<Seq<char>>) -> bool {
    match url {
        Some(u) => effects.len() == 1 && (effects[0] matches Effect::OpenUrl(s) && s@ == u),
        None => effects.len() == 0,
    }
}

/// What an action means for the home screen: the state after it, the
/// action that follows at once, and the effects to carry out.
pub open spec fn handled(before: Home, action: Action, env: CargoEnv, after: Home, r: Update) -> bool {
    match action {
        Action::Tick => after == before && r.next.is_none() && (if before.is_searching {
            r.effects@.len() == 1 && r.effects@[0] is AdvanceSpinner
        } else {
            r.effects@.len() == 0
        }),
        Action::Home(HomeAction::Focus(f)) => after == focused_on(before, f) && r.next.is_none()
            && r.effects@.len() == 0,
        Action::Home(HomeAction::FocusNext) => after == before && r.next == Some(
            Action::Home(HomeAction::Focus(spec_focus_next(before))),
        ) && r.effects@.len() == 0,
        Action::Home(HomeAction::FocusPrevious) => after == before && r.next == Some(
            Action::Home(HomeAction::Focus(spec_focus_previous(before))),
        ) && r.effects@.len() == 0,
        Action::Home(HomeAction::ToggleUsage) => after == (Home {
            show_usage: !before.show_usage,
            vertical_usage_scroll: 0,
            ..before
        }) && r.next == Some(
            Action::Home(
                HomeAction::Focus(
                    if before.show_usage {
                        Focusable::Search
                    } else {
                        Focusable::Usage
                    },
                ),
            ),
        ) && r.effects@.len() == 0,
        Action::Home(HomeAction::Search(search_action)) => match search_action {
            SearchAction::Clear => {
                &&& after == (Home { input: after.input, search_results: None, ..before })
                &&& after.input@.len() == 0
                &&& r.next.is_none()
                &&& r.effects@.len() == 2
                &&& r.effects@[0] is ResetInput
                &&& is_status(r.effects@[1], StatusLevel::Info, "Ready"@)
            },
            SearchAction::Search { term, page, hide_usage, status } => search_started(
                before,
                term,
                page,
                hide_usage,
                status,
                env,
                after,
                r,
            ),
            SearchAction::Error(message) => {
                &&& after == (Home { is_searching: false, ..before })
                &&& r.next.is_none()
                &&& r.effects@.len() == 1
                &&& r.effects@[0] matches Effect::Send(
                    Action::Status(StatusAction::UpdateStatus(level, text)),
                )
                &&& level == StatusLevel::Error
                &&& text == message
            },
            SearchAction::SortBy(sort) => {
                &&& after == before
                &&& r.effects@.len() == 1
                &&& r.effects@[0] == Effect::Send(
                    Action::Home(HomeAction::Focus(Focusable::Search)),
                )
                &&& match before.search_results {
                    Some(_) => r.next matches Some(
                        Action::Home(
                            HomeAction::Search(
                                SearchAction::Search { term, page, hide_usage, status },
                            ),
                        ),
                    ) && term == before.input && page == 1 && !hide_usage && (status matches Some(
                        text,
                    ) && text@ == "Sorting by: "@ + sort.spec_label()),
                    None => r.next.is_none(),
                }
            },
            SearchAction::Scope(scope) => {
                &&& after == before
                &&& r.effects@.len() == 1
                &&& r.effects@[0] == Effect::Send(
                    Action::Home(HomeAction::Focus(Focusable::Search)),
                )
                &&& match before.search_results {
                    Some(_) => r.next matches Some(
                        Action::Home(
                            HomeAction::Search(
                                SearchAction::Search { term, page, hide_usage, status },
                            ),
                        ),
                    ) && term == before.input && page == 1 && !hide_usage && (status matches Some(
                        text,
                    ) && text@ == "Scoped to: "@ + scope.spec_name()),
                    None => r.next.is_none(),
                }
            },
            SearchAction::Render(results) => results_rendered(before, results, after, r),
            SearchAction::NavPagesForward(pages) => after == before && r.next.is_none()
                && sends_page_request(
                before,
                match before.search_results {
                    Some(results) => results@.go_to_page(results@.page_forward(pages as int)),
                    None => None,
                },
                r.effects@,
            ),
            SearchAction::NavPagesBack(pages) => after == before && r.next.is_none()
                && sends_page_request(
                before,
                match before.search_results {
                    Some(results) => results@.go_to_page(results@.page_back(pages as int)),
                    None => None,
                },
                r.effects@,
            ),
            SearchAction::NavFirstPage => after == before && r.next.is_none()
                && sends_page_request(
                before,
                match before.search_results {
                    Some(results) => results@.go_to_page(1),
                    None => None,
                },
                r.effects@,
            ),
            SearchAction::NavLastPage => after == before && r.next.is_none()
                && sends_page_request(
                before,
                match before.search_results {
                    Some(results) => results@.go_to_page(usize::MAX as int),
                    None => None,
                },
                r.effects@,
            ),
            _ => selection_moved(before, search_action, after, r),
        },
        Action::Cargo(CargoAction::CargoEnvRefreshed) => {
            &&& r.next.is_none()
            &&& r.effects@.len() == 0
            &&& match before.search_results {
                Some(results) => after == (Home {
                    search_results: after.search_results,
                    ..before
                }) && after.search_results.is_some() && after.search_results.unwrap()@
                    == refreshed(results@, env@),
                None => after == before,
            }
        },
        Action::Cargo(CargoAction::CrateMetadataLoaded(data)) => {
            &&& r.next.is_none()
            &&& r.effects@.len() == 0
            &&& match before.search_results {
                Some(results) => after == (Home {
                    search_results: after.search_results,
                    ..before
                }) && after.search_results.is_some() && after.search_results.unwrap()@
                    == hydrated(results@, data@) && (results@.selected().is_none()
                    || results@.selected().unwrap().id != data@.id ==> after == before),
                None => after == before,
            }
        },
        Action::Home(HomeAction::OpenReadme) => after == before && r.next.is_none() && opens(
            r.effects@,
            match before.spec_selected() {
                Some(cr) => cr@.repository,
                None => None,
            },
        ),
        Action::Home(HomeAction::OpenDocs) => after == before && r.next.is_none() && opens(
            r.effects@,
            match before.spec_selected() {
                Some(cr) => cr@.documentation,
                None => None,
            },
        ),
        Action::Home(HomeAction::OpenCratesIo) => after == before && r.next.is_none() && opens(
            r.effects@,
            match before.spec_selected() {
                Some(cr) => Some(crate_url("https://crates.io/crates/"@, cr@.id)),
                None => None,
            },
        ),
        Action::Home(HomeAction::OpenLibRs) => after == before && r.next.is_none() && opens(
            r.effects@,
            match before.spec_selected() {
                Some(cr) => Some(crate_url("https://lib.rs/crates/"@, cr@.id)),
                None => None,
            },
        ),
        Action::Home(HomeAction::RenderReadme(markdown)) => after == before && r.next.is_none()
            && r.effects@.len() == 1 && r.effects@[0] == Effect::ShowReadme(markdown),
        _ => after == before && r.next.is_none() && r.effects@.len() == 0,
    }
}

/// Whether the effects ask for page `target` of the search for what the
/// search box holds, or do nothing where there is no page to go to.
pub open spec fn sends_page_request(before: Home, target: Option<int>, effects: Seq<Effect>) -> bool {
    match target {
        Some(page) => effects.len() == 1 && (effects[0] matches Effect::Send(action)
            && crate::components::home::is_page_request(action, before.input, page as usize)),
        None => effects.len() == 0,
    }
}

/// There is at most one position of the first exact match.
pub proof fn lemma_exact_match_index_unique(results: SearchResults, a: Option<usize>, b: Option<usize>)
    requires
        results.is_exact_match_index(a),
        results.is_exact_match_index(b),
    ensures
        a == b,
{
    if a.is_some() && b.is_some() {
        let i = a.unwrap();
        let j = b.unwrap();
        if i < j {
            assert(!results.crates@[i as int].exact_match);
        }
        if j < i {
            assert(!results.crates@[j as int].exact_match);
        }
    } else if a.is_some() {
        assert(!results.crates@[a.unwrap() as int].exact_match);
    } else if b.is_some() {
        assert(!results.crates@[b.unwrap() as int].exact_match);
    }
}

/// Whether the action can be taken: results that come to be rendered are
/// well-formed.
pub open spec fn acceptable(action: Action) -> bool {
    action matches Action::Home(HomeAction::Search(SearchAction::Render(results)))
        ==> results.wf()
}

/// Whether the action can be taken.
pub fn is_acceptable(action: &Action) -> (r: bool)
    ensures
        r == acceptable(*action),
{
    match action {
        Action::Home(HomeAction::Search(SearchAction::Render(results))) => results.is_wf(),
        _ => true,
    }
}

/// The effect that shows a status.
fn status_effect(level: StatusLevel, text: String) -> (r: Effect)
    ensures
        r == Effect::Send(Action::Status(StatusAction::UpdateStatus(level, text))),
{
    Effect::Send(Action::Status(StatusAction::UpdateStatus(level, text)))
}

/// An update without a follow-up and without effects.
fn nothing() -> (r: Update)
    ensures
        r.next.is_none(),
        r.effects@.len() == 0,
{
    Update { next: None, effects: Vec::new() }
}

/// An update that is one follow-up action.
fn follow(action: Action) -> (r: Update)
    ensures
        r.next == Some(action),
        r.effects@.len() == 0,
{
    Update { next: Some(action), effects: Vec::new() }
}

/// An update that is one action put on the queue, where there is one.
fn send(action: Option<Action>) -> (r: Update)
    ensures
        r.next.is_none(),
        match action {
            Some(a) => r.effects@.len() == 1 && r.effects@[0] == Effect::Send(a),
            None => r.effects@.len() == 0,
        },
{
    let mut effects: Vec<Effect> = Vec::new();
    if let Some(a) = action {
        effects.push(Effect::Send(a));
    }
    Update { next: None, effects }
}

/// An update that opens an address, where there is one.
fn open(url: Option<String>) -> (r: Update)
    ensures
        r.next.is_none(),
        opens(
            r.effects@,
            match url {
                Some(u) => Some(u@),
                None => None,
            },
        ),
{
    let mut effects: Vec<Effect> = Vec::new();
    if let Some(u) = url {
        effects.push(Effect::OpenUrl(u));
    }
    Update { next: None, effects }
}

/// Starts the search for `term` on page `page`.
fn start_search(
    home: &mut Home,
    term: String,
    page: usize,
    hide_usage: bool,
    status: Option<String>,
    cargo_env: &CargoEnv,
) -> (r: Update)
    requires
        old(home).wf(),
        old(home).crate_search_manager.can_issue(),
    ensures
        final(home).wf(),
        search_started(*old(home), term, page, hide_usage, status, *cargo_env, *final(home), r),
{
    let scope = home.scope_dropdown.get_selected();
    let sort = home.sort_dropdown.get_selected();
    let text = match status {
        Some(s) => s,
        None => String::from_str("Searching"),
    };
    let mut effects: Vec<Effect> = Vec::new();
    effects.push(status_effect(StatusLevel::Progress, text));
    home.is_searching = true;
    if hide_usage {
        home.show_usage = false;
    }
    let options = SearchOptions {
        term: Some(term),
        scope,
        sort,
        page: Some(
            if page < 1 {
                1
            } else {
                page
            },
        ),
        per_page: Some(100),
    };
    let task = home.crate_search_manager.search(options, cargo_env);
    effects.push(Effect::StartSearch(task));
    Update { next: None, effects }
}

/// Takes in the results of a search.
fn render_results(home: &mut Home, results: SearchResults) -> (r: Update)
    requires
        old(home).wf(),
        old(home).crate_search_manager.can_issue(),
        results.wf(),
    ensures
        final(home).wf(),
        results_rendered(*old(home), results, *final(home), r),
{
    let mut results = results;
    let ghost given = results;
    home.is_searching = false;
    let results_len: usize = results.current_page_count();
    let exact_match_ix = results.exact_match_index();
    proof {
        let chosen = choose|ix: Option<usize>| given.is_exact_match_index(ix);
        lemma_exact_match_index_unique(given, exact_match_ix, chosen);
    }
    let mut effects: Vec<Effect> = Vec::new();
    if exact_match_ix.is_some() {
        let _ = results.select_index(exact_match_ix);
        effects.push(Effect::Send(Action::Home(HomeAction::Focus(Focusable::Results))));
    } else if results_len > 0 {
        let _ = results.select_index(Some(0));
    }
    let ghost shown = results;
    let ghost before_check = effects@;
    check_needs_hydrate(&results, &mut home.crate_search_manager, &mut effects);
    let ghost after_check = effects@;
    home.search_results = Some(results);
    home.show_usage = false;
    let text = if results_len > 0 {
        let number = to_decimal(results_len as u64);
        let mut t = concat2("Loaded ", number.as_str());
        t.append(" results");
        t
    } else {
        String::from_str("No results")
    };
    effects.push(
        Effect::Send(
            Action::Status(
                StatusAction::UpdateStatusWithDuration(
                    StatusLevel::Success,
                    StatusDuration::Short,
                    text,
                ),
            ),
        ),
    );
    proof {
        assert(effects@.subrange(before_check.len() as int, effects@.len() - 1)
            =~= after_check.skip(before_check.len() as int));
        if exact_match_ix.is_some() {
            assert(after_check.take(1) == before_check);
            assert(effects@[0] == after_check.take(1)[0]);
        }
        assert(home.search_results == Some(shown));
        assert(text@ =~= loaded_text(given.crates@.len() as usize));
    }
    Update { next: None, effects }
}

/// Moves the selection as the action says.
fn move_selection(home: &mut Home, action: SearchAction) -> (r: Update)
    requires
        old(home).wf(),
        old(home).crate_search_manager.can_issue(),
        is_select(action),
    ensures
        final(home).wf(),
        selection_moved(*old(home), action, *final(home), r),
{
    let mut effects: Vec<Effect> = Vec::new();
    let mut taken: Option<SearchResults> = None;
    core::mem::swap(&mut taken, &mut home.search_results);
    match taken {
        Some(results) => {
            let mut results = results;
            match action {
                SearchAction::SelectIndex(index) => {
                    let _ = results.select_index(index);
                },
                SearchAction::SelectNext => {
                    let _ = results.select_next();
                },
                SearchAction::SelectPrev => {
                    let _ = results.select_previous();
                },
                SearchAction::SelectFirst => {
                    let _ = results.select_first();
                },
                SearchAction::SelectLast => {
                    let _ = results.select_last();
                },
                _ => {},
            }
            check_needs_hydrate(&results, &mut home.crate_search_manager, &mut effects);
            proof {
                assert(effects@.skip(0) =~= effects@);
            }
            home.search_results = Some(results);
        },
        None => {},
    }
    Update { next: None, effects }
}

/// Takes an action on the home screen.
pub fn handle_action(home: &mut Home, action: Action, cargo_env: &CargoEnv) -> (r: Update)
    requires
        old(home).wf(),
        old(home).crate_search_manager.can_issue(),
        acceptable(action),
    ensures
        final(home).wf(),
        handled(*old(home), action, *cargo_env, *final(home), r),
{
    match action {
        Action::Tick => {
            let mut effects: Vec<Effect> = Vec::new();
            if home.is_searching {
                effects.push(Effect::AdvanceSpinner);
            }
            Update { next: None, effects }
        },
        Action::Home(home_action) => match home_action {
            HomeAction::Focus(focusable) => {
                home.sort_dropdown.set_is_focused(focusable == Focusable::Sort);
                home.scope_dropdown.set_is_focused(focusable == Focusable::Scope);
                home.focused = focusable;
                nothing()
            },
            HomeAction::FocusNext => {
                let has_search_results = home.search_results.is_some();
                let show_usage = home.show_usage;
                if !has_search_results || show_usage {
                    if home.focused == Focusable::Usage {
                        follow(Action::Home(HomeAction::Focus(Focusable::Search)))
                    } else {
                        follow(Action::Home(HomeAction::Focus(Focusable::Usage)))
                    }
                } else {
                    follow(Action::Home(HomeAction::Focus(next_stop(home.focused))))
                }
            },
            HomeAction::FocusPrevious => {
                let has_search_results = home.search_results.is_some();
                let show_usage = home.show_usage;
                if !has_search_results || show_usage {
                    if home.focused == Focusable::Usage {
                        follow(Action::Home(HomeAction::Focus(Focusable::Search)))
                    } else {
                        follow(Action::Home(HomeAction::Focus(Focusable::Usage)))
                    }
                } else {
                    follow(Action::Home(HomeAction::Focus(previous_stop(home.focused))))
                }
            },
            HomeAction::ToggleUsage => {
                let was_showing = home.show_usage;
                home.show_usage = !home.show_usage;
                home.vertical_usage_scroll = 0;
                if was_showing {
                    follow(Action::Home(HomeAction::Focus(Focusable::Search)))
                } else {
                    follow(Action::Home(HomeAction::Focus(Focusable::Usage)))
                }
            },
            HomeAction::Search(search_action) => match search_action {
                SearchAction::Clear => {
                    home.input = String::new();
                    home.search_results = None;
                    let mut effects: Vec<Effect> = Vec::new();
                    effects.push(Effect::ResetInput);
                    effects.push(status_effect(StatusLevel::Info, String::from_str("Ready")));
                    Update { next: None, effects }
                },
                SearchAction::Search { term, page, hide_usage, status } => start_search(
                    home,
                    term,
                    page,
                    hide_usage,
                    status,
                    cargo_env,
                ),
                SearchAction::Error(message) => {
                    home.is_searching = false;
                    send(Some(Action::Status(StatusAction::UpdateStatus(StatusLevel::Error, message))))
                },
                SearchAction::SortBy(sort) => {
                    let mut update = send(
                        Some(Action::Home(HomeAction::Focus(Focusable::Search))),
                    );
                    if home.search_results.is_some() {
                        let status = concat2("Sorting by: ", sort.label());
                        update.next = Some(
                            Action::Home(
                                HomeAction::Search(
                                    SearchAction::Search {
                                        term: home.input.clone(),
                                        page: 1,
                                        hide_usage: false,
                                        status: Some(status),
                                    },
                                ),
                            ),
                        );
                    }
                    update
                },
                SearchAction::Scope(scope) => {
                    let mut update = send(
                        Some(Action::Home(HomeAction::Focus(Focusable::Search))),
                    );
                    if home.search_results.is_some() {
                        let status = concat2("Scoped to: ", scope.to_str());
                        update.next = Some(
                            Action::Home(
                                HomeAction::Search(
                                    SearchAction::Search {
                                        term: home.input.clone(),
                                        page: 1,
                                        hide_usage: false,
                                        status: Some(status),
                                    },
                                ),
                            ),
                        );
                    }
                    update
                },
                SearchAction::Render(results) => render_results(home, results),
                SearchAction::NavPagesForward(pages) => send(
                    home.go_pages_forward(pages, home.input.clone()),
                ),
                SearchAction::NavPagesBack(pages) => send(
                    home.go_pages_back(pages, home.input.clone()),
                ),
                SearchAction::NavFirstPage => send(home.go_to_page(1, home.input.clone())),
                SearchAction::NavLastPage => send(home.go_to_page(usize::MAX, home.input.clone())),
                SearchAction::SelectIndex(index) => move_selection(
                    home,
                    SearchAction::SelectIndex(index),
                ),
                SearchAction::SelectNext => move_selection(home, SearchAction::SelectNext),
                SearchAction::SelectPrev => move_selection(home, SearchAction::SelectPrev),
                SearchAction::SelectFirst => move_selection(home, SearchAction::SelectFirst),
                SearchAction::SelectLast => move_selection(home, SearchAction::SelectLast),
            },
            HomeAction::OpenReadme => {
                let url = match home.selected() {
                    Some(cr) => crate::cargo::metadata::clone_opt_string(&cr.repository),
                    None => None,
                };
                open(url)
            },
            HomeAction::OpenDocs => {
                let url = match home.selected() {
                    Some(cr) => crate::cargo::metadata::clone_opt_string(&cr.documentation),
                    None => None,
                };
                open(url)
            },
            HomeAction::OpenCratesIo => {
                let url = match home.selected() {
                    Some(cr) => Some(concat2("https://crates.io/crates/", cr.id.as_str())),
                    None => None,
                };
                open(url)
            },
            HomeAction::OpenLibRs => {
                let url = match home.selected() {
                    Some(cr) => Some(concat2("https://lib.rs/crates/", cr.id.as_str())),
                    None => None,
                };
                open(url)
            },
            HomeAction::RenderReadme(markdown) => {
                let mut effects: Vec<Effect> = Vec::new();
                effects.push(Effect::ShowReadme(markdown));
                Update { next: None, effects }
            },
        },
        Action::Cargo(CargoAction::CargoEnvRefreshed) => {
            let mut taken: Option<SearchResults> = None;
            core::mem::swap(&mut taken, &mut home.search_results);
            if let Some(results) = taken {
                let mut results = results;
                CrateSearchManager::update_results(&mut results, cargo_env);
                home.search_results = Some(results);
            }
            nothing()
        },
        Action::Cargo(CargoAction::CrateMetadataLoaded(data)) => {
            let mut taken: Option<SearchResults> = None;
            core::mem::swap(&mut taken, &mut home.search_results);
            if let Some(results) = taken {
                let mut results = results;
                let _ = CrateSearchManager::hydrate_selected(&mut results, data);
                home.search_results = Some(results);
            }
            nothing()
        },
        _ => nothing(),
    }
}

} // verus!
