//! The search manager: at most one live search and one live hydration, the
//! quota shared by the sources of a search, and the merge of what they
//! return.
//!
//! A search runs in two steps. `search` takes a ticket, which supersedes
//! the search before it, and gathers the matches of the local sources
//! from the Cargo environment as it stands, of which the task keeps a
//! copy. The caller then asks the registry what the task's query says, and
//! hands the reply to `complete_search`, which yields the action to emit,
//! or nothing where the search has been superseded in the meantime.

use vstd::prelude::*;

use crate::action::SearchAction;
use crate::cargo::cargo_env::{installed_version, CargoEnv, CargoEnvView};
use crate::cargo::project::local_version;
use crate::search::cargo_crate::{crates_view, Crate, CrateView, RegistryCrate, RegistryCrateView};
use crate::search::dedup::{dedup, deduplicate};
use crate::search::list_state::ListState;
use crate::search::search_options::{Scope, SearchOptions, Sort};
use crate::search::search_results::{SearchResults, SearchResultsView};
use crate::search::sources::{
    binaries_matches, cut_to, listed_records, page_window, project_matches,
    InstalledBinarySource, ProjectDependencySource, RegistryPage, RegistryPageView,
    RegistrySource, SearchSource,
};
use crate::text::{lowercase, str_eq, to_lowercase};

verus! {

/// `a + b`, or the largest `usize` where the sum exceeds it.
pub open spec fn sat_add(a: usize, b: int) -> usize {
    if a + b > usize::MAX {
        usize::MAX
    } else {
        (a + b) as usize
    }
}

/// The number of records that the page can still take.
pub open spec fn quota_left(r: SearchResultsView) -> usize {
    if r.crates.len() >= r.per_page {
        0
    } else {
        (r.per_page - r.crates.len()) as usize
    }
}

/// The results after `fresh` has been appended, cut to `quota` records.
pub open spec fn extended(r: SearchResultsView, fresh: Seq<CrateView>, quota: int) -> SearchResultsView {
    SearchResultsView { crates: r.crates + cut_to(fresh, quota), ..r }
}

/// The results after a source has returned `fetched`, its records for the
/// page and the number of all its matches: the records are appended, and
/// the matches count.
pub open spec fn source_added(r: SearchResultsView, fetched: (Seq<CrateView>, usize)) -> SearchResultsView {
    SearchResultsView {
        crates: r.crates + fetched.0,
        total_count: sat_add(r.total_count, fetched.1 as int),
        ..r
    }
}

/// The results after a local source has reported `matches`: all of them
/// count, and those that belong on the page are taken while the quota
/// lasts.
pub open spec fn add_local_source(r: SearchResultsView, matches: Seq<CrateView>) -> SearchResultsView {
    SearchResultsView {
        crates: r.crates + page_window(
            matches,
            r.current_page as int,
            r.per_page as int,
            quota_left(r) as int,
        ),
        total_count: sat_add(r.total_count, matches.len() as int),
        ..r
    }
}

/// The results after the registry has reported a page: its total counts,
/// and its records are taken while the quota lasts.
pub open spec fn add_registry_page(r: SearchResultsView, page: RegistryPageView) -> SearchResultsView {
    SearchResultsView {
        total_count: sat_add(r.total_count, page.total as int),
        ..extended(r, listed_records(page.crates), quota_left(r) as int)
    }
}

/// The term that a search matches names against: the term asked for, in
/// lower case; the empty term where none is named.
pub open spec fn search_term(options: SearchOptions) -> Seq<char> {
    lowercase(
        match options.term {
            Some(t) => t@,
            None => Seq::empty(),
        },
    )
}

/// Empty results for the page that `options` asks for.
pub open spec fn empty_results(options: SearchOptions) -> SearchResultsView {
    SearchResultsView {
        crates: Seq::empty(),
        total_count: 0,
        list_state: ListState { offset: 0, selected: None },
        current_page: options.spec_page(),
        per_page: options.spec_per_page(),
    }
}

/// What the local sources that the scope enables contribute to a search:
/// first the project's dependencies, where there is a project, then the
/// installed binaries.
pub open spec fn local_results(options: SearchOptions, env: CargoEnvView) -> SearchResultsView {
    let term = search_term(options);
    let start = empty_results(options);
    let with_project = if options.scope.includes_project() && env.project.is_some() {
        add_local_source(start, project_matches(env.project.unwrap().packages, term))
    } else {
        start
    };
    if options.scope.includes_installed() {
        add_local_source(with_project, binaries_matches(env.installed_binaries, term))
    } else {
        with_project
    }
}

/// The record `c` with what the environment knows of a crate of its name:
/// the version the project requires, where there is a project, and the
/// version installed.
pub open spec fn annotate(c: CrateView, env: CargoEnvView) -> CrateView {
    CrateView {
        project_version: match env.project {
            Some(p) => local_version(p.packages, c.name),
            None => c.project_version,
        },
        installed_version: installed_version(env.installed_binaries, c.name),
        ..c
    }
}

/// The results with duplicates collapsed and every record annotated from
/// the environment.
pub open spec fn refreshed(r: SearchResultsView, env: CargoEnvView) -> SearchResultsView {
    SearchResultsView { crates: dedup(r.crates).map_values(|c: CrateView| annotate(c, env)), ..r }
}

/// What to ask the registry for.
#[derive(Debug, Clone, PartialEq, Eq)]
pub struct RegistryQuery {
    pub term: String,
    pub sort: Sort,
    pub page: usize,
    pub per_page: usize,
}

/// A search that has consulted the local sources.
#[derive(Debug)]
pub struct SearchTask {
    /// The ticket under which the search runs: its cancellation handle.
    /// The search is cancelled once the manager holds another ticket as
    /// that of the live search.
    pub ticket: u64,
    /// What to ask the registry, where the scope includes it.
    pub query: Option<RegistryQuery>,
    /// What the local sources have contributed.
    pub results: SearchResults,
    /// The Cargo environment as it stood when the search started.
    pub cargo_env: CargoEnv,
}

/// A request for the metadata of one crate, to be fetched once the
/// debounce delay has passed and the request is still due.
#[derive(Debug, PartialEq, Eq)]
pub struct HydrationRequest {
    /// The ticket of the request: its cancellation handle.
    pub ticket: u64,
    /// The name of the crate.
    pub name: String,
    /// How long to wait before the fetch, in milliseconds.
    pub delay_ms: u64,
}

/// Appends to the results as many of `new_results` as `still_needed`
/// allows, from the front, and leaves the others in `new_results`. Then
/// `still_needed` becomes what the page can still take.
pub fn extend_results(
    search_results: &mut SearchResults,
    new_results: &mut Vec<Crate>,
    per_page: usize,
    still_needed: &mut usize,
)
    ensures
        final(search_results)@ == extended(
            old(search_results)@,
            crates_view(old(new_results)@),
            *old(still_needed) as int,
        ),
        final(new_results)@ == if *old(still_needed) >= old(new_results)@.len() {
            Seq::<Crate>::empty()
        } else {
            old(new_results)@.skip(*old(still_needed) as int)
        },
        *final(still_needed) == if final(search_results)@.crates.len() >= per_page {
            0
        } else {
            per_page - final(search_results)@.crates.len()
        },
{
    let ghost before = crates_view(search_results.crates@);
    let ghost fresh = crates_view(new_results@);
    if *still_needed >= new_results.len() {
        search_results.crates.append(new_results);
        proof {
            assert(crates_view(search_results.crates@) =~= before + fresh);
        }
    } else if *still_needed > 0 {
        let mut rest = new_results.split_off(*still_needed);
        search_results.crates.append(new_results);
        core::mem::swap(new_results, &mut rest);
        proof {
            assert(crates_view(search_results.crates@) =~= before + fresh.take(
                *old(still_needed) as int,
            ));
            assert(new_results@ =~= old(new_results)@.skip(*old(still_needed) as int));
        }
    } else {
        proof {
            assert(before + Seq::<CrateView>::empty() =~= before);
            assert(new_results@ =~= old(new_results)@.skip(0));
        }
    }
    *still_needed = per_page.saturating_sub(search_results.crates.len());
}

/// Asks a source, counts its matches, and takes its records for the
/// page. The source is asked for no more records than the page can still
/// take, and is asked even where that is none, for the sake of its count.
pub fn add_source<S: SearchSource>(
    search_results: &mut SearchResults,
    source: S,
    term: &str,
    still_needed: &mut usize,
)
    requires
        *old(still_needed) == quota_left(old(search_results)@),
    ensures
        final(search_results)@ == source_added(
            old(search_results)@,
            source.spec_fetch(
                term@,
                old(search_results).current_page,
                old(search_results).per_page,
                quota_left(old(search_results)@),
            ),
        ),
        *final(still_needed) == quota_left(final(search_results)@),
        final(search_results).wf() == old(search_results).wf(),
{
    let per_page: usize = search_results.per_page;
    let (mut records, total) = source.fetch(
        term,
        search_results.current_page,
        per_page,
        *still_needed,
    );
    search_results.total_count = search_results.total_count.saturating_add(total);
    extend_results(search_results, &mut records, per_page, still_needed);
}

/// The results after the metadata `data` has arrived: it is merged into
/// the selected record where that record has the identifier of `data`, and
/// dropped otherwise.
pub open spec fn hydrated(r: SearchResultsView, data: RegistryCrateView) -> SearchResultsView {
    match r.selected() {
        Some(c) => if c.id == data.id {
            SearchResultsView {
                crates: r.crates.update(r.selected_index().unwrap() as int, data.merged_into(c)),
                ..r
            }
        } else {
            r
        },
        None => r,
    }
}

/// The state of the search manager: the tickets handed out so far, and
/// which search and which hydration are live.
///
/// A ticket is the cancellation handle of the work started under it. The
/// manager holds at most one for a search and one for a hydration; to
/// start new work is to replace the ticket held, which cancels the work
/// started before. Whether work is cancelled is read off the manager
/// without changing it.
#[derive(Debug, Clone, Copy, PartialEq, Eq, Structural)]
pub struct CrateSearchManager {
    pub next_ticket: u64,
    pub live_search: Option<u64>,
    pub live_hydration: Option<u64>,
}

impl CrateSearchManager {
    /// Live tickets are tickets that have been handed out.
    pub open spec fn wf(self) -> bool {
        &&& self.live_search.is_some() ==> self.live_search.unwrap() < self.next_ticket
        &&& self.live_hydration.is_some() ==> self.live_hydration.unwrap() < self.next_ticket
    }

    /// Whether another ticket can be handed out.
    pub open spec fn can_issue(self) -> bool {
        self.next_ticket < u64::MAX
    }

    /// The manager after a search has been started: the search gets the
    /// next ticket and is the live one; a pending hydration is dropped.
    pub open spec fn spec_start_search(self) -> CrateSearchManager {
        CrateSearchManager {
            next_ticket: (self.next_ticket + 1) as u64,
            live_search: Some(self.next_ticket),
            live_hydration: None,
        }
    }

    /// The manager after a hydration has been requested: the request gets
    /// the next ticket and is the live one.
    pub open spec fn spec_start_hydration(self) -> CrateSearchManager {
        CrateSearchManager {
            next_ticket: (self.next_ticket + 1) as u64,
            live_hydration: Some(self.next_ticket),
            ..self
        }
    }

    /// Whether the search with this ticket is the live one.
    pub open spec fn spec_is_search_live(self, ticket: u64) -> bool {
        self.live_search == Some(ticket)
    }

    /// Whether the hydration with this ticket is the live one.
    pub open spec fn spec_is_hydration_due(self, ticket: u64) -> bool {
        self.live_hydration == Some(ticket)
    }

    /// The manager after the search with this ticket has reported: the
    /// live search is over where it was that one; nothing changes where it
    /// was not.
    pub open spec fn spec_end_search(self, ticket: u64) -> CrateSearchManager {
        if self.live_search == Some(ticket) {
            CrateSearchManager { live_search: None, ..self }
        } else {
            self
        }
    }

    /// The manager after the hydration with this ticket has reported.
    pub open spec fn spec_end_hydration(self, ticket: u64) -> CrateSearchManager {
        if self.live_hydration == Some(ticket) {
            CrateSearchManager { live_hydration: None, ..self }
        } else {
            self
        }
    }

    /// How long a request for metadata waits for the selection to settle
    /// before it is fetched, in milliseconds.
    pub const HYDRATION_DELAY_MS: u64 = 700;

    /// The least time between two requests to the registry, in
    /// milliseconds.
    pub const REGISTRY_RATE_LIMIT_MS: u64 = 1100;

    /// The time after which a request to the registry is given up, in
    /// seconds.
    pub const REGISTRY_TIMEOUT_SECS: u64 = 10;

    /// A manager with no search and no hydration under way.
    pub fn new() -> (r: CrateSearchManager)
        ensures
            r.wf(),
            r.can_issue(),
            r.next_ticket == 0,
            r.live_search.is_none(),
            r.live_hydration.is_none(),
    {
        CrateSearchManager { next_ticket: 0, live_search: None, live_hydration: None }
    }

    /// Whether the live tickets are tickets that have been handed out.
    pub fn is_wf(&self) -> (r: bool)
        ensures
            r == self.wf(),
    {
        let search_ok = match self.live_search {
            Some(t) => t < self.next_ticket,
            None => true,
        };
        let hydration_ok = match self.live_hydration {
            Some(t) => t < self.next_ticket,
            None => true,
        };
        search_ok && hydration_ok
    }

    /// Whether another search or hydration can be started.
    pub fn can_start(&self) -> (r: bool)
        ensures
            r == self.can_issue(),
    {
        self.next_ticket < u64::MAX
    }

    /// Whether the search with this ticket is the live one: it has not
    /// been superseded and has not reported yet.
    pub fn is_search_live(&self, ticket: u64) -> (r: bool)
        ensures
            r == self.spec_is_search_live(ticket),
    {
        match self.live_search {
            Some(t) => t == ticket,
            None => false,
        }
    }

    /// Whether the metadata asked for under this ticket is still to be
    /// fetched: no later request and no later search has superseded it.
    pub fn is_hydration_due(&self, ticket: u64) -> (r: bool)
        ensures
            r == self.spec_is_hydration_due(ticket),
    {
        match self.live_hydration {
            Some(t) => t == ticket,
            None => false,
        }
    }

    /// Starts a search. The search before it, if one is live, is
    /// superseded, and so is a pending hydration. The task returned holds
    /// what the local sources in scope contribute, and the query for the
    /// registry where the scope includes it: the page asked for, at as
    /// many records as the page can still take.
    pub fn search(&mut self, options: SearchOptions, cargo_env: &CargoEnv) -> (task: SearchTask)
        requires
            old(self).wf(),
            old(self).can_issue(),
            options.spec_page() >= 1,
            options.spec_per_page() >= 1,
        ensures
            final(self).wf(),
            *final(self) == old(self).spec_start_search(),
            task.ticket == old(self).next_ticket,
            task.results@ == local_results(options, cargo_env@),
            task.results.wf(),
            task.cargo_env@ == cargo_env@,
            options.scope.includes_online() <==> task.query.is_some(),
            task.query.is_some() ==> task.query.unwrap().term@ == search_term(options)
                && task.query.unwrap().sort == options.sort && task.query.unwrap().page
                == options.spec_page() && task.query.unwrap().per_page == quota_left(
                task.results@,
            ),
    {
        let ticket: u64 = self.next_ticket;
        self.next_ticket = ticket + 1;
        self.live_search = Some(ticket);
        self.live_hydration = None;

        let term = match &options.term {
            Some(t) => to_lowercase(t.as_str()),
            None => to_lowercase(""),
        };
        proof {
            reveal_strlit("");
            assert(""@ =~= Seq::<char>::empty());
        }
        let page: usize = options.page();
        let per_page: usize = options.per_page();
        let mut still_needed: usize = per_page;
        let mut search_results = SearchResults::with_page_size(page, per_page);
        proof {
            assert(search_results@.crates =~= Seq::<CrateView>::empty());
            assert(search_results@ == empty_results(options));
        }

        let search_all = options.scope == Scope::All;
        if search_all || options.scope == Scope::Project {
            if let Some(project) = &cargo_env.project {
                add_source(
                    &mut search_results,
                    ProjectDependencySource { project },
                    term.as_str(),
                    &mut still_needed,
                );
            }
        }
        if search_all || options.scope == Scope::Installed {
            add_source(
                &mut search_results,
                InstalledBinarySource { cargo_env },
                term.as_str(),
                &mut still_needed,
            );
        }
        let query = if search_all || options.scope == Scope::Online {
            Some(RegistryQuery { term, sort: options.sort, page, per_page: still_needed })
        } else {
            None
        };
        SearchTask { ticket, query, results: search_results, cargo_env: cargo_env.clone() }
    }

    /// Ends the search of `task` with what the registry replied to its
    /// query (`None` where the task had no query).
    ///
    /// A superseded search yields nothing. A live one yields the error
    /// where the registry failed, whatever the local sources had found;
    /// otherwise the results to render: the registry's total counted, its
    /// records listed while the quota lasts, duplicates collapsed, and
    /// every record stamped from the environment as it stood when the
    /// search started.
    pub fn complete_search(
        &mut self,
        task: SearchTask,
        reply: Option<Result<RegistryPage, String>>,
    ) -> (r: Option<SearchAction>)
        ensures
            *final(self) == old(self).spec_end_search(task.ticket),
            old(self).wf() ==> final(self).wf(),
            !old(self).spec_is_search_live(task.ticket) ==> r.is_none(),
            old(self).spec_is_search_live(task.ticket) ==> match reply {
                Some(Err(message)) => r == Some(SearchAction::Error(message)),
                Some(Ok(page)) => r matches Some(SearchAction::Render(results)) && results@
                    == refreshed(add_registry_page(task.results@, page@), task.cargo_env@)
                    && results.wf() == task.results.wf(),
                None => r matches Some(SearchAction::Render(results)) && results@ == refreshed(
                    task.results@,
                    task.cargo_env@,
                ) && results.wf() == task.results.wf(),
            },
    {
        if !self.is_search_live(task.ticket) {
            return None;
        }
        self.live_search = None;
        let mut search_results = task.results;
        match reply {
            Some(Err(message)) => {
                return Some(SearchAction::Error(message));
            },
            Some(Ok(page)) => {
                let per_page: usize = search_results.per_page;
                let mut still_needed: usize = per_page.saturating_sub(search_results.crates.len());
                let term = match &task.query {
                    Some(query) => query.term.clone(),
                    None => String::new(),
                };
                add_source(
                    &mut search_results,
                    RegistrySource { page },
                    term.as_str(),
                    &mut still_needed,
                );
            },
            None => {},
        }
        Self::update_results(&mut search_results, &task.cargo_env);
        Some(SearchAction::Render(search_results))
    }

    /// Asks for the metadata of the crate `name`. A request made before
    /// and not yet fetched is superseded. The caller fetches once the
    /// delay of the request has passed, and only if the request is still
    /// due.
    pub fn get_crate_data(&mut self, name: &str) -> (r: HydrationRequest)
        requires
            old(self).wf(),
            old(self).can_issue(),
        ensures
            final(self).wf(),
            *final(self) == old(self).spec_start_hydration(),
            r.ticket == old(self).next_ticket,
            r.name@ == name@,
            r.delay_ms == 700,
    {
        let ticket: u64 = self.next_ticket;
        self.next_ticket = ticket + 1;
        self.live_hydration = Some(ticket);
        HydrationRequest { ticket, name: name.to_owned(), delay_ms: Self::HYDRATION_DELAY_MS }
    }

    /// Ends the hydration with this ticket and says whether what it
    /// fetched is still wanted: it is unless a later request or a later
    /// search has superseded it.
    pub fn complete_hydration(&mut self, ticket: u64) -> (r: bool)
        ensures
            r == old(self).spec_is_hydration_due(ticket),
            *final(self) == old(self).spec_end_hydration(ticket),
            old(self).wf() ==> final(self).wf(),
    {
        if self.is_hydration_due(ticket) {
            self.live_hydration = None;
            true
        } else {
            false
        }
    }

    /// Re-reads the environment into the results: duplicates of an
    /// identifier are collapsed, and every record is stamped with the
    /// version the project requires and the version installed.
    pub fn update_results(search_results: &mut SearchResults, cargo_env: &CargoEnv)
        ensures
            final(search_results)@ == refreshed(old(search_results)@, cargo_env@),
            final(search_results).wf() == old(search_results).wf(),
    {
        let mut crates: Vec<Crate> = Vec::new();
        core::mem::swap(&mut crates, &mut search_results.crates);
        let deduped = deduplicate(crates);
        let ghost env = cargo_env@;
        let ghost merged = crates_view(deduped@);
        let mut out: Vec<Crate> = Vec::new();
        for cr in it: deduped
            invariant
                it.seq() == deduped@,
                merged == crates_view(deduped@),
                env == cargo_env@,
                out@.len() == it.index(),
                forall|j: int|
                    0 <= j < out@.len() ==> (#[trigger] out@[j])@ == annotate(merged[j], env),
        {
            let mut cr = cr;
            if let Some(proj) = &cargo_env.project {
                cr.project_version = proj.get_local_version(cr.name.as_str());
            }
            cr.installed_version = cargo_env.get_installed_version(cr.name.as_str());
            out.push(cr);
        }
        search_results.crates = out;
        proof {
            assert(crates_view(search_results.crates@) =~= merged.map_values(
                |c: CrateView| annotate(c, env),
            ));
        }
    }

    /// Whether the metadata of the record is still to be fetched.
    pub fn needs_hydration(cr: &Crate) -> (r: bool)
        ensures
            r == !cr@.is_metadata_loaded(),
    {
        !cr.is_metadata_loaded()
    }

    /// Takes in the metadata fetched for a crate. It is merged into the
    /// selected record where that record has the identifier of `data`;
    /// where the selection has moved to another record, or to none, the
    /// metadata is dropped and no record changes. Returns whether it was
    /// merged.
    pub fn hydrate_selected(search_results: &mut SearchResults, data: RegistryCrate) -> (r: bool)
        ensures
            final(search_results)@ == hydrated(old(search_results)@, data@),
            r == (old(search_results)@.selected().is_some() && old(
                search_results,
            )@.selected().unwrap().id == data@.id),
            !r ==> *final(search_results) == *old(search_results),
            final(search_results).wf() == old(search_results).wf(),
    {
        let ghost before = crates_view(search_results.crates@);
        match search_results.selected_index() {
            Some(index) => {
                if index < search_results.crates.len() && str_eq(
                    search_results.crates[index].id.as_str(),
                    data.id.as_str(),
                ) {
                    Self::hydrate(data, &mut search_results.crates[index]);
                    proof {
                        assert(crates_view(search_results.crates@) =~= before.update(
                            index as int,
                            data@.merged_into(before[index as int]),
                        ));
                    }
                    true
                } else {
                    false
                }
            },
            None => false,
        }
    }

    /// Merges the metadata fetched for a crate into its record. The
    /// record keeps its identifier and what is known of the environment,
    /// and counts as having its metadata loaded.
    pub fn hydrate(data: RegistryCrate, cr: &mut Crate)
        ensures
            final(cr)@ == data@.merged_into(old(cr)@),
            final(cr)@.is_metadata_loaded(),
    {
        cr.version = match &data.max_stable_version {
            Some(v) => v.clone(),
            None => data.max_version.clone(),
        };
        cr.name = data.name;
        cr.description = data.description;
        cr.homepage = data.homepage;
        cr.documentation = data.documentation;
        cr.repository = data.repository;
        cr.max_version = Some(data.max_version);
        cr.max_stable_version = data.max_stable_version;
        cr.downloads = Some(data.downloads);
        cr.recent_downloads = data.recent_downloads;
        cr.features = Some(
            match data.features {
                Some(f) => f,
                None => Vec::new(),
            },
        );
        cr.categories = Some(
            match data.categories {
                Some(c) => c,
                None => Vec::new(),
            },
        );
        cr.created_at = Some(data.created_at);
        cr.updated_at = Some(data.updated_at);
        cr.exact_match = match data.exact_match {
            Some(b) => b,
            None => false,
        };
        proof {
            assert(crate::cargo::metadata::str_list(Seq::<String>::empty()) =~= Seq::<
                Seq<char>,
            >::empty());
        }
    }
}

} // verus!
