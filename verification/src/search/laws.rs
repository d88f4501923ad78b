//! What holds of every search, stated over the models that the contracts
//! of the search functions use.

use vstd::prelude::*;

use crate::cargo::cargo_env::CargoEnvView;
use crate::search::cargo_crate::{CrateView, RegistryCrateView};
use crate::search::crate_search_manager::{
    add_local_source, add_registry_page, empty_results, hydrated, local_results, quota_left,
    refreshed, sat_add, search_term, CrateSearchManager,
};
use crate::search::dedup::{
    dedup, distinct_ids, lemma_dedup_distinct, lemma_merge_record, lemma_position_of,
    merge_record, position_of,
};
use crate::search::search_options::SearchOptions;
use crate::search::search_results::{
    clamp_page, lemma_next_page, lemma_pages_for_is_ceiling, SearchResultsView,
};
use crate::search::sources::{
    binaries_matches, page_window, project_matches, RegistryPageView,
};

verus! {

/// The number of matches that the project source reports for a search: 0
/// where the scope leaves it out or there is no project.
pub open spec fn project_total(options: SearchOptions, env: CargoEnvView) -> nat {
    if options.scope.includes_project() && env.project.is_some() {
        project_matches(env.project.unwrap().packages, search_term(options)).len()
    } else {
        0
    }
}

/// The number of matches that the source of installed binaries reports
/// for a search: 0 where the scope leaves it out.
pub open spec fn installed_total(options: SearchOptions, env: CargoEnvView) -> nat {
    if options.scope.includes_installed() {
        binaries_matches(env.installed_binaries, search_term(options)).len()
    } else {
        0
    }
}

/// The total count of a search is the sum of what its sources report,
/// however many records the quota lets onto the page. (The count is held
/// in a `usize`: the law is stated for sums that fit.)
pub proof fn lemma_total_count_is_sum_of_sources(
    options: SearchOptions,
    env: CargoEnvView,
    page: RegistryPageView,
)
    requires
        project_total(options, env) + installed_total(options, env) + page.total <= usize::MAX,
    ensures
        local_results(options, env).total_count == project_total(options, env) + installed_total(
            options,
            env,
        ),
        refreshed(local_results(options, env), env).total_count == project_total(options, env)
            + installed_total(options, env),
        refreshed(add_registry_page(local_results(options, env), page), env).total_count
            == project_total(options, env) + installed_total(options, env) + page.total,
{
}

/// A page window holds no more records than the quota.
pub proof fn lemma_page_window_len<T>(matches: Seq<T>, page: int, per_page: int, quota: int)
    requires
        quota >= 0,
    ensures
        page_window(matches, page, per_page, quota).len() <= quota,
{
}

/// A page never holds more records than the page size, whatever the
/// sources return.
pub proof fn lemma_page_is_capped(options: SearchOptions, env: CargoEnvView, page: RegistryPageView)
    ensures
        local_results(options, env).crates.len() <= options.spec_per_page(),
        refreshed(local_results(options, env), env).crates.len() <= options.spec_per_page(),
        refreshed(add_registry_page(local_results(options, env), page), env).crates.len()
            <= options.spec_per_page(),
{
    let term = search_term(options);
    let start = empty_results(options);
    let with_project = if options.scope.includes_project() && env.project.is_some() {
        add_local_source(start, project_matches(env.project.unwrap().packages, term))
    } else {
        start
    };
    if options.scope.includes_project() && env.project.is_some() {
        lemma_page_window_len(
            project_matches(env.project.unwrap().packages, term),
            start.current_page as int,
            start.per_page as int,
            quota_left(start) as int,
        );
    }
    assert(with_project.crates.len() <= options.spec_per_page());
    if options.scope.includes_installed() {
        lemma_page_window_len(
            binaries_matches(env.installed_binaries, term),
            with_project.current_page as int,
            with_project.per_page as int,
            quota_left(with_project) as int,
        );
    }
    let local = local_results(options, env);
    assert(local.crates.len() <= options.spec_per_page());
    lemma_dedup_distinct(local.crates);
    let full = add_registry_page(local, page);
    assert(full.crates.len() <= options.spec_per_page());
    lemma_dedup_distinct(full.crates);
}

/// Where the quota is used up, the registry is asked for no record, and
/// none of its records reaches the page; its total still counts.
pub proof fn lemma_exhausted_quota_takes_no_record(r: SearchResultsView, page: RegistryPageView)
    requires
        r.crates.len() >= r.per_page,
    ensures
        quota_left(r) == 0,
        add_registry_page(r, page).crates == r.crates,
        add_registry_page(r, page).total_count == sat_add(r.total_count, page.total as int),
{
    assert(r.crates + Seq::<CrateView>::empty() =~= r.crates);
}

/// The number of pages is the total count divided by the page size,
/// rounded up: the pages hold all records, and one page fewer would not.
pub proof fn lemma_page_count_is_ceiling(r: SearchResultsView)
    requires
        r.per_page > 0,
    ensures
        r.page_count() * r.per_page >= r.total_count,
        r.total_count > 0 ==> (r.page_count() - 1) * r.per_page < r.total_count,
        r.total_count == 0 ==> r.page_count() == 0,
        r.has_next_page() <==> r.current_page < r.page_count(),
{
    lemma_pages_for_is_ceiling(r.total_count as int, r.per_page as int);
    lemma_next_page(r.current_page as int, r.total_count as int, r.per_page as int);
}

/// Every navigation leads to a page between 1 and the number of pages (1
/// where there is no page), and never to the current page.
pub proof fn lemma_navigation_stays_in_range(r: SearchResultsView, page: int, pages: int)
    requires
        r.per_page > 0,
    ensures
        r.go_to_page(page).is_some() ==> 1 <= r.go_to_page(page).unwrap() <= vstd::math::max(
            r.page_count(),
            1,
        ) && r.go_to_page(page).unwrap() != r.current_page,
        r.go_to_page(r.page_back(pages)).is_some() ==> 1 <= r.go_to_page(
            r.page_back(pages),
        ).unwrap() <= vstd::math::max(r.page_count(), 1),
        r.go_to_page(r.page_forward(pages)).is_some() ==> 1 <= r.go_to_page(
            r.page_forward(pages),
        ).unwrap() <= vstd::math::max(r.page_count(), 1),
        1 <= clamp_page(page, r.page_count()) <= vstd::math::max(r.page_count(), 1),
{
    lemma_pages_for_is_ceiling(r.total_count as int, r.per_page as int);
}

/// The merge of two records, step by step.
proof fn lemma_dedup_pair(a: CrateView, b: CrateView)
    ensures
        dedup(seq![a, b]) == merge_record(seq![a], b),
        position_of(seq![a], a.id) == 0,
{
    let e = Seq::<CrateView>::empty();
    let s = seq![a, b];
    assert(s.drop_last() =~= seq![a]);
    assert(seq![a].drop_last() =~= e);
    assert(s.last() == b);
    assert(seq![a].last() == a);
    assert(dedup(e) =~= e);
    assert(position_of(e, a.id) == -1);
    assert(merge_record(e, a) =~= seq![a]);
    assert(dedup(seq![a]) == merge_record(dedup(e), a));
}

/// Of two records with one identifier, one with its metadata loaded and
/// one without, the merge keeps the loaded one, whichever came first.
pub proof fn lemma_dedup_keeps_loaded(loaded: CrateView, bare: CrateView)
    requires
        loaded.id == bare.id,
        loaded.is_metadata_loaded(),
        !bare.is_metadata_loaded(),
    ensures
        dedup(seq![loaded, bare]) == seq![loaded],
        dedup(seq![bare, loaded]) == seq![loaded],
{
    lemma_dedup_pair(loaded, bare);
    lemma_dedup_pair(bare, loaded);
    assert(merge_record(seq![loaded], bare) =~= seq![loaded]);
    assert(merge_record(seq![bare], loaded) =~= seq![loaded]);
}

/// Once a record with its metadata loaded is held for an identifier, no
/// later record replaces it.
pub proof fn lemma_merge_never_replaces_loaded(acc: Seq<CrateView>, c: CrateView, i: int)
    requires
        distinct_ids(acc),
        0 <= i < acc.len(),
        acc[i].is_metadata_loaded(),
    ensures
        merge_record(acc, c).len() > i,
        merge_record(acc, c)[i] == acc[i],
{
    lemma_position_of(acc, c.id);
    let at = position_of(acc, c.id);
    if at >= 0 && at != i {
        assert(acc[at].id != acc[i].id);
    }
}

/// Where the identifiers of `m` are distinct, the record with an
/// identifier stands where the identifier is found.
proof fn lemma_position_of_distinct(m: Seq<CrateView>, j: int)
    requires
        distinct_ids(m),
        0 <= j < m.len(),
    ensures
        position_of(m, m[j].id) == j,
{
    lemma_position_of(m, m[j].id);
    let p = position_of(m, m[j].id);
    if p < j {
        assert(m[p].id != m[j].id);
    }
}

/// Where any of the records with one identifier has its metadata loaded,
/// the record that the merge keeps for that identifier has it loaded,
/// wherever among the records the loaded one stood.
pub proof fn lemma_dedup_retains_loaded(s: Seq<CrateView>, i: int)
    requires
        0 <= i < s.len(),
        s[i].is_metadata_loaded(),
    ensures
        position_of(dedup(s), s[i].id) >= 0,
        dedup(s)[position_of(dedup(s), s[i].id)].is_metadata_loaded(),
    decreases s.len(),
{
    let before = s.drop_last();
    let acc = dedup(before);
    let c = s.last();
    let m = merge_record(acc, c);
    lemma_dedup_distinct(before);
    lemma_position_of(acc, c.id);
    lemma_merge_record(acc, c);
    if i < s.len() - 1 {
        assert(before[i] == s[i]);
        lemma_dedup_retains_loaded(before, i);
        let p = position_of(acc, s[i].id);
        lemma_position_of(acc, s[i].id);
        lemma_merge_never_replaces_loaded(acc, c, p);
        lemma_position_of_distinct(m, p);
    } else {
        let at = position_of(acc, c.id);
        if at < 0 {
            assert(m[acc.len() as int] == c);
            lemma_position_of_distinct(m, acc.len() as int);
        } else {
            lemma_position_of_distinct(m, at);
        }
    }
}

/// The result of the merge holds each identifier once, and holds no more
/// records than came in.
pub proof fn lemma_dedup_has_distinct_ids(s: Seq<CrateView>)
    ensures
        distinct_ids(dedup(s)),
        dedup(s).len() <= s.len(),
{
    lemma_dedup_distinct(s);
}

/// Metadata that arrives for a record other than the selected one changes
/// no record; metadata for the selected record changes that record alone.
pub proof fn lemma_hydration_touches_selected_only(r: SearchResultsView, data: RegistryCrateView)
    ensures
        (r.selected().is_none() || r.selected().unwrap().id != data.id) ==> hydrated(r, data) == r,
        hydrated(r, data).crates.len() == r.crates.len(),
        forall|i: int|
            0 <= i < r.crates.len() && Some(i as usize) != r.selected_index() ==> hydrated(
                r,
                data,
            ).crates[i] == r.crates[i],
        hydrated(r, data).total_count == r.total_count && hydrated(r, data).list_state
            == r.list_state && hydrated(r, data).current_page == r.current_page,
{
}

/// A step of the search manager.
pub enum ManagerStep {
    StartSearch,
    StartHydration,
    EndSearch(u64),
    EndHydration(u64),
}

/// The manager after one step.
pub open spec fn step(m: CrateSearchManager, s: ManagerStep) -> CrateSearchManager {
    match s {
        ManagerStep::StartSearch => m.spec_start_search(),
        ManagerStep::StartHydration => m.spec_start_hydration(),
        ManagerStep::EndSearch(t) => m.spec_end_search(t),
        ManagerStep::EndHydration(t) => m.spec_end_hydration(t),
    }
}

/// Whether the steps can be taken one after the other: a ticket is left
/// for each start.
pub open spec fn can_run(m: CrateSearchManager, steps: Seq<ManagerStep>) -> bool
    decreases steps.len(),
{
    if steps.len() == 0 {
        true
    } else {
        can_run(m, steps.drop_last()) && (steps.last() is StartSearch || steps.last()
            is StartHydration ==> run(m, steps.drop_last()).can_issue())
    }
}

/// The manager after the steps have been taken in order.
pub open spec fn run(m: CrateSearchManager, steps: Seq<ManagerStep>) -> CrateSearchManager
    decreases steps.len(),
{
    if steps.len() == 0 {
        m
    } else {
        step(run(m, steps.drop_last()), steps.last())
    }
}

/// Starting a second search before the first has reported leaves exactly
/// one search that reports: the second. The first yields nothing when it
/// comes back, and the second yields once.
pub proof fn lemma_later_search_supersedes(m: CrateSearchManager)
    requires
        m.wf(),
        m.can_issue(),
        m.spec_start_search().can_issue(),
    ensures
        ({
            let first = m.next_ticket;
            let m1 = m.spec_start_search();
            let second = m1.next_ticket;
            let m2 = m1.spec_start_search();
            &&& first != second
            &&& m1.spec_is_search_live(first)
            &&& !m2.spec_is_search_live(first)
            &&& m2.spec_is_search_live(second)
            &&& m2.spec_end_search(first) == m2
            &&& !m2.spec_end_search(second).spec_is_search_live(second)
            &&& !m2.spec_end_search(second).spec_is_search_live(first)
        }),
{
}

/// Requesting the metadata of a second crate before the fetch for the
/// first is due leaves the first request never due: no fetch is made for
/// it. A search started in between has the same effect.
pub proof fn lemma_later_request_supersedes(m: CrateSearchManager)
    requires
        m.wf(),
        m.can_issue(),
        m.spec_start_hydration().can_issue(),
    ensures
        ({
            let first = m.next_ticket;
            let m1 = m.spec_start_hydration();
            let second = m1.next_ticket;
            let m2 = m1.spec_start_hydration();
            &&& m1.spec_is_hydration_due(first)
            &&& !m2.spec_is_hydration_due(first)
            &&& m2.spec_is_hydration_due(second)
            &&& !m1.spec_start_search().spec_is_hydration_due(first)
        }),
{
}

/// A ticket that has been handed out and is not live never becomes live
/// again, whatever steps follow: a superseded search never reports, and a
/// superseded request is never fetched.
pub proof fn lemma_superseded_forever(m: CrateSearchManager, ticket: u64, steps: Seq<ManagerStep>)
    requires
        m.wf(),
        ticket < m.next_ticket,
        can_run(m, steps),
    ensures
        run(m, steps).wf(),
        run(m, steps).next_ticket >= m.next_ticket,
        !m.spec_is_search_live(ticket) ==> !run(m, steps).spec_is_search_live(ticket),
        !m.spec_is_hydration_due(ticket) ==> !run(m, steps).spec_is_hydration_due(ticket),
    decreases steps.len(),
{
    if steps.len() > 0 {
        lemma_superseded_forever(m, ticket, steps.drop_last());
    }
}

/// At most one search and at most one hydration are live at any time, and
/// a start makes the new ticket the live one.
pub proof fn lemma_single_flight(m: CrateSearchManager, a: u64, b: u64)
    requires
        m.wf(),
    ensures
        m.spec_is_search_live(a) && m.spec_is_search_live(b) ==> a == b,
        m.spec_is_hydration_due(a) && m.spec_is_hydration_due(b) ==> a == b,
        m.can_issue() ==> m.spec_start_search().spec_is_search_live(m.next_ticket)
            && m.spec_start_hydration().spec_is_hydration_due(m.next_ticket),
{
}

} // verus!
