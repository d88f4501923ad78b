use cargo_seek::action::SearchAction;
use cargo_seek::cargo::cargo_env::CargoEnv;
use cargo_seek::cargo::metadata::{Dependency, InstalledBinary, ManifestMetadata, Package};
use cargo_seek::cargo::project::Project;
use cargo_seek::search::cargo_crate::{Crate, RegistryCrate, Timestamp};
use cargo_seek::search::crate_search_manager::{
    add_source, extend_results, CrateSearchManager, RegistryQuery,
};
use cargo_seek::search::dedup::deduplicate;
use cargo_seek::search::search_options::{Scope, SearchOptions, Sort};
use cargo_seek::search::search_results::SearchResults;
use cargo_seek::search::sources::{
    binary_record, dependency_record, search_binaries, search_project, take_page_window,
    InstalledBinarySource, ProjectDependencySource, RegistryPage, RegistrySource, SearchSource,
};

fn dep(name: &str, req: &str) -> Dependency {
    Dependency { name: name.to_string(), req: req.to_string(), kind: None, optional: false }
}

fn package(name: &str, deps: Vec<Dependency>) -> Package {
    Package { name: name.to_string(), version: None, description: None, dependencies: deps }
}

fn project(packages: Vec<Package>) -> Project {
    let mut project = Project::from("/work/Cargo.toml".to_string());
    project.read(ManifestMetadata { packages });
    project
}

fn binary(name: &str, version: &str) -> InstalledBinary {
    InstalledBinary { name: name.to_string(), version: version.to_string() }
}

fn env(project: Option<Project>, binaries: Vec<InstalledBinary>) -> CargoEnv {
    let mut env = CargoEnv::new(None);
    env.project = project;
    env.installed_binaries = binaries;
    env
}

fn options(term: &str, scope: Scope) -> SearchOptions {
    SearchOptions {
        term: Some(term.to_string()),
        page: Some(1),
        per_page: Some(100),
        sort: Sort::Relevance,
        scope,
    }
}

fn listed(id: &str) -> RegistryCrate {
    RegistryCrate {
        id: id.to_string(),
        name: id.to_string(),
        description: None,
        homepage: None,
        documentation: None,
        repository: None,
        max_version: "2.0.0".to_string(),
        max_stable_version: None,
        downloads: 7,
        recent_downloads: None,
        features: None,
        categories: None,
        created_at: Timestamp { secs: 0, nanos: 0 },
        updated_at: Timestamp { secs: 1, nanos: 0 },
        exact_match: Some(false),
    }
}

fn record(id: &str, version: &str, loaded: bool) -> Crate {
    let mut cr = Crate::local(&id.to_string(), &version.to_string(), false);
    if loaded {
        cr.features = Some(vec![]);
    }
    cr
}

fn names(crates: &[Crate]) -> Vec<String> {
    crates.iter().map(|c| c.name.clone()).collect()
}

fn rendered(action: Option<SearchAction>) -> SearchResults {
    match action {
        Some(SearchAction::Render(results)) => results,
        other => panic!("expected results, got {:?}", other),
    }
}

#[test]
fn dependency_record_matches_on_the_lower_case_name() {
    let d = dep("Serde_JSON", "1.0");
    let hit = dependency_record(&d, "serde_json", "serde").unwrap();
    assert_eq!(hit.id, "Serde_JSON");
    assert_eq!(hit.name, "Serde_JSON");
    assert_eq!(hit.version, "1.0");
    assert_eq!(hit.project_version, Some("1.0".to_string()));
    assert_eq!(hit.installed_version, None);
    assert!(!hit.exact_match);
    assert!(!hit.is_metadata_loaded());
    assert_eq!(hit.downloads, None);
    assert!(dependency_record(&d, "serde_json", "serde_json").unwrap().exact_match);
    assert!(dependency_record(&d, "serde_json", "tokio").is_none());
    assert!(dependency_record(&d, "serde_json", "").is_some());
}

#[test]
fn binary_record_carries_the_installed_version() {
    let b = binary("ripgrep", "14.1.0");
    let hit = binary_record(&b, "ripgrep", "grep").unwrap();
    assert_eq!(hit.id, "ripgrep");
    assert_eq!(hit.version, "14.1.0");
    assert_eq!(hit.installed_version, Some("14.1.0".to_string()));
    assert_eq!(hit.project_version, None);
    assert!(!hit.exact_match);
    assert!(binary_record(&b, "ripgrep", "ripgrep").unwrap().exact_match);
    assert!(binary_record(&b, "ripgrep", "rg").is_none());
}

#[test]
fn search_project_ignores_case_of_names() {
    let p = project(vec![package("app", vec![dep("Serde", "1"), dep("TOKIO", "1"), dep("serde_yaml", "0.9")])]);
    let hits = search_project("serde", &p);
    assert_eq!(names(&hits), vec!["Serde".to_string(), "serde_yaml".to_string()]);
    assert!(hits[0].exact_match);
    assert!(!hits[1].exact_match);
}

#[test]
fn search_project_keeps_duplicates_across_packages() {
    let p = project(vec![
        package("a", vec![dep("serde", "1.0"), dep("log", "0.4")]),
        package("b", vec![dep("serde", "1.1")]),
    ]);
    let hits = search_project("serde", &p);
    assert_eq!(hits.len(), 2);
    assert_eq!(hits[0].version, "1.0");
    assert_eq!(hits[1].version, "1.1");
}

#[test]
fn search_binaries_finds_substrings() {
    let e = env(None, vec![binary("cargo-edit", "0.12"), binary("ripgrep", "14"), binary("Cargo-Seek", "0.1")]);
    let hits = search_binaries("cargo", &e);
    assert_eq!(names(&hits), vec!["cargo-edit".to_string(), "Cargo-Seek".to_string()]);
    assert_eq!(hits[1].installed_version, Some("0.1".to_string()));
    assert!(search_binaries("cargo-seek", &e)[0].exact_match);
    assert_eq!(search_binaries("", &e).len(), 3);
    assert!(search_binaries("zzz", &e).is_empty());
}

#[test]
fn page_window_skips_earlier_pages() {
    let all: Vec<Crate> = (0..25).map(|i| record(&format!("c{}", i), "1", false)).collect();
    let first = take_page_window(all.clone(), 1, 10, 10);
    assert_eq!(names(&first), names(&all[0..10]));
    let second = take_page_window(all.clone(), 2, 10, 4);
    assert_eq!(names(&second), names(&all[10..14]));
    let third = take_page_window(all.clone(), 3, 10, 10);
    assert_eq!(names(&third), names(&all[20..25]));
    assert!(take_page_window(all.clone(), 4, 10, 10).is_empty());
    assert!(take_page_window(all.clone(), usize::MAX, usize::MAX, 10).is_empty());
    assert!(take_page_window(all.clone(), 1, 10, 0).is_empty());
    assert_eq!(take_page_window(all.clone(), 5, 0, 3).len(), 3);
}

#[test]
fn page_zero_is_read_as_the_first_page() {
    let all: Vec<Crate> = (0..5).map(|i| record(&format!("c{}", i), "1", false)).collect();
    assert_eq!(names(&take_page_window(all.clone(), 0, 2, 2)), names(&all[0..2]));
}

#[test]
fn project_source_reports_all_matches_whatever_the_quota() {
    let p = project(vec![package("app", vec![dep("ab", "1"), dep("abc", "1"), dep("x", "1"), dep("abd", "1")])]);
    let (records, total) = ProjectDependencySource { project: &p }.fetch("ab", 1, 10, 2);
    assert_eq!(names(&records), vec!["ab".to_string(), "abc".to_string()]);
    assert_eq!(total, 3);
    let (records, total) = ProjectDependencySource { project: &p }.fetch("ab", 1, 10, 0);
    assert!(records.is_empty());
    assert_eq!(total, 3);
    let (records, total) = ProjectDependencySource { project: &p }.fetch("ab", 2, 2, 5);
    assert_eq!(names(&records), vec!["abd".to_string()]);
    assert_eq!(total, 3);
}

#[test]
fn installed_source_reports_all_matches_whatever_the_quota() {
    let e = env(None, vec![binary("rg", "1"), binary("rgrep", "2"), binary("fd", "3")]);
    let (records, total) = InstalledBinarySource { cargo_env: &e }.fetch("rg", 1, 100, 1);
    assert_eq!(names(&records), vec!["rg".to_string()]);
    assert_eq!(records[0].installed_version, Some("1".to_string()));
    assert_eq!(total, 2);
}

#[test]
fn registry_source_hands_out_its_page_up_to_the_quota() {
    let source = || RegistrySource {
        page: RegistryPage { crates: vec![listed("a"), listed("b"), listed("c")], total: 900 },
    };
    let (records, total) = source().fetch("ignored", 7, 3, 2);
    assert_eq!(names(&records), vec!["a".to_string(), "b".to_string()]);
    assert_eq!(total, 900);
    let (records, total) = source().fetch("", 1, 100, 0);
    assert!(records.is_empty());
    assert_eq!(total, 900);
    let (records, _) = source().fetch("", 1, 100, 50);
    assert_eq!(records.len(), 3);
    assert!(!records[0].is_metadata_loaded());
}

fn fixed(names: &[&str], total: usize) -> RegistrySource {
    RegistrySource { page: RegistryPage { crates: names.iter().map(|n| listed(n)).collect(), total } }
}

#[test]
fn sources_share_the_quota_in_order() {
    let mut results = SearchResults::with_page_size(1, 4);
    let mut still_needed = 4;
    add_source(&mut results, fixed(&["a", "b", "c"], 30), "x", &mut still_needed);
    assert_eq!(still_needed, 1);
    add_source(&mut results, fixed(&["d", "e"], 20), "x", &mut still_needed);
    assert_eq!(still_needed, 0);
    add_source(&mut results, fixed(&["f"], 10), "x", &mut still_needed);
    assert_eq!(still_needed, 0);
    assert_eq!(names(&results.crates), vec!["a".to_string(), "b".to_string(), "c".to_string(), "d".to_string()]);
    assert_eq!(results.total_count, 60);
}

#[test]
fn total_count_stops_at_the_largest_number() {
    let mut results = SearchResults::new(1);
    let mut still_needed = 100;
    add_source(&mut results, fixed(&[], usize::MAX - 1), "", &mut still_needed);
    add_source(&mut results, fixed(&[], 5), "", &mut still_needed);
    assert_eq!(results.total_count, usize::MAX);
}

#[test]
fn records_need_hydration_until_loaded() {
    assert!(CrateSearchManager::needs_hydration(&record("a", "1", false)));
    assert!(!CrateSearchManager::needs_hydration(&record("a", "1", true)));
}

#[test]
fn extend_results_takes_what_is_needed() {
    let mut results = SearchResults::new(1);
    results.crates.push(record("a", "1", false));
    let mut fresh = vec![record("b", "1", false), record("c", "1", false), record("d", "1", false)];
    let mut still_needed = 2;
    extend_results(&mut results, &mut fresh, 3, &mut still_needed);
    assert_eq!(names(&results.crates), vec!["a".to_string(), "b".to_string(), "c".to_string()]);
    assert_eq!(names(&fresh), vec!["d".to_string()]);
    assert_eq!(still_needed, 0);
}

#[test]
fn extend_results_takes_all_when_there_is_room() {
    let mut results = SearchResults::new(1);
    let mut fresh = vec![record("b", "1", false), record("c", "1", false)];
    let mut still_needed = 5;
    extend_results(&mut results, &mut fresh, 5, &mut still_needed);
    assert_eq!(results.crates.len(), 2);
    assert!(fresh.is_empty());
    assert_eq!(still_needed, 3);
}

#[test]
fn extend_results_takes_nothing_without_quota() {
    let mut results = SearchResults::new(1);
    results.crates.push(record("a", "1", false));
    let mut fresh = vec![record("b", "1", false)];
    let mut still_needed = 0;
    extend_results(&mut results, &mut fresh, 1, &mut still_needed);
    assert_eq!(results.crates.len(), 1);
    assert_eq!(fresh.len(), 1);
    assert_eq!(still_needed, 0);
}

#[test]
fn dedup_keeps_the_place_of_the_first_and_the_content_of_the_last() {
    let out = deduplicate(vec![
        record("a", "1", false),
        record("b", "1", false),
        record("a", "2", false),
        record("c", "1", false),
        record("b", "3", false),
    ]);
    let seen: Vec<(String, String)> = out.iter().map(|c| (c.id.clone(), c.version.clone())).collect();
    assert_eq!(
        seen,
        vec![
            ("a".to_string(), "2".to_string()),
            ("b".to_string(), "3".to_string()),
            ("c".to_string(), "1".to_string()),
        ]
    );
}

#[test]
fn dedup_keeps_hydrated_first() {
    let out = deduplicate(vec![record("a", "full", true), record("a", "thin", false)]);
    assert_eq!(out.len(), 1);
    assert_eq!(out[0].version, "full");
    assert!(out[0].is_metadata_loaded());
}

#[test]
fn dedup_keeps_hydrated_last() {
    let out = deduplicate(vec![record("a", "thin", false), record("a", "full", true)]);
    assert_eq!(out.len(), 1);
    assert_eq!(out[0].version, "full");
    assert!(out[0].is_metadata_loaded());
}

#[test]
fn dedup_never_replaces_a_hydrated_record() {
    let out = deduplicate(vec![
        record("a", "first", true),
        record("a", "second", true),
        record("a", "third", false),
    ]);
    assert_eq!(out.len(), 1);
    assert_eq!(out[0].version, "first");
}

#[test]
fn dedup_of_nothing_is_nothing() {
    assert!(deduplicate(vec![]).is_empty());
}

#[test]
fn dedup_tells_identifiers_by_case() {
    let out = deduplicate(vec![record("Serde", "1", false), record("serde", "2", false)]);
    assert_eq!(out.len(), 2);
}

#[test]
fn project_scope_finds_declared_dependencies() {
    let e = env(
        Some(project(vec![package("app", vec![dep("serde", "1.0"), dep("serde_json", "1.0")])])),
        vec![binary("serde-tool", "0.1")],
    );
    let mut manager = CrateSearchManager::new();
    let task = manager.search(options("serde", Scope::Project), &e);
    assert!(task.query.is_none());
    let results = rendered(manager.complete_search(task, None));
    assert_eq!(results.crates.len(), 2);
    assert_eq!(results.crates[0].name, "serde");
    assert!(results.crates[0].exact_match);
    assert_eq!(results.crates[1].name, "serde_json");
    assert!(!results.crates[1].exact_match);
    assert_eq!(results.total_count, 2);
    assert_eq!(results.page_count(), 1);
    assert_eq!(results.current_page(), 1);
    assert_eq!(results.crates[0].project_version, Some("1.0".to_string()));
}

#[test]
fn search_term_is_matched_in_lower_case() {
    let e = env(Some(project(vec![package("app", vec![dep("serde", "1.0")])])), vec![]);
    let mut manager = CrateSearchManager::new();
    let task = manager.search(options("SERDE", Scope::All), &e);
    assert_eq!(task.results.crates.len(), 1);
    assert!(task.results.crates[0].exact_match);
    assert_eq!(task.query.as_ref().unwrap().term, "serde");
}

#[test]
fn full_quota_still_asks_the_registry_for_its_count() {
    let deps: Vec<Dependency> = (0..60).map(|i| dep(&format!("dep-{}", i), "1")).collect();
    let bins: Vec<InstalledBinary> = (0..50).map(|i| binary(&format!("bin-dep-{}", i), "1")).collect();
    let e = env(Some(project(vec![package("app", deps)])), bins);
    let mut manager = CrateSearchManager::new();
    let task = manager.search(options("dep", Scope::All), &e);
    assert_eq!(
        task.query,
        Some(RegistryQuery { term: "dep".to_string(), sort: Sort::Relevance, page: 1, per_page: 0 })
    );
    assert_eq!(task.results.crates.len(), 100);
    assert_eq!(task.results.total_count, 110);
    let reply = RegistryPage { crates: vec![listed("dep-online")], total: 4321 };
    let results = rendered(manager.complete_search(task, Some(Ok(reply))));
    assert_eq!(results.crates.len(), 100);
    assert_eq!(results.total_count, 60 + 50 + 4321);
    assert!(results.crates.iter().all(|c| c.id != "dep-online"));
    assert_eq!(results.crates[59].name, "dep-59");
    assert_eq!(results.crates[60].name, "bin-dep-0");
    assert_eq!(results.crates[99].name, "bin-dep-39");
}

#[test]
fn total_count_is_the_sum_of_the_sources() {
    let e = env(
        Some(project(vec![package("app", vec![dep("abc", "1"), dep("abd", "1"), dep("xyz", "1")])])),
        vec![binary("ab-tool", "1"), binary("other", "1")],
    );
    let mut manager = CrateSearchManager::new();
    let mut o = options("ab", Scope::All);
    o.per_page = Some(2);
    let task = manager.search(o, &e);
    assert_eq!(task.results.total_count, 3);
    assert_eq!(task.results.crates.len(), 2);
    assert_eq!(task.query.as_ref().unwrap().per_page, 0);
    let reply = RegistryPage { crates: vec![], total: 40 };
    let results = rendered(manager.complete_search(task, Some(Ok(reply))));
    assert_eq!(results.total_count, 2 + 1 + 40);
    assert_eq!(results.crates.len(), 2);
    assert_eq!(results.page_count(), 22);
}

#[test]
fn registry_records_fill_the_rest_of_the_page() {
    let e = env(Some(project(vec![package("app", vec![dep("abc", "1")])])), vec![]);
    let mut manager = CrateSearchManager::new();
    let mut o = options("ab", Scope::All);
    o.per_page = Some(3);
    o.sort = Sort::Downloads;
    let task = manager.search(o, &e);
    assert_eq!(
        task.query,
        Some(RegistryQuery { term: "ab".to_string(), sort: Sort::Downloads, page: 1, per_page: 2 })
    );
    let reply = RegistryPage { crates: vec![listed("abx"), listed("aby"), listed("abz")], total: 3 };
    let results = rendered(manager.complete_search(task, Some(Ok(reply))));
    assert_eq!(names(&results.crates), vec!["abc".to_string(), "abx".to_string(), "aby".to_string()]);
    assert_eq!(results.total_count, 4);
    assert_eq!(results.crates[1].version, "2.0.0");
    assert_eq!(results.crates[1].max_version, Some("2.0.0".to_string()));
    assert_eq!(results.crates[1].downloads, Some(7));
    assert!(!results.crates[1].is_metadata_loaded());
}

#[test]
fn results_are_stamped_from_the_environment() {
    let e = env(
        Some(project(vec![package("app", vec![dep("ripgrep", "13")])])),
        vec![binary("ripgrep", "14.1"), binary("tokei", "12")],
    );
    let mut manager = CrateSearchManager::new();
    let task = manager.search(options("", Scope::Online), &e);
    assert!(task.results.crates.is_empty());
    let reply = RegistryPage { crates: vec![listed("ripgrep"), listed("tokei"), listed("serde")], total: 3 };
    let results = rendered(manager.complete_search(task, Some(Ok(reply))));
    assert_eq!(results.crates[0].project_version, Some("13".to_string()));
    assert_eq!(results.crates[0].installed_version, Some("14.1".to_string()));
    assert_eq!(results.crates[1].project_version, None);
    assert_eq!(results.crates[1].installed_version, Some("12".to_string()));
    assert_eq!(results.crates[2].project_version, None);
    assert_eq!(results.crates[2].installed_version, None);
}

#[test]
fn same_crate_from_project_and_registry_is_shown_once() {
    let e = env(Some(project(vec![package("app", vec![dep("serde", "1.0")])])), vec![]);
    let mut manager = CrateSearchManager::new();
    let task = manager.search(options("serde", Scope::All), &e);
    let reply = RegistryPage { crates: vec![listed("serde"), listed("serde_json")], total: 2 };
    let results = rendered(manager.complete_search(task, Some(Ok(reply))));
    assert_eq!(names(&results.crates), vec!["serde".to_string(), "serde_json".to_string()]);
    assert_eq!(results.crates[0].downloads, Some(7));
    assert_eq!(results.crates[0].project_version, Some("1.0".to_string()));
    assert_eq!(results.total_count, 3);
}

#[test]
fn results_are_stamped_from_the_environment_of_the_start() {
    let mut e = env(None, vec![binary("ripgrep", "13")]);
    let mut manager = CrateSearchManager::new();
    let task = manager.search(options("rip", Scope::All), &e);
    e.installed_binaries.clear();
    e.installed_binaries.push(binary("ripgrep", "14"));
    let results = rendered(manager.complete_search(task, Some(Ok(RegistryPage { crates: vec![], total: 0 }))));
    assert_eq!(results.crates[0].installed_version, Some("13".to_string()));
}

#[test]
fn registry_failure_discards_local_results() {
    let e = env(Some(project(vec![package("app", vec![dep("serde", "1.0")])])), vec![]);
    let mut manager = CrateSearchManager::new();
    let task = manager.search(options("serde", Scope::All), &e);
    assert_eq!(task.results.crates.len(), 1);
    let outcome = manager.complete_search(task, Some(Err("timed out".to_string())));
    assert_eq!(outcome, Some(SearchAction::Error("timed out".to_string())));
}

#[test]
fn second_page_skips_the_local_matches_of_the_first() {
    let deps: Vec<Dependency> = (0..5).map(|i| dep(&format!("d{}", i), "1")).collect();
    let e = env(Some(project(vec![package("app", deps)])), vec![]);
    let mut manager = CrateSearchManager::new();
    let mut o = options("d", Scope::Project);
    o.per_page = Some(2);
    o.page = Some(2);
    let task = manager.search(o, &e);
    let results = rendered(manager.complete_search(task, None));
    assert_eq!(names(&results.crates), vec!["d2".to_string(), "d3".to_string()]);
    assert_eq!(results.total_count, 5);
    assert_eq!(results.current_page(), 2);
    assert_eq!(results.page_count(), 3);
}

#[test]
fn scope_decides_the_sources() {
    let e = env(Some(project(vec![package("app", vec![dep("abc", "1")])])), vec![binary("abd", "1")]);
    let mut manager = CrateSearchManager::new();
    let online = manager.search(options("ab", Scope::Online), &e);
    assert!(online.results.crates.is_empty() && online.query.is_some());
    let installed = manager.search(options("ab", Scope::Installed), &e);
    assert_eq!(names(&installed.results.crates), vec!["abd".to_string()]);
    assert!(installed.query.is_none());
    let proj = manager.search(options("ab", Scope::Project), &e);
    assert_eq!(names(&proj.results.crates), vec!["abc".to_string()]);
    assert!(proj.query.is_none());
    let all = manager.search(options("ab", Scope::All), &e);
    assert_eq!(names(&all.results.crates), vec!["abc".to_string(), "abd".to_string()]);
    assert!(all.query.is_some());
}

#[test]
fn missing_options_fall_back_to_defaults() {
    let e = env(None, vec![binary("x", "1")]);
    let mut manager = CrateSearchManager::new();
    let task = manager.search(
        SearchOptions { term: None, page: None, per_page: None, sort: Sort::Name, scope: Scope::All },
        &e,
    );
    assert_eq!(task.results.current_page(), 1);
    assert_eq!(task.results.per_page(), 100);
    assert_eq!(task.results.crates.len(), 1);
    assert_eq!(
        task.query,
        Some(RegistryQuery { term: String::new(), sort: Sort::Name, page: 1, per_page: 99 })
    );
}

#[test]
fn later_search_supersedes_the_earlier() {
    let e = env(None, vec![binary("abc", "1")]);
    let mut manager = CrateSearchManager::new();
    let a = manager.search(options("a", Scope::Installed), &e);
    assert!(manager.is_search_live(a.ticket));
    let b = manager.search(options("b", Scope::Installed), &e);
    assert!(!manager.is_search_live(a.ticket));
    assert!(manager.is_search_live(b.ticket));
    let b_ticket = b.ticket;
    assert_eq!(manager.complete_search(a, None), None);
    assert!(manager.is_search_live(b_ticket));
    let emitted = manager.complete_search(b, None);
    assert!(matches!(emitted, Some(SearchAction::Render(_))));
    assert!(!manager.is_search_live(b_ticket));
}

#[test]
fn a_search_reports_once() {
    let e = env(None, vec![]);
    let mut manager = CrateSearchManager::new();
    let a = manager.search(options("a", Scope::Installed), &e);
    let again = cargo_seek::search::crate_search_manager::SearchTask {
        ticket: a.ticket,
        query: None,
        results: SearchResults::new(1),
        cargo_env: CargoEnv::new(None),
    };
    assert!(manager.complete_search(a, None).is_some());
    assert_eq!(manager.complete_search(again, None), None);
}

#[test]
fn superseded_search_stays_silent_even_on_registry_failure() {
    let e = env(None, vec![]);
    let mut manager = CrateSearchManager::new();
    let a = manager.search(options("a", Scope::All), &e);
    let _b = manager.search(options("b", Scope::All), &e);
    assert_eq!(manager.complete_search(a, Some(Err("boom".to_string()))), None);
}

#[test]
fn later_hydration_request_supersedes_the_earlier() {
    let mut manager = CrateSearchManager::new();
    let x = manager.get_crate_data("x");
    assert_eq!(x.name, "x");
    assert_eq!(x.delay_ms, 700);
    assert_eq!(CrateSearchManager::HYDRATION_DELAY_MS, 700);
    assert_eq!(CrateSearchManager::REGISTRY_RATE_LIMIT_MS, 1100);
    assert_eq!(CrateSearchManager::REGISTRY_TIMEOUT_SECS, 10);
    assert!(manager.is_hydration_due(x.ticket));
    let y = manager.get_crate_data("y");
    assert!(!manager.is_hydration_due(x.ticket));
    assert!(manager.is_hydration_due(y.ticket));
    assert!(!manager.complete_hydration(x.ticket));
    assert!(manager.is_hydration_due(y.ticket));
    assert!(manager.complete_hydration(y.ticket));
    assert!(!manager.is_hydration_due(y.ticket));
    assert!(!manager.complete_hydration(y.ticket));
}

#[test]
fn new_search_supersedes_pending_hydration() {
    let e = env(None, vec![]);
    let mut manager = CrateSearchManager::new();
    let x = manager.get_crate_data("x");
    let task = manager.search(options("a", Scope::Installed), &e);
    assert!(!manager.is_hydration_due(x.ticket));
    assert!(manager.is_search_live(task.ticket));
    let y = manager.get_crate_data("y");
    assert!(manager.is_search_live(task.ticket));
    assert!(manager.is_hydration_due(y.ticket));
}

#[test]
fn update_results_refreshes_after_the_environment_changed() {
    let mut results = SearchResults::new(1);
    let mut a = record("a", "1", false);
    a.project_version = Some("stale".to_string());
    a.installed_version = Some("stale".to_string());
    results.crates.push(a);
    results.crates.push(record("b", "1", false));
    results.total_count = 2;
    let with_project = env(Some(project(vec![package("app", vec![dep("b", "2")])])), vec![binary("b", "3")]);
    CrateSearchManager::update_results(&mut results, &with_project);
    assert_eq!(results.crates[0].project_version, None);
    assert_eq!(results.crates[0].installed_version, None);
    assert_eq!(results.crates[1].project_version, Some("2".to_string()));
    assert_eq!(results.crates[1].installed_version, Some("3".to_string()));
    assert_eq!(results.total_count, 2);
    let no_project = env(None, vec![]);
    CrateSearchManager::update_results(&mut results, &no_project);
    assert_eq!(results.crates[1].project_version, Some("2".to_string()));
    assert_eq!(results.crates[1].installed_version, None);
}

#[test]
fn listed_record_prefers_the_stable_version() {
    let mut c = listed("x");
    c.max_stable_version = Some("1.5.0".to_string());
    c.exact_match = None;
    c.features = Some(vec!["std".to_string()]);
    let cr = c.into_listed();
    assert_eq!(cr.version, "1.5.0");
    assert_eq!(cr.max_version, Some("2.0.0".to_string()));
    assert!(!cr.exact_match);
    assert!(!cr.is_metadata_loaded());
    assert_eq!(cr.created_at, Some(Timestamp { secs: 0, nanos: 0 }));
}
