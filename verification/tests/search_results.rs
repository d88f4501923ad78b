use cargo_seek::search::cargo_crate::{Crate, RegistryCrate, Timestamp};
use cargo_seek::search::crate_search_manager::CrateSearchManager;
use cargo_seek::search::list_state::ListState;
use cargo_seek::search::search_results::SearchResults;

fn record(name: &str) -> Crate {
    Crate::local(&name.to_string(), &"1.0.0".to_string(), false)
}

fn results_with(names: &[&str]) -> SearchResults {
    let mut results = SearchResults::new(1);
    for name in names {
        results.crates.push(record(name));
    }
    results.total_count = names.len();
    results
}

fn detail(id: &str) -> RegistryCrate {
    RegistryCrate {
        id: id.to_string(),
        name: id.to_string(),
        description: Some("about".to_string()),
        homepage: None,
        documentation: Some("https://docs.rs/x".to_string()),
        repository: None,
        max_version: "2.0.0-beta".to_string(),
        max_stable_version: Some("1.9.0".to_string()),
        downloads: 1234,
        recent_downloads: Some(56),
        features: Some(vec!["default".to_string(), "std".to_string()]),
        categories: Some(vec!["parsing".to_string()]),
        created_at: Timestamp { secs: 1_400_000_000, nanos: 0 },
        updated_at: Timestamp { secs: 1_500_000_000, nanos: 5 },
        exact_match: None,
    }
}

#[test]
fn new_results_are_empty() {
    let results = SearchResults::new(3);
    assert_eq!(results.current_page(), 3);
    assert_eq!(results.current_page_count(), 0);
    assert_eq!(results.total_count, 0);
    assert_eq!(results.per_page(), 100);
    assert_eq!(results.list_state, ListState { offset: 0, selected: None });
    assert_eq!(results.selected_index(), None);
    assert!(results.selected().is_none());
}

#[test]
fn page_count_rounds_up() {
    let mut results = SearchResults::new(1);
    assert_eq!(results.page_count(), 0);
    results.total_count = 1;
    assert_eq!(results.page_count(), 1);
    results.total_count = 100;
    assert_eq!(results.page_count(), 1);
    results.total_count = 101;
    assert_eq!(results.page_count(), 2);
    results.total_count = 250;
    assert_eq!(results.page_count(), 3);
    results.total_count = usize::MAX;
    assert_eq!(results.page_count(), usize::MAX / 100 + 1);
}

#[test]
fn page_count_follows_the_page_size() {
    let mut results = SearchResults::with_page_size(1, 7);
    results.total_count = 21;
    assert_eq!(results.page_count(), 3);
    results.total_count = 22;
    assert_eq!(results.page_count(), 4);
    let mut single = SearchResults::with_page_size(1, 1);
    single.total_count = usize::MAX;
    assert_eq!(single.page_count(), usize::MAX);
}

#[test]
fn next_and_previous_page() {
    let mut results = SearchResults::new(1);
    results.total_count = 250;
    assert!(results.has_next_page());
    assert!(!results.has_prev_page());
    results.current_page = 2;
    assert!(results.has_next_page());
    assert!(results.has_prev_page());
    results.current_page = 3;
    assert!(!results.has_next_page());
    assert!(results.has_prev_page());
    results.total_count = 300;
    assert!(!results.has_next_page());
    results.total_count = 301;
    assert!(results.has_next_page());
    results.current_page = usize::MAX;
    assert!(!results.has_next_page());
}

#[test]
fn select_index_returns_the_record() {
    let mut results = results_with(&["a", "b", "c"]);
    let selected = results.select_index(Some(1)).map(|c| c.name.clone());
    assert_eq!(selected, Some("b".to_string()));
    assert_eq!(results.selected_index(), Some(1));
    assert!(results.select_index(Some(3)).is_none());
    assert_eq!(results.selected_index(), Some(3));
    assert!(results.select_index(None).is_none());
    assert_eq!(results.selected_index(), None);
}

#[test]
fn select_index_none_resets_the_offset() {
    let mut results = results_with(&["a", "b"]);
    results.list_state.offset = 5;
    results.select_index(Some(1));
    assert_eq!(results.list_state, ListState { offset: 5, selected: Some(1) });
    results.select_index(None);
    assert_eq!(results.list_state, ListState { offset: 0, selected: None });
}

#[test]
fn select_next_walks_down() {
    let mut results = results_with(&["a", "b"]);
    assert_eq!(results.select_next().map(|c| c.name.clone()), Some("a".to_string()));
    assert_eq!(results.select_next().map(|c| c.name.clone()), Some("b".to_string()));
    assert!(results.select_next().is_none());
    assert_eq!(results.list_state.selected, Some(2));
}

#[test]
fn select_next_stays_at_the_largest_index() {
    let mut results = results_with(&["a", "b"]);
    results.list_state.selected = Some(usize::MAX);
    results.select_next();
    assert_eq!(results.list_state.selected, Some(usize::MAX));
}

#[test]
fn select_previous_walks_up() {
    let mut results = results_with(&["a", "b", "c"]);
    assert_eq!(results.select_previous().map(|c| c.name.clone()), Some("c".to_string()));
    assert_eq!(results.list_state.selected, Some(usize::MAX));
    results.select_index(Some(2));
    assert_eq!(results.select_previous().map(|c| c.name.clone()), Some("b".to_string()));
    assert_eq!(results.select_previous().map(|c| c.name.clone()), Some("a".to_string()));
    assert_eq!(results.select_previous().map(|c| c.name.clone()), Some("a".to_string()));
    assert_eq!(results.list_state.selected, Some(0));
}

#[test]
fn select_first_and_last() {
    let mut results = results_with(&["a", "b", "c"]);
    assert_eq!(results.select_last().map(|c| c.name.clone()), Some("c".to_string()));
    assert_eq!(results.list_state.selected, Some(usize::MAX));
    assert_eq!(results.selected_index(), Some(2));
    assert_eq!(results.select_first().map(|c| c.name.clone()), Some("a".to_string()));
    assert_eq!(results.list_state.selected, Some(0));
    assert_eq!(results.selected_index(), Some(0));
}

#[test]
fn select_last_on_empty_results_selects_nothing() {
    let mut results = SearchResults::new(1);
    assert!(results.select_last().is_none());
    assert_eq!(results.list_state.selected, Some(usize::MAX));
    assert_eq!(results.selected_index(), None);
    assert!(results.selected().is_none());
}

#[test]
fn exact_match_index_is_the_first() {
    let mut results = results_with(&["a", "b", "c", "d"]);
    assert_eq!(results.exact_match_index(), None);
    results.crates[2].exact_match = true;
    results.crates[3].exact_match = true;
    assert_eq!(results.exact_match_index(), Some(2));
}

#[test]
fn go_to_page_clamps_to_existing_pages() {
    let mut results = SearchResults::new(2);
    results.total_count = 450;
    assert_eq!(results.page_count(), 5);
    assert_eq!(results.go_to_page(4), Some(4));
    assert_eq!(results.go_to_page(5), Some(5));
    assert_eq!(results.go_to_page(6), Some(5));
    assert_eq!(results.go_to_page(usize::MAX), Some(5));
    assert_eq!(results.go_to_page(0), Some(1));
    assert_eq!(results.go_to_page(1), Some(1));
    assert_eq!(results.go_to_page(2), None);
}

#[test]
fn go_to_page_without_pages_leads_to_the_first() {
    let results = SearchResults::new(3);
    assert_eq!(results.page_count(), 0);
    assert_eq!(results.go_to_page(7), Some(1));
    assert_eq!(results.go_to_page(0), Some(1));
    let first = SearchResults::new(1);
    assert_eq!(first.go_to_page(7), None);
}

#[test]
fn go_pages_back_stops_at_the_first_page() {
    let mut results = SearchResults::new(3);
    results.total_count = 1000;
    assert_eq!(results.go_pages_back(1), Some(2));
    assert_eq!(results.go_pages_back(2), Some(1));
    assert_eq!(results.go_pages_back(3), Some(1));
    assert_eq!(results.go_pages_back(usize::MAX), Some(1));
    assert_eq!(results.go_pages_back(0), None);
    results.current_page = 1;
    assert_eq!(results.go_pages_back(1), None);
}

#[test]
fn go_pages_forward_stops_at_the_last_page() {
    let mut results = SearchResults::new(3);
    results.total_count = 1000;
    assert_eq!(results.go_pages_forward(1), Some(4));
    assert_eq!(results.go_pages_forward(7), Some(10));
    assert_eq!(results.go_pages_forward(8), Some(10));
    assert_eq!(results.go_pages_forward(usize::MAX), Some(10));
    assert_eq!(results.go_pages_forward(0), None);
    results.current_page = 10;
    assert_eq!(results.go_pages_forward(1), None);
}

#[test]
fn navigation_never_leaves_the_pages() {
    for total in [0usize, 1, 99, 100, 101, 1000] {
        for current in [1usize, 2, 5, 10, 11] {
            let mut results = SearchResults::new(current);
            results.total_count = total;
            let last = results.page_count().max(1);
            for n in [0usize, 1, 2, 9, 10, 11, usize::MAX] {
                for target in [results.go_to_page(n), results.go_pages_back(n), results.go_pages_forward(n)] {
                    if let Some(page) = target {
                        assert!(1 <= page && page <= last);
                        assert_ne!(page, current);
                    }
                }
            }
        }
    }
}

#[test]
fn hydrate_merges_the_detail() {
    let mut cr = record("serde");
    cr.project_version = Some("1.0".to_string());
    cr.installed_version = Some("0.9".to_string());
    assert!(!cr.is_metadata_loaded());
    CrateSearchManager::hydrate(detail("other-id"), &mut cr);
    assert!(cr.is_metadata_loaded());
    assert_eq!(cr.id, "serde");
    assert_eq!(cr.name, "other-id");
    assert_eq!(cr.description, Some("about".to_string()));
    assert_eq!(cr.homepage, None);
    assert_eq!(cr.documentation, Some("https://docs.rs/x".to_string()));
    assert_eq!(cr.version, "1.9.0");
    assert_eq!(cr.max_version, Some("2.0.0-beta".to_string()));
    assert_eq!(cr.max_stable_version, Some("1.9.0".to_string()));
    assert_eq!(cr.downloads, Some(1234));
    assert_eq!(cr.recent_downloads, Some(56));
    assert_eq!(cr.features, Some(vec!["default".to_string(), "std".to_string()]));
    assert_eq!(cr.categories, Some(vec!["parsing".to_string()]));
    assert_eq!(cr.created_at, Some(Timestamp { secs: 1_400_000_000, nanos: 0 }));
    assert_eq!(cr.updated_at, Some(Timestamp { secs: 1_500_000_000, nanos: 5 }));
    assert!(!cr.exact_match);
    assert_eq!(cr.project_version, Some("1.0".to_string()));
    assert_eq!(cr.installed_version, Some("0.9".to_string()));
}

#[test]
fn hydrate_without_stable_version_shows_the_newest() {
    let mut data = detail("x");
    data.max_stable_version = None;
    data.features = None;
    data.categories = None;
    data.exact_match = Some(true);
    let mut cr = record("x");
    CrateSearchManager::hydrate(data, &mut cr);
    assert_eq!(cr.version, "2.0.0-beta");
    assert_eq!(cr.features, Some(vec![]));
    assert_eq!(cr.categories, Some(vec![]));
    assert!(cr.exact_match);
    assert!(cr.is_metadata_loaded());
}

#[test]
fn hydration_reaches_the_selected_record() {
    let mut results = results_with(&["a", "b", "c"]);
    results.select_index(Some(1));
    assert!(CrateSearchManager::hydrate_selected(&mut results, detail("b")));
    assert!(!results.crates[0].is_metadata_loaded());
    assert!(results.crates[1].is_metadata_loaded());
    assert!(!results.crates[2].is_metadata_loaded());
    assert_eq!(results.crates[1].downloads, Some(1234));
}

#[test]
fn hydration_for_a_record_no_longer_selected_is_discarded() {
    let mut results = results_with(&["a", "b", "c"]);
    results.select_index(Some(1));
    results.select_index(Some(2));
    let before = results_with(&["a", "b", "c"]);
    assert!(!CrateSearchManager::hydrate_selected(&mut results, detail("b")));
    assert_eq!(results.crates, before.crates);
    assert_eq!(results.total_count, before.total_count);
    assert_eq!(results.list_state.selected, Some(2));
}

#[test]
fn hydration_after_another_search_is_discarded() {
    let mut later = results_with(&["x", "y"]);
    later.select_index(Some(0));
    let before = results_with(&["x", "y"]);
    assert!(!CrateSearchManager::hydrate_selected(&mut later, detail("b")));
    assert_eq!(later.crates, before.crates);
}

#[test]
fn hydration_without_selection_is_discarded() {
    let mut results = results_with(&["a"]);
    assert!(!CrateSearchManager::hydrate_selected(&mut results, detail("a")));
    assert!(!results.crates[0].is_metadata_loaded());
    results.select_index(Some(5));
    assert!(!CrateSearchManager::hydrate_selected(&mut results, detail("a")));
    assert!(!results.crates[0].is_metadata_loaded());
}

#[test]
fn hydration_reaches_the_last_record_through_the_sentinel() {
    let mut results = results_with(&["a", "b"]);
    results.select_last();
    assert!(CrateSearchManager::hydrate_selected(&mut results, detail("b")));
    assert!(results.crates[1].is_metadata_loaded());
}
