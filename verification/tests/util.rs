use cargo_seek::components::home::draw::{
    column_widths, crate_details, cursor_column, items_in_prev_pages, join_with_commas,
    page_title, position_title, row_kind, row_tag, row_text, row_version, scroll_width,
    selected_item_number, spaces, spinner_width, updated_text_of, DetailLine, LineKind, RowKind,
};
use cargo_seek::components::home::Home;
use cargo_seek::search::cargo_crate::{Crate, Timestamp};
use cargo_seek::search::search_results::SearchResults;
use cargo_seek::text::{concat2, concat3, to_decimal};
use cargo_seek::util::{date_text_of, number_text_of, relative_time, to_signed_decimal, Util};

fn at(secs: i64) -> Timestamp {
    Timestamp { secs, nanos: 0 }
}

fn record(name: &str, version: &str) -> Crate {
    Crate::local(&name.to_string(), &version.to_string(), false)
}

#[test]
fn decimal_numerals() {
    assert_eq!(to_decimal(0), "0");
    assert_eq!(to_decimal(7), "7");
    assert_eq!(to_decimal(10), "10");
    assert_eq!(to_decimal(1905), "1905");
    assert_eq!(to_decimal(u64::MAX), "18446744073709551615");
    assert_eq!(to_signed_decimal(0), "0");
    assert_eq!(to_signed_decimal(-1), "-1");
    assert_eq!(to_signed_decimal(i64::MAX), "9223372036854775807");
    assert_eq!(to_signed_decimal(i64::MIN), "-9223372036854775808");
}

#[test]
fn concatenation() {
    assert_eq!(concat2("ab", "cd"), "abcd");
    assert_eq!(concat2("", ""), "");
    assert_eq!(concat3("a", "", "c"), "ac");
}

#[test]
fn relative_time_by_size() {
    assert_eq!(relative_time(3 * 86_400), "3 days ago");
    assert_eq!(relative_time(2 * 86_400), "2 days ago");
    assert_eq!(relative_time(2 * 86_400 - 1), "47 hours ago");
    assert_eq!(relative_time(86_400), "24 hours ago");
    assert_eq!(relative_time(2 * 3_600), "2 hours ago");
    assert_eq!(relative_time(2 * 3_600 - 1), "119 minutes ago");
    assert_eq!(relative_time(60), "1 minutes ago");
    assert_eq!(relative_time(59), "0 minutes ago");
    assert_eq!(relative_time(2), "0 minutes ago");
    assert_eq!(relative_time(1), "1 seconds ago");
    assert_eq!(relative_time(0), "0 seconds ago");
    assert_eq!(relative_time(-5), "-5 seconds ago");
    assert_eq!(relative_time(-3 * 86_400), "-259200 seconds ago");
}

#[test]
fn relative_time_between_two_times() {
    assert_eq!(Util::get_relative_time(at(1_700_000_000), at(1_700_000_000 + 5 * 86_400 + 17)), "5 days ago");
    assert_eq!(Util::get_relative_time(at(1_700_000_000), at(1_700_000_000 + 3 * 3_600)), "3 hours ago");
    assert_eq!(Util::get_relative_time(at(1_700_000_000), at(1_700_000_000)), "0 seconds ago");
    assert_eq!(Util::get_relative_time(at(1_700_000_100), at(1_700_000_000)), "-100 seconds ago");
}

#[test]
fn relative_time_counts_whole_seconds() {
    let early = Timestamp { secs: 100, nanos: 900_000_000 };
    let late = Timestamp { secs: 102, nanos: 100_000_000 };
    assert_eq!(Util::get_relative_time(early, late), "1 seconds ago");
    assert_eq!(Util::get_relative_time(late, early), "-1 seconds ago");
    let later = Timestamp { secs: 102, nanos: 900_000_000 };
    assert_eq!(Util::get_relative_time(early, later), "0 minutes ago");
}

#[test]
fn timestamps_in_range() {
    assert!(at(0).is_valid());
    assert!(at(-62_135_596_800).is_valid());
    assert!(at(253_402_300_799).is_valid());
    assert!(!at(253_402_300_800).is_valid());
    assert!(!at(-62_135_596_801).is_valid());
    assert!(!Timestamp { secs: 0, nanos: 1_000_000_000 }.is_valid());
}

#[test]
fn dates_are_written_day_first() {
    assert_eq!(date_text_of(at(1_431_648_000)), "15/05/2015 00:00:00 (UTC)");
    assert_eq!(date_text_of(Timestamp { secs: 1_700_000_000, nanos: 5 }), "14/11/2023 22:13:20 (UTC)");
    assert_eq!(date_text_of(at(i64::MAX)), "");
}

#[test]
fn updated_text_names_the_age() {
    assert_eq!(updated_text_of(None, at(0)), "");
    assert_eq!(
        updated_text_of(Some(at(1_431_648_000)), at(1_431_648_000 + 4 * 86_400)),
        "15/05/2015 00:00:00 (UTC) (4 days ago)"
    );
    assert_eq!(updated_text_of(Some(at(1_431_648_000)), at(i64::MAX)), "15/05/2015 00:00:00 (UTC)");
}

#[test]
fn numbers_get_separators() {
    assert_eq!(Util::format_number(Some(1_234_567), "en"), "1,234,567");
    assert_eq!(Util::format_number(Some(1_234_567), "de"), "1.234.567");
    assert_eq!(Util::format_number(Some(999), "en"), "999");
    assert_eq!(Util::format_number(Some(0), "en"), "0");
    assert_eq!(Util::format_number(None, "en"), "");
}

#[test]
fn unknown_locale_falls_back_to_english() {
    assert_eq!(Util::format_number(Some(1_234_567), "no-such-locale"), "1,234,567");
    assert_eq!(Util::format_number(Some(1_234_567), ""), "1,234,567");
}

#[test]
fn number_text_prefers_the_locale() {
    assert_eq!(number_text_of(Some(5), Some("five".to_string()), Some("5e".to_string())), "five");
    assert_eq!(number_text_of(Some(5), None, Some("5e".to_string())), "5e");
    assert_eq!(number_text_of(Some(1500), None, None), "1500");
    assert_eq!(number_text_of(None, Some("x".to_string()), None), "");
}

#[test]
fn rows_tell_added_from_installed() {
    let mut cr = record("serde", "1.0.200");
    assert_eq!(row_kind(&cr), RowKind::Plain);
    assert_eq!(row_tag(row_kind(&cr)), "  ");
    cr.installed_version = Some("1.0.1".to_string());
    assert_eq!(row_kind(&cr), RowKind::Installed);
    assert_eq!(row_tag(row_kind(&cr)), "i ");
    cr.project_version = Some("1".to_string());
    assert_eq!(row_kind(&cr), RowKind::Added);
    assert_eq!(row_tag(row_kind(&cr)), "+ ");
}

#[test]
fn row_version_names_the_local_version_once_loaded() {
    let mut cr = record("serde", "1.0.200");
    cr.installed_version = Some("1.0.1".to_string());
    assert_eq!(row_version(&cr), "1.0.200");
    cr.features = Some(vec![]);
    assert_eq!(row_version(&cr), "1.0.200 (1.0.1)");
    cr.project_version = Some("1".to_string());
    assert_eq!(row_version(&cr), "1.0.200 (1)");
    cr.project_version = None;
    cr.installed_version = None;
    assert_eq!(row_version(&cr), "1.0.200");
}

#[test]
fn row_text_fills_the_width() {
    let cr = record("serde", "1.0");
    assert_eq!(row_text(&cr, 20), "serde        1.0");
    assert_eq!(row_text(&cr, 20).len() + 2 + 2, 20);
    assert_eq!(row_text(&cr, 13), "serde 1.0");
    assert_eq!(row_text(&cr, 12), "serde 1.0");
    assert_eq!(row_text(&cr, 0), "serde 1.0");
}

#[test]
fn spaces_of_any_number() {
    assert_eq!(spaces(0), "");
    assert_eq!(spaces(3), "   ");
}

#[test]
fn position_in_the_list() {
    let mut results = SearchResults::new(3);
    results.total_count = 260;
    for i in 0..60 {
        results.crates.push(record(&format!("c{}", i), "1"));
    }
    assert_eq!(items_in_prev_pages(&results), 200);
    assert_eq!(selected_item_number(&results), 0);
    assert_eq!(position_title(&results), " 200/260 ");
    results.select_index(Some(0));
    assert_eq!(selected_item_number(&results), 1);
    assert_eq!(position_title(&results), " 201/260 ");
    results.select_index(Some(59));
    assert_eq!(selected_item_number(&results), 60);
    results.select_index(Some(60));
    assert_eq!(selected_item_number(&results), 60);
    results.select_index(Some(75));
    assert_eq!(selected_item_number(&results), 75);
    results.select_last();
    assert_eq!(selected_item_number(&results), 60);
    assert_eq!(position_title(&results), " 260/260 ");
    assert_eq!(page_title(&results), " Page 3/3 ");
}

#[test]
fn position_on_the_first_page() {
    let mut results = SearchResults::new(1);
    assert_eq!(items_in_prev_pages(&results), 0);
    assert_eq!(page_title(&results), " Page 1/0 ");
    results.current_page = 0;
    assert_eq!(items_in_prev_pages(&results), 0);
    results.current_page = usize::MAX;
    assert_eq!(items_in_prev_pages(&results), usize::MAX);
}

#[test]
fn layout_numbers() {
    let mut home = Home::new(None);
    assert_eq!(column_widths(&home), (40, 60));
    home.left_column_width_percent = 100;
    assert_eq!(column_widths(&home), (100, 0));
    assert_eq!(spinner_width(&home), 0);
    home.is_searching = true;
    assert_eq!(spinner_width(&home), 3);
    assert_eq!(scroll_width(30), 28);
    assert_eq!(scroll_width(1), 0);
    assert_eq!(cursor_column(10, 7, 3), 15);
    assert_eq!(cursor_column(10, 2, 3), 11);
}

#[test]
fn lists_are_joined_with_commas() {
    assert_eq!(join_with_commas(&vec![]), "");
    assert_eq!(join_with_commas(&vec!["a".to_string()]), "a");
    assert_eq!(join_with_commas(&vec!["a".to_string(), "b".to_string(), "c".to_string()]), "a, b, c");
}

fn line(label: &str, value: &str, kind: LineKind) -> DetailLine {
    DetailLine { label: label.to_string(), value: value.to_string(), kind }
}

#[test]
fn details_of_a_bare_record() {
    let cr = record("serde", "1.0");
    let lines = crate_details(&cr, at(1_700_000_000), "en");
    assert_eq!(
        lines,
        vec![
            line("Stable Version:", "1.0", LineKind::Plain),
            line("Latest Version:", "", LineKind::Plain),
            line("Description:", "", LineKind::Bold),
            line("Home Page:", "", LineKind::Plain),
            line("Documentation:", "", LineKind::Plain),
            line("Repository:", "", LineKind::Plain),
            line("crates.io:", "https://crates.io/crates/serde", LineKind::Plain),
            line("Downloads:", "", LineKind::Plain),
            line("Recent Downloads:", "", LineKind::Plain),
            line("Features:", "Loading...", LineKind::Plain),
            line("Categories:", "Loading...", LineKind::Plain),
            line("Created:", "", LineKind::Plain),
            line("Updated:", "", LineKind::Plain),
        ]
    );
}

#[test]
fn details_of_a_loaded_record() {
    let mut cr = record("serde", "1.0.200");
    cr.max_version = Some("2.0.0-rc".to_string());
    cr.project_version = Some("1".to_string());
    cr.installed_version = Some("0.9".to_string());
    cr.description = Some("A framework".to_string());
    cr.homepage = Some("https://serde.rs".to_string());
    cr.downloads = Some(1_234_567);
    cr.recent_downloads = Some(89_000);
    cr.features = Some(vec!["derive".to_string(), "std".to_string()]);
    cr.categories = Some(vec![]);
    cr.created_at = Some(at(1_431_648_000));
    cr.updated_at = Some(at(1_700_000_000));
    let lines = crate_details(&cr, at(1_700_000_000 + 3 * 86_400), "en");
    assert_eq!(
        lines,
        vec![
            line("Stable Version:", "1.0.200", LineKind::Plain),
            line("Latest Version:", "2.0.0-rc", LineKind::Plain),
            line("Project Version:", "1", LineKind::Added),
            line("Installed Version:", "0.9", LineKind::Installed),
            line("Description:", "A framework", LineKind::Bold),
            line("Home Page:", "https://serde.rs", LineKind::Plain),
            line("Documentation:", "", LineKind::Plain),
            line("Repository:", "", LineKind::Plain),
            line("crates.io:", "https://crates.io/crates/serde", LineKind::Plain),
            line("Downloads:", "1,234,567", LineKind::Plain),
            line("Recent Downloads:", "89,000", LineKind::Plain),
            line("Features:", "derive, std", LineKind::Plain),
            line("Categories:", "", LineKind::Plain),
            line("Created:", "15/05/2015 00:00:00 (UTC)", LineKind::Plain),
            line("Updated:", "14/11/2023 22:13:20 (UTC) (3 days ago)", LineKind::Plain),
        ]
    );
}
