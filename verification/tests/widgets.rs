use cargo_seek::action::Action;
use cargo_seek::app::Mode;
use cargo_seek::components::app_id::AppId;
use cargo_seek::components::settings::Settings;
use cargo_seek::components::status_bar::{
    ClearTimer, StatusAction, StatusBar, StatusDuration, StatusLevel, StatusMessage,
};
use cargo_seek::components::ux::button::{button_layout, Button, ButtonColors, Rgb, State, Theme};
use cargo_seek::components::ux::dropdown::Dropdown;
use cargo_seek::search::list_state::ListState;
use cargo_seek::search::search_options::{Scope, SearchOptions, Sort};
use cargo_seek::tui::{KeyCode, Rect};

fn message(level: StatusLevel, text: &str) -> Option<StatusMessage> {
    Some(StatusMessage { level, message: text.to_string() })
}

#[test]
fn list_state_select() {
    let mut state = ListState { offset: 4, selected: Some(2) };
    state.select(Some(7));
    assert_eq!(state, ListState { offset: 4, selected: Some(7) });
    state.select(None);
    assert_eq!(state, ListState { offset: 0, selected: None });
    assert_eq!(state.selected(), None);
    assert_eq!(state.offset(), 0);
}

#[test]
fn list_state_select_next() {
    let mut state = ListState::default();
    state.offset = 3;
    state.select_next();
    assert_eq!(state, ListState { offset: 3, selected: Some(0) });
    state.select_next();
    assert_eq!(state.selected, Some(1));
    state.selected = Some(usize::MAX - 1);
    state.select_next();
    assert_eq!(state.selected, Some(usize::MAX));
    state.select_next();
    assert_eq!(state.selected, Some(usize::MAX));
}

#[test]
fn list_state_select_previous() {
    let mut state = ListState { offset: 2, selected: None };
    state.select_previous();
    assert_eq!(state, ListState { offset: 2, selected: Some(usize::MAX) });
    state.selected = Some(5);
    state.select_previous();
    assert_eq!(state.selected, Some(4));
    state.selected = Some(0);
    state.select_previous();
    assert_eq!(state.selected, Some(0));
}

#[test]
fn list_state_select_first_and_last() {
    let mut state = ListState { offset: 9, selected: Some(5) };
    state.select_first();
    assert_eq!(state, ListState { offset: 9, selected: Some(0) });
    state.select_last();
    assert_eq!(state, ListState { offset: 9, selected: Some(ListState::LAST) });
    assert_eq!(ListState::LAST, usize::MAX);
}

#[test]
fn scope_and_sort_by_index() {
    let scopes = [Scope::All, Scope::Online, Scope::Project, Scope::Installed];
    for (i, scope) in scopes.iter().enumerate() {
        assert_eq!(scope.index(), i);
        assert_eq!(Scope::from_index(i), Some(*scope));
    }
    assert_eq!(Scope::from_index(4), None);
    let sorts = [
        Sort::Relevance,
        Sort::Name,
        Sort::Downloads,
        Sort::RecentDownloads,
        Sort::RecentlyUpdated,
        Sort::NewlyAdded,
    ];
    for (i, sort) in sorts.iter().enumerate() {
        assert_eq!(sort.index(), i);
        assert_eq!(Sort::from_index(i), Some(*sort));
    }
    assert_eq!(Sort::from_index(6), None);
    assert_eq!(Scope::default(), Scope::Online);
    assert_eq!(Sort::default(), Sort::Relevance);
}

#[test]
fn scope_and_sort_names() {
    assert_eq!(Scope::All.to_str(), "All");
    assert_eq!(Scope::Online.to_str(), "Online");
    assert_eq!(Scope::Project.to_str(), "Project");
    assert_eq!(Scope::Installed.to_str(), "Installed");
    assert_eq!(Sort::Name.to_str(), "alpha");
    assert_eq!(Sort::Relevance.to_str(), "relevance");
    assert_eq!(Sort::Downloads.to_str(), "downloads");
    assert_eq!(Sort::RecentDownloads.to_str(), "recent-downloads");
    assert_eq!(Sort::RecentlyUpdated.to_str(), "recent-updates");
    assert_eq!(Sort::NewlyAdded.to_str(), "new");
    assert_eq!(Sort::Relevance.label(), "Relevance");
    assert_eq!(Sort::Name.label(), "Name");
    assert_eq!(Sort::Downloads.label(), "Downloads");
    assert_eq!(Sort::RecentDownloads.label(), "Recent Downloads");
    assert_eq!(Sort::RecentlyUpdated.label(), "Recently Updated");
    assert_eq!(Sort::NewlyAdded.label(), "Newly Added");
}

#[test]
fn search_options_defaults() {
    let options = SearchOptions::default();
    assert_eq!(options.term, None);
    assert_eq!(options.page(), 1);
    assert_eq!(options.per_page(), 100);
    assert_eq!(options.sort, Sort::Relevance);
    assert_eq!(options.scope, Scope::Online);
    assert_eq!(SearchOptions::DEFAULT_PER_PAGE, 100);
    let named = SearchOptions { page: Some(4), per_page: Some(25), ..SearchOptions::default() };
    assert_eq!(named.page(), 4);
    assert_eq!(named.per_page(), 25);
}

#[test]
fn dropdown_selects_by_index() {
    let mut dropdown: Dropdown<Sort> = Dropdown::new("Sort by".to_string(), 2);
    assert_eq!(dropdown.header, "Sort by");
    assert!(!dropdown.is_focused);
    assert_eq!(dropdown.get_selected(), Sort::Downloads);
    dropdown.state.selected = Some(17);
    assert_eq!(dropdown.get_selected(), Sort::Relevance);
    dropdown.state.selected = None;
    assert_eq!(dropdown.get_selected(), Sort::Relevance);
    let scopes: Dropdown<Scope> = Dropdown::new("Search in".to_string(), 9);
    assert_eq!(scopes.get_selected(), Scope::Online);
}

#[test]
fn dropdown_takes_keys_only_with_the_focus() {
    let mut dropdown: Dropdown<Scope> = Dropdown::new("Search in".to_string(), 1);
    assert_eq!(dropdown.handle_key_event(KeyCode::Down), None);
    assert_eq!(dropdown.handle_key_event(KeyCode::Enter), None);
    assert_eq!(dropdown.state.selected, Some(1));
    dropdown.set_is_focused(true);
    assert_eq!(dropdown.handle_key_event(KeyCode::Down), None);
    assert_eq!(dropdown.state.selected, Some(2));
    assert_eq!(dropdown.handle_key_event(KeyCode::Enter), Some(Scope::Project));
    assert_eq!(dropdown.handle_key_event(KeyCode::Up), None);
    assert_eq!(dropdown.handle_key_event(KeyCode::Up), None);
    assert_eq!(dropdown.handle_key_event(KeyCode::Up), None);
    assert_eq!(dropdown.handle_key_event(KeyCode::Enter), Some(Scope::All));
    assert_eq!(dropdown.handle_key_event(KeyCode::Char('x')), None);
    assert_eq!(dropdown.state.selected, Some(0));
}

#[test]
fn dropdown_selects_the_first_item_when_drawn_without_selection() {
    let mut dropdown: Dropdown<Sort> = Dropdown::new("Sort by".to_string(), 0);
    dropdown.state.selected = None;
    assert!(!dropdown.before_draw());
    assert_eq!(dropdown.state.selected, None);
    dropdown.set_is_focused(true);
    assert!(dropdown.before_draw());
    assert_eq!(dropdown.state.selected, Some(0));
    dropdown.state.selected = Some(3);
    assert!(dropdown.before_draw());
    assert_eq!(dropdown.state.selected, Some(3));
}

#[test]
fn button_colours_follow_the_state() {
    let button = Button::new("Docs".to_string());
    assert_eq!(button.label, "Docs");
    assert_eq!(button.theme, Theme::blue());
    assert_eq!(button.state, State::Normal);
    let theme = Theme::orange();
    let button = button.theme(theme);
    assert_eq!(
        button.colors(),
        ButtonColors { background: theme.background, text: theme.text, shadow: theme.shadow, highlight: theme.highlight }
    );
    assert!(!button.is_underlined());
    let button = button.state(State::Selected);
    assert_eq!(
        button.colors(),
        ButtonColors { background: theme.highlight, text: theme.text, shadow: theme.shadow, highlight: theme.highlight }
    );
    assert!(button.is_underlined());
    let button = button.state(State::Active);
    assert_eq!(
        button.colors(),
        ButtonColors { background: theme.background, text: theme.text, shadow: theme.highlight, highlight: theme.shadow }
    );
    assert!(!button.is_underlined());
}

#[test]
fn themes() {
    let rgb = |r, g, b| Rgb { r, g, b };
    assert_eq!(
        Theme::blue(),
        Theme { text: rgb(255, 255, 255), background: rgb(48, 72, 144), highlight: rgb(64, 96, 192), shadow: rgb(32, 48, 96) }
    );
    assert_eq!(
        Theme::white(),
        Theme { text: rgb(0, 0, 0), background: rgb(224, 224, 224), highlight: rgb(255, 255, 255), shadow: rgb(160, 160, 160) }
    );
    assert_eq!(Theme::black().background, rgb(48, 48, 48));
    assert_eq!(Theme::gray().background, rgb(96, 96, 96));
    assert_eq!(Theme::red().background, rgb(144, 48, 48));
    assert_eq!(Theme::green().background, rgb(48, 144, 48));
    assert_eq!(Theme::orange().background, rgb(144, 96, 48));
    assert_eq!(Theme::yellow().background, rgb(144, 144, 48));
    assert_eq!(Theme::cyan().background, rgb(48, 144, 144));
    assert_eq!(Theme::purple().highlight, rgb(128, 64, 192));
}

#[test]
fn button_label_is_centred() {
    let layout = button_layout(Rect { x: 10, y: 5, width: 12, height: 3 }, 4);
    assert!(layout.top_line);
    assert_eq!(layout.bottom_line, Some(7));
    assert_eq!(layout.label_x, 14);
    assert_eq!(layout.label_y, 6);
    let flat = button_layout(Rect { x: 10, y: 5, width: 12, height: 1 }, 20);
    assert!(!flat.top_line);
    assert_eq!(flat.bottom_line, None);
    assert_eq!(flat.label_x, 10);
    assert_eq!(flat.label_y, 5);
    let two = button_layout(Rect { x: 0, y: 0, width: 3, height: 2 }, 2);
    assert!(!two.top_line);
    assert_eq!(two.bottom_line, Some(1));
    assert_eq!(two.label_x, 0);
    assert_eq!(two.label_y, 0);
}

#[test]
fn status_with_a_duration_starts_a_timer() {
    let mut bar = StatusBar::new();
    assert_eq!(bar.status, None);
    let timer = bar.set_status("Loaded".to_string(), StatusLevel::Success, StatusDuration::Short);
    assert_eq!(timer, Some(ClearTimer { ticket: 0, seconds: 3 }));
    assert_eq!(bar.status, message(StatusLevel::Success, "Loaded"));
    assert_eq!(bar.info("x".to_string()), Some(ClearTimer { ticket: 1, seconds: 10 }));
    assert_eq!(bar.success("x".to_string()), Some(ClearTimer { ticket: 2, seconds: 10 }));
    assert_eq!(bar.error("x".to_string()), Some(ClearTimer { ticket: 3, seconds: 10 }));
    assert_eq!(bar.status, message(StatusLevel::Error, "x"));
    assert_eq!(
        bar.info_with_duration(StatusDuration::Seconds(42), "y".to_string()),
        Some(ClearTimer { ticket: 4, seconds: 42 })
    );
    assert_eq!(
        bar.error_with_duration(StatusDuration::Hidden, "z".to_string()),
        Some(ClearTimer { ticket: 5, seconds: 0 })
    );
    assert_eq!(bar.success_with_duration(StatusDuration::Sticky, "s".to_string()), None);
    assert_eq!(bar.status, message(StatusLevel::Success, "s"));
    assert_eq!(bar.live_timer, None);
}

#[test]
fn progress_stays_until_the_next_status() {
    let mut bar = StatusBar::new();
    let timer = bar.info("Ready".to_string()).unwrap();
    assert_eq!(bar.progress("Searching".to_string()), None);
    assert_eq!(bar.status, message(StatusLevel::Progress, "Searching"));
    assert_eq!(bar.timer_elapsed(timer.ticket), None);
    assert_eq!(bar.status, message(StatusLevel::Progress, "Searching"));
    assert_eq!(
        bar.progress_with_duration(StatusDuration::Long, "p".to_string()),
        Some(ClearTimer { ticket: 1, seconds: 10 })
    );
}

#[test]
fn only_the_latest_timer_clears_the_status() {
    let mut bar = StatusBar::new();
    let first = bar.info("one".to_string()).unwrap();
    let second = bar.info("two".to_string()).unwrap();
    assert_eq!(bar.timer_elapsed(first.ticket), None);
    assert_eq!(
        bar.timer_elapsed(second.ticket),
        Some(Action::Status(StatusAction::UpdateStatus(StatusLevel::Info, "ready".to_string())))
    );
    assert_eq!(bar.timer_elapsed(second.ticket), None);
    assert_eq!(bar.status, message(StatusLevel::Info, "two"));
}

#[test]
fn annoying_status_comes_back_on_an_empty_one() {
    let mut bar = StatusBar::new();
    bar.info("shown".to_string());
    assert_eq!(bar.set_status("update available".to_string(), StatusLevel::Info, StatusDuration::Annoying), None);
    assert_eq!(bar.status, message(StatusLevel::Info, "shown"));
    assert_eq!(bar.last_annoying, message(StatusLevel::Info, "update available"));
    assert_eq!(bar.live_timer, Some(0));
    assert_eq!(bar.set_status(String::new(), StatusLevel::Error, StatusDuration::Short), None);
    assert_eq!(bar.status, message(StatusLevel::Info, "update available"));
    assert_eq!(bar.live_timer, Some(0));
    let mut plain = StatusBar::new();
    assert_eq!(
        plain.set_status(String::new(), StatusLevel::Info, StatusDuration::Short),
        Some(ClearTimer { ticket: 0, seconds: 3 })
    );
    assert_eq!(plain.status, message(StatusLevel::Info, ""));
}

#[test]
fn status_actions_set_the_status() {
    let mut bar = StatusBar::new();
    assert_eq!(
        bar.update(Action::Status(StatusAction::UpdateStatus(StatusLevel::Error, "bad".to_string()))),
        Some(ClearTimer { ticket: 0, seconds: 10 })
    );
    assert_eq!(bar.status, message(StatusLevel::Error, "bad"));
    assert_eq!(bar.update(Action::Status(StatusAction::UpdateStatus(StatusLevel::Progress, "busy".to_string()))), None);
    assert_eq!(bar.status, message(StatusLevel::Progress, "busy"));
    assert_eq!(
        bar.update(Action::Status(StatusAction::UpdateStatusWithDuration(
            StatusLevel::Success,
            StatusDuration::Short,
            "ok".to_string()
        ))),
        Some(ClearTimer { ticket: 1, seconds: 3 })
    );
    assert_eq!(bar.update(Action::Tick), None);
    assert_eq!(bar.status, message(StatusLevel::Success, "ok"));
    assert!(bar.can_start());
}

#[test]
fn durations_in_seconds() {
    assert_eq!(StatusDuration::Hidden.seconds(), Some(0));
    assert_eq!(StatusDuration::Short.seconds(), Some(3));
    assert_eq!(StatusDuration::Long.seconds(), Some(10));
    assert_eq!(StatusDuration::Seconds(77).seconds(), Some(77));
    assert_eq!(StatusDuration::Sticky.seconds(), None);
    assert_eq!(StatusDuration::Annoying.seconds(), None);
}

#[test]
fn app_id_names_the_version() {
    assert_eq!(AppId::new("0.3.1").id, " \u{1F4E6} cargo-seek v0.3.1 ");
}

#[test]
fn settings_show_on_their_own_screen() {
    let settings = Settings::new();
    assert!(settings.is_shown(&Mode::Settings));
    assert!(!settings.is_shown(&Mode::Home));
    assert!(!settings.is_shown(&Mode::App));
    assert_eq!(settings.label_column_width(), 30);
    assert_eq!(Mode::default(), Mode::Home);
}
