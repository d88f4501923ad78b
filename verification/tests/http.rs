use cargo_seek::action::Action;
use cargo_seek::app::{find_binding, find_keymap, App, Fired, KeyBinding, KeyMap, Mode};
use cargo_seek::http_client::{readme_urls, HttpClient, UrlParts};
use cargo_seek::search::search_options::Sort;
use cargo_seek::search::cargo_crate::{RegistryCrate, Timestamp};
use cargo_seek::tui::{KeyCode, KeyEvent};

fn key(c: char) -> KeyEvent {
    KeyEvent { code: KeyCode::Char(c), ctrl: false }
}

fn binding(keys: Vec<KeyEvent>, action: Action) -> KeyBinding {
    KeyBinding { keys, action }
}

fn keymaps() -> Vec<KeyMap> {
    vec![
        KeyMap {
            mode: Mode::Home,
            bindings: vec![
                binding(vec![key('q')], Action::Quit),
                binding(vec![key('g'), key('g')], Action::Help),
                binding(vec![key('q')], Action::Suspend),
            ],
        },
        KeyMap {
            mode: Mode::App,
            bindings: vec![
                binding(vec![KeyEvent { code: KeyCode::Char('c'), ctrl: true }], Action::Quit),
                binding(vec![key('g'), key('g'), key('x')], Action::ToggleSettings),
            ],
        },
    ]
}

#[test]
fn first_request_need_not_wait() {
    let client = HttpClient::new(1000);
    assert_eq!(client.wait(0), 0);
    assert_eq!(client.wait(123_456), 0);
}

#[test]
fn requests_are_held_apart() {
    let mut client = HttpClient::new(1000);
    client.request_sent(5_000);
    assert_eq!(client.wait(5_000), 1000);
    assert_eq!(client.wait(5_001), 999);
    assert_eq!(client.wait(5_999), 1);
    assert_eq!(client.wait(6_000), 0);
    assert_eq!(client.wait(9_000), 0);
    assert_eq!(client.wait(4_000), 0);
    client.request_sent(6_000);
    assert_eq!(client.wait(6_400), 600);
    assert_eq!(client.rate_limit, 1000);
}

#[test]
fn without_limit_no_request_waits() {
    let mut client = HttpClient::new(0);
    client.request_sent(10);
    assert_eq!(client.wait(10), 0);
}

#[test]
fn search_parameters() {
    let pair = |k: &str, v: &str| (k.to_string(), v.to_string());
    assert_eq!(
        HttpClient::search("serde json", Sort::RecentDownloads, 100, 3),
        vec![pair("q", "serde json"), pair("sort", "recent-downloads"), pair("page", "3"), pair("per_page", "100")]
    );
    assert_eq!(
        HttpClient::search("", Sort::Name, 0, 1),
        vec![pair("q", ""), pair("sort", "alpha"), pair("page", "1"), pair("per_page", "0")]
    );
}

#[test]
fn readme_of_a_github_repository() {
    assert_eq!(
        HttpClient::get_repo_readme("https://github.com/serde-rs/serde"),
        vec![
            "https://raw.githubusercontent.com/serde-rs/serde/refs/heads/main/README.md".to_string(),
            "https://raw.githubusercontent.com/serde-rs/serde/refs/heads/master/README.md".to_string(),
        ]
    );
    assert_eq!(
        HttpClient::get_repo_readme("https://github.com/serde-rs/serde/tree/master/serde_derive")[0],
        "https://raw.githubusercontent.com/serde-rs/serde/refs/heads/main/README.md"
    );
}

#[test]
fn readme_elsewhere_is_not_looked_for() {
    assert!(HttpClient::get_repo_readme("https://gitlab.com/owner/repo").is_empty());
    assert!(HttpClient::get_repo_readme("https://github.com/owner").is_empty());
    assert!(HttpClient::get_repo_readme("https://github.com").is_empty());
    assert!(HttpClient::get_repo_readme("https://127.0.0.1/owner/repo").is_empty());
    assert!(HttpClient::get_repo_readme("mailto:someone@github.com").is_empty());
    assert!(HttpClient::get_repo_readme("not an address").is_empty());
    assert!(HttpClient::get_repo_readme("").is_empty());
}

#[test]
fn readme_addresses_from_the_parts() {
    let parts = |domain: Option<&str>, segments: Option<Vec<&str>>| UrlParts {
        domain: domain.map(|d| d.to_string()),
        path_segments: segments.map(|s| s.into_iter().map(|p| p.to_string()).collect()),
    };
    assert_eq!(
        readme_urls(&parts(Some("github.com"), Some(vec!["o", "r", "x"]))),
        vec![
            "https://raw.githubusercontent.com/o/r/refs/heads/main/README.md".to_string(),
            "https://raw.githubusercontent.com/o/r/refs/heads/master/README.md".to_string(),
        ]
    );
    assert_eq!(
        readme_urls(&parts(Some("github.com"), Some(vec!["o", ""]))),
        vec![
            "https://raw.githubusercontent.com/o//refs/heads/main/README.md".to_string(),
            "https://raw.githubusercontent.com/o//refs/heads/master/README.md".to_string(),
        ]
    );
    assert!(readme_urls(&parts(Some("github.com"), Some(vec!["o"]))).is_empty());
    assert!(readme_urls(&parts(Some("github.com"), None)).is_empty());
    assert!(readme_urls(&parts(Some("GitHub.com"), Some(vec!["o", "r"]))).is_empty());
    assert!(readme_urls(&parts(None, Some(vec!["o", "r"]))).is_empty());
}

#[test]
fn registry_crate_version() {
    let mut c = RegistryCrate {
        id: "x".to_string(),
        name: "x".to_string(),
        description: None,
        homepage: None,
        documentation: None,
        repository: None,
        max_version: "2.0.0-rc.1".to_string(),
        max_stable_version: Some("1.4.0".to_string()),
        downloads: 0,
        recent_downloads: None,
        features: None,
        categories: None,
        created_at: Timestamp { secs: 0, nanos: 0 },
        updated_at: Timestamp { secs: 0, nanos: 0 },
        exact_match: None,
    };
    assert_eq!(c.version(), "1.4.0");
    c.max_stable_version = None;
    assert_eq!(c.version(), "2.0.0-rc.1");
}

#[test]
fn bindings_are_found_by_their_keys() {
    let maps = keymaps();
    assert_eq!(find_keymap(&maps, Mode::Home), Some(0));
    assert_eq!(find_keymap(&maps, Mode::App), Some(1));
    assert_eq!(find_keymap(&maps, Mode::Settings), None);
    assert_eq!(find_binding(&maps[0].bindings, &vec![key('q')]), Some(0));
    assert_eq!(find_binding(&maps[0].bindings, &vec![key('g'), key('g')]), Some(1));
    assert_eq!(find_binding(&maps[0].bindings, &vec![key('g')]), None);
    assert_eq!(find_binding(&maps[0].bindings, &vec![]), None);
    assert_eq!(find_binding(&vec![], &vec![key('q')]), None);
}

#[test]
fn single_key_fires_at_once() {
    let maps = keymaps();
    let mut app = App::new();
    assert_eq!(app.handle_key_event(key('q'), &maps), Some(Fired { keymap: 0, binding: 0 }));
    assert!(app.last_tick_key_events.is_empty());
    assert_eq!(
        app.handle_key_event(KeyEvent { code: KeyCode::Char('c'), ctrl: true }, &maps),
        Some(Fired { keymap: 1, binding: 0 })
    );
    assert_eq!(app.last_tick_key_events, vec![KeyEvent { code: KeyCode::Char('c'), ctrl: true }]);
}

#[test]
fn keys_add_up_to_a_combination() {
    let maps = keymaps();
    let mut app = App::new();
    assert_eq!(app.handle_key_event(key('g'), &maps), None);
    assert_eq!(app.last_tick_key_events, vec![key('g'), key('g')]);
    app.last_tick_key_events.clear();
    app.last_tick_key_events.push(key('g'));
    assert_eq!(app.handle_key_event(key('g'), &maps), Some(Fired { keymap: 0, binding: 1 }));
    assert_eq!(app.last_tick_key_events, vec![key('g'), key('g')]);
    assert_eq!(app.handle_key_event(key('x'), &maps), None);
    assert_eq!(app.last_tick_key_events, vec![key('g'), key('g'), key('x'), key('x')]);
}

#[test]
fn bindings_of_every_mode_come_second() {
    let maps = keymaps();
    let mut app = App::new();
    app.mode = Mode::Settings;
    app.last_tick_key_events = vec![key('g'), key('g')];
    assert_eq!(app.handle_key_event(key('x'), &maps), Some(Fired { keymap: 1, binding: 1 }));
    assert_eq!(app.last_tick_key_events, vec![key('g'), key('g'), key('x')]);
    assert_eq!(app.handle_key_event(key('q'), &maps), None);
    let mut bare = App::new();
    assert_eq!(bare.handle_key_event(key('q'), &vec![]), None);
    assert!(bare.last_tick_key_events.is_empty());
}
