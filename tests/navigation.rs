use min_desk::browser::{normalize_url, Browser, Command, LoadStatus, Message};
use min_desk::config::Config;

fn browser_at(home: &str) -> Browser {
    let mut config = Config::default();
    config.applications.browser.homepage = home.to_string();
    Browser::new(config)
}

fn fetched(c: Command) -> (u64, String) {
    match c {
        Command::Fetch { request, url } => (request, url),
        Command::Nothing => panic!("expected a fetch"),
    }
}

#[test]
fn new_session_holds_home_page() {
    let b = Browser::new(Config::default());
    assert_eq!(b.history(), &vec!["https://start.duckduckgo.com".to_string()]);
    assert_eq!(b.history_index(), 0);
    assert_eq!(b.current_url(), "https://start.duckduckgo.com");
    assert_eq!(b.url_input(), "https://start.duckduckgo.com");
    assert_eq!(b.status(), &LoadStatus::Idle);
    assert_eq!(b.latest_request(), 0);
    assert!(b.config().applications.browser.minimal_mode);
}

#[test]
fn history_stays_valid_over_navigations() {
    let mut b = browser_at("https://home.test");
    for (n, site) in ["a.test", "b.test", "http://c.test", "d.test"].iter().enumerate() {
        b.navigate(site.to_string());
        assert!(b.history().len() >= 1);
        assert!(b.history_index() < b.history().len());
        assert_eq!(b.history_index(), b.history().len() - 1);
        assert_eq!(b.history().len(), n + 2);
    }
    b.go_back();
    b.go_back();
    b.navigate("e.test".to_string());
    assert!(b.history_index() < b.history().len());
    assert_eq!(b.history().len(), 4);
}

#[test]
fn navigate_adds_secure_scheme() {
    let mut b = browser_at("https://home.test");
    let (_, url) = fetched(b.navigate("example.com".to_string()));
    assert_eq!(url, "https://example.com");
    assert_eq!(b.current_url(), "https://example.com");
    assert_eq!(b.url_input(), "https://example.com");
    assert_eq!(b.status(), &LoadStatus::Loading("https://example.com".to_string()));
    let (_, url) = fetched(b.navigate("http://example.com".to_string()));
    assert_eq!(url, "http://example.com");
    assert_eq!(b.history().last().unwrap(), "http://example.com");
}

#[test]
fn normalize_url_cases() {
    assert_eq!(normalize_url("example.com".to_string()), "https://example.com");
    assert_eq!(normalize_url("https://example.com".to_string()), "https://example.com");
    assert_eq!(normalize_url("http://example.com".to_string()), "http://example.com");
    assert_eq!(normalize_url("".to_string()), "https://");
    assert_eq!(normalize_url("HTTP://x".to_string()), "https://HTTP://x");
    assert_eq!(normalize_url("http:/x".to_string()), "https://http:/x");
}

#[test]
fn navigate_after_back_drops_forward_entries() {
    let mut b = browser_at("https://a.test");
    b.navigate("https://b.test".to_string());
    b.navigate("https://c.test".to_string());
    assert_eq!(b.history_index(), 2);
    b.go_back();
    b.go_back();
    b.navigate("https://d.test".to_string());
    assert_eq!(b.history(), &vec!["https://a.test".to_string(), "https://d.test".to_string()]);
    assert_eq!(b.history_index(), 1);
}

#[test]
fn back_at_start_and_forward_at_end_do_nothing() {
    let mut b = browser_at("https://a.test");
    assert_eq!(b.go_back(), Command::Nothing);
    assert_eq!(b.history_index(), 0);
    assert_eq!(b.status(), &LoadStatus::Idle);
    assert_eq!(b.latest_request(), 0);
    assert_eq!(b.go_forward(), Command::Nothing);
    assert_eq!(b.latest_request(), 0);
    b.navigate("https://b.test".to_string());
    let before = b.latest_request();
    assert_eq!(b.go_forward(), Command::Nothing);
    assert_eq!(b.latest_request(), before);
    assert_eq!(b.history_index(), 1);
    assert_eq!(b.history().len(), 2);
}

#[test]
fn back_and_forward_fetch_the_entry() {
    let mut b = browser_at("https://a.test");
    b.navigate("https://b.test".to_string());
    let (id, url) = fetched(b.go_back());
    assert_eq!(url, "https://a.test");
    assert_eq!(id, b.latest_request());
    assert_eq!(b.url_input(), "https://a.test");
    assert_eq!(b.history().len(), 2);
    let (_, url) = fetched(b.go_forward());
    assert_eq!(url, "https://b.test");
    assert_eq!(b.history_index(), 1);
    let (_, url) = fetched(b.refresh());
    assert_eq!(url, "https://b.test");
    assert_eq!(b.history().len(), 2);
}

#[test]
fn request_numbers_increase() {
    let mut b = browser_at("https://a.test");
    let (one, _) = fetched(b.navigate("b.test".to_string()));
    let (two, _) = fetched(b.refresh());
    let (three, _) = fetched(b.go_back());
    assert_eq!((one, two, three), (1, 2, 3));
}

#[test]
fn completion_sets_loaded_or_errored() {
    let mut b = browser_at("https://a.test");
    let (id, _) = fetched(b.refresh());
    b.update(Message::LoadComplete(id, Ok("Hello".to_string())));
    assert_eq!(b.status(), &LoadStatus::Loaded("Hello".to_string()));
    let (id, _) = fetched(b.update(Message::Refresh));
    b.update(Message::LoadComplete(id, Err("HTTP 404: Not Found".to_string())));
    assert_eq!(b.status(), &LoadStatus::Errored("HTTP 404: Not Found".to_string()));
}

#[test]
fn stale_completion_is_ignored() {
    let mut b = browser_at("https://a.test");
    let (first, _) = fetched(b.navigate("x.test".to_string()));
    let (second, _) = fetched(b.navigate("y.test".to_string()));
    b.update(Message::LoadComplete(second, Ok("page Y".to_string())));
    assert_eq!(b.status(), &LoadStatus::Loaded("page Y".to_string()));
    b.update(Message::LoadComplete(first, Ok("page X".to_string())));
    assert_eq!(b.status(), &LoadStatus::Loaded("page Y".to_string()));
    b.update(Message::LoadComplete(first, Err("late".to_string())));
    assert_eq!(b.status(), &LoadStatus::Loaded("page Y".to_string()));
}

#[test]
fn stale_completion_while_loading_is_ignored() {
    let mut b = browser_at("https://a.test");
    let (first, _) = fetched(b.navigate("x.test".to_string()));
    b.navigate("y.test".to_string());
    b.update(Message::LoadComplete(first, Ok("page X".to_string())));
    assert_eq!(b.status(), &LoadStatus::Loading("https://y.test".to_string()));
}

#[test]
fn completion_without_request_is_ignored() {
    let mut b = browser_at("https://a.test");
    b.update(Message::LoadComplete(0, Ok("text".to_string())));
    assert_eq!(b.status(), &LoadStatus::Idle);
}

#[test]
fn update_url_and_close() {
    let mut b = browser_at("https://a.test");
    assert_eq!(b.update(Message::UpdateUrl("typing".to_string())), Command::Nothing);
    assert_eq!(b.url_input(), "typing");
    assert_eq!(b.current_url(), "https://a.test");
    assert_eq!(b.update(Message::Close), Command::Nothing);
    assert_eq!(b.url_input(), "typing");
    let (_, url) = fetched(b.update(Message::Navigate("z.test".to_string())));
    assert_eq!(url, "https://z.test");
    assert!(matches!(b.update(Message::GoBack), Command::Fetch { .. }));
    assert!(matches!(b.update(Message::GoForward), Command::Fetch { .. }));
}

#[test]
fn default_config_values() {
    let c = Config::default();
    assert_eq!(c.desktop.wallpaper, "/usr/share/backgrounds/default.png");
    assert_eq!(c.desktop.font_name, "Inter");
    assert_eq!(c.desktop.font_size, 12);
    assert_eq!(c.desktop.theme, "dark");
    assert_eq!(c.applications.file_manager.default_path, "/home");
    assert_eq!(c.applications.package_manager.backend, "apk");
    assert_eq!(c.applications.browser.homepage, "https://start.duckduckgo.com");
    assert_eq!(c.packages_to_install.len(), 5);
    assert_eq!(c.packages_to_install[4], "xf86-video-vesa");
    assert_eq!(c.system.dpi, 96);
    assert!(c.system.vsync);
    assert!(!c.system.compositor);
}
