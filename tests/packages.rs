use min_desk::config::Config;
use min_desk::listing::parse_search_output;
use min_desk::package_manager::{Message, Package, PackageManager, Task};

fn fields(p: &Package) -> (&str, &str, &str) {
    (p.name.as_str(), p.version.as_str(), p.description.as_str())
}

#[test]
fn parses_search_lines() {
    let out = "firefox-esr-115.9.1-r0 - Firefox web browser\nvim-9.1-r0 - Improved vi-style text editor\n";
    let ps = parse_search_output(out);
    assert_eq!(ps.len(), 2);
    assert_eq!(fields(&ps[0]), ("firefox-esr-115.9.1", "r0", "Firefox web browser"));
    assert_eq!(fields(&ps[1]), ("vim-9.1", "r0", "Improved vi-style text editor"));
    assert!(!ps[0].installed && !ps[1].installed);
}

#[test]
fn parse_skips_lines_without_separator() {
    let out = "WARNING: stale index\n\nfoo - bar - baz\r\nlast-1 - end";
    let ps = parse_search_output(out);
    assert_eq!(ps.len(), 2);
    assert_eq!(fields(&ps[0]), ("foo", "", "bar"));
    assert_eq!(fields(&ps[1]), ("last", "1", "end"));
}

#[test]
fn parse_edge_cases() {
    assert!(parse_search_output("").is_empty());
    assert!(parse_search_output("\n\n").is_empty());
    let ps = parse_search_output(" - ");
    assert_eq!(ps.len(), 1);
    assert_eq!(fields(&ps[0]), ("", "", ""));
    let ps = parse_search_output("a- - x\r");
    assert_eq!(fields(&ps[0]), ("a", "", "x\r"));
}

#[test]
fn package_manager_starts_empty() {
    let pm = PackageManager::new(Config::default());
    assert_eq!(pm.search_query(), "");
    assert!(pm.packages().is_empty());
    assert!(!pm.is_loading());
    assert_eq!(pm.message(), &None);
    assert_eq!(pm.error(), &None);
    assert_eq!(pm.config().applications.package_manager.backend, "apk");
}

#[test]
fn package_manager_search_flow() {
    let mut pm = PackageManager::new(Config::default());
    assert_eq!(pm.update(Message::Search("vim".to_string())), Task::Search("vim".to_string()));
    assert!(pm.is_loading());
    let found = parse_search_output("vim-9.1-r0 - editor");
    assert_eq!(pm.update(Message::SearchResults(found)), Task::Nothing);
    assert!(!pm.is_loading());
    assert_eq!(pm.packages().len(), 1);
    assert_eq!(pm.update(Message::Search(String::new())), Task::Nothing);
    assert!(pm.packages().is_empty());
}

#[test]
fn package_manager_operations() {
    let mut pm = PackageManager::new(Config::default());
    assert_eq!(pm.update(Message::Install("vim".to_string())), Task::Install("vim".to_string()));
    assert_eq!(pm.message(), &Some("Installing vim...".to_string()));
    assert_eq!(pm.update(Message::OperationComplete("done".to_string())), Task::Nothing);
    assert_eq!(pm.message(), &Some("done".to_string()));
    pm.update(Message::Search("vi".to_string()));
    assert_eq!(pm.update(Message::Remove("vim".to_string())), Task::Remove("vim".to_string()));
    assert_eq!(pm.message(), &Some("Removing vim...".to_string()));
    assert_eq!(
        pm.update(Message::OperationComplete("removed".to_string())),
        Task::Search("vi".to_string())
    );
    assert_eq!(pm.update(Message::UpdateCache), Task::UpdateCache);
    assert_eq!(pm.message(), &Some("Updating package cache...".to_string()));
    assert_eq!(pm.update(Message::OperationError("no network".to_string())), Task::Nothing);
    assert_eq!(pm.error(), &Some("no network".to_string()));
    assert_eq!(pm.message(), &None);
    assert!(!pm.is_loading());
    assert_eq!(pm.update(Message::Close), Task::Nothing);
}
