use min_desk::file_manager::{arrange_entries, lists_before, FileItem};

fn item(name: &str, is_dir: bool) -> FileItem {
    FileItem { name: name.to_string(), path: format!("/tmp/{}", name), is_dir, size: 1 }
}

fn names(items: &[FileItem]) -> Vec<&str> {
    items.iter().map(|i| i.name.as_str()).collect()
}

#[test]
fn directories_first_then_case_insensitive_names() {
    let entries = vec![
        item("b.txt", false),
        item("Docs", true),
        item(".hidden", false),
        item("A.txt", false),
        item("apps", true),
        item(".config", true),
    ];
    let arranged = arrange_entries(entries);
    assert_eq!(names(&arranged), vec!["apps", "Docs", "A.txt", "b.txt"]);
    assert!(arranged[0].is_dir && arranged[1].is_dir);
    assert_eq!(arranged[1].path, "/tmp/Docs");
}

#[test]
fn arrange_empty_and_hidden_only() {
    assert!(arrange_entries(Vec::new()).is_empty());
    assert!(arrange_entries(vec![item(".a", false), item(".b", true)]).is_empty());
}

#[test]
fn arrange_keeps_equal_names() {
    let arranged = arrange_entries(vec![item("a", false), item("A", false), item("b", false)]);
    assert_eq!(arranged.len(), 3);
    assert_eq!(arranged[2].name, "b");
}

#[test]
fn listing_order_on_keys() {
    assert!(lists_before(true, "z", false, "a"));
    assert!(!lists_before(false, "a", true, "z"));
    assert!(lists_before(false, "a", false, "b"));
    assert!(!lists_before(false, "b", false, "a"));
    assert!(!lists_before(false, "same", false, "same"));
    assert!(lists_before(true, "ab", true, "abc"));
    assert!(!lists_before(true, "abc", true, "ab"));
    assert!(lists_before(false, "", false, "a"));
}
