use restic_rs::repos::{Repo, Repos};

fn repo(name: &str, path: &str) -> Repo {
    Repo { name: name.to_string(), path: path.to_string(), pw_file: format!("{}.pw", path) }
}

#[test]
fn an_empty_table_holds_nothing() {
    let repos = Repos::new();
    assert_eq!(repos.len(), 0);
    assert!(repos.get("a").is_none());
    assert!(!repos.contains("a"));
    assert!(repos.names().is_empty());
}

#[test]
fn insert_adds_new_names_at_the_end() {
    let mut repos = Repos::new();
    assert_eq!(repos.insert(repo("b", "/b")), None);
    assert_eq!(repos.insert(repo("a", "/a")), None);
    assert_eq!(repos.len(), 2);
    assert_eq!(repos.names(), vec!["b".to_string(), "a".to_string()]);
    assert_eq!(repos.get("a"), Some(&repo("a", "/a")));
    assert_eq!(repos.get("b"), Some(&repo("b", "/b")));
    assert!(repos.contains("a"));
    assert!(!repos.contains("c"));
}

#[test]
fn insert_replaces_an_entry_where_it_stands() {
    let mut repos = Repos::new();
    repos.insert(repo("a", "/a"));
    repos.insert(repo("b", "/b"));
    assert_eq!(repos.insert(repo("a", "/elsewhere")), Some(repo("a", "/a")));
    assert_eq!(repos.len(), 2);
    assert_eq!(repos.names(), vec!["a".to_string(), "b".to_string()]);
    assert_eq!(repos.get("a"), Some(&repo("a", "/elsewhere")));
    assert_eq!(repos.get("b"), Some(&repo("b", "/b")));
    assert_eq!(repos.entries().len(), 2);
}

#[test]
fn lookup_is_exact_about_names() {
    let mut repos = Repos::new();
    repos.insert(repo("main", "/m"));
    assert!(repos.get("Main").is_none());
    assert!(repos.get("mai").is_none());
    assert!(repos.get("main ").is_none());
    assert!(repos.get("").is_none());
    assert_eq!(repos.get("main").map(|r| r.path.as_str()), Some("/m"));
}

#[test]
fn duplicate_copies_every_field() {
    let first = repo("a", "/a");
    assert_eq!(first.duplicate(), first);
}
