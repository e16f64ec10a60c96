use restic_rs::config::{
    first_existing, load_config, validate_config, Backup, Config, ConfigError, CopyPair, Forget,
    Loaded, RepoRef,
};
use restic_rs::context::{App, Args};
use restic_rs::repos::{Repo, Repos};

fn repos_named(names: &[&str]) -> Repos {
    let mut repos = Repos::new();
    for name in names {
        repos.insert(Repo {
            name: name.to_string(),
            path: format!("/srv/{}", name),
            pw_file: format!("/etc/{}.pw", name),
        });
    }
    repos
}

fn pair(src: &str, dest: &str) -> CopyPair {
    CopyPair { src: src.to_string(), dest: dest.to_string() }
}

fn config(names: &[&str], backup_repo: &str, pairs: Option<Vec<CopyPair>>) -> Config {
    Config {
        repos: repos_named(names),
        backup: Backup {
            repo_name: backup_repo.to_string(),
            exclude_patterns: None,
            include_paths: vec!["/home".to_string()],
            pre_command: None,
            post_command: None,
        },
        copy: pairs.map(|pairs| restic_rs::config::Copy { pre_command: None, post_command: None, pairs }),
        forget: Forget {
            keep_daily: None,
            keep_weekly: None,
            keep_monthly: None,
            keep_yearly: None,
            keep_hourly: None,
        },
        pre_command: None,
        post_command: None,
    }
}

fn unknown(name: &str, origin: RepoRef) -> ConfigError {
    ConfigError::UnknownRepo(name.to_string(), origin)
}

#[test]
fn a_valid_configuration_comes_back_unchanged() {
    let checked = validate_config(config(&["a", "b"], "a", Some(vec![pair("a", "b"), pair("b", "a")])))
        .expect("every reference is configured");
    assert_eq!(checked.backup.repo_name, "a");
    assert_eq!(checked.repos.names(), vec!["a".to_string(), "b".to_string()]);
    assert_eq!(checked.copy.unwrap().pairs, vec![pair("a", "b"), pair("b", "a")]);
}

#[test]
fn a_configuration_without_copy_section_is_valid() {
    assert!(validate_config(config(&["a"], "a", None)).is_ok());
    assert!(validate_config(config(&["a"], "a", Some(Vec::new()))).is_ok());
}

#[test]
fn an_unknown_backup_repository_fails_the_load() {
    let outcome = load_config(Loaded::Parsed(config(&["a", "b"], "c", None)));
    assert_eq!(outcome.err(), Some(unknown("c", RepoRef::Backup)));
}

#[test]
fn no_repositories_at_all_fail_the_load() {
    let outcome = load_config(Loaded::Parsed(config(&[], "a", None)));
    assert_eq!(outcome.err(), Some(unknown("a", RepoRef::Backup)));
}

#[test]
fn an_unknown_backup_repository_yields_no_run_context() {
    let built = App::new(Args { quiet: false, dry_run: false }, config(&["a"], "b", None));
    assert_eq!(built.err(), Some(unknown("b", RepoRef::Backup)));
}

#[test]
fn an_unknown_copy_source_is_named_as_source() {
    let outcome = validate_config(config(&["a", "b"], "a", Some(vec![pair("a", "b"), pair("x", "b")])));
    assert_eq!(outcome.err(), Some(unknown("x", RepoRef::CopySource)));
}

#[test]
fn an_unknown_copy_destination_is_named_as_destination() {
    let outcome = validate_config(config(&["a", "b"], "a", Some(vec![pair("a", "y")])));
    assert_eq!(outcome.err(), Some(unknown("y", RepoRef::CopyDestination)));
}

#[test]
fn the_first_dangling_reference_is_the_one_reported() {
    let both = validate_config(config(&["a"], "a", Some(vec![pair("s", "d")])));
    assert_eq!(both.err(), Some(unknown("s", RepoRef::CopySource)));

    let later = validate_config(config(
        &["a", "b"],
        "a",
        Some(vec![pair("a", "b"), pair("b", "d1"), pair("s2", "b")]),
    ));
    assert_eq!(later.err(), Some(unknown("d1", RepoRef::CopyDestination)));

    let backup_first = validate_config(config(&["a"], "z", Some(vec![pair("s", "d")])));
    assert_eq!(backup_first.err(), Some(unknown("z", RepoRef::Backup)));
}

#[test]
fn a_missing_file_is_not_found() {
    assert_eq!(load_config(Loaded::Missing).err(), Some(ConfigError::NotFound));
}

#[test]
fn an_unreadable_file_is_a_parse_error_with_its_reason() {
    let outcome = load_config(Loaded::Unreadable("missing field `backup`".to_string()));
    assert_eq!(outcome.err(), Some(ConfigError::ParseError("missing field `backup`".to_string())));
}

#[test]
fn a_parsed_valid_configuration_is_loaded() {
    let loaded = load_config(Loaded::Parsed(config(&["a", "b"], "b", Some(vec![pair("b", "a")]))))
        .expect("the configuration is valid");
    assert_eq!(loaded.backup.repo_name, "b");
    assert_eq!(loaded.repos.len(), 2);
}

#[test]
fn the_run_context_hands_out_what_it_was_built_from() {
    let app = App::new(Args { quiet: true, dry_run: false }, config(&["a"], "a", None))
        .expect("the configuration is valid");
    assert_eq!(app.args(), Args { quiet: true, dry_run: false });
    assert_eq!(app.config().backup.repo_name, "a");
    assert_eq!(app.config().backup.include_paths, vec!["/home".to_string()]);
}

#[test]
fn the_first_existing_candidate_wins() {
    assert_eq!(first_existing(&vec![]), None);
    assert_eq!(first_existing(&vec![false, false]), None);
    assert_eq!(first_existing(&vec![true]), Some(0));
    assert_eq!(first_existing(&vec![false, true, true]), Some(1));
    assert_eq!(first_existing(&vec![false, false, true]), Some(2));
    assert_eq!(first_existing(&vec![true, false, true]), Some(0));
}
