use restic_rs::command::{
    backup, check, copy, forget, init, list, mount, prune, run_cmd, snapshots, snapshots_json,
    stats, unlock, DispatchError, ForgetTarget, Invocation,
};
use restic_rs::config::{Backup, Config, Forget};
use restic_rs::context::{App, Args};
use restic_rs::decimal::decimal_string;
use restic_rs::repos::{Repo, Repos};

fn repo(name: &str, path: &str, pw_file: &str) -> Repo {
    Repo { name: name.to_string(), path: path.to_string(), pw_file: pw_file.to_string() }
}

fn strings(items: &[&str]) -> Vec<String> {
    items.iter().map(|s| s.to_string()).collect()
}

fn no_policy() -> Forget {
    Forget {
        keep_daily: None,
        keep_weekly: None,
        keep_monthly: None,
        keep_yearly: None,
        keep_hourly: None,
    }
}

fn config_with(excludes: Option<Vec<String>>, paths: Vec<String>, policy: Forget) -> Config {
    let mut repos = Repos::new();
    repos.insert(repo("r1", "/srv/r1", "/etc/r1.pw"));
    repos.insert(repo("r2", "/srv/r2", "/etc/r2.pw"));
    Config {
        repos,
        backup: Backup {
            repo_name: "r1".to_string(),
            exclude_patterns: excludes,
            include_paths: paths,
            pre_command: None,
            post_command: None,
        },
        copy: None,
        forget: policy,
        pre_command: None,
        post_command: None,
    }
}

fn app_with(quiet: bool, dry_run: bool, config: Config) -> App {
    App::new(Args { quiet, dry_run }, config).expect("the configuration is valid")
}

fn plain_app(quiet: bool, dry_run: bool) -> App {
    app_with(quiet, dry_run, config_with(None, strings(&["/home"]), no_policy()))
}

fn restic(args: &[&str], quiet: bool, capture_output: bool) -> Invocation {
    Invocation {
        program: "/usr/bin/restic".to_string(),
        args: strings(args),
        quiet,
        capture_output,
    }
}

#[test]
fn backup_lists_excludes_then_paths() {
    let config = config_with(Some(strings(&["a", "b"])), strings(&["/x", "/y"]), no_policy());
    let built = backup(&app_with(false, false, config));
    assert_eq!(
        built,
        restic(
            &[
                "backup", "--repo", "/srv/r1", "--password-file", "/etc/r1.pw",
                "--exclude-caches", "--exclude", "a", "--exclude", "b", "/x", "/y",
            ],
            false,
            false,
        )
    );
}

#[test]
fn backup_without_excludes_under_dry_run_and_quiet() {
    let built = backup(&plain_app(true, true));
    assert_eq!(
        built,
        restic(
            &[
                "backup", "--repo", "/srv/r1", "--password-file", "/etc/r1.pw",
                "--exclude-caches", "--dry-run=true", "/home",
            ],
            true,
            false,
        )
    );
}

#[test]
fn backup_with_an_empty_exclude_list_passes_no_exclude() {
    let config = config_with(Some(Vec::new()), strings(&["/x"]), no_policy());
    let built = backup(&app_with(false, false, config));
    assert_eq!(
        built.args,
        strings(&["backup", "--repo", "/srv/r1", "--password-file", "/etc/r1.pw", "--exclude-caches", "/x"])
    );
}

#[test]
fn init_targets_the_backup_repository_and_is_never_quiet() {
    let built = init(&plain_app(true, true));
    assert_eq!(
        built,
        restic(&["init", "--repo", "/srv/r1", "--password-file", "/etc/r1.pw"], false, false)
    );
}

#[test]
fn forget_by_snapshot_id_passes_no_retention_flag() {
    let policy = Forget {
        keep_daily: Some(7),
        keep_weekly: Some(4),
        keep_monthly: Some(12),
        keep_yearly: Some(2),
        keep_hourly: Some(24),
    };
    let app = app_with(false, false, config_with(None, strings(&["/x"]), policy));
    let built =
        forget(&app, "r2".to_string(), ForgetTarget::BySnapshotId("abc123".to_string())).unwrap();
    assert_eq!(
        built.args,
        strings(&["forget", "--repo", "/srv/r2", "--password-file", "/etc/r2.pw", "--prune", "abc123"])
    );
    assert!(built.args.contains(&"--prune".to_string()));
    assert!(built.args.iter().all(|a| !a.starts_with("--keep-")));
}

#[test]
fn forget_by_policy_passes_only_present_counts() {
    let policy = Forget {
        keep_daily: Some(7),
        keep_weekly: Some(4),
        keep_monthly: None,
        keep_yearly: None,
        keep_hourly: None,
    };
    let app = app_with(false, false, config_with(None, strings(&["/x"]), policy));
    let built = forget(&app, "r1".to_string(), ForgetTarget::ByPolicy).unwrap();
    assert_eq!(
        built.args,
        strings(&[
            "forget", "--repo", "/srv/r1", "--password-file", "/etc/r1.pw", "--prune",
            "--keep-weekly", "4", "--keep-daily", "7",
        ])
    );
    for absent in ["--keep-monthly", "--keep-yearly", "--keep-hourly"] {
        assert!(!built.args.contains(&absent.to_string()));
    }
}

#[test]
fn forget_by_policy_orders_flags_from_yearly_to_hourly() {
    let policy = Forget {
        keep_daily: Some(0),
        keep_weekly: Some(10),
        keep_monthly: Some(120),
        keep_yearly: Some(4294967295),
        keep_hourly: Some(9),
    };
    let app = app_with(true, true, config_with(None, strings(&["/x"]), policy));
    let built = forget(&app, "r1".to_string(), ForgetTarget::ByPolicy).unwrap();
    assert_eq!(
        built,
        restic(
            &[
                "forget", "--repo", "/srv/r1", "--password-file", "/etc/r1.pw", "--prune",
                "--dry-run=true", "--keep-yearly", "4294967295", "--keep-monthly", "120",
                "--keep-weekly", "10", "--keep-daily", "0", "--keep-hourly", "9",
            ],
            true,
            false,
        )
    );
}

#[test]
fn forget_without_any_count_passes_prune_alone() {
    let built = forget(&plain_app(false, false), "r1".to_string(), ForgetTarget::ByPolicy).unwrap();
    assert_eq!(
        built.args,
        strings(&["forget", "--repo", "/srv/r1", "--password-file", "/etc/r1.pw", "--prune"])
    );
}

#[test]
fn check_never_passes_dry_run() {
    let built = check(&plain_app(true, true), "r2".to_string()).unwrap();
    assert_eq!(
        built,
        restic(&["check", "--repo", "/srv/r2", "--password-file", "/etc/r2.pw"], true, false)
    );
}

#[test]
fn check_carries_the_pair_that_the_name_resolves_to() {
    let app = plain_app(false, false);
    let first = check(&app, "r1".to_string()).unwrap();
    let found = app.config().repos.get("r1").expect("r1 is configured");
    assert_eq!(first.args[2], found.path);
    assert_eq!(first.args[4], found.pw_file);
    let again = app.config().repos.get("r1").expect("r1 is configured");
    assert_eq!((&again.path, &again.pw_file), (&found.path, &found.pw_file));
    assert_eq!(check(&app, "r1".to_string()).unwrap(), first);
}

#[test]
fn check_of_unknown_repository_is_refused() {
    assert_eq!(
        check(&plain_app(false, false), "nowhere".to_string()),
        Err(DispatchError::RepoNotFound("nowhere".to_string()))
    );
}

#[test]
fn copy_names_source_then_destination() {
    let built = copy(&plain_app(false, true), "r1".to_string(), "r2".to_string()).unwrap();
    assert_eq!(
        built,
        restic(
            &[
                "copy", "--from-repo", "/srv/r1", "--from-password-file", "/etc/r1.pw", "--repo",
                "/srv/r2", "--password-file", "/etc/r2.pw", "--dry-run=true",
            ],
            false,
            false,
        )
    );
}

#[test]
fn copy_reports_the_source_before_the_destination() {
    let app = plain_app(false, false);
    assert_eq!(
        copy(&app, "s".to_string(), "d".to_string()),
        Err(DispatchError::RepoNotFound("s".to_string()))
    );
    assert_eq!(
        copy(&app, "r1".to_string(), "d".to_string()),
        Err(DispatchError::RepoNotFound("d".to_string()))
    );
}

#[test]
fn snapshots_listing_for_the_console_and_for_reading() {
    let app = plain_app(true, true);
    assert_eq!(
        snapshots(&app, "r1".to_string()).unwrap(),
        restic(&["snapshots", "--repo", "/srv/r1", "--password-file", "/etc/r1.pw"], true, false)
    );
    assert_eq!(
        snapshots_json(&app, "r1".to_string()).unwrap(),
        restic(
            &["snapshots", "--repo", "/srv/r1", "--password-file", "/etc/r1.pw", "--json"],
            false,
            true,
        )
    );
}

#[test]
fn mount_puts_the_mount_point_before_the_repository() {
    let built = mount(&plain_app(false, true), "r2".to_string(), "/mnt/b".to_string()).unwrap();
    assert_eq!(
        built,
        restic(
            &["mount", "/mnt/b", "--repo", "/srv/r2", "--password-file", "/etc/r2.pw", "--dry-run=true"],
            false,
            false,
        )
    );
}

#[test]
fn prune_and_unlock_take_dry_run() {
    let app = plain_app(false, true);
    assert_eq!(
        prune(&app, "r1".to_string()).unwrap().args,
        strings(&["prune", "--repo", "/srv/r1", "--password-file", "/etc/r1.pw", "--dry-run=true"])
    );
    assert_eq!(
        unlock(&app, "r1".to_string()).unwrap().args,
        strings(&["unlock", "--repo", "/srv/r1", "--password-file", "/etc/r1.pw", "--dry-run=true"])
    );
    let wet = plain_app(false, false);
    assert_eq!(
        prune(&wet, "r1".to_string()).unwrap().args,
        strings(&["prune", "--repo", "/srv/r1", "--password-file", "/etc/r1.pw"])
    );
}

#[test]
fn stats_of_a_repository_and_of_a_snapshot() {
    let app = plain_app(false, true);
    assert_eq!(
        stats(&app, "r1".to_string(), None).unwrap().args,
        strings(&["stats", "--repo", "/srv/r1", "--password-file", "/etc/r1.pw"])
    );
    assert_eq!(
        stats(&app, "r1".to_string(), Some("1a2b".to_string())).unwrap().args,
        strings(&["stats", "--repo", "/srv/r1", "--password-file", "/etc/r1.pw", "1a2b"])
    );
}

#[test]
fn every_single_repository_operation_refuses_an_unknown_name() {
    let app = plain_app(false, false);
    let missing = || Err(DispatchError::RepoNotFound("x".to_string()));
    assert_eq!(forget(&app, "x".to_string(), ForgetTarget::ByPolicy), missing());
    assert_eq!(snapshots(&app, "x".to_string()), missing());
    assert_eq!(snapshots_json(&app, "x".to_string()), missing());
    assert_eq!(mount(&app, "x".to_string(), "/mnt".to_string()), missing());
    assert_eq!(prune(&app, "x".to_string()), missing());
    assert_eq!(unlock(&app, "x".to_string()), missing());
    assert_eq!(stats(&app, "x".to_string(), None), missing());
}

#[test]
fn hooks_run_in_the_shell() {
    assert_eq!(
        run_cmd("echo done > /tmp/flag"),
        Invocation {
            program: "/bin/bash".to_string(),
            args: strings(&["-c", "echo done > /tmp/flag"]),
            quiet: false,
            capture_output: false,
        }
    );
}

#[test]
fn list_gives_the_names_in_iteration_order() {
    assert_eq!(list(&plain_app(false, false)), strings(&["r1", "r2"]));
}

#[test]
fn counts_are_written_in_decimal() {
    for n in [0u32, 7, 9, 10, 42, 100, 101, 65535, 1000000, 4294967295] {
        assert_eq!(decimal_string(n), n.to_string());
    }
}
