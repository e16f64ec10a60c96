//! Builds the command line of every operation of the backup tool.
//!
//! Each builder resolves the repositories it is given by name and returns the
//! complete invocation: program, arguments in order, and how the output of the
//! process is to be treated. Nothing is run here.

use vstd::prelude::*;
use crate::config::Forget;
use crate::context::{App, Args};
use crate::decimal::{decimal, decimal_string};
use crate::repos::{lookup, names_of, Repo};

verus! {

/// One run of the backup tool, ready to be spawned.
#[derive(Debug, Clone, PartialEq, Eq)]
pub struct Invocation {
    /// The path of the executable.
    pub program: String,
    /// The arguments, the subcommand first.
    pub args: Vec<String>,
    /// Discard the standard output of the process.
    pub quiet: bool,
    /// Collect the standard output of the process instead of showing it.
    pub capture_output: bool,
}

/// An invocation as plain values.
pub struct InvocationView {
    pub program: Seq<char>,
    pub args: Seq<Seq<char>>,
    pub quiet: bool,
    pub capture_output: bool,
}

/// The texts of a sequence of strings.
pub open spec fn texts(strings: Seq<String>) -> Seq<Seq<char>> {
    strings.map_values(|s: String| s@)
}

impl View for Invocation {
    type V = InvocationView;

    open spec fn view(&self) -> InvocationView {
        InvocationView {
            program: self.program@,
            args: texts(self.args@),
            quiet: self.quiet,
            capture_output: self.capture_output,
        }
    }
}

/// Why an operation could not be turned into invocations.
#[derive(Debug, Clone, PartialEq, Eq)]
pub enum DispatchError {
    /// No repository of this name is configured.
    RepoNotFound(String),
    /// No repository was named and the configuration does not hold exactly
    /// one; the configured names are listed.
    AmbiguousRepo(Vec<String>),
    /// A bulk copy was asked for and the configuration has no copy section.
    NoCopyPairs,
}

/// Which snapshots a `forget` removes.
#[derive(Debug, Clone, PartialEq, Eq)]
pub enum ForgetTarget {
    /// Those that the retention policy of the configuration does not keep.
    ByPolicy,
    /// The one snapshot with this id; the retention policy plays no part.
    BySnapshotId(String),
}

/// The path of the backup tool.
pub open spec fn program() -> Seq<char> {
    "/usr/bin/restic"@
}

/// An invocation of the backup tool with the given arguments.
pub open spec fn invocation(
    args: Seq<Seq<char>>,
    quiet: bool,
    capture_output: bool,
) -> InvocationView {
    InvocationView { program: program(), args, quiet, capture_output }
}

/// The flags that select a repository and its password file.
pub open spec fn repo_flags(repo: Repo) -> Seq<Seq<char>> {
    seq!["--repo"@, repo.path@, "--password-file"@, repo.pw_file@]
}

/// The flags that select the repository a copy reads from.
pub open spec fn source_flags(repo: Repo) -> Seq<Seq<char>> {
    seq!["--from-repo"@, repo.path@, "--from-password-file"@, repo.pw_file@]
}

/// The dry-run flag, where dry-run mode is on.
pub open spec fn dry_run_flags(dry_run: bool) -> Seq<Seq<char>> {
    if dry_run {
        seq!["--dry-run=true"@]
    } else {
        Seq::empty()
    }
}

/// One `--exclude` flag with its pattern for each pattern, in order.
pub open spec fn exclude_flags(patterns: Seq<Seq<char>>) -> Seq<Seq<char>>
    decreases patterns.len(),
{
    if patterns.len() == 0 {
        Seq::empty()
    } else {
        exclude_flags(patterns.drop_last()) + seq!["--exclude"@, patterns.last()]
    }
}

/// A retention flag with its count, where the count is present.
pub open spec fn keep_flag(flag: Seq<char>, count: Option<u32>) -> Seq<Seq<char>> {
    match count {
        Some(n) => seq![flag, decimal(n as nat)],
        None => Seq::empty(),
    }
}

/// The retention flags of a policy, from the longest period to the shortest.
pub open spec fn keep_flags(policy: Forget) -> Seq<Seq<char>> {
    keep_flag("--keep-yearly"@, policy.keep_yearly) + keep_flag(
        "--keep-monthly"@,
        policy.keep_monthly,
    ) + keep_flag("--keep-weekly"@, policy.keep_weekly) + keep_flag(
        "--keep-daily"@,
        policy.keep_daily,
    ) + keep_flag("--keep-hourly"@, policy.keep_hourly)
}

/// An optional positional argument.
pub open spec fn optional_argument(value: Option<String>) -> Seq<Seq<char>> {
    match value {
        Some(text) => seq![text@],
        None => Seq::empty(),
    }
}

/// Appends one argument.
fn push_text(args: &mut Vec<String>, text: &str)
    ensures
        texts(final(args)@) == texts(old(args)@).push(text@),
{
    let owned = text.to_owned();
    args.push(owned);
}

/// Appends one argument that the caller owns.
fn push_owned(args: &mut Vec<String>, text: String)
    ensures
        texts(final(args)@) == texts(old(args)@).push(text@),
{
    args.push(text);
}

/// Starts an argument list with the subcommand.
fn start(subcommand: &str) -> (args: Vec<String>)
    ensures
        texts(args@) == seq![subcommand@],
{
    let mut args: Vec<String> = Vec::new();
    push_text(&mut args, subcommand);
    args
}

/// Appends the flags that select `repo`.
fn push_repo_flags(args: &mut Vec<String>, repo: &Repo)
    ensures
        texts(final(args)@) == texts(old(args)@) + repo_flags(*repo),
{
    push_text(args, "--repo");
    push_text(args, repo.path.as_str());
    push_text(args, "--password-file");
    push_text(args, repo.pw_file.as_str());
}

/// Appends the dry-run flag where dry-run mode is on.
fn push_dry_run(args: &mut Vec<String>, dry_run: bool)
    ensures
        texts(final(args)@) == texts(old(args)@) + dry_run_flags(dry_run),
{
    if dry_run {
        push_text(args, "--dry-run=true");
    }
}

/// Wraps a finished argument list into an invocation of the backup tool.
fn finish(args: Vec<String>, quiet: bool, capture_output: bool) -> (built: Invocation)
    ensures
        built@ == invocation(texts(args@), quiet, capture_output),
{
    Invocation { program: "/usr/bin/restic".to_owned(), args, quiet, capture_output }
}

/// The repository that backups go to.
pub open spec fn backup_repo(app: App) -> Repo {
    lookup(app.spec_config().repos@, app.spec_config().backup.repo_name@).unwrap()
}

/// The arguments of `init`.
pub open spec fn init_arguments(repo: Repo) -> Seq<Seq<char>> {
    seq!["init"@] + repo_flags(repo)
}

/// Creates the repository that backups go to. The output of the tool is
/// always shown.
pub fn init(app: &App) -> (built: Invocation)
    ensures
        built@ == invocation(init_arguments(backup_repo(*app)), false, false),
{
    let config = app.config();
    let repo = config.repos.get(config.backup.repo_name.as_str()).unwrap();
    let mut args = start("init");
    push_repo_flags(&mut args, repo);
    finish(args, false, false)
}

/// The arguments of `check`.
pub open spec fn check_arguments(repo: Repo) -> Seq<Seq<char>> {
    seq!["check"@] + repo_flags(repo)
}

/// Verifies the repository named `repo_name`.
pub fn check(app: &App, repo_name: String) -> (built: Result<Invocation, DispatchError>)
    ensures
        match lookup(app.spec_config().repos@, repo_name@) {
            Some(repo) => built matches Ok(inv) && inv@ == invocation(
                check_arguments(repo),
                app.spec_args().quiet,
                false,
            ),
            None => built matches Err(DispatchError::RepoNotFound(name)) && name == repo_name,
        },
{
    match app.config().repos.get(repo_name.as_str()) {
        Some(repo) => {
            let mut args = start("check");
            push_repo_flags(&mut args, repo);
            Ok(finish(args, app.args().quiet, false))
        },
        None => Err(DispatchError::RepoNotFound(repo_name)),
    }
}

/// Appends every text of `items`, in order.
fn push_all(args: &mut Vec<String>, items: &Vec<String>)
    ensures
        texts(final(args)@) == texts(old(args)@) + texts(items@),
{
    let mut i: usize = 0;
    while i < items.len()
        invariant
            i <= items.len(),
            texts(args@) == texts(old(args)@) + texts(items@.take(i as int)),
        decreases items.len() - i,
    {
        push_text(args, items[i].as_str());
        i += 1;
    }
}

/// Appends an `--exclude` flag with its pattern for every pattern, in order.
fn push_excludes(args: &mut Vec<String>, patterns: &Vec<String>)
    ensures
        texts(final(args)@) == texts(old(args)@) + exclude_flags(texts(patterns@)),
{
    let mut i: usize = 0;
    while i < patterns.len()
        invariant
            i <= patterns.len(),
            texts(args@) == texts(old(args)@) + exclude_flags(texts(patterns@.take(i as int))),
        decreases patterns.len() - i,
    {
        push_text(args, "--exclude");
        push_text(args, patterns[i].as_str());
        proof {
            let longer = texts(patterns@.take(i + 1));
            assert(longer.drop_last() =~= texts(patterns@.take(i as int)));
        }
        i += 1;
    }
    assert(patterns@.take(patterns.len() as int) =~= patterns@);
}

/// The exclude patterns of a backup policy; none where the policy names none.
pub open spec fn exclude_texts(patterns: Option<Vec<String>>) -> Seq<Seq<char>> {
    match patterns {
        Some(list) => texts(list@),
        None => Seq::empty(),
    }
}

/// The arguments of `backup`: the repository, the fixed cache exclusion, the
/// dry-run flag, the exclude patterns, and last the paths to back up.
pub open spec fn backup_arguments(
    repo: Repo,
    dry_run: bool,
    excludes: Seq<Seq<char>>,
    paths: Seq<Seq<char>>,
) -> Seq<Seq<char>> {
    seq!["backup"@] + repo_flags(repo) + seq!["--exclude-caches"@] + dry_run_flags(dry_run)
        + exclude_flags(excludes) + paths
}

/// Backs up the configured paths into the configured repository.
pub fn backup(app: &App) -> (built: Invocation)
    ensures
        built@ == invocation(
            backup_arguments(
                backup_repo(*app),
                app.spec_args().dry_run,
                exclude_texts(app.spec_config().backup.exclude_patterns),
                texts(app.spec_config().backup.include_paths@),
            ),
            app.spec_args().quiet,
            false,
        ),
{
    let config = app.config();
    let repo = config.repos.get(config.backup.repo_name.as_str()).unwrap();
    let mut args = start("backup");
    push_repo_flags(&mut args, repo);
    push_text(&mut args, "--exclude-caches");
    push_dry_run(&mut args, app.args().dry_run);
    match &config.backup.exclude_patterns {
        Some(patterns) => {
            push_excludes(&mut args, patterns);
        },
        None => {
        },
    }
    push_all(&mut args, &config.backup.include_paths);
    assert(texts(args@) =~= backup_arguments(
        *repo,
        app.spec_args().dry_run,
        exclude_texts(config.backup.exclude_patterns),
        texts(config.backup.include_paths@),
    ));
    finish(args, app.args().quiet, false)
}

/// Looks a repository up by name.
fn resolve<'a>(app: &'a App, repo_name: String) -> (found: Result<&'a Repo, DispatchError>)
    ensures
        match lookup(app.spec_config().repos@, repo_name@) {
            Some(repo) => found matches Ok(same) && *same == repo,
            None => found matches Err(DispatchError::RepoNotFound(name)) && name == repo_name,
        },
{
    match app.config().repos.get(repo_name.as_str()) {
        Some(repo) => Ok(repo),
        None => Err(DispatchError::RepoNotFound(repo_name)),
    }
}

/// The arguments of `copy`: the repository to read from, then the one to
/// write to.
pub open spec fn copy_arguments(src: Repo, dest: Repo, dry_run: bool) -> Seq<Seq<char>> {
    seq!["copy"@] + source_flags(src) + repo_flags(dest) + dry_run_flags(dry_run)
}

/// Copies the snapshots of `src_repo` into `dest_repo`. Where both names
/// are unknown the error names the source.
pub fn copy(app: &App, src_repo: String, dest_repo: String) -> (built: Result<
    Invocation,
    DispatchError,
>)
    ensures
        match lookup(app.spec_config().repos@, src_repo@) {
            Some(src) => match lookup(app.spec_config().repos@, dest_repo@) {
                Some(dest) => built matches Ok(inv) && inv@ == invocation(
                    copy_arguments(src, dest, app.spec_args().dry_run),
                    app.spec_args().quiet,
                    false,
                ),
                None => built matches Err(DispatchError::RepoNotFound(name)) && name == dest_repo,
            },
            None => built matches Err(DispatchError::RepoNotFound(name)) && name == src_repo,
        },
{
    let src = match resolve(app, src_repo) {
        Ok(repo) => repo,
        Err(error) => {
            return Err(error);
        },
    };
    let dest = match resolve(app, dest_repo) {
        Ok(repo) => repo,
        Err(error) => {
            return Err(error);
        },
    };
    let mut args = start("copy");
    push_text(&mut args, "--from-repo");
    push_text(&mut args, src.path.as_str());
    push_text(&mut args, "--from-password-file");
    push_text(&mut args, src.pw_file.as_str());
    push_repo_flags(&mut args, dest);
    push_dry_run(&mut args, app.args().dry_run);
    assert(texts(args@) =~= copy_arguments(*src, *dest, app.spec_args().dry_run));
    Ok(finish(args, app.args().quiet, false))
}

/// Appends a retention flag with its count, where the count is present.
fn push_keep(args: &mut Vec<String>, flag: &str, count: Option<u32>)
    ensures
        texts(final(args)@) == texts(old(args)@) + keep_flag(flag@, count),
{
    match count {
        Some(n) => {
            push_text(args, flag);
            push_owned(args, decimal_string(n));
        },
        None => {},
    }
}

/// What follows the fixed part of a `forget`: the snapshot id alone, or the
/// retention flags of the policy.
pub open spec fn forget_selection(target: ForgetTarget, policy: Forget) -> Seq<Seq<char>> {
    match target {
        ForgetTarget::BySnapshotId(id) => seq![id@],
        ForgetTarget::ByPolicy => keep_flags(policy),
    }
}

/// The arguments of `forget`, which always prunes.
pub open spec fn forget_arguments(
    repo: Repo,
    dry_run: bool,
    target: ForgetTarget,
    policy: Forget,
) -> Seq<Seq<char>> {
    seq!["forget"@] + repo_flags(repo) + seq!["--prune"@] + dry_run_flags(dry_run)
        + forget_selection(target, policy)
}

/// Removes snapshots from the repository named `repo_name` and prunes it:
/// either the one snapshot of `target`, or whatever the retention policy of
/// the configuration does not keep.
pub fn forget(app: &App, repo_name: String, target: ForgetTarget) -> (built: Result<
    Invocation,
    DispatchError,
>)
    ensures
        match lookup(app.spec_config().repos@, repo_name@) {
            Some(repo) => built matches Ok(inv) && inv@ == invocation(
                forget_arguments(
                    repo,
                    app.spec_args().dry_run,
                    target,
                    app.spec_config().forget,
                ),
                app.spec_args().quiet,
                false,
            ),
            None => built matches Err(DispatchError::RepoNotFound(name)) && name == repo_name,
        },
{
    let repo = match resolve(app, repo_name) {
        Ok(repo) => repo,
        Err(error) => {
            return Err(error);
        },
    };
    let policy = &app.config().forget;
    let mut args = start("forget");
    push_repo_flags(&mut args, repo);
    push_text(&mut args, "--prune");
    push_dry_run(&mut args, app.args().dry_run);
    match target {
        ForgetTarget::BySnapshotId(id) => {
            push_owned(&mut args, id);
        },
        ForgetTarget::ByPolicy => {
            push_keep(&mut args, "--keep-yearly", policy.keep_yearly);
            push_keep(&mut args, "--keep-monthly", policy.keep_monthly);
            push_keep(&mut args, "--keep-weekly", policy.keep_weekly);
            push_keep(&mut args, "--keep-daily", policy.keep_daily);
            push_keep(&mut args, "--keep-hourly", policy.keep_hourly);
        },
    }
    assert(texts(args@) =~= forget_arguments(*repo, app.spec_args().dry_run, target, *policy));
    Ok(finish(args, app.args().quiet, false))
}

/// The arguments of `snapshots`.
pub open spec fn snapshots_arguments(repo: Repo) -> Seq<Seq<char>> {
    seq!["snapshots"@] + repo_flags(repo)
}

/// Lists the snapshots of the repository named `repo_name`.
pub fn snapshots(app: &App, repo_name: String) -> (built: Result<Invocation, DispatchError>)
    ensures
        match lookup(app.spec_config().repos@, repo_name@) {
            Some(repo) => built matches Ok(inv) && inv@ == invocation(
                snapshots_arguments(repo),
                app.spec_args().quiet,
                false,
            ),
            None => built matches Err(DispatchError::RepoNotFound(name)) && name == repo_name,
        },
{
    let repo = match resolve(app, repo_name) {
        Ok(repo) => repo,
        Err(error) => {
            return Err(error);
        },
    };
    let mut args = start("snapshots");
    push_repo_flags(&mut args, repo);
    Ok(finish(args, app.args().quiet, false))
}

/// The arguments of the machine-readable snapshot listing.
pub open spec fn snapshots_json_arguments(repo: Repo) -> Seq<Seq<char>> {
    seq!["snapshots"@] + repo_flags(repo) + seq!["--json"@]
}

/// Lists the snapshots of the repository named `repo_name` as JSON. The
/// output of the process is to be collected, whatever quiet mode says.
pub fn snapshots_json(app: &App, repo_name: String) -> (built: Result<Invocation, DispatchError>)
    ensures
        match lookup(app.spec_config().repos@, repo_name@) {
            Some(repo) => built matches Ok(inv) && inv@ == invocation(
                snapshots_json_arguments(repo),
                false,
                true,
            ),
            None => built matches Err(DispatchError::RepoNotFound(name)) && name == repo_name,
        },
{
    let repo = match resolve(app, repo_name) {
        Ok(repo) => repo,
        Err(error) => {
            return Err(error);
        },
    };
    let mut args = start("snapshots");
    push_repo_flags(&mut args, repo);
    push_text(&mut args, "--json");
    assert(texts(args@) =~= snapshots_json_arguments(*repo));
    Ok(finish(args, false, true))
}

/// The arguments of `mount`: the mount point comes before the repository.
pub open spec fn mount_arguments(repo: Repo, mount_point: Seq<char>, dry_run: bool) -> Seq<
    Seq<char>,
> {
    seq!["mount"@, mount_point] + repo_flags(repo) + dry_run_flags(dry_run)
}

/// Mounts the repository named `repo_name` at `mount_point`.
pub fn mount(app: &App, repo_name: String, mount_point: String) -> (built: Result<
    Invocation,
    DispatchError,
>)
    ensures
        match lookup(app.spec_config().repos@, repo_name@) {
            Some(repo) => built matches Ok(inv) && inv@ == invocation(
                mount_arguments(repo, mount_point@, app.spec_args().dry_run),
                app.spec_args().quiet,
                false,
            ),
            None => built matches Err(DispatchError::RepoNotFound(name)) && name == repo_name,
        },
{
    let repo = match resolve(app, repo_name) {
        Ok(repo) => repo,
        Err(error) => {
            return Err(error);
        },
    };
    let mut args = start("mount");
    push_owned(&mut args, mount_point);
    push_repo_flags(&mut args, repo);
    push_dry_run(&mut args, app.args().dry_run);
    assert(texts(args@) =~= mount_arguments(*repo, mount_point@, app.spec_args().dry_run));
    Ok(finish(args, app.args().quiet, false))
}

/// The arguments of `prune`.
pub open spec fn prune_arguments(repo: Repo, dry_run: bool) -> Seq<Seq<char>> {
    seq!["prune"@] + repo_flags(repo) + dry_run_flags(dry_run)
}

/// Removes unreferenced data from the repository named `repo_name`.
pub fn prune(app: &App, repo_name: String) -> (built: Result<Invocation, DispatchError>)
    ensures
        match lookup(app.spec_config().repos@, repo_name@) {
            Some(repo) => built matches Ok(inv) && inv@ == invocation(
                prune_arguments(repo, app.spec_args().dry_run),
                app.spec_args().quiet,
                false,
            ),
            None => built matches Err(DispatchError::RepoNotFound(name)) && name == repo_name,
        },
{
    let repo = match resolve(app, repo_name) {
        Ok(repo) => repo,
        Err(error) => {
            return Err(error);
        },
    };
    let mut args = start("prune");
    push_repo_flags(&mut args, repo);
    push_dry_run(&mut args, app.args().dry_run);
    Ok(finish(args, app.args().quiet, false))
}

/// The arguments of `unlock`.
pub open spec fn unlock_arguments(repo: Repo, dry_run: bool) -> Seq<Seq<char>> {
    seq!["unlock"@] + repo_flags(repo) + dry_run_flags(dry_run)
}

/// Removes stale locks from the repository named `repo_name`.
pub fn unlock(app: &App, repo_name: String) -> (built: Result<Invocation, DispatchError>)
    ensures
        match lookup(app.spec_config().repos@, repo_name@) {
            Some(repo) => built matches Ok(inv) && inv@ == invocation(
                unlock_arguments(repo, app.spec_args().dry_run),
                app.spec_args().quiet,
                false,
            ),
            None => built matches Err(DispatchError::RepoNotFound(name)) && name == repo_name,
        },
{
    let repo = match resolve(app, repo_name) {
        Ok(repo) => repo,
        Err(error) => {
            return Err(error);
        },
    };
    let mut args = start("unlock");
    push_repo_flags(&mut args, repo);
    push_dry_run(&mut args, app.args().dry_run);
    Ok(finish(args, app.args().quiet, false))
}

/// The arguments of `stats`, for the whole repository or for one snapshot.
pub open spec fn stats_arguments(repo: Repo, snapshot_id: Option<String>) -> Seq<Seq<char>> {
    seq!["stats"@] + repo_flags(repo) + optional_argument(snapshot_id)
}

/// Shows statistics of the repository named `repo_name`, or of one of its
/// snapshots.
pub fn stats(app: &App, repo_name: String, snapshot_id: Option<String>) -> (built: Result<
    Invocation,
    DispatchError,
>)
    ensures
        match lookup(app.spec_config().repos@, repo_name@) {
            Some(repo) => built matches Ok(inv) && inv@ == invocation(
                stats_arguments(repo, snapshot_id),
                app.spec_args().quiet,
                false,
            ),
            None => built matches Err(DispatchError::RepoNotFound(name)) && name == repo_name,
        },
{
    let repo = match resolve(app, repo_name) {
        Ok(repo) => repo,
        Err(error) => {
            return Err(error);
        },
    };
    let mut args = start("stats");
    push_repo_flags(&mut args, repo);
    match snapshot_id {
        Some(id) => {
            push_owned(&mut args, id);
        },
        None => {},
    }
    assert(texts(args@) =~= stats_arguments(*repo, snapshot_id));
    Ok(finish(args, app.args().quiet, false))
}

/// The shell and the arguments that make it run one command line.
pub open spec fn shell_invocation(command: Seq<char>) -> InvocationView {
    InvocationView {
        program: "/bin/bash"@,
        args: seq!["-c"@, command],
        quiet: false,
        capture_output: false,
    }
}

/// Runs a hook: the command line is handed to the shell as it stands.
pub fn run_cmd(cmd_str: &str) -> (built: Invocation)
    ensures
        built@ == shell_invocation(cmd_str@),
{
    let mut args = start("-c");
    push_text(&mut args, cmd_str);
    assert(texts(args@) =~= seq!["-c"@, cmd_str@]);
    Invocation { program: "/bin/bash".to_owned(), args, quiet: false, capture_output: false }
}

/// The names of the configured repositories, in iteration order.
pub fn list(app: &App) -> (names: Vec<String>)
    ensures
        texts(names@) == names_of(app.spec_config().repos@),
{
    let names = app.config().repos.names();
    names
}

/// Whether an argument is a retention flag.
pub open spec fn is_keep_flag(argument: Seq<char>) -> bool {
    "--keep-"@.is_prefix_of(argument)
}

/// Forgetting one snapshot by its id leaves the retention policy out
/// altogether: whatever the policy holds, the arguments are the subcommand,
/// the repository, `--prune`, the dry-run flag where it is on, and the id.
/// None of them is a retention flag, unless the path, the password file or the
/// id is itself written like one.
pub proof fn lemma_forget_by_id_passes_no_keep_flag(
    repo: Repo,
    dry_run: bool,
    id: String,
    policy: Forget,
)
    requires
        !is_keep_flag(repo.path@),
        !is_keep_flag(repo.pw_file@),
        !is_keep_flag(id@),
    ensures
        forget_arguments(repo, dry_run, ForgetTarget::BySnapshotId(id), policy) == seq!["forget"@]
            + repo_flags(repo) + seq!["--prune"@] + dry_run_flags(dry_run) + seq![id@],
        forget_arguments(repo, dry_run, ForgetTarget::BySnapshotId(id), policy).contains(
            "--prune"@,
        ),
        forget_arguments(repo, dry_run, ForgetTarget::BySnapshotId(id), policy).last() == id@,
        forall|argument: Seq<char>|
            forget_arguments(repo, dry_run, ForgetTarget::BySnapshotId(id), policy).contains(
                argument,
            ) ==> !is_keep_flag(argument),
{
    reveal_strlit("--keep-");
    reveal_strlit("forget");
    reveal_strlit("--repo");
    reveal_strlit("--password-file");
    reveal_strlit("--prune");
    reveal_strlit("--dry-run=true");
    let arguments = forget_arguments(repo, dry_run, ForgetTarget::BySnapshotId(id), policy);
    let keep = "--keep-"@;
    assert(!is_keep_flag("forget"@));
    assert(!is_keep_flag("--repo"@));
    assert(!is_keep_flag("--password-file"@)) by {
        if is_keep_flag("--password-file"@) {
            assert("--password-file"@.subrange(0, keep.len() as int)[2] == keep[2]);
        }
    }
    assert(!is_keep_flag("--prune"@));
    assert(!is_keep_flag("--dry-run=true"@));
    assert(arguments[5] == "--prune"@);
}

/// A check goes to the repository that its name resolves to: the arguments
/// carry the path and the password file of the repository found under the
/// name, and so resolving the name again gives the pair that the arguments hold.
pub proof fn lemma_check_carries_resolved_pair(repos: Seq<Repo>, name: Seq<char>)
    requires
        lookup(repos, name) is Some,
    ensures
        check_arguments(lookup(repos, name).unwrap()) == seq![
            "check"@,
            "--repo"@,
            lookup(repos, name).unwrap().path@,
            "--password-file"@,
            lookup(repos, name).unwrap().pw_file@,
        ],
{
}

} // verus!
