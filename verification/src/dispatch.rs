//! Maps each user-facing operation to the steps that carry it out: which
//! repositories it targets, in which order the tool is invoked, and where
//! hooks and notices go.

use vstd::prelude::*;
use crate::command::{
    backup, backup_arguments, backup_repo, check, check_arguments, copy, copy_arguments,
    exclude_texts, forget, forget_arguments, init, init_arguments, invocation, mount,
    mount_arguments, prune, prune_arguments, snapshots, snapshots_arguments, snapshots_json,
    run_cmd, shell_invocation, snapshots_json_arguments, stats, stats_arguments, texts, unlock,
    unlock_arguments, DispatchError, ForgetTarget, Invocation, InvocationView,
};
use crate::config::{config_valid, copy_pairs, pair_known, CopyPair};
use crate::context::{App, Args};
use crate::repos::{
    has_name, lemma_lookup_at, lookup, names_distinct, names_of, Repo, Repos,
};
use crate::snapshots::Snapshot;

verus! {

/// A dispatch error as plain values.
pub enum DispatchErrorView {
    RepoNotFound(Seq<char>),
    AmbiguousRepo(Seq<Seq<char>>),
    NoCopyPairs,
}

impl View for DispatchError {
    type V = DispatchErrorView;

    open spec fn view(&self) -> DispatchErrorView {
        match *self {
            DispatchError::RepoNotFound(name) => DispatchErrorView::RepoNotFound(name@),
            DispatchError::AmbiguousRepo(names) => DispatchErrorView::AmbiguousRepo(texts(names@)),
            DispatchError::NoCopyPairs => DispatchErrorView::NoCopyPairs,
        }
    }
}

/// The repository an operation works on, given the name the user passed, if
/// any. A given name has to be configured. Without a name the choice falls on
/// the only configured repository; where there is none, or more than one, the
/// choice is ambiguous and the error lists the configured names.
pub open spec fn selected_name(repos: Seq<Repo>, repo: Option<String>) -> Result<
    Seq<char>,
    DispatchErrorView,
> {
    match repo {
        Some(name) => if has_name(repos, name@) {
            Ok(name@)
        } else {
            Err(DispatchErrorView::RepoNotFound(name@))
        },
        None => if repos.len() == 1 {
            Ok(repos[0].name@)
        } else {
            Err(DispatchErrorView::AmbiguousRepo(names_of(repos)))
        },
    }
}

/// Whether an exec result of a selection is the one that the rule gives.
pub open spec fn selection_is(
    outcome: Result<String, DispatchError>,
    expected: Result<Seq<char>, DispatchErrorView>,
) -> bool {
    match expected {
        Ok(name) => outcome matches Ok(chosen) && chosen@ == name,
        Err(error) => outcome matches Err(given) && given@ == error,
    }
}

/// Selects the repository an operation works on among `repos`.
pub fn select_repo(repos: &Repos, repo: Option<String>) -> (outcome: Result<String, DispatchError>)
    ensures
        selection_is(outcome, selected_name(repos@, repo)),
{
    match repo {
        Some(name) => {
            if repos.contains(name.as_str()) {
                Ok(name)
            } else {
                Err(DispatchError::RepoNotFound(name))
            }
        },
        None => {
            let entries = repos.entries();
            if entries.len() == 1 {
                Ok(entries[0].name.clone())
            } else {
                let names = repos.names();
                assert(texts(names@) =~= names_of(repos@));
                Err(DispatchError::AmbiguousRepo(names))
            }
        },
    }
}

/// Selects the repository an operation of this run works on.
pub fn match_repo_name(app: &App, repo: Option<String>) -> (outcome: Result<String, DispatchError>)
    ensures
        selection_is(outcome, selected_name(app.spec_config().repos@, repo)),
{
    select_repo(&app.config().repos, repo)
}

/// An operation as the user asks for it.
#[derive(Debug, Clone, PartialEq, Eq)]
#[allow(inconsistent_fields)]
pub enum Command {
    /// Create the repository that backups go to.
    Init,
    /// Back up, then forget by policy in the same repository.
    Backup,
    /// Verify one repository, or all of them.
    Check { repo: Option<String> },
    /// Copy every configured pair, forgetting by policy in each destination.
    CopyAll,
    /// Show the names of the configured repositories.
    List,
    /// Mount a repository at a directory.
    Mount { repo: String, mount_point: String },
    /// Prune one repository, or all of them.
    Prune { repo: Option<String> },
    /// List the snapshots of one repository, or of all of them.
    Snapshots { repo: Option<String> },
    /// Remove stale locks from a repository.
    Unlock { repo: Option<String> },
    /// Show statistics of a repository, of one snapshot, or of each snapshot.
    Stats { repo: Option<String>, snapshot_id: Option<String>, iterate_over_snapshots: bool },
    /// Forget one snapshot, or by policy.
    Forget { repo: Option<String>, snapshot_id: Option<String> },
}

/// A line for the console that tells the user what is going on.
#[derive(Debug, Clone, PartialEq, Eq)]
pub enum Notice {
    /// The named repository is about to be verified.
    Checking(String),
    /// The first repository is about to be copied into the second.
    Copying(String, String),
    /// The named repository is about to be pruned.
    Pruning(String),
    /// The snapshots of the named repository follow.
    SnapshotsOf(String),
    /// The name of a configured repository.
    RepoName(String),
    /// The statistics of the snapshot with this short id follow.
    SnapshotId(String),
}

/// A notice as plain values.
pub enum NoticeView {
    Checking(Seq<char>),
    Copying(Seq<char>, Seq<char>),
    Pruning(Seq<char>),
    SnapshotsOf(Seq<char>),
    RepoName(Seq<char>),
    SnapshotId(Seq<char>),
}

impl View for Notice {
    type V = NoticeView;

    open spec fn view(&self) -> NoticeView {
        match *self {
            Notice::Checking(name) => NoticeView::Checking(name@),
            Notice::Copying(src, dest) => NoticeView::Copying(src@, dest@),
            Notice::Pruning(name) => NoticeView::Pruning(name@),
            Notice::SnapshotsOf(name) => NoticeView::SnapshotsOf(name@),
            Notice::RepoName(name) => NoticeView::RepoName(name@),
            Notice::SnapshotId(id) => NoticeView::SnapshotId(id@),
        }
    }
}

/// One thing for the caller to do. The steps of a plan are carried out in order.
#[derive(Debug, Clone, PartialEq, Eq)]
pub enum Step {
    /// Print the notice.
    Announce(Notice),
    /// Run a hook in the shell.
    Hook(Invocation),
    /// Run the tool.
    Run(Invocation),
    /// Run the tool, unless its most recent run in this plan failed.
    RunAfterSuccess(Invocation),
    /// Run the listing, read the snapshots from its output, and carry out
    /// the steps that `stats_for_snapshots` gives for them.
    StatsPerSnapshot { listing: Invocation, repo_name: String },
}

/// A step as plain values.
pub enum StepView {
    Announce(NoticeView),
    Hook(InvocationView),
    Run(InvocationView),
    RunAfterSuccess(InvocationView),
    StatsPerSnapshot { listing: InvocationView, repo_name: Seq<char> },
}

impl View for Step {
    type V = StepView;

    open spec fn view(&self) -> StepView {
        match *self {
            Step::Announce(notice) => StepView::Announce(notice@),
            Step::Hook(inv) => StepView::Hook(inv@),
            Step::Run(inv) => StepView::Run(inv@),
            Step::RunAfterSuccess(inv) => StepView::RunAfterSuccess(inv@),
            Step::StatsPerSnapshot { listing, repo_name } => StepView::StatsPerSnapshot {
                listing: listing@,
                repo_name: repo_name@,
            },
        }
    }
}

/// The steps of a plan as plain values.
pub open spec fn step_views(steps: Seq<Step>) -> Seq<StepView> {
    steps.map_values(|step: Step| step@)
}

/// Whether an exec plan, or the error in its place, is the expected one.
pub open spec fn plan_is(
    outcome: Result<Vec<Step>, DispatchError>,
    expected: Result<Seq<StepView>, DispatchErrorView>,
) -> bool {
    match expected {
        Ok(steps) => outcome matches Ok(plan) && step_views(plan@) == steps,
        Err(error) => outcome matches Err(given) && given@ == error,
    }
}

/// The step that runs an optional shell command.
pub open spec fn hook_steps(command: Option<String>) -> Seq<StepView> {
    match command {
        Some(text) => seq![StepView::Hook(shell_invocation(text@))],
        None => Seq::empty(),
    }
}

/// The step that prints an informational notice, which quiet mode drops.
pub open spec fn notice_steps(quiet: bool, notice: NoticeView) -> Seq<StepView> {
    if quiet {
        Seq::empty()
    } else {
        seq![StepView::Announce(notice)]
    }
}

/// Appends one step.
fn push_step(plan: &mut Vec<Step>, step: Step)
    ensures
        step_views(final(plan)@) == step_views(old(plan)@).push(step@),
{
    plan.push(step);
}

/// Appends the step that runs an optional shell command.
fn push_hook(plan: &mut Vec<Step>, command: &Option<String>)
    ensures
        step_views(final(plan)@) == step_views(old(plan)@) + hook_steps(*command),
{
    match command {
        Some(text) => {
            push_step(plan, Step::Hook(run_cmd(text.as_str())));
        },
        None => {},
    }
}

/// Appends an informational notice unless quiet mode is on.
fn push_notice(plan: &mut Vec<Step>, quiet: bool, notice: Notice)
    ensures
        step_views(final(plan)@) == step_views(old(plan)@) + notice_steps(quiet, notice@),
{
    if !quiet {
        push_step(plan, Step::Announce(notice));
    }
}

/// Appends the run of an invocation that is known to have been built, as a
/// conditional run where `conditional` is set.
fn push_built(plan: &mut Vec<Step>, built: Result<Invocation, DispatchError>, conditional: bool)
    requires
        built is Ok,
    ensures
        step_views(final(plan)@) == step_views(old(plan)@).push(
            if conditional {
                StepView::RunAfterSuccess(built->Ok_0@)
            } else {
                StepView::Run(built->Ok_0@)
            },
        ),
{
    if let Ok(inv) = built {
        if conditional {
            push_step(plan, Step::RunAfterSuccess(inv));
        } else {
            push_step(plan, Step::Run(inv));
        }
    }
}

/// An empty plan.
fn empty_plan() -> (plan: Vec<Step>)
    ensures
        step_views(plan@) == Seq::<StepView>::empty(),
{
    let plan: Vec<Step> = Vec::new();
    plan
}

/// The repository of that name, or the error that says it is not configured.
pub open spec fn resolved(repos: Seq<Repo>, name: Seq<char>) -> Result<Repo, DispatchErrorView> {
    match lookup(repos, name) {
        Some(repo) => Ok(repo),
        None => Err(DispatchErrorView::RepoNotFound(name)),
    }
}

/// The repository that an operation on a single repository works on.
pub open spec fn chosen(repos: Seq<Repo>, repo: Option<String>) -> Result<Repo, DispatchErrorView> {
    match selected_name(repos, repo) {
        Ok(name) => resolved(repos, name),
        Err(error) => Err(error),
    }
}

/// The forget target that an optional snapshot id stands for.
pub open spec fn target_of(snapshot_id: Option<String>) -> ForgetTarget {
    match snapshot_id {
        Some(id) => ForgetTarget::BySnapshotId(id),
        None => ForgetTarget::ByPolicy,
    }
}

/// The steps of `init`.
pub open spec fn init_steps(app: App) -> Seq<StepView> {
    seq![StepView::Run(invocation(init_arguments(backup_repo(app)), false, false))]
}

/// The steps of `backup`: the backup between its hooks, then forgetting by
/// policy in the same repository, which is never left out.
pub open spec fn backup_steps(app: App) -> Seq<StepView> {
    let config = app.spec_config();
    let flags = app.spec_args();
    hook_steps(config.backup.pre_command) + seq![
        StepView::Run(
            invocation(
                backup_arguments(
                    backup_repo(app),
                    flags.dry_run,
                    exclude_texts(config.backup.exclude_patterns),
                    texts(config.backup.include_paths@),
                ),
                flags.quiet,
                false,
            ),
        ),
    ] + hook_steps(config.backup.post_command) + seq![
        StepView::Run(
            invocation(
                forget_arguments(
                    backup_repo(app),
                    flags.dry_run,
                    ForgetTarget::ByPolicy,
                    config.forget,
                ),
                flags.quiet,
                false,
            ),
        ),
    ]
}

/// The plan of `init`.
fn plan_init(app: &App) -> (plan: Vec<Step>)
    ensures
        step_views(plan@) == init_steps(*app),
{
    let mut plan = empty_plan();
    push_step(&mut plan, Step::Run(init(app)));
    plan
}

/// The plan of `backup`.
fn plan_backup(app: &App) -> (plan: Vec<Step>)
    ensures
        step_views(plan@) == backup_steps(*app),
{
    let config = app.config();
    let mut plan = empty_plan();
    push_hook(&mut plan, &config.backup.pre_command);
    push_step(&mut plan, Step::Run(backup(app)));
    push_hook(&mut plan, &config.backup.post_command);
    let forgetting = forget(app, config.backup.repo_name.clone(), ForgetTarget::ByPolicy);
    push_built(&mut plan, forgetting, false);
    plan
}

/// The steps of `mount`.
pub open spec fn mount_steps(app: App, repo: String, mount_point: String) -> Result<
    Seq<StepView>,
    DispatchErrorView,
> {
    let flags = app.spec_args();
    match resolved(app.spec_config().repos@, repo@) {
        Ok(target) => Ok(
            seq![
                StepView::Run(
                    invocation(
                        mount_arguments(target, mount_point@, flags.dry_run),
                        flags.quiet,
                        false,
                    ),
                ),
            ],
        ),
        Err(error) => Err(error),
    }
}

/// The steps of `unlock`.
pub open spec fn unlock_steps(app: App, repo: Option<String>) -> Result<
    Seq<StepView>,
    DispatchErrorView,
> {
    let flags = app.spec_args();
    match chosen(app.spec_config().repos@, repo) {
        Ok(target) => Ok(
            seq![
                StepView::Run(
                    invocation(unlock_arguments(target, flags.dry_run), flags.quiet, false),
                ),
            ],
        ),
        Err(error) => Err(error),
    }
}

/// The steps of `forget`: a given snapshot id is forgotten alone, and without
/// one the retention policy decides.
pub open spec fn forget_steps(
    app: App,
    repo: Option<String>,
    snapshot_id: Option<String>,
) -> Result<Seq<StepView>, DispatchErrorView> {
    let flags = app.spec_args();
    match chosen(app.spec_config().repos@, repo) {
        Ok(target) => Ok(
            seq![
                StepView::Run(
                    invocation(
                        forget_arguments(
                            target,
                            flags.dry_run,
                            target_of(snapshot_id),
                            app.spec_config().forget,
                        ),
                        flags.quiet,
                        false,
                    ),
                ),
            ],
        ),
        Err(error) => Err(error),
    }
}

/// The steps of `stats`: one run for the repository or the given snapshot,
/// or, when iterating, the listing from which the per-snapshot runs follow.
pub open spec fn stats_steps(
    app: App,
    repo: Option<String>,
    snapshot_id: Option<String>,
    iterate_over_snapshots: bool,
) -> Result<Seq<StepView>, DispatchErrorView> {
    let flags = app.spec_args();
    let repos = app.spec_config().repos@;
    match selected_name(repos, repo) {
        Ok(name) => match resolved(repos, name) {
            Ok(target) => Ok(
                if iterate_over_snapshots {
                    seq![
                        StepView::StatsPerSnapshot {
                            listing: invocation(snapshots_json_arguments(target), false, true),
                            repo_name: name,
                        },
                    ]
                } else {
                    seq![
                        StepView::Run(
                            invocation(stats_arguments(target, snapshot_id), flags.quiet, false),
                        ),
                    ]
                },
            ),
            Err(error) => Err(error),
        },
        Err(error) => Err(error),
    }
}

/// A plan of the single step that runs `built`, or the error in its place.
fn single_run(built: Result<Invocation, DispatchError>) -> (outcome: Result<
    Vec<Step>,
    DispatchError,
>)
    ensures
        match built {
            Ok(inv) => outcome matches Ok(plan) && step_views(plan@) == seq![StepView::Run(inv@)],
            Err(error) => outcome matches Err(given) && given@ == error@,
        },
{
    match built {
        Ok(inv) => {
            let mut plan = empty_plan();
            push_step(&mut plan, Step::Run(inv));
            Ok(plan)
        },
        Err(error) => Err(error),
    }
}

/// The plan of `mount`.
fn plan_mount(app: &App, repo: String, mount_point: String) -> (outcome: Result<
    Vec<Step>,
    DispatchError,
>)
    ensures
        plan_is(outcome, mount_steps(*app, repo, mount_point)),
{
    single_run(mount(app, repo, mount_point))
}

/// The plan of `unlock`.
fn plan_unlock(app: &App, repo: Option<String>) -> (outcome: Result<Vec<Step>, DispatchError>)
    ensures
        plan_is(outcome, unlock_steps(*app, repo)),
{
    match match_repo_name(app, repo) {
        Ok(name) => single_run(unlock(app, name)),
        Err(error) => Err(error),
    }
}

/// The plan of `forget`.
fn plan_forget(app: &App, repo: Option<String>, snapshot_id: Option<String>) -> (outcome: Result<
    Vec<Step>,
    DispatchError,
>)
    ensures
        plan_is(outcome, forget_steps(*app, repo, snapshot_id)),
{
    match match_repo_name(app, repo) {
        Ok(name) => {
            let target = match snapshot_id {
                Some(id) => ForgetTarget::BySnapshotId(id),
                None => ForgetTarget::ByPolicy,
            };
            single_run(forget(app, name, target))
        },
        Err(error) => Err(error),
    }
}

/// The plan of `stats`.
fn plan_stats(
    app: &App,
    repo: Option<String>,
    snapshot_id: Option<String>,
    iterate_over_snapshots: bool,
) -> (outcome: Result<Vec<Step>, DispatchError>)
    ensures
        plan_is(outcome, stats_steps(*app, repo, snapshot_id, iterate_over_snapshots)),
{
    let name = match match_repo_name(app, repo) {
        Ok(name) => name,
        Err(error) => {
            return Err(error);
        },
    };
    if iterate_over_snapshots {
        match snapshots_json(app, name.clone()) {
            Ok(listing) => {
                let mut plan = empty_plan();
                let step = Step::StatsPerSnapshot { listing, repo_name: name };
                push_step(&mut plan, step);
                Ok(plan)
            },
            Err(error) => Err(error),
        }
    } else {
        single_run(stats(app, name, snapshot_id))
    }
}

/// What iterating statistics does for one snapshot: the notice with its
/// short id, then the statistics of that snapshot alone.
pub open spec fn snapshot_steps(repo: Repo, flags: Args, snapshot: Snapshot) -> Seq<StepView> {
    notice_steps(flags.quiet, NoticeView::SnapshotId(snapshot.short_id@)) + seq![
        StepView::Run(
            invocation(stats_arguments(repo, Some(snapshot.short_id)), flags.quiet, false),
        ),
    ]
}

/// What iterating statistics does for each of `snapshots`, in their order.
pub open spec fn stats_over(repo: Repo, flags: Args, snapshots: Seq<Snapshot>) -> Seq<StepView>
    decreases snapshots.len(),
{
    if snapshots.len() == 0 {
        Seq::empty()
    } else {
        stats_over(repo, flags, snapshots.drop_last()) + snapshot_steps(
            repo,
            flags,
            snapshots.last(),
        )
    }
}

/// The steps that follow a snapshot listing when statistics are iterated.
pub open spec fn stats_for_snapshots_steps(
    app: App,
    repo_name: Seq<char>,
    snapshots: Seq<Snapshot>,
) -> Result<Seq<StepView>, DispatchErrorView> {
    match resolved(app.spec_config().repos@, repo_name) {
        Ok(repo) => Ok(stats_over(repo, app.spec_args(), snapshots)),
        Err(error) => Err(error),
    }
}

/// Plans the statistics of each listed snapshot of the repository named
/// `repo_name`, in the order of the listing.
pub fn stats_for_snapshots(app: &App, repo_name: String, snapshots: &Vec<Snapshot>) -> (outcome:
    Result<Vec<Step>, DispatchError>)
    ensures
        plan_is(outcome, stats_for_snapshots_steps(*app, repo_name@, snapshots@)),
{
    let ghost repo = lookup(app.spec_config().repos@, repo_name@);
    if !app.config().repos.contains(repo_name.as_str()) {
        return Err(DispatchError::RepoNotFound(repo_name));
    }
    let mut plan = empty_plan();
    let mut i: usize = 0;
    while i < snapshots.len()
        invariant
            i <= snapshots.len(),
            repo == lookup(app.spec_config().repos@, repo_name@),
            repo is Some,
            step_views(plan@) == stats_over(
                repo.unwrap(),
                app.spec_args(),
                snapshots@.take(i as int),
            ),
        decreases snapshots.len() - i,
    {
        let short_id = snapshots[i].short_id.clone();
        push_notice(&mut plan, app.args().quiet, Notice::SnapshotId(short_id.clone()));
        push_built(&mut plan, stats(app, repo_name.clone(), Some(short_id)), false);
        proof {
            assert(snapshots@.take(i + 1).drop_last() =~= snapshots@.take(i as int));
        }
        i += 1;
    }
    assert(snapshots@.take(snapshots.len() as int) =~= snapshots@);
    Ok(plan)
}

/// The operations that go over all repositories when none is named.
#[derive(Debug, Clone, Copy, PartialEq, Eq, Structural)]
pub enum BulkKind {
    Check,
    Prune,
    Snapshots,
}

/// The repositories a bulk operation goes over: the named one alone, or all
/// of them in iteration order.
pub open spec fn bulk_targets(repos: Seq<Repo>, repo: Option<String>) -> Result<
    Seq<Repo>,
    DispatchErrorView,
> {
    match repo {
        Some(name) => match resolved(repos, name@) {
            Ok(target) => Ok(seq![target]),
            Err(error) => Err(error),
        },
        None => Ok(repos),
    }
}

/// What a bulk operation does for one repository: the notice, then the run.
pub open spec fn bulk_steps_for(kind: BulkKind, repo: Repo, flags: Args) -> Seq<StepView> {
    match kind {
        BulkKind::Check => notice_steps(flags.quiet, NoticeView::Checking(repo.name@)) + seq![
            StepView::Run(invocation(check_arguments(repo), flags.quiet, false)),
        ],
        BulkKind::Prune => notice_steps(flags.quiet, NoticeView::Pruning(repo.name@)) + seq![
            StepView::Run(invocation(prune_arguments(repo, flags.dry_run), flags.quiet, false)),
        ],
        BulkKind::Snapshots => notice_steps(flags.quiet, NoticeView::SnapshotsOf(repo.name@))
            + seq![StepView::Run(invocation(snapshots_arguments(repo), flags.quiet, false))],
    }
}

/// What a bulk operation does for each of `targets`, in their order.
pub open spec fn bulk_over(kind: BulkKind, targets: Seq<Repo>, flags: Args) -> Seq<StepView>
    decreases targets.len(),
{
    if targets.len() == 0 {
        Seq::empty()
    } else {
        bulk_over(kind, targets.drop_last(), flags) + bulk_steps_for(kind, targets.last(), flags)
    }
}

/// The steps of a bulk operation.
pub open spec fn bulk_steps(app: App, kind: BulkKind, repo: Option<String>) -> Result<
    Seq<StepView>,
    DispatchErrorView,
> {
    match bulk_targets(app.spec_config().repos@, repo) {
        Ok(targets) => Ok(bulk_over(kind, targets, app.spec_args())),
        Err(error) => Err(error),
    }
}

/// Appends what a bulk operation does for one configured repository.
fn push_bulk(plan: &mut Vec<Step>, app: &App, kind: BulkKind, repo: &Repo)
    requires
        lookup(app.spec_config().repos@, repo.name@) == Some(*repo),
    ensures
        step_views(final(plan)@) == step_views(old(plan)@) + bulk_steps_for(
            kind,
            *repo,
            app.spec_args(),
        ),
{
    let quiet = app.args().quiet;
    let (notice, built) = match kind {
        BulkKind::Check => (Notice::Checking(repo.name.clone()), check(app, repo.name.clone())),
        BulkKind::Prune => (Notice::Pruning(repo.name.clone()), prune(app, repo.name.clone())),
        BulkKind::Snapshots => (
            Notice::SnapshotsOf(repo.name.clone()),
            snapshots(app, repo.name.clone()),
        ),
    };
    push_notice(plan, quiet, notice);
    push_built(plan, built, false);
}

/// The plan of a bulk operation.
fn plan_bulk(app: &App, kind: BulkKind, repo: Option<String>) -> (outcome: Result<
    Vec<Step>,
    DispatchError,
>)
    ensures
        plan_is(outcome, bulk_steps(*app, kind, repo)),
{
    let mut plan = empty_plan();
    match repo {
        Some(name) => match app.config().repos.get(name.as_str()) {
            Some(target) => {
                push_bulk(&mut plan, app, kind, target);
                proof {
                    let targets = seq![*target];
                    assert(bulk_over(kind, targets.drop_last(), app.spec_args())
                        =~= Seq::<StepView>::empty());
                }
                Ok(plan)
            },
            None => Err(DispatchError::RepoNotFound(name)),
        },
        None => {
            let entries = app.config().repos.entries();
            let mut i: usize = 0;
            while i < entries.len()
                invariant
                    i <= entries.len(),
                    entries@ == app.spec_config().repos@,
                    names_distinct(entries@),
                    step_views(plan@) == bulk_over(kind, entries@.take(i as int), app.spec_args()),
                decreases entries.len() - i,
            {
                proof {
                    lemma_lookup_at(entries@, i as int);
                    assert(entries@.take(i + 1).drop_last() =~= entries@.take(i as int));
                }
                push_bulk(&mut plan, app, kind, &entries[i]);
                i += 1;
            }
            assert(entries@.take(entries.len() as int) =~= entries@);
            Ok(plan)
        },
    }
}

/// The steps of `list`: the name of each configured repository, in
/// iteration order. Quiet mode does not drop them: they are what was asked for.
pub open spec fn list_steps(repos: Seq<Repo>) -> Seq<StepView> {
    repos.map_values(|repo: Repo| StepView::Announce(NoticeView::RepoName(repo.name@)))
}

/// The plan of `list`.
fn plan_list(app: &App) -> (plan: Vec<Step>)
    ensures
        step_views(plan@) == list_steps(app.spec_config().repos@),
{
    let entries = app.config().repos.entries();
    let mut plan = empty_plan();
    let mut i: usize = 0;
    while i < entries.len()
        invariant
            i <= entries.len(),
            step_views(plan@) == list_steps(entries@.take(i as int)),
        decreases entries.len() - i,
    {
        push_step(&mut plan, Step::Announce(Notice::RepoName(entries[i].name.clone())));
        i += 1;
    }
    plan
}

/// What the bulk copy does for one pair: the notice, the copy between the
/// copy hooks, and then forgetting by policy in the destination, which is
/// left out when the copy failed.
pub open spec fn pair_steps(app: App, hooks: crate::config::Copy, pair: CopyPair) -> Seq<StepView> {
    let config = app.spec_config();
    let flags = app.spec_args();
    let src = lookup(config.repos@, pair.src@).unwrap();
    let dest = lookup(config.repos@, pair.dest@).unwrap();
    notice_steps(flags.quiet, NoticeView::Copying(pair.src@, pair.dest@)) + hook_steps(
        hooks.pre_command,
    ) + seq![
        StepView::Run(invocation(copy_arguments(src, dest, flags.dry_run), flags.quiet, false)),
    ] + hook_steps(hooks.post_command) + seq![
        StepView::RunAfterSuccess(
            invocation(
                forget_arguments(dest, flags.dry_run, ForgetTarget::ByPolicy, config.forget),
                flags.quiet,
                false,
            ),
        ),
    ]
}

/// What the bulk copy does for each of `pairs`, in their order.
pub open spec fn pairs_steps(app: App, hooks: crate::config::Copy, pairs: Seq<CopyPair>) -> Seq<
    StepView,
>
    decreases pairs.len(),
{
    if pairs.len() == 0 {
        Seq::empty()
    } else {
        pairs_steps(app, hooks, pairs.drop_last()) + pair_steps(app, hooks, pairs.last())
    }
}

/// The steps of the bulk copy, which needs a copy section in the configuration.
pub open spec fn copy_all_steps(app: App) -> Result<Seq<StepView>, DispatchErrorView> {
    match app.spec_config().copy {
        Some(hooks) => Ok(pairs_steps(app, hooks, hooks.pairs@)),
        None => Err(DispatchErrorView::NoCopyPairs),
    }
}

/// Appends what the bulk copy does for one pair whose ends are configured.
fn push_pair(plan: &mut Vec<Step>, app: &App, hooks: &crate::config::Copy, pair: &CopyPair)
    requires
        has_name(app.spec_config().repos@, pair.src@),
        has_name(app.spec_config().repos@, pair.dest@),
    ensures
        step_views(final(plan)@) == step_views(old(plan)@) + pair_steps(*app, *hooks, *pair),
{
    push_notice(plan, app.args().quiet, Notice::Copying(pair.src.clone(), pair.dest.clone()));
    push_hook(plan, &hooks.pre_command);
    push_built(plan, copy(app, pair.src.clone(), pair.dest.clone()), false);
    push_hook(plan, &hooks.post_command);
    push_built(plan, forget(app, pair.dest.clone(), ForgetTarget::ByPolicy), true);
}

/// The plan of the bulk copy.
fn plan_copy_all(app: &App) -> (outcome: Result<Vec<Step>, DispatchError>)
    ensures
        plan_is(outcome, copy_all_steps(*app)),
{
    let config = app.config();
    match &config.copy {
        Some(hooks) => {
            let mut plan = empty_plan();
            let mut i: usize = 0;
            while i < hooks.pairs.len()
                invariant
                    i <= hooks.pairs.len(),
                    *config == app.spec_config(),
                    config_valid(*config),
                    copy_pairs(*config) == hooks.pairs@,
                    step_views(plan@) == pairs_steps(*app, *hooks, hooks.pairs@.take(i as int)),
                decreases hooks.pairs.len() - i,
            {
                proof {
                    assert(hooks.pairs@.take(i + 1).drop_last() =~= hooks.pairs@.take(i as int));
                }
                push_pair(&mut plan, app, hooks, &hooks.pairs[i]);
                i += 1;
            }
            assert(hooks.pairs@.take(hooks.pairs.len() as int) =~= hooks.pairs@);
            Ok(plan)
        },
        None => Err(DispatchError::NoCopyPairs),
    }
}

/// The steps of an operation itself, without the hooks of the run.
pub open spec fn operation_steps(app: App, command: Command) -> Result<
    Seq<StepView>,
    DispatchErrorView,
> {
    match command {
        Command::Init => Ok(init_steps(app)),
        Command::Backup => Ok(backup_steps(app)),
        Command::Check { repo } => bulk_steps(app, BulkKind::Check, repo),
        Command::CopyAll => copy_all_steps(app),
        Command::List => Ok(list_steps(app.spec_config().repos@)),
        Command::Mount { repo, mount_point } => mount_steps(app, repo, mount_point),
        Command::Prune { repo } => bulk_steps(app, BulkKind::Prune, repo),
        Command::Snapshots { repo } => bulk_steps(app, BulkKind::Snapshots, repo),
        Command::Unlock { repo } => unlock_steps(app, repo),
        Command::Stats { repo, snapshot_id, iterate_over_snapshots } => stats_steps(
            app,
            repo,
            snapshot_id,
            iterate_over_snapshots,
        ),
        Command::Forget { repo, snapshot_id } => forget_steps(app, repo, snapshot_id),
    }
}

/// The whole plan of a run: the pre-command of the configuration, the steps
/// of the operation, and the post-command. Where the operation cannot be
/// resolved there is no plan at all, so nothing runs, not even the pre-command.
pub open spec fn plan_of(app: App, command: Command) -> Result<Seq<StepView>, DispatchErrorView> {
    match operation_steps(app, command) {
        Ok(steps) => Ok(
            hook_steps(app.spec_config().pre_command) + steps + hook_steps(
                app.spec_config().post_command,
            ),
        ),
        Err(error) => Err(error),
    }
}

/// Appends the steps of `more`.
fn push_steps(plan: &mut Vec<Step>, more: Vec<Step>)
    ensures
        step_views(final(plan)@) == step_views(old(plan)@) + step_views(more@),
{
    let mut more = more;
    plan.append(&mut more);
}

/// Plans a run: resolves the repositories that `command` targets and lays
/// out, in order, every hook, notice and invocation of the tool.
pub fn plan(app: &App, command: Command) -> (outcome: Result<Vec<Step>, DispatchError>)
    ensures
        plan_is(outcome, plan_of(*app, command)),
{
    let operation = match command {
        Command::Init => Ok(plan_init(app)),
        Command::Backup => Ok(plan_backup(app)),
        Command::Check { repo } => plan_bulk(app, BulkKind::Check, repo),
        Command::CopyAll => plan_copy_all(app),
        Command::List => Ok(plan_list(app)),
        Command::Mount { repo, mount_point } => plan_mount(app, repo, mount_point),
        Command::Prune { repo } => plan_bulk(app, BulkKind::Prune, repo),
        Command::Snapshots { repo } => plan_bulk(app, BulkKind::Snapshots, repo),
        Command::Unlock { repo } => plan_unlock(app, repo),
        Command::Stats { repo, snapshot_id, iterate_over_snapshots } => plan_stats(
            app,
            repo,
            snapshot_id,
            iterate_over_snapshots,
        ),
        Command::Forget { repo, snapshot_id } => plan_forget(app, repo, snapshot_id),
    };
    match operation {
        Ok(steps) => {
            let config = app.config();
            let mut whole = empty_plan();
            push_hook(&mut whole, &config.pre_command);
            push_steps(&mut whole, steps);
            push_hook(&mut whole, &config.post_command);
            Ok(whole)
        },
        Err(error) => Err(error),
    }
}

/// Whether a step is carried out, given how the most recent run of the tool
/// in this plan ended. Only a conditional run is ever left out.
pub open spec fn is_due(step: StepView, last_run_succeeded: bool) -> bool {
    step is RunAfterSuccess ==> last_run_succeeded
}

/// Whether a step runs the tool once and so has an exit status to report.
pub open spec fn runs_tool(step: StepView) -> bool {
    step is Run || step is RunAfterSuccess
}

/// How far a plan has been carried out.
#[derive(Debug, Clone, Copy, PartialEq, Eq, Structural)]
pub struct Progress {
    /// The number of steps that are behind: carried out or left out.
    pub position: usize,
    /// Whether the most recent run of the tool succeeded; true before any run.
    pub last_run_succeeded: bool,
}

/// `index` is where the next step to carry out stands: the first due step
/// at or after the position.
pub open spec fn is_next_due(plan: Seq<StepView>, progress: Progress, index: int) -> bool {
    &&& progress.position <= index < plan.len()
    &&& is_due(plan[index], progress.last_run_succeeded)
    &&& forall|j: int|
        progress.position <= j < index ==> !is_due(#[trigger] plan[j], progress.last_run_succeeded)
}

/// No step at or after the position is due: the plan is finished.
pub open spec fn is_finished(plan: Seq<StepView>, progress: Progress) -> bool {
    forall|j: int|
        progress.position <= j < plan.len() ==> !is_due(
            #[trigger] plan[j],
            progress.last_run_succeeded,
        )
}

impl Progress {
    /// Nothing is behind yet.
    pub fn start() -> (progress: Progress)
        ensures
            progress == (Progress { position: 0, last_run_succeeded: true }),
    {
        Progress { position: 0, last_run_succeeded: true }
    }

    /// The index of the step to carry out next, or `None` when the plan is
    /// finished. Conditional runs whose condition fails are passed over.
    pub fn next(&self, plan: &Vec<Step>) -> (found: Option<usize>)
        ensures
            match found {
                Some(index) => is_next_due(step_views(plan@), *self, index as int),
                None => is_finished(step_views(plan@), *self),
            },
    {
        let mut i: usize = self.position;
        while i < plan.len()
            invariant
                self.position <= i,
                forall|j: int|
                    self.position <= j < i && j < plan@.len() ==> !is_due(
                        #[trigger] step_views(plan@)[j],
                        self.last_run_succeeded,
                    ),
            decreases plan.len() - i,
        {
            let due = match &plan[i] {
                Step::RunAfterSuccess(_) => self.last_run_succeeded,
                _ => true,
            };
            if due {
                return Some(i);
            }
            i += 1;
        }
        None
    }

    /// The progress after the step at `index` was carried out. `succeeded`
    /// tells how the tool exited and counts only for steps that run it
    /// once; after any other step the last exit status stands as it was. An
    /// index beyond the plan puts the whole plan behind.
    pub fn after(&self, plan: &Vec<Step>, index: usize, succeeded: bool) -> (progress: Progress)
        ensures
            progress.position == if index < plan@.len() {
                index + 1
            } else {
                plan@.len() as int
            },
            progress.last_run_succeeded == if index < plan@.len() && runs_tool(
                step_views(plan@)[index as int],
            ) {
                succeeded
            } else {
                self.last_run_succeeded
            },
    {
        if index >= plan.len() {
            return Progress { position: plan.len(), last_run_succeeded: self.last_run_succeeded };
        }
        let last_run_succeeded = match &plan[index] {
            Step::Run(_) => succeeded,
            Step::RunAfterSuccess(_) => succeeded,
            _ => self.last_run_succeeded,
        };
        Progress { position: index + 1, last_run_succeeded }
    }
}

} // verus!
