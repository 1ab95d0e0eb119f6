//! What each verb of the command line comes to: the change it makes to the
//! store and the steps that the caller has to carry out on the file system.

use crate::args::{Action, Args, RunArgs};
use crate::text::{copy_text, join_path, joined, push_text, strings, text_of};
use crate::vcs::model::{
    branch_names, checkout_result, create_branch_result, delete_branch_result, history,
    open_result, CommitView, Error, LoadedView, Store,
};
use crate::vcs::{commit_outcome, commit_views, Commit, CommitsData, Loaded, VCS};
use vstd::prelude::*;

verus! {

/// The file, below an environment, that holds the store.
pub const COMMITS_FILE_NAME: &'static str = "commits.toml";

/// The directory, below an environment, on which the overlay is mounted.
pub const MOUNTPOINT_DIR_NAME: &'static str = "rootfs";

/// The directory, below an environment, that takes the changes.
pub const UPPER_DIR_NAME: &'static str = "upper";

/// The overlay's working directory, below an environment.
pub const WORK_DIR_NAME: &'static str = "work";

/// The directory, below an environment, that holds the snapshots.
pub const LOWER_DIR_NAME: &'static str = "layers";

/// The scratch directory, below an environment.
pub const TMP_DIR_NAME: &'static str = "tmp";

/// The paths of one environment.
pub struct Environment {
    pub env_root: String,
    pub commits_file: String,
    pub mount_point: String,
    pub upperdir: String,
    pub workdir: String,
    pub lower_root: String,
    pub tmpdir: String,
}

/// The value of an environment's paths.
pub struct Layout {
    pub env_root: Seq<char>,
    pub commits_file: Seq<char>,
    pub mount_point: Seq<char>,
    pub upperdir: Seq<char>,
    pub workdir: Seq<char>,
    pub lower_root: Seq<char>,
    pub tmpdir: Seq<char>,
}

/// The paths of the environment `name` below `root`.
pub open spec fn layout(root: Seq<char>, name: Seq<char>) -> Layout {
    let env_root = joined(root, name);
    Layout {
        env_root,
        commits_file: joined(env_root, COMMITS_FILE_NAME@),
        mount_point: joined(env_root, MOUNTPOINT_DIR_NAME@),
        upperdir: joined(env_root, UPPER_DIR_NAME@),
        workdir: joined(env_root, WORK_DIR_NAME@),
        lower_root: joined(env_root, LOWER_DIR_NAME@),
        tmpdir: joined(env_root, TMP_DIR_NAME@),
    }
}

impl View for Environment {
    type V = Layout;

    open spec fn view(&self) -> Layout {
        Layout {
            env_root: self.env_root@,
            commits_file: self.commits_file@,
            mount_point: self.mount_point@,
            upperdir: self.upperdir@,
            workdir: self.workdir@,
            lower_root: self.lower_root@,
            tmpdir: self.tmpdir@,
        }
    }
}

impl Environment {
    /// The paths of the environment `name` below `root`.
    pub fn new(root: &str, name: &str) -> (env: Self)
        ensures
            env@ == layout(root@, name@),
    {
        let env_root = join_path(root, name);
        Environment {
            commits_file: join_path(env_root.as_str(), COMMITS_FILE_NAME),
            mount_point: join_path(env_root.as_str(), MOUNTPOINT_DIR_NAME),
            upperdir: join_path(env_root.as_str(), UPPER_DIR_NAME),
            workdir: join_path(env_root.as_str(), WORK_DIR_NAME),
            lower_root: join_path(env_root.as_str(), LOWER_DIR_NAME),
            tmpdir: join_path(env_root.as_str(), TMP_DIR_NAME),
            env_root,
        }
    }
}

/// What the caller saw of the system before asking.
pub struct Observed {
    /// Whether the effective user and group are both root.
    pub is_root: bool,
    /// Whether the directory of changes is empty.
    pub upper_is_empty: bool,
    /// The local time, as text.
    pub date: String,
    /// The user's shell.
    pub shell: String,
}

/// One step for the caller to carry out.
#[derive(Debug)]
pub enum Effect {
    /// Create the directory and every missing ancestor.
    CreateDirAll(String),
    /// Delete the directory and all below it.
    RemoveDirAll(String),
    /// Move the first path to the second.
    Rename(String, String),
    /// Write the document to the file at the path.
    Persist(String, CommitsData),
    /// Write the text to the standard output.
    Print(String),
    /// Launch the command in a container over the host.
    Launch(Launch),
    /// List what changed in the directory.
    Diff(String),
}

/// What a launch needs.
#[derive(Debug)]
pub struct Launch {
    pub mount_point: String,
    pub upperdir: String,
    /// The snapshots to lay below the changes, newest first.
    pub lowerdirs: Vec<String>,
    pub workdir: String,
    pub tmpdir: String,
    /// The command and its arguments.
    pub argv: Vec<String>,
    pub netns: bool,
}

/// The value of a launch.
pub struct LaunchView {
    pub mount_point: Seq<char>,
    pub upperdir: Seq<char>,
    pub lowerdirs: Seq<Seq<char>>,
    pub workdir: Seq<char>,
    pub tmpdir: Seq<char>,
    pub argv: Seq<Seq<char>>,
    pub netns: bool,
}

/// The value of a step.
pub enum EffectView {
    CreateDirAll(Seq<char>),
    RemoveDirAll(Seq<char>),
    Rename(Seq<char>, Seq<char>),
    Persist(Seq<char>, Store),
    Print(Seq<char>),
    Launch(LaunchView),
    Diff(Seq<char>),
}

impl View for Launch {
    type V = LaunchView;

    open spec fn view(&self) -> LaunchView {
        LaunchView {
            mount_point: self.mount_point@,
            upperdir: self.upperdir@,
            lowerdirs: strings(self.lowerdirs@),
            workdir: self.workdir@,
            tmpdir: self.tmpdir@,
            argv: strings(self.argv@),
            netns: self.netns,
        }
    }
}

impl View for Effect {
    type V = EffectView;

    open spec fn view(&self) -> EffectView {
        match self {
            Effect::CreateDirAll(p) => EffectView::CreateDirAll(p@),
            Effect::RemoveDirAll(p) => EffectView::RemoveDirAll(p@),
            Effect::Rename(a, b) => EffectView::Rename(a@, b@),
            Effect::Persist(p, d) => EffectView::Persist(p@, d@),
            Effect::Print(t) => EffectView::Print(t@),
            Effect::Launch(l) => EffectView::Launch(l@),
            Effect::Diff(p) => EffectView::Diff(p@),
        }
    }
}

/// The values of the steps of `v`.
pub open spec fn effect_views(v: Seq<Effect>) -> Seq<EffectView> {
    Seq::new(v.len(), |i: int| v[i]@)
}

/// Why a verb is refused.
#[derive(Clone, Copy, Debug, PartialEq, Eq, Structural)]
pub enum RunError {
    /// There is no store: the environment has to be set up first.
    NotInitialized,
    /// The verb needs root privileges.
    NeedsRoot,
    /// The current branch has no commit.
    NoCommits,
    /// There are changes that have not been committed.
    UncommittedChanges,
    /// No branch was named.
    MissingBranchName,
    /// The verb is not implemented.
    Unimplemented,
    /// The store refused.
    Vcs(Error),
}

/// The snapshot directories of `commits` below `rootdir`, in order.
pub open spec fn lowerdirs_of(commits: Seq<CommitView>, rootdir: Seq<char>) -> Seq<Seq<char>> {
    Seq::new(commits.len(), |i: int| joined(rootdir, commits[i].id))
}

/// The command line to run: the command with its arguments, or the
/// default command alone where none is given.
pub open spec fn run_argv(
    command: Option<Seq<char>>,
    args: Option<Seq<Seq<char>>>,
    default_cmd: Seq<char>,
) -> Seq<Seq<char>> {
    match command {
        Some(cmd) => seq![cmd] + (match args {
            Some(rest) => rest,
            None => seq![],
        }),
        None => seq![default_cmd],
    }
}

/// The arguments of an optional vector.
pub open spec fn opt_arguments(args: Option<Vec<String>>) -> Option<Seq<Seq<char>>> {
    match args {
        Some(v) => Some(strings(v@)),
        None => None,
    }
}

/// What is shown of one commit.
pub open spec fn log_entry(c: CommitView) -> Seq<char> {
    "commit: "@ + c.id + "\n  date: "@ + c.date + "\n"@ + (match c.message {
        Some(m) => "  message: "@ + m + "\n"@,
        None => seq![],
    }) + "\n"@
}

/// What is shown of `commits`, in order.
pub open spec fn log_text(commits: Seq<CommitView>) -> Seq<char>
    decreases commits.len(),
{
    if commits.len() == 0 {
        seq![]
    } else {
        log_text(commits.drop_last()) + log_entry(commits.last())
    }
}

/// The lines `lines`, each ended.
pub open spec fn lines_text(lines: Seq<Seq<char>>) -> Seq<char>
    decreases lines.len(),
{
    if lines.len() == 0 {
        seq![]
    } else {
        lines_text(lines.drop_last()) + lines.last() + "\n"@
    }
}

/// The line that the listing of changes shows for an entry of the
/// directory of changes, given its path within that directory: none for a
/// directory, a deletion for a whiteout, which is a character device with
/// device number 0, and an addition for anything else.
pub open spec fn diff_line(
    relative_path: Seq<char>,
    is_dir: bool,
    is_char_device: bool,
    rdev: u64,
) -> Option<Seq<char>> {
    if is_dir {
        None
    } else if is_char_device && rdev == 0 {
        Some("- "@ + joined("/"@, relative_path))
    } else {
        Some("+ "@ + joined("/"@, relative_path))
    }
}

/// The steps that set up an environment.
pub open spec fn init_plan(l: Layout) -> Seq<EffectView> {
    seq![
        EffectView::CreateDirAll(l.mount_point),
        EffectView::CreateDirAll(l.upperdir),
        EffectView::CreateDirAll(l.workdir),
        EffectView::CreateDirAll(l.lower_root),
        EffectView::CreateDirAll(l.tmpdir),
        EffectView::Persist(l.commits_file, crate::vcs::model::initial_store()),
    ]
}

/// The steps that throw the changes away.
pub open spec fn clean_plan(l: Layout) -> Seq<EffectView> {
    seq![EffectView::RemoveDirAll(l.upperdir), EffectView::CreateDirAll(l.upperdir)]
}

/// The steps that follow a commit that left the store as `t`: the store
/// is written, the changes become the snapshot of the new commit, a fresh
/// directory takes the next changes, and the commit's id is shown.
pub open spec fn commit_plan(l: Layout, t: Store) -> Seq<EffectView> {
    seq![
        EffectView::Persist(l.commits_file, t),
        EffectView::Rename(l.upperdir, joined(l.lower_root, t.commits.last().id)),
        EffectView::CreateDirAll(l.upperdir),
        EffectView::Print(t.commits.last().id + "\n"@),
    ]
}

/// What a verb other than `init` comes to on the store `s`.
pub open spec fn action_plan(action: Action, l: Layout, s: Store, seen: Observed) -> Result<
    Seq<EffectView>,
    RunError,
> {
    match action {
        Action::Init(_) => Ok(seq![]),
        Action::Run(run) => if !seen.is_root {
            Err(RunError::NeedsRoot)
        } else {
            match history(s) {
                Ok(h) => Ok(
                    seq![
                        EffectView::Launch(
                            launch_of(l, lowerdirs_of(h, l.lower_root), run, seen.shell@),
                        ),
                    ],
                ),
                Err(Error::CommitNotFound) => Ok(
                    seq![EffectView::Launch(launch_of(l, seq![], run, seen.shell@))],
                ),
                Err(e) => Err(RunError::Vcs(e)),
            }
        },
        Action::Log(_) => match history(s) {
            Ok(h) => Ok(seq![EffectView::Print(log_text(h))]),
            Err(Error::CommitNotFound) => Err(RunError::NoCommits),
            Err(e) => Err(RunError::Vcs(e)),
        },
        Action::Commit(c) => match commit_outcome(s, text_of(c.message), seen.date@) {
            Ok(t) => Ok(commit_plan(l, t)),
            Err(e) => Err(RunError::Vcs(e)),
        },
        Action::Branch(b) => if b.all {
            Ok(seq![EffectView::Print(lines_text(branch_names(s.branches)))])
        } else if b.delete {
            match b.branch_name {
                Some(name) => match delete_branch_result(s, name@) {
                    Ok(t) => Ok(seq![EffectView::Persist(l.commits_file, t)]),
                    Err(e) => Err(RunError::Vcs(e)),
                },
                None => Err(RunError::MissingBranchName),
            }
        } else {
            match b.branch_name {
                Some(name) => match create_branch_result(s, name@) {
                    Ok(t) => Ok(seq![EffectView::Persist(l.commits_file, t)]),
                    Err(e) => Err(RunError::Vcs(e)),
                },
                None => if s.head.detached {
                    Err(RunError::Vcs(Error::DetachedHEAD))
                } else {
                    Ok(seq![EffectView::Print(s.head.branch_name + "\n"@)])
                },
            }
        },
        Action::Checkout(t) => if !seen.upper_is_empty {
            Err(RunError::UncommittedChanges)
        } else {
            match checkout_result(s, t.query@) {
                Ok(t) => Ok(seq![EffectView::Persist(l.commits_file, t)]),
                Err(e) => Err(RunError::Vcs(e)),
            }
        },
        Action::Merge(_) => Err(RunError::Unimplemented),
        Action::Reset(_) => Err(RunError::Unimplemented),
        Action::Diff => Ok(seq![EffectView::Diff(l.upperdir)]),
        Action::Clean => Ok(clean_plan(l)),
    }
}

/// The launch of `run` in the environment `l` over the snapshots
/// `lowerdirs`.
pub open spec fn launch_of(
    l: Layout,
    lowerdirs: Seq<Seq<char>>,
    run: RunArgs,
    shell: Seq<char>,
) -> LaunchView {
    LaunchView {
        mount_point: l.mount_point,
        upperdir: l.upperdir,
        lowerdirs,
        workdir: l.workdir,
        tmpdir: l.tmpdir,
        argv: run_argv(text_of(run.command), opt_arguments(run.args), shell),
        netns: run.netns,
    }
}

/// What the command line comes to. `init` sets up the environment whatever
/// was there; every other verb needs a store, and is refused without one.
pub open spec fn run_plan(args: Args, loaded: LoadedView, seen: Observed) -> Result<
    Seq<EffectView>,
    RunError,
> {
    let l = layout(args.root@, args.name@);
    match args.action {
        Action::Init(_) => Ok(init_plan(l)),
        _ => match open_result(loaded) {
            Ok(s) => action_plan(args.action, l, s, seen),
            Err(Error::NotInitialized) => Err(RunError::NotInitialized),
            Err(e) => Err(RunError::Vcs(e)),
        },
    }
}

/// Whether every document that the steps `v` write is a well-formed store.
pub open spec fn writes_valid_stores(v: Seq<Effect>) -> bool {
    forall|i: int|
        0 <= i < v.len() ==> ((#[trigger] v[i]) matches Effect::Persist(_, d)
            ==> crate::vcs::model::store_wf(d@))
}

/// Cleaning comes to the same steps whatever the store holds and whatever
/// was seen, so that cleaning twice does what cleaning once does.
pub proof fn lemma_clean_is_repeatable(
    args: Args,
    first: Store,
    second: Store,
    seen_first: Observed,
    seen_second: Observed,
)
    requires
        args.action is Clean,
        crate::vcs::model::store_wf(first),
        crate::vcs::model::store_wf(second),
    ensures
        run_plan(args, LoadedView::Document(first), seen_first) == Ok::<
            Seq<EffectView>,
            RunError,
        >(clean_plan(layout(args.root@, args.name@))),
        run_plan(args, LoadedView::Document(second), seen_second) == run_plan(
            args,
            LoadedView::Document(first),
            seen_first,
        ),
{
}

/// A commit on a detached HEAD is refused before any step is planned:
/// nothing is written, moved or created.
pub proof fn lemma_detached_commit_plans_nothing(args: Args, s: Store, seen: Observed)
    requires
        args.action is Commit,
        crate::vcs::model::store_wf(s),
        s.head.detached,
    ensures
        run_plan(args, LoadedView::Document(s), seen) == Err::<Seq<EffectView>, RunError>(
            RunError::Vcs(Error::DetachedHEAD),
        ),
{
}

/// A checkout while there are uncommitted changes is refused before any
/// step is planned.
pub proof fn lemma_dirty_checkout_plans_nothing(args: Args, s: Store, seen: Observed)
    requires
        args.action is Checkout,
        crate::vcs::model::store_wf(s),
        !seen.upper_is_empty,
    ensures
        run_plan(args, LoadedView::Document(s), seen) == Err::<Seq<EffectView>, RunError>(
            RunError::UncommittedChanges,
        ),
{
}

/// Whether the effective group and user are both root.
pub fn is_root(egid: u32, euid: u32) -> (r: bool)
    ensures
        r == (egid == 0 && euid == 0),
{
    egid == 0 && euid == 0
}

/// The snapshot directories of `commits` below `rootdir`, in order.
pub fn create_lowerdirs_from_commits(commits: &Vec<Commit>, rootdir: &str) -> (dirs: Vec<String>)
    ensures
        strings(dirs@) == lowerdirs_of(commit_views(commits@), rootdir@),
{
    let mut dirs: Vec<String> = Vec::new();
    let ghost all = lowerdirs_of(commit_views(commits@), rootdir@);
    let mut i: usize = 0;
    while i < commits.len()
        invariant
            i <= commits.len(),
            all == lowerdirs_of(commit_views(commits@), rootdir@),
            strings(dirs@) == all.take(i as int),
        decreases commits.len() - i,
    {
        let ghost before = dirs@;
        dirs.push(join_path(rootdir, commits[i].id.as_str()));
        assert(commit_views(commits@)[i as int] == commits@[i as int]@);
        assert(strings(dirs@) =~= strings(before).push(all[i as int]));
        assert(all.take(i + 1) =~= all.take(i as int).push(all[i as int]));
        i += 1;
    }
    assert(all.take(commits.len() as int) =~= all);
    dirs
}

/// The command line to run: the command with its arguments, or
/// `default_cmd` alone where no command is given.
pub fn run_args_to_vec(args: RunArgs, default_cmd: &str) -> (v: Vec<String>)
    ensures
        strings(v@) == run_argv(text_of(args.command), opt_arguments(args.args), default_cmd@),
{
    let mut v: Vec<String> = Vec::new();
    match args.command {
        Some(cmd) => {
            v.push(cmd);
            let ghost first = strings(v@);
            match args.args {
                Some(rest) => {
                    let mut cmd_args = rest;
                    v.append(&mut cmd_args);
                    assert(strings(v@) =~= first + strings(rest@));
                },
                None => {
                    assert(strings(v@) =~= first + seq![]);
                },
            }
            assert(first =~= seq![cmd@]);
        },
        None => {
            v.push(copy_text(default_cmd));
            assert(strings(v@) =~= seq![default_cmd@]);
        },
    }
    v
}

/// What is shown of `commits`, in order: the id and the date of each, and
/// its message if it has one.
pub fn print_commits_info(commits: &Vec<Commit>) -> (text: String)
    ensures
        text@ == log_text(commit_views(commits@)),
{
    let mut text = String::new();
    let ghost all = commit_views(commits@);
    let mut i: usize = 0;
    while i < commits.len()
        invariant
            i <= commits.len(),
            all == commit_views(commits@),
            text@ == log_text(all.take(i as int)),
        decreases commits.len() - i,
    {
        let c = &commits[i];
        assert(all.take(i + 1).drop_last() =~= all.take(i as int));
        assert(all.take(i + 1).last() == c@);
        let ghost before = text@;
        push_text(&mut text, "commit: ");
        push_text(&mut text, c.id.as_str());
        push_text(&mut text, "\n  date: ");
        push_text(&mut text, c.date.as_str());
        push_text(&mut text, "\n");
        match &c.message {
            Some(m) => {
                push_text(&mut text, "  message: ");
                push_text(&mut text, m.as_str());
                push_text(&mut text, "\n");
            },
            None => {},
        }
        push_text(&mut text, "\n");
        assert(text@ =~= before + log_entry(c@));
        i += 1;
    }
    assert(all.take(commits.len() as int) =~= all);
    text
}

/// The names `branches`, one to the line.
pub fn print_all_branches(branches: &Vec<String>) -> (text: String)
    ensures
        text@ == lines_text(strings(branches@)),
{
    let mut text = String::new();
    let ghost all = strings(branches@);
    let mut i: usize = 0;
    while i < branches.len()
        invariant
            i <= branches.len(),
            all == strings(branches@),
            text@ == lines_text(all.take(i as int)),
        decreases branches.len() - i,
    {
        assert(all.take(i + 1).drop_last() =~= all.take(i as int));
        assert(all.take(i + 1).last() == branches@[i as int]@);
        push_text(&mut text, branches[i].as_str());
        push_text(&mut text, "\n");
        i += 1;
    }
    assert(all.take(branches.len() as int) =~= all);
    text
}

/// The line that the listing of changes shows for one entry of the
/// directory of changes.
pub fn print_dir_content_recursively(
    relative_path: &str,
    is_dir: bool,
    is_char_device: bool,
    rdev: u64,
) -> (line: Option<String>)
    ensures
        text_of(line) == diff_line(relative_path@, is_dir, is_char_device, rdev),
{
    if is_dir {
        return None;
    }
    let path = join_path("/", relative_path);
    let mut line = if is_char_device && rdev == 0 {
        copy_text("- ")
    } else {
        copy_text("+ ")
    };
    push_text(&mut line, path.as_str());
    Some(line)
}

/// What the user is told of a refusal.
pub open spec fn run_error_text(e: RunError) -> Seq<char> {
    match e {
        RunError::NotInitialized => "You have to initialize with 'init'"@,
        RunError::NeedsRoot => "'Run' needs root privilege: execute with 'sudo' or setuid to binary"@,
        RunError::NoCommits => "Current branch does not have any commits"@,
        RunError::UncommittedChanges => "You have to commit first"@,
        RunError::MissingBranchName => "A branch name is required"@,
        RunError::Unimplemented => "Not implemented"@,
        RunError::Vcs(e) => crate::vcs::error_text(e),
    }
}

impl RunError {
    /// What the user is told.
    pub fn message(&self) -> (text: String)
        ensures
            text@ == run_error_text(*self),
    {
        match self {
            RunError::NotInitialized => copy_text("You have to initialize with 'init'"),
            RunError::NeedsRoot => copy_text(
                "'Run' needs root privilege: execute with 'sudo' or setuid to binary",
            ),
            RunError::NoCommits => copy_text("Current branch does not have any commits"),
            RunError::UncommittedChanges => copy_text("You have to commit first"),
            RunError::MissingBranchName => copy_text("A branch name is required"),
            RunError::Unimplemented => copy_text("Not implemented"),
            RunError::Vcs(e) => e.message(),
        }
    }
}

fn single(effect: Effect) -> (v: Vec<Effect>)
    ensures
        effect_views(v@) == seq![effect@],
        v@ == seq![effect],
{
    let mut v: Vec<Effect> = Vec::new();
    v.push(effect);
    assert(effect_views(v@) =~= seq![effect@]);
    v
}

fn launch(env: &Environment, lowerdirs: Vec<String>, run: RunArgs, shell: &str) -> (l: Launch)
    ensures
        l@ == launch_of(env@, strings(lowerdirs@), run, shell@),
{
    let netns = run.netns;
    Launch {
        mount_point: copy_text(env.mount_point.as_str()),
        upperdir: copy_text(env.upperdir.as_str()),
        lowerdirs,
        workdir: copy_text(env.workdir.as_str()),
        tmpdir: copy_text(env.tmpdir.as_str()),
        argv: run_args_to_vec(run, shell),
        netns,
    }
}

fn act(action: Action, env: &Environment, vcs: VCS, seen: &Observed) -> (r: Result<
    Vec<Effect>,
    RunError,
>)
    ensures
        match action_plan(action, env@, vcs@, *seen) {
            Ok(plan) => r matches Ok(v) && effect_views(v@) == plan,
            Err(e) => r matches Err(x) && x == e,
        },
        r matches Ok(v) ==> writes_valid_stores(v@),
{
    let mut vcs = vcs;
    match action {
        Action::Init(_) => {
            let v: Vec<Effect> = Vec::new();
            assert(effect_views(v@) =~= seq![]);
            Ok(v)
        },
        Action::Run(run) => {
            if !seen.is_root {
                return Err(RunError::NeedsRoot);
            }
            let lowerdirs = match vcs.get_current_commits() {
                Ok(walk) => {
                    let commits = walk.collect();
                    create_lowerdirs_from_commits(&commits, env.lower_root.as_str())
                },
                Err(Error::CommitNotFound) => {
                    let none: Vec<String> = Vec::new();
                    assert(strings(none@) =~= seq![]);
                    none
                },
                Err(e) => {
                    return Err(RunError::Vcs(e));
                },
            };
            Ok(single(Effect::Launch(launch(env, lowerdirs, run, seen.shell.as_str()))))
        },
        Action::Log(_) => {
            match vcs.get_current_commits() {
                Ok(walk) => {
                    let commits = walk.collect();
                    Ok(single(Effect::Print(print_commits_info(&commits))))
                },
                Err(Error::CommitNotFound) => Err(RunError::NoCommits),
                Err(e) => Err(RunError::Vcs(e)),
            }
        },
        Action::Commit(c) => {
            let commit = match vcs.commit(c.message, seen.date.as_str()) {
                Ok(commit) => commit,
                Err(e) => {
                    return Err(RunError::Vcs(e));
                },
            };
            let mut plan: Vec<Effect> = Vec::new();
            plan.push(Effect::Persist(copy_text(env.commits_file.as_str()), vcs.document()));
            plan.push(
                Effect::Rename(
                    copy_text(env.upperdir.as_str()),
                    join_path(env.lower_root.as_str(), commit.id.as_str()),
                ),
            );
            plan.push(Effect::CreateDirAll(copy_text(env.upperdir.as_str())));
            let mut line = copy_text(commit.id.as_str());
            push_text(&mut line, "\n");
            plan.push(Effect::Print(line));
            assert(effect_views(plan@) =~= commit_plan(env@, vcs@));
            Ok(plan)
        },
        Action::Branch(b) => {
            if b.all {
                let names = vcs.get_all_branches();
                Ok(single(Effect::Print(print_all_branches(&names))))
            } else if b.delete {
                match b.branch_name {
                    Some(name) => match vcs.delete_branch(name.as_str()) {
                        Ok(()) => Ok(
                            single(
                                Effect::Persist(
                                    copy_text(env.commits_file.as_str()),
                                    vcs.document(),
                                ),
                            ),
                        ),
                        Err(e) => Err(RunError::Vcs(e)),
                    },
                    None => Err(RunError::MissingBranchName),
                }
            } else {
                match b.branch_name {
                    Some(name) => match vcs.create_branch(name.as_str()) {
                        Ok(()) => Ok(
                            single(
                                Effect::Persist(
                                    copy_text(env.commits_file.as_str()),
                                    vcs.document(),
                                ),
                            ),
                        ),
                        Err(e) => Err(RunError::Vcs(e)),
                    },
                    None => {
                        if vcs.is_detached() {
                            Err(RunError::Vcs(Error::DetachedHEAD))
                        } else {
                            let mut line = vcs.get_current_branch();
                            push_text(&mut line, "\n");
                            Ok(single(Effect::Print(line)))
                        }
                    },
                }
            }
        },
        Action::Checkout(t) => {
            if !seen.upper_is_empty {
                return Err(RunError::UncommittedChanges);
            }
            match vcs.checkout(t.query.as_str()) {
                Ok(()) => Ok(
                    single(Effect::Persist(copy_text(env.commits_file.as_str()), vcs.document())),
                ),
                Err(e) => Err(RunError::Vcs(e)),
            }
        },
        Action::Merge(_) => Err(RunError::Unimplemented),
        Action::Reset(_) => Err(RunError::Unimplemented),
        Action::Diff => Ok(single(Effect::Diff(copy_text(env.upperdir.as_str())))),
        Action::Clean => {
            let mut plan: Vec<Effect> = Vec::new();
            plan.push(Effect::RemoveDirAll(copy_text(env.upperdir.as_str())));
            plan.push(Effect::CreateDirAll(copy_text(env.upperdir.as_str())));
            assert(effect_views(plan@) =~= clean_plan(env@));
            Ok(plan)
        },
    }
}

/// Works out what the command line comes to, given what was read of the
/// store's file and what was seen of the system: the steps for the caller
/// to carry out, in order, or the reason why there are none.
pub fn run(args: Args, loaded: Loaded, seen: &Observed) -> (r: Result<Vec<Effect>, RunError>)
    ensures
        match run_plan(args, loaded@, *seen) {
            Ok(plan) => r matches Ok(v) && effect_views(v@) == plan,
            Err(e) => r matches Err(x) && x == e,
        },
        r matches Ok(v) ==> writes_valid_stores(v@),
{
    let env = Environment::new(args.root.as_str(), args.name.as_str());
    match args.action {
        Action::Init(_) => {
            let fresh = VCS::init(env.commits_file.as_str());
            let mut plan: Vec<Effect> = Vec::new();
            plan.push(Effect::CreateDirAll(copy_text(env.mount_point.as_str())));
            plan.push(Effect::CreateDirAll(copy_text(env.upperdir.as_str())));
            plan.push(Effect::CreateDirAll(copy_text(env.workdir.as_str())));
            plan.push(Effect::CreateDirAll(copy_text(env.lower_root.as_str())));
            plan.push(Effect::CreateDirAll(copy_text(env.tmpdir.as_str())));
            plan.push(Effect::Persist(copy_text(env.commits_file.as_str()), fresh.document()));
            assert(effect_views(plan@) =~= init_plan(env@));
            Ok(plan)
        },
        action => {
            match VCS::new(env.commits_file.as_str(), loaded) {
                Ok(vcs) => act(action, &env, vcs, seen),
                Err(Error::NotInitialized) => Err(RunError::NotInitialized),
                Err(e) => Err(RunError::Vcs(e)),
            }
        },
    }
}

} // verus!
