use orca::args::{
    default_rootdir, Action, Args, BranchArgs, CommitArgs, InitArgs, LogArgs, RunArgs, TargetArgs,
};
use orca::command::Command;
use orca::digest::sha1_hex_of;
use orca::orchestrator::{
    create_lowerdirs_from_commits, is_root, print_all_branches, print_commits_info,
    print_dir_content_recursively, run, run_args_to_vec, Effect, Environment, Observed, RunError,
};
use orca::syscall;
use orca::vcs::{Commit, CommitsData, Error, Loaded};

fn args(action: Action) -> Args {
    Args { list: false, name: "dev".to_string(), root: "/r".to_string(), action }
}

fn seen(n: u32) -> Observed {
    Observed {
        is_root: true,
        upper_is_empty: true,
        date: date(n),
        shell: "/bin/zsh".to_string(),
    }
}

fn date(n: u32) -> String {
    format!("2024-05-01 10:00:{:02}.000000000 +09:00", n)
}

fn id_of(n: u32) -> String {
    sha1_hex_of(&date(n)).unwrap()
}

/// What the caller keeps between two invocations: the document on disk.
struct Disk {
    document: Option<CommitsData>,
    printed: Vec<String>,
}

impl Disk {
    fn new() -> Self {
        Disk { document: None, printed: vec![] }
    }

    fn loaded(&self) -> Loaded {
        match &self.document {
            Some(d) => Loaded::Document(d.duplicate()),
            None => Loaded::Missing,
        }
    }

    fn invoke(&mut self, action: Action, seen: &Observed) -> Result<Vec<Effect>, RunError> {
        let effects = run(args(action), self.loaded(), seen)?;
        for e in &effects {
            match e {
                Effect::Persist(path, d) => {
                    assert_eq!(path, "/r/dev/commits.toml");
                    self.document = Some(d.duplicate());
                }
                Effect::Print(t) => self.printed.push(t.clone()),
                _ => {}
            }
        }
        Ok(effects)
    }
}

fn commit_action(message: &str) -> Action {
    Action::Commit(CommitArgs { message: Some(message.to_string()) })
}

fn branch(name: Option<&str>, delete: bool, all: bool) -> Action {
    Action::Branch(BranchArgs { branch_name: name.map(|s| s.to_string()), delete, all })
}

fn checkout(query: &str) -> Action {
    Action::Checkout(TargetArgs { query: query.to_string() })
}

fn log() -> Action {
    Action::Log(LogArgs { all: false })
}

fn kinds(effects: &[Effect]) -> Vec<String> {
    effects
        .iter()
        .map(|e| match e {
            Effect::CreateDirAll(p) => format!("mkdir {}", p),
            Effect::RemoveDirAll(p) => format!("rm {}", p),
            Effect::Rename(a, b) => format!("mv {} {}", a, b),
            Effect::Persist(p, _) => format!("write {}", p),
            Effect::Print(t) => format!("print {}", t),
            Effect::Launch(_) => "launch".to_string(),
            Effect::Diff(p) => format!("diff {}", p),
        })
        .collect()
}

#[test]
fn environment_layout() {
    let env = Environment::new("/home/u/.orca", "_default");
    assert_eq!(env.env_root, "/home/u/.orca/_default");
    assert_eq!(env.commits_file, "/home/u/.orca/_default/commits.toml");
    assert_eq!(env.mount_point, "/home/u/.orca/_default/rootfs");
    assert_eq!(env.upperdir, "/home/u/.orca/_default/upper");
    assert_eq!(env.workdir, "/home/u/.orca/_default/work");
    assert_eq!(env.lower_root, "/home/u/.orca/_default/layers");
    assert_eq!(env.tmpdir, "/home/u/.orca/_default/tmp");
}

#[test]
fn defaults_of_the_command_line() {
    let a = Args::new("/home/u", Action::Diff);
    assert!(!a.list);
    assert_eq!(a.name, "_default");
    assert_eq!(a.root, "/home/u/.orca");
    assert!(matches!(a.action, Action::Diff));
    assert_eq!(default_rootdir("/home/u", ".orca"), "/home/u/.orca");
    let i = InitArgs::new();
    assert_eq!((i.image, i.tag.as_str(), i.name.as_str()), (None, "latest", "_default"));
}

#[test]
fn init_creates_the_directories_and_writes_a_fresh_store() {
    let mut disk = Disk::new();
    let effects = disk.invoke(Action::Init(InitArgs::new()), &seen(0)).unwrap();
    assert_eq!(
        kinds(&effects),
        vec![
            "mkdir /r/dev/rootfs",
            "mkdir /r/dev/upper",
            "mkdir /r/dev/work",
            "mkdir /r/dev/layers",
            "mkdir /r/dev/tmp",
            "write /r/dev/commits.toml",
        ]
    );
    let d = disk.document.as_ref().unwrap();
    assert!(d.commits.is_empty());
    assert_eq!(d.head.commit_id, "none");
    assert_eq!(d.head.branch_name, "main");
    assert_eq!(d.branches.len(), 1);
}

#[test]
fn every_verb_but_init_needs_a_store() {
    let mut disk = Disk::new();
    for action in [log(), commit_action("x"), checkout("main"), Action::Diff, Action::Clean] {
        let e = disk.invoke(action, &seen(0)).err();
        assert_eq!(e, Some(RunError::NotInitialized));
    }
    assert_eq!(RunError::NotInitialized.message(), "You have to initialize with 'init'");
}

#[test]
fn unreadable_and_malformed_stores_are_reported() {
    let r = run(args(log()), Loaded::Unreadable, &seen(0));
    assert_eq!(r.err(), Some(RunError::Vcs(Error::FileOperationError)));
    let r = run(args(log()), Loaded::Malformed, &seen(0));
    assert_eq!(r.err(), Some(RunError::Vcs(Error::InvalidFormat)));
}

#[test]
fn init_then_log_reports_that_there_are_no_commits() {
    let mut disk = Disk::new();
    disk.invoke(Action::Init(InitArgs::new()), &seen(0)).unwrap();
    let e = disk.invoke(log(), &seen(0)).err().unwrap();
    assert_eq!(e, RunError::NoCommits);
    assert_eq!(e.message(), "Current branch does not have any commits");
}

#[test]
fn commit_then_log_shows_the_commit() {
    let mut disk = Disk::new();
    disk.invoke(Action::Init(InitArgs::new()), &seen(0)).unwrap();
    let effects = disk.invoke(commit_action("x"), &seen(1)).unwrap();
    assert_eq!(
        kinds(&effects),
        vec![
            "write /r/dev/commits.toml".to_string(),
            format!("mv /r/dev/upper /r/dev/layers/{}", id_of(1)),
            "mkdir /r/dev/upper".to_string(),
            format!("print {}\n", id_of(1)),
        ]
    );
    assert_eq!(id_of(1).len(), 40);
    disk.printed.clear();
    disk.invoke(log(), &seen(2)).unwrap();
    assert_eq!(
        disk.printed,
        vec![format!("commit: {}\n  date: {}\n  message: x\n\n", id_of(1), date(1))]
    );
}

#[test]
fn branches_are_isolated() {
    let mut disk = Disk::new();
    disk.invoke(Action::Init(InitArgs::new()), &seen(0)).unwrap();
    disk.invoke(commit_action("x"), &seen(1)).unwrap();
    disk.invoke(branch(Some("feature"), false, false), &seen(2)).unwrap();
    disk.invoke(checkout("feature"), &seen(2)).unwrap();
    disk.invoke(commit_action("y"), &seen(3)).unwrap();
    disk.invoke(checkout("main"), &seen(4)).unwrap();
    disk.printed.clear();
    disk.invoke(log(), &seen(4)).unwrap();
    assert_eq!(
        disk.printed,
        vec![format!("commit: {}\n  date: {}\n  message: x\n\n", id_of(1), date(1))]
    );
    disk.invoke(checkout("feature"), &seen(5)).unwrap();
    disk.printed.clear();
    disk.invoke(log(), &seen(5)).unwrap();
    assert_eq!(
        disk.printed,
        vec![format!(
            "commit: {}\n  date: {}\n  message: y\n\ncommit: {}\n  date: {}\n  message: x\n\n",
            id_of(3),
            date(3),
            id_of(1),
            date(1)
        )]
    );
}

#[test]
fn detached_checkout_then_commit_is_refused() {
    let mut disk = Disk::new();
    disk.invoke(Action::Init(InitArgs::new()), &seen(0)).unwrap();
    disk.invoke(commit_action("x"), &seen(1)).unwrap();
    disk.invoke(commit_action("y"), &seen(2)).unwrap();
    disk.invoke(checkout(&id_of(1)), &seen(3)).unwrap();
    assert!(disk.document.as_ref().unwrap().head.detached);
    assert_eq!(disk.document.as_ref().unwrap().head.commit_id, id_of(1));
    let e = disk.invoke(commit_action("z"), &seen(4)).err();
    assert_eq!(e, Some(RunError::Vcs(Error::DetachedHEAD)));
    assert_eq!(disk.document.as_ref().unwrap().commits.len(), 2);
    assert_eq!(
        RunError::Vcs(Error::DetachedHEAD).message(),
        "Cannot commit with detached HEAD"
    );
}

#[test]
fn dirty_checkout_is_refused() {
    let mut disk = Disk::new();
    disk.invoke(Action::Init(InitArgs::new()), &seen(0)).unwrap();
    disk.invoke(commit_action("x"), &seen(1)).unwrap();
    let dirty = Observed { upper_is_empty: false, ..seen(2) };
    let before = disk.document.as_ref().unwrap().duplicate();
    let e = disk.invoke(checkout("main"), &dirty).err().unwrap();
    assert_eq!(e, RunError::UncommittedChanges);
    assert_eq!(e.message(), "You have to commit first");
    assert_eq!(disk.document.as_ref().unwrap().head.commit_id, before.head.commit_id);
}

#[test]
fn clean_is_the_same_every_time() {
    let mut disk = Disk::new();
    disk.invoke(Action::Init(InitArgs::new()), &seen(0)).unwrap();
    let first = disk.invoke(Action::Clean, &seen(1)).unwrap();
    let second = disk.invoke(Action::Clean, &seen(2)).unwrap();
    assert_eq!(kinds(&first), vec!["rm /r/dev/upper", "mkdir /r/dev/upper"]);
    assert_eq!(kinds(&first), kinds(&second));
}

#[test]
fn diff_walks_the_directory_of_changes() {
    let mut disk = Disk::new();
    disk.invoke(Action::Init(InitArgs::new()), &seen(0)).unwrap();
    let effects = disk.invoke(Action::Diff, &seen(1)).unwrap();
    assert_eq!(kinds(&effects), vec!["diff /r/dev/upper"]);
}

#[test]
fn diff_lines() {
    assert_eq!(print_dir_content_recursively("etc", true, false, 0), None);
    assert_eq!(
        print_dir_content_recursively("etc/passwd", false, false, 0),
        Some("+ /etc/passwd".to_string())
    );
    assert_eq!(
        print_dir_content_recursively("tmp/gone", false, true, 0),
        Some("- /tmp/gone".to_string())
    );
    assert_eq!(
        print_dir_content_recursively("dev/tty", false, true, 1280),
        Some("+ /dev/tty".to_string())
    );
}

#[test]
fn run_needs_root() {
    let mut disk = Disk::new();
    disk.invoke(Action::Init(InitArgs::new()), &seen(0)).unwrap();
    let run_args = || Action::Run(RunArgs { netns: false, command: None, args: None });
    let user = Observed { is_root: false, ..seen(1) };
    assert_eq!(disk.invoke(run_args(), &user).err(), Some(RunError::NeedsRoot));
    assert!(is_root(0, 0));
    assert!(!is_root(0, 1000));
    assert!(!is_root(1000, 0));
}

#[test]
fn run_launches_over_the_snapshots_newest_first() {
    let mut disk = Disk::new();
    disk.invoke(Action::Init(InitArgs::new()), &seen(0)).unwrap();
    let run_args = || {
        Action::Run(RunArgs {
            netns: true,
            command: Some("/bin/true".to_string()),
            args: Some(vec!["-x".to_string()]),
        })
    };
    let effects = disk.invoke(run_args(), &seen(1)).unwrap();
    match &effects[..] {
        [Effect::Launch(l)] => {
            assert!(l.lowerdirs.is_empty());
            assert_eq!(l.argv, vec!["/bin/true", "-x"]);
            assert!(l.netns);
            assert_eq!(l.mount_point, "/r/dev/rootfs");
            assert_eq!(l.upperdir, "/r/dev/upper");
            assert_eq!(l.workdir, "/r/dev/work");
            assert_eq!(l.tmpdir, "/r/dev/tmp");
        }
        other => panic!("unexpected plan: {:?}", other),
    }
    disk.invoke(commit_action("x"), &seen(1)).unwrap();
    disk.invoke(commit_action("y"), &seen(2)).unwrap();
    let effects = disk.invoke(run_args(), &seen(3)).unwrap();
    match &effects[..] {
        [Effect::Launch(l)] => {
            assert_eq!(
                l.lowerdirs,
                vec![
                    format!("/r/dev/layers/{}", id_of(2)),
                    format!("/r/dev/layers/{}", id_of(1))
                ]
            );
        }
        other => panic!("unexpected plan: {:?}", other),
    }
}

#[test]
fn run_arguments() {
    let v = run_args_to_vec(
        RunArgs { netns: false, command: Some("ls".to_string()), args: None },
        "/bin/sh",
    );
    assert_eq!(v, vec!["ls"]);
    let v = run_args_to_vec(
        RunArgs {
            netns: false,
            command: Some("ls".to_string()),
            args: Some(vec!["-l".to_string(), "/".to_string()]),
        },
        "/bin/sh",
    );
    assert_eq!(v, vec!["ls", "-l", "/"]);
    let v = run_args_to_vec(
        RunArgs { netns: false, command: None, args: Some(vec!["-l".to_string()]) },
        "/bin/sh",
    );
    assert_eq!(v, vec!["/bin/sh"]);
}

#[test]
fn lowerdirs_and_listings() {
    let c = |id: &str, m: Option<&str>| Commit {
        id: id.to_string(),
        parent_id: None,
        date: "D".to_string(),
        message: m.map(|s| s.to_string()),
    };
    let commits = vec![c("bb", Some("second")), c("aa", None)];
    assert_eq!(
        create_lowerdirs_from_commits(&commits, "/layers"),
        vec!["/layers/bb", "/layers/aa"]
    );
    assert_eq!(
        print_commits_info(&commits),
        "commit: bb\n  date: D\n  message: second\n\ncommit: aa\n  date: D\n\n"
    );
    assert_eq!(print_commits_info(&vec![]), "");
    assert_eq!(
        print_all_branches(&vec!["main".to_string(), "f".to_string()]),
        "main\nf\n"
    );
}

#[test]
fn branch_verb() {
    let mut disk = Disk::new();
    disk.invoke(Action::Init(InitArgs::new()), &seen(0)).unwrap();
    disk.invoke(commit_action("x"), &seen(1)).unwrap();
    disk.invoke(branch(Some("f"), false, false), &seen(2)).unwrap();
    assert_eq!(
        disk.invoke(branch(Some("f"), false, false), &seen(2)).err(),
        Some(RunError::Vcs(Error::BranchAlreadyExists))
    );
    disk.printed.clear();
    disk.invoke(branch(None, false, true), &seen(2)).unwrap();
    disk.invoke(branch(None, false, false), &seen(2)).unwrap();
    assert_eq!(disk.printed, vec!["main\nf\n", "main\n"]);
    disk.invoke(branch(Some("f"), true, false), &seen(2)).unwrap();
    assert_eq!(disk.document.as_ref().unwrap().branches.len(), 1);
    assert_eq!(
        disk.invoke(branch(None, true, false), &seen(2)).err(),
        Some(RunError::MissingBranchName)
    );
    assert_eq!(
        disk.invoke(branch(Some("main"), true, false), &seen(2)).err(),
        Some(RunError::Vcs(Error::CurrentBranch))
    );
    disk.invoke(checkout(&id_of(1)), &seen(3)).unwrap();
    assert_eq!(
        disk.invoke(branch(None, false, false), &seen(3)).err(),
        Some(RunError::Vcs(Error::DetachedHEAD))
    );
}

#[test]
fn merge_and_reset_are_not_implemented() {
    let mut disk = Disk::new();
    disk.invoke(Action::Init(InitArgs::new()), &seen(0)).unwrap();
    let t = || TargetArgs { query: "main".to_string() };
    assert_eq!(
        disk.invoke(Action::Merge(t()), &seen(1)).err(),
        Some(RunError::Unimplemented)
    );
    assert_eq!(
        disk.invoke(Action::Reset(t()), &seen(1)).err(),
        Some(RunError::Unimplemented)
    );
}

#[test]
fn ambiguous_checkout_is_reported() {
    let mut disk = Disk::new();
    disk.invoke(Action::Init(InitArgs::new()), &seen(0)).unwrap();
    disk.invoke(commit_action("x"), &seen(1)).unwrap();
    disk.invoke(commit_action("y"), &seen(2)).unwrap();
    assert_eq!(
        disk.invoke(checkout(""), &seen(3)).err(),
        Some(RunError::Vcs(Error::AmbiguousQuery))
    );
}

#[test]
fn command_search_and_arguments() {
    let c = Command::new("newuidmap", Some(vec!["1".to_string(), "0".to_string()]));
    assert_eq!(c.name(), "newuidmap");
    assert_eq!(
        c.is_exist("/usr/bin:/bin:"),
        vec!["/usr/bin/newuidmap", "/bin/newuidmap", "newuidmap"]
    );
    assert_eq!(c.execute(), vec!["1", "0"]);
    let c = Command::new("true", None);
    assert_eq!(c.is_exist("/bin"), vec!["/bin/true"]);
    assert!(c.execute().is_empty());
}

#[test]
fn flag_words_from_choices() {
    assert_eq!(syscall::clone(false, false, false, false, false, false), 0);
    assert_eq!(
        syscall::clone(true, true, true, true, true, true),
        0x7c02_0000
    );
    assert_eq!(syscall::clone(false, true, false, false, false, false), 0x0002_0000);
    assert_eq!(syscall::mount(true), 4096);
    assert_eq!(syscall::mount(false), 0);
    assert_eq!(syscall::umount(true), 2);
    assert_eq!(syscall::umount(false), 0);
}
