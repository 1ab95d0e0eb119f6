//! The child's side of the launch: the mounts it makes inside the new root,
//! the paths it touches, and the order of its steps.

use crate::container::{SIGNAL_MOUNTED_DEVPTS, SIGNAL_OPEN_PTMX};
use crate::mount::{
    mount_views, FileType, Mount, MountFlags, MountView, MS_BIND, MS_NODEV, MS_NOEXEC, MS_NOSUID,
};
use crate::text::{
    chars_of, contains_char, copy_text, join_path, joined, string_of_range, strings,
};
use vstd::prelude::*;

verus! {

/// The directory, below the new root, that holds the old root after the
/// pivot.
pub const OLDROOT_NAME: &'static str = "oldroot";

/// How many times the child looks for its identity mapping before it gives
/// up.
pub const ID_MAPPING_POLLS: u8 = 20;

/// How long the child sleeps between two looks, in milliseconds.
pub const ID_MAPPING_POLL_MS: u64 = 50;

/// A mount of a pseudo file system.
pub open spec fn pseudo_fs(
    dest: Seq<char>,
    src: Seq<char>,
    fs_type: Seq<char>,
    flags: u64,
    data: Option<Seq<char>>,
) -> MountView {
    MountView {
        src: Some(src),
        dest,
        fs_type: Some(fs_type),
        flags,
        data,
        file_type: FileType::Dir,
    }
}

/// A bind mount of one file of the old root.
pub open spec fn bind_file(dest: Seq<char>, src: Seq<char>) -> MountView {
    MountView {
        src: Some(src),
        dest,
        fs_type: None,
        flags: MS_BIND,
        data: None,
        file_type: FileType::File,
    }
}

/// The mounts that every container gets, in the order in which they are
/// made: `/proc`, a fresh `/dev` with `pts`, `mqueue` and `shm` below it,
/// then the device nodes of the old root. `/sys` is not among them.
pub open spec fn mandatory_mounts() -> Seq<MountView> {
    seq![
        pseudo_fs("/proc"@, "proc"@, "proc"@, MS_NODEV | MS_NOSUID | MS_NOEXEC, None),
        pseudo_fs("/dev"@, "tmpfs"@, "tmpfs"@, MS_NOSUID, Some("mode=755"@)),
        pseudo_fs(
            "/dev/pts"@,
            "devpts"@,
            "devpts"@,
            MS_NOSUID | MS_NOEXEC,
            Some("mode=620,ptmxmode=666"@),
        ),
        pseudo_fs("/dev/mqueue"@, "mqueue"@, "mqueue"@, MS_NOSUID | MS_NODEV | MS_NOEXEC, None),
        pseudo_fs("/dev/shm"@, "shm"@, "tmpfs"@, MS_NOSUID | MS_NODEV | MS_NOEXEC, None),
        bind_file("/dev/null"@, "/oldroot/dev/null"@),
        bind_file("/dev/random"@, "/oldroot/dev/random"@),
        bind_file("/dev/full"@, "/oldroot/dev/full"@),
        bind_file("/dev/tty"@, "/oldroot/dev/tty"@),
        bind_file("/dev/zero"@, "/oldroot/dev/zero"@),
        bind_file("/dev/urandom"@, "/oldroot/dev/urandom"@),
    ]
}

/// `s` without its leading `/` characters.
pub open spec fn without_root(s: Seq<char>) -> Seq<char>
    decreases s.len(),
{
    if s.len() > 0 && s[0] == '/' {
        without_root(s.skip(1))
    } else {
        s
    }
}

/// Where the resolver configuration stored under `dir` is found after the
/// pivot, or `None` where `dir` is not absolute.
pub open spec fn resolv_conf_after_pivot(dir: Seq<char>) -> Option<Seq<char>> {
    if dir.len() > 0 && dir[0] == '/' {
        Some(joined("/oldroot"@, joined(without_root(dir), "resolv.conf"@)))
    } else {
        None
    }
}

/// Why a command cannot be handed to `exec`.
#[derive(Clone, Copy, Debug, PartialEq, Eq, Structural)]
pub enum ExecError {
    /// There is no program name.
    EmptyCommand,
    /// The argument at this index holds a NUL character.
    NulInArgument(usize),
}

/// The least index at or after `from` of an argument that holds a NUL
/// character, or the number of arguments where there is none.
pub open spec fn first_with_nul(command: Seq<Seq<char>>, from: int) -> int
    decreases command.len() - from,
{
    if from >= command.len() {
        command.len() as int
    } else if command[from].contains('\0') {
        from
    } else {
        first_with_nul(command, from + 1)
    }
}

/// The verdict on a command: the first argument that holds a NUL character
/// rules it out, and so does a command without arguments.
pub open spec fn command_check(command: Seq<Seq<char>>) -> Result<(), ExecError> {
    if command.len() == 0 {
        Err(ExecError::EmptyCommand)
    } else if first_with_nul(command, 0) < command.len() {
        Err(ExecError::NulInArgument(first_with_nul(command, 0) as usize))
    } else {
        Ok(())
    }
}

/// The child's setup, for which this type is the namespace.
pub struct Initializer;

impl Initializer {
    /// Where the resolver configuration is kept while the root changes.
    pub fn store_resolv_conf(temp_dir: &str) -> (path: String)
        ensures
            path@ == joined(temp_dir@, "resolv.conf"@),
    {
        join_path(temp_dir, "resolv.conf")
    }

    /// The directory that receives the old root when pivoting to `new_root`.
    pub fn pivot_root(new_root: &str) -> (old_root: String)
        ensures
            old_root@ == joined(new_root@, OLDROOT_NAME@),
    {
        join_path(new_root, OLDROOT_NAME)
    }

    /// The mounts to make right after the pivot, in order.
    pub fn mount_mandatory_files() -> (mounts: Vec<Mount>)
        ensures
            mount_views(mounts@) == mandatory_mounts(),
    {
        let mut mounts: Vec<Mount> = Vec::new();
        mounts.push(
            Mount::new("/proc", FileType::Dir).src("proc").fs_type("proc").flags(
                MountFlags::from_bits(MS_NODEV | MS_NOSUID | MS_NOEXEC),
            ),
        );
        mounts.push(
            Mount::new("/dev", FileType::Dir).src("tmpfs").fs_type("tmpfs").flags(
                MountFlags::from_bits(MS_NOSUID),
            ).data("mode=755"),
        );
        mounts.push(
            Mount::new("/dev/pts", FileType::Dir).src("devpts").fs_type("devpts").flags(
                MountFlags::from_bits(MS_NOSUID | MS_NOEXEC),
            ).data("mode=620,ptmxmode=666"),
        );
        mounts.push(
            Mount::new("/dev/mqueue", FileType::Dir).src("mqueue").fs_type("mqueue").flags(
                MountFlags::from_bits(MS_NOSUID | MS_NODEV | MS_NOEXEC),
            ),
        );
        mounts.push(
            Mount::new("/dev/shm", FileType::Dir).src("shm").fs_type("tmpfs").flags(
                MountFlags::from_bits(MS_NOSUID | MS_NODEV | MS_NOEXEC),
            ),
        );
        mounts.push(Self::bind_device("/dev/null", "/oldroot/dev/null"));
        mounts.push(Self::bind_device("/dev/random", "/oldroot/dev/random"));
        mounts.push(Self::bind_device("/dev/full", "/oldroot/dev/full"));
        mounts.push(Self::bind_device("/dev/tty", "/oldroot/dev/tty"));
        mounts.push(Self::bind_device("/dev/zero", "/oldroot/dev/zero"));
        mounts.push(Self::bind_device("/dev/urandom", "/oldroot/dev/urandom"));
        assert(mount_views(mounts@) =~= mandatory_mounts());
        mounts
    }

    /// A bind mount of the file `src` onto the file `dest`.
    pub fn bind_device(dest: &str, src: &str) -> (m: Mount)
        ensures
            m@ == bind_file(dest@, src@),
    {
        Mount::new(dest, FileType::File).src(src).flags(MountFlags::from_bits(MS_BIND))
    }

    /// The link that stands for the multiplexer: its place and its target.
    pub fn create_ptmx_link() -> (link: (String, String))
        ensures
            link.0@ == "/dev/ptmx"@,
            link.1@ == "pts/ptmx"@,
    {
        (copy_text("/dev/ptmx"), copy_text("pts/ptmx"))
    }

    /// Where the stored resolver configuration is read from after the
    /// pivot: below the old root, at the place it was stored under.
    pub fn copy_resolv_conf(stored_dir: &str) -> (path: Option<String>)
        ensures
            match resolv_conf_after_pivot(stored_dir@) {
                Some(p) => path matches Some(q) && q@ == p,
                None => path is None,
            },
    {
        let d = chars_of(stored_dir);
        if d.len() == 0 || d[0] != '/' {
            return None;
        }
        let mut i: usize = 0;
        assert(d@.skip(0) == d@);
        while i < d.len() && d[i] == '/'
            invariant
                i <= d.len(),
                without_root(d@) == without_root(d@.skip(i as int)),
            decreases d.len() - i,
        {
            assert(d@.skip(i as int).skip(1) == d@.skip(i + 1));
            i += 1;
        }
        let rest = string_of_range(&d, i, d.len());
        assert(d@.skip(i as int) == d@.subrange(i as int, d.len() as int));
        let below = join_path(rest.as_str(), "resolv.conf");
        Some(join_path("/oldroot", below.as_str()))
    }

    /// The pseudoterminal to attach to, and the console bind mount that
    /// follows.
    pub fn connect_tty() -> (r: (String, Mount))
        ensures
            r.0@ == "/dev/pts/0"@,
            r.1@ == bind_file("/dev/console"@, "/oldroot/dev/console"@),
    {
        (copy_text("/dev/pts/0"), Self::bind_device("/dev/console", "/oldroot/dev/console"))
    }

    /// The old root, as the child sees it after the pivot.
    pub fn unmount_old_root() -> (path: String)
        ensures
            path@ == "/oldroot"@,
    {
        copy_text("/oldroot")
    }

    /// The environment the command starts in.
    pub fn environment() -> (env: Vec<String>)
        ensures
            strings(env@) == seq![
                "SHELL=/bin/sh"@,
                "HOME=/root"@,
                "TERM=xterm"@,
                "PATH=/bin:/usr/bin:/sbin:/usr/sbin"@,
            ],
    {
        let mut env: Vec<String> = Vec::new();
        env.push(copy_text("SHELL=/bin/sh"));
        env.push(copy_text("HOME=/root"));
        env.push(copy_text("TERM=xterm"));
        env.push(copy_text("PATH=/bin:/usr/bin:/sbin:/usr/sbin"));
        assert(strings(env@) =~= seq![
            "SHELL=/bin/sh"@,
            "HOME=/root"@,
            "TERM=xterm"@,
            "PATH=/bin:/usr/bin:/sbin:/usr/sbin"@,
        ]);
        env
    }

    /// Checks that `command` can be handed to `exec`: it names a program,
    /// and no argument holds a NUL character.
    pub fn exec(command: &Vec<String>) -> (r: Result<(), ExecError>)
        ensures
            r == command_check(strings(command@)),
    {
        if command.len() == 0 {
            return Err(ExecError::EmptyCommand);
        }
        let mut i: usize = 0;
        while i < command.len()
            invariant
                0 < command.len(),
                i <= command.len(),
                first_with_nul(strings(command@), 0) == first_with_nul(
                    strings(command@),
                    i as int,
                ),
            decreases command.len() - i,
        {
            if contains_char(command[i].as_str(), '\0') {
                return Err(ExecError::NulInArgument(i));
            }
            i += 1;
        }
        Ok(())
    }
}

/// One thing the child does on its way to the command.
#[derive(Clone, Copy, Debug, PartialEq, Eq, Structural)]
pub enum ChildAction {
    /// Sleep, then read the effective user id.
    PollIdMapping,
    /// Copy the resolver configuration to where it survives the pivot.
    StoreResolvConf,
    /// Mount the image's root file system.
    MountImage,
    /// Pivot into the new root and change to `/`.
    PivotRoot,
    /// Make the mandatory mounts.
    MountMandatoryFiles,
    /// Tell the parent that `/dev/pts` is mounted.
    SignalParent,
    /// Copy the resolver configuration back from the old root.
    CopyResolvConf,
    /// Create `/dev/ptmx` unless it is there.
    CreatePtmxLink,
    /// Read one byte from the parent.
    AwaitParent,
    /// Start a session, attach the standard streams to the pseudoterminal
    /// and bind the console.
    ConnectTty,
    /// Name the host after the image.
    SetHostname,
    /// Detach the old root and delete its directory.
    UnmountOldRoot,
    /// Replace the process by the command.
    Exec,
    /// Report the error and leave with a failure status.
    Exit(ChildError),
}

/// Why the child gives up.
#[derive(Clone, Copy, Debug, PartialEq, Eq, Structural)]
pub enum ChildError {
    /// The parent did not map the identities in time.
    IdMappingTimeout,
    /// The action in hand failed, or reported something it cannot report.
    StepFailed,
    /// The parent sent this byte in place of its signal.
    UnexpectedSignal(u8),
    /// The command could not be run.
    ExecFailed,
}

/// What came of the action in hand.
#[derive(Clone, Copy, Debug, PartialEq, Eq, Structural)]
pub enum ChildEvent {
    /// It succeeded.
    Done,
    /// It failed.
    Failed,
    /// The effective user id was read.
    Uid(u32),
    /// This byte came from the parent.
    Byte(u8),
}

/// Where the child stands: the action in hand, how many looks at the
/// identity mapping are left, and whether it runs in a user namespace.
#[derive(Clone, Copy, Debug, PartialEq, Eq, Structural)]
pub struct ChildState {
    pub doing: ChildAction,
    pub polls_left: u8,
    pub userns: bool,
}

/// The state the child starts in: with a user namespace it first waits for
/// its identity mapping.
pub open spec fn child_start(userns: bool) -> ChildState {
    ChildState {
        doing: if userns {
            ChildAction::PollIdMapping
        } else {
            ChildAction::StoreResolvConf
        },
        polls_left: ID_MAPPING_POLLS,
        userns,
    }
}

/// The action that follows `doing` once it has succeeded, for the actions
/// that report nothing but success or failure.
pub open spec fn child_successor(doing: ChildAction, userns: bool) -> ChildAction {
    match doing {
        ChildAction::StoreResolvConf => ChildAction::MountImage,
        ChildAction::MountImage => ChildAction::PivotRoot,
        ChildAction::PivotRoot => ChildAction::MountMandatoryFiles,
        ChildAction::MountMandatoryFiles => ChildAction::SignalParent,
        ChildAction::SignalParent => ChildAction::CopyResolvConf,
        ChildAction::CopyResolvConf => ChildAction::CreatePtmxLink,
        ChildAction::CreatePtmxLink => ChildAction::AwaitParent,
        ChildAction::ConnectTty => if userns {
            ChildAction::SetHostname
        } else {
            ChildAction::UnmountOldRoot
        },
        ChildAction::SetHostname => ChildAction::UnmountOldRoot,
        ChildAction::UnmountOldRoot => ChildAction::Exec,
        _ => ChildAction::Exit(ChildError::StepFailed),
    }
}

/// The state that follows `s` when the action in hand has ended in `e`.
pub open spec fn child_next(s: ChildState, e: ChildEvent) -> ChildState {
    match s.doing {
        ChildAction::Exit(_) => s,
        ChildAction::PollIdMapping => match e {
            ChildEvent::Uid(uid) => if uid == 0 {
                ChildState { doing: ChildAction::StoreResolvConf, ..s }
            } else if s.polls_left > 1 {
                ChildState { polls_left: (s.polls_left - 1) as u8, ..s }
            } else {
                ChildState { doing: ChildAction::Exit(ChildError::IdMappingTimeout), ..s }
            },
            _ => ChildState { doing: ChildAction::Exit(ChildError::StepFailed), ..s },
        },
        ChildAction::AwaitParent => match e {
            ChildEvent::Byte(b) => if b == SIGNAL_OPEN_PTMX {
                ChildState { doing: ChildAction::ConnectTty, ..s }
            } else {
                ChildState { doing: ChildAction::Exit(ChildError::UnexpectedSignal(b)), ..s }
            },
            _ => ChildState { doing: ChildAction::Exit(ChildError::StepFailed), ..s },
        },
        ChildAction::Exec => ChildState { doing: ChildAction::Exit(ChildError::ExecFailed), ..s },
        _ => match e {
            ChildEvent::Done => ChildState { doing: child_successor(s.doing, s.userns), ..s },
            _ => ChildState { doing: ChildAction::Exit(ChildError::StepFailed), ..s },
        },
    }
}

/// How far an action is from the end of the child's script.
pub open spec fn child_distance(doing: ChildAction) -> nat {
    match doing {
        ChildAction::PollIdMapping => 13,
        ChildAction::StoreResolvConf => 12,
        ChildAction::MountImage => 11,
        ChildAction::PivotRoot => 10,
        ChildAction::MountMandatoryFiles => 9,
        ChildAction::SignalParent => 8,
        ChildAction::CopyResolvConf => 7,
        ChildAction::CreatePtmxLink => 6,
        ChildAction::AwaitParent => 5,
        ChildAction::ConnectTty => 4,
        ChildAction::SetHostname => 3,
        ChildAction::UnmountOldRoot => 2,
        ChildAction::Exec => 1,
        ChildAction::Exit(_) => 0,
    }
}

/// The child attaches to the pseudoterminal only on reading the parent's
/// signal, and signals the parent only once the mandatory mounts, `/dev/pts`
/// among them, are made.
pub proof fn lemma_child_handshake(s: ChildState, e: ChildEvent)
    ensures
        child_next(s, e).doing == ChildAction::ConnectTty ==> s.doing == ChildAction::AwaitParent
            && e == ChildEvent::Byte(SIGNAL_OPEN_PTMX),
        child_next(s, e).doing == ChildAction::SignalParent ==> s.doing
            == ChildAction::MountMandatoryFiles && e == ChildEvent::Done,
{
}

/// In a user namespace the child goes past its wait only on seeing that it
/// is root, and it looks at most as often as it has looks left.
pub proof fn lemma_child_waits_for_mapping(s: ChildState, e: ChildEvent)
    requires
        s.doing == ChildAction::PollIdMapping,
    ensures
        child_next(s, e).doing == ChildAction::StoreResolvConf <==> e == ChildEvent::Uid(0),
        child_next(s, e).doing == ChildAction::PollIdMapping ==> child_next(s, e).polls_left
            < s.polls_left,
{
}

/// Every step brings the child nearer to the end of its script: an action
/// is followed by a later one, or by one look less at the identity mapping,
/// and a child that has given up stays so.
pub proof fn lemma_child_progress(s: ChildState, e: ChildEvent)
    ensures
        s.doing is Exit ==> child_next(s, e) == s,
        !(s.doing is Exit) ==> child_distance(child_next(s, e).doing) < child_distance(s.doing) || (
        child_next(s, e).doing == s.doing && child_next(s, e).polls_left < s.polls_left),
        child_next(s, e).userns == s.userns,
{
}

impl Initializer {
    /// The state in which the child begins, and with it its first action.
    pub fn start(userns: bool) -> (s: ChildState)
        ensures
            s == child_start(userns),
    {
        ChildState {
            doing: if userns {
                ChildAction::PollIdMapping
            } else {
                ChildAction::StoreResolvConf
            },
            polls_left: ID_MAPPING_POLLS,
            userns,
        }
    }

    /// The state that follows `s` when the action in hand has ended in
    /// `event`; its `doing` is what the child does next.
    pub fn advance(s: ChildState, event: ChildEvent) -> (next: ChildState)
        ensures
            next == child_next(s, event),
    {
        let failed = ChildState { doing: ChildAction::Exit(ChildError::StepFailed), ..s };
        match s.doing {
            ChildAction::Exit(_) => s,
            ChildAction::PollIdMapping => match event {
                ChildEvent::Uid(uid) => {
                    if uid == 0 {
                        ChildState { doing: ChildAction::StoreResolvConf, ..s }
                    } else if s.polls_left > 1 {
                        ChildState { polls_left: s.polls_left - 1, ..s }
                    } else {
                        ChildState { doing: ChildAction::Exit(ChildError::IdMappingTimeout), ..s }
                    }
                },
                _ => failed,
            },
            ChildAction::AwaitParent => match event {
                ChildEvent::Byte(b) => {
                    if b == SIGNAL_OPEN_PTMX {
                        ChildState { doing: ChildAction::ConnectTty, ..s }
                    } else {
                        ChildState { doing: ChildAction::Exit(ChildError::UnexpectedSignal(b)), ..s }
                    }
                },
                _ => failed,
            },
            ChildAction::Exec => ChildState {
                doing: ChildAction::Exit(ChildError::ExecFailed),
                ..s
            },
            doing => match event {
                ChildEvent::Done => ChildState { doing: Self::successor(doing, s.userns), ..s },
                _ => failed,
            },
        }
    }

    /// The action that follows `doing` once it has succeeded.
    pub fn successor(doing: ChildAction, userns: bool) -> (next: ChildAction)
        ensures
            next == child_successor(doing, userns),
    {
        match doing {
            ChildAction::StoreResolvConf => ChildAction::MountImage,
            ChildAction::MountImage => ChildAction::PivotRoot,
            ChildAction::PivotRoot => ChildAction::MountMandatoryFiles,
            ChildAction::MountMandatoryFiles => ChildAction::SignalParent,
            ChildAction::SignalParent => ChildAction::CopyResolvConf,
            ChildAction::CopyResolvConf => ChildAction::CreatePtmxLink,
            ChildAction::CreatePtmxLink => ChildAction::AwaitParent,
            ChildAction::ConnectTty => {
                if userns {
                    ChildAction::SetHostname
                } else {
                    ChildAction::UnmountOldRoot
                }
            },
            ChildAction::SetHostname => ChildAction::UnmountOldRoot,
            ChildAction::UnmountOldRoot => ChildAction::Exec,
            _ => ChildAction::Exit(ChildError::StepFailed),
        }
    }

    /// The byte that tells the parent that `/dev/pts` is mounted.
    pub fn signal() -> (b: u8)
        ensures
            b == SIGNAL_MOUNTED_DEVPTS,
    {
        SIGNAL_MOUNTED_DEVPTS
    }
}

} // verus!
