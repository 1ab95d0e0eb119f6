//! The launch pipeline: what the parent and the child do, step by step, to
//! bring a command up inside its namespaces.
//!
//! Each side is a small machine. The caller performs the action that the
//! machine hands out and reports what came of it; the machine answers with
//! the next action.

pub mod child;
pub mod id;
pub mod parent;

use vstd::prelude::*;

verus! {

/// New mount namespace.
pub const CLONE_NEWNS: u64 = 0x0002_0000;

/// New UTS namespace.
pub const CLONE_NEWUTS: u64 = 0x0400_0000;

/// New IPC namespace.
pub const CLONE_NEWIPC: u64 = 0x0800_0000;

/// New user namespace.
pub const CLONE_NEWUSER: u64 = 0x1000_0000;

/// New PID namespace.
pub const CLONE_NEWPID: u64 = 0x2000_0000;

/// New network namespace.
pub const CLONE_NEWNET: u64 = 0x4000_0000;

/// The size of the stack that the child starts on.
pub const STACK_SIZE: usize = 1_048_576;

/// The byte the child sends once `/dev/pts` is mounted.
pub const SIGNAL_MOUNTED_DEVPTS: u8 = 0x31;

/// The byte the parent sends once the pseudoterminal master is unlocked.
pub const SIGNAL_OPEN_PTMX: u8 = 0x32;

/// The namespaces a container is cloned into: mount, UTS, IPC and PID
/// always, user where the image needs it, network where it was asked for.
pub open spec fn clone_flag_bits(userns: bool, netns: bool) -> u64 {
    CLONE_NEWNS | CLONE_NEWUTS | CLONE_NEWIPC | CLONE_NEWPID | (if userns {
        CLONE_NEWUSER
    } else {
        0
    }) | (if netns {
        CLONE_NEWNET
    } else {
        0
    })
}

/// One thing the parent does to bring the container up and down again.
#[derive(Clone, Copy, Debug, PartialEq, Eq, Structural)]
pub enum ParentAction {
    /// Open the two pipes of the handshake.
    CreatePipes,
    /// Clone the child into new namespaces, with these flags.
    Clone(u64),
    /// Write the child's identity maps.
    MapIds,
    /// Enter the child's user and mount namespaces.
    EnterNamespaces,
    /// Read one byte from the child.
    AwaitChild,
    /// Open, grant and unlock the pseudoterminal master and start the pump.
    OpenMaster,
    /// Tell the child that the master is unlocked.
    SignalChild,
    /// Record the terminal's settings and switch it to raw mode.
    RawMode,
    /// Give the pseudoterminal the terminal's window size.
    SyncWindowSize,
    /// Hand the running container to the caller.
    Ready,
    /// Wait for the child to exit.
    WaitChild,
    /// Stop the pump.
    StopPump,
    /// Put the terminal's recorded settings back.
    RestoreTerminal,
    /// Nothing is left to do.
    Finished,
    /// Report the error.
    Fail(ParentError),
}

/// Why the parent gives up.
#[derive(Clone, Copy, Debug, PartialEq, Eq, Structural)]
pub enum ParentError {
    /// The kernel refused the clone.
    CloneFailed,
    /// The child sent this byte in place of its signal.
    UnexpectedSignal(u8),
    /// The action in hand failed, or reported something it cannot report.
    StepFailed,
}

/// What came of the action in hand.
#[derive(Clone, Copy, Debug, PartialEq, Eq, Structural)]
pub enum ParentEvent {
    /// It succeeded.
    Done,
    /// It failed.
    Failed,
    /// This byte came from the child.
    Byte(u8),
}

/// Where the parent stands.
#[derive(Clone, Copy, Debug, PartialEq, Eq, Structural)]
pub struct ParentState {
    /// The action in hand.
    pub doing: ParentAction,
    /// Whether the image asks for a user namespace.
    pub userns: bool,
    /// Whether a network namespace was asked for.
    pub netns: bool,
    /// Whether the terminal is in raw mode.
    pub raw: bool,
    /// The error to report once the terminal is restored.
    pub pending: Option<ParentError>,
}

/// Whether the parent has come to rest.
pub open spec fn parent_at_rest(doing: ParentAction) -> bool {
    doing is Finished || doing is Fail
}

/// The state the parent starts in.
pub open spec fn parent_start(userns: bool, netns: bool) -> ParentState {
    ParentState { doing: ParentAction::CreatePipes, userns, netns, raw: false, pending: None }
}

/// The state in which the parent deals with `err`: it reports the error at
/// once, unless the terminal is raw and has to be restored first.
pub open spec fn parent_failing(s: ParentState, err: ParentError) -> ParentState {
    if s.raw {
        ParentState { doing: ParentAction::RestoreTerminal, pending: Some(err), ..s }
    } else {
        ParentState { doing: ParentAction::Fail(err), ..s }
    }
}

/// The state that follows `s` when the action in hand has succeeded, for
/// the actions that report nothing but success or failure.
pub open spec fn parent_succeeding(s: ParentState) -> ParentState {
    match s.doing {
        ParentAction::CreatePipes => ParentState {
            doing: ParentAction::Clone(clone_flag_bits(s.userns, s.netns)),
            ..s
        },
        ParentAction::Clone(_) => ParentState {
            doing: if s.userns {
                ParentAction::MapIds
            } else {
                ParentAction::EnterNamespaces
            },
            ..s
        },
        ParentAction::MapIds => ParentState { doing: ParentAction::EnterNamespaces, ..s },
        ParentAction::EnterNamespaces => ParentState { doing: ParentAction::AwaitChild, ..s },
        ParentAction::OpenMaster => ParentState { doing: ParentAction::SignalChild, ..s },
        ParentAction::SignalChild => ParentState { doing: ParentAction::RawMode, ..s },
        ParentAction::RawMode => ParentState {
            doing: ParentAction::SyncWindowSize,
            raw: true,
            ..s
        },
        ParentAction::SyncWindowSize => ParentState { doing: ParentAction::Ready, ..s },
        ParentAction::Ready => ParentState { doing: ParentAction::WaitChild, ..s },
        ParentAction::WaitChild => ParentState { doing: ParentAction::StopPump, ..s },
        ParentAction::StopPump => ParentState { doing: ParentAction::RestoreTerminal, ..s },
        _ => parent_failing(s, ParentError::StepFailed),
    }
}

/// The state that follows `s` when the action in hand has ended in `e`.
pub open spec fn parent_next(s: ParentState, e: ParentEvent) -> ParentState {
    match s.doing {
        ParentAction::Finished => s,
        ParentAction::Fail(_) => s,
        ParentAction::RestoreTerminal => ParentState {
            doing: match s.pending {
                Some(err) => ParentAction::Fail(err),
                None => if e == ParentEvent::Done {
                    ParentAction::Finished
                } else {
                    ParentAction::Fail(ParentError::StepFailed)
                },
            },
            raw: false,
            ..s
        },
        ParentAction::AwaitChild => match e {
            ParentEvent::Byte(b) => if b == SIGNAL_MOUNTED_DEVPTS {
                ParentState { doing: ParentAction::OpenMaster, ..s }
            } else {
                parent_failing(s, ParentError::UnexpectedSignal(b))
            },
            _ => parent_failing(s, ParentError::StepFailed),
        },
        ParentAction::Clone(_) => match e {
            ParentEvent::Done => parent_succeeding(s),
            _ => parent_failing(s, ParentError::CloneFailed),
        },
        _ => match e {
            ParentEvent::Done => parent_succeeding(s),
            _ => parent_failing(s, ParentError::StepFailed),
        },
    }
}

/// How far an action is from the end of the parent's script.
pub open spec fn parent_distance(doing: ParentAction) -> nat {
    match doing {
        ParentAction::CreatePipes => 13,
        ParentAction::Clone(_) => 12,
        ParentAction::MapIds => 11,
        ParentAction::EnterNamespaces => 10,
        ParentAction::AwaitChild => 9,
        ParentAction::OpenMaster => 8,
        ParentAction::SignalChild => 7,
        ParentAction::RawMode => 6,
        ParentAction::SyncWindowSize => 5,
        ParentAction::Ready => 4,
        ParentAction::WaitChild => 3,
        ParentAction::StopPump => 2,
        ParentAction::RestoreTerminal => 1,
        ParentAction::Finished => 0,
        ParentAction::Fail(_) => 0,
    }
}

/// Whether `s` can be reached from a start state: the terminal is raw
/// exactly between the switch to raw mode and its restoration, and an error
/// is held back only while the terminal is being restored.
pub open spec fn parent_consistent(s: ParentState) -> bool {
    &&& s.raw <==> (s.doing is SyncWindowSize || s.doing is Ready || s.doing is WaitChild
        || s.doing is StopPump || s.doing is RestoreTerminal)
    &&& s.pending is Some ==> s.doing is RestoreTerminal || s.doing is Fail
    &&& s.doing matches ParentAction::Clone(bits) ==> bits == clone_flag_bits(s.userns, s.netns)
}

/// The parent opens the pseudoterminal master only on reading the child's
/// signal, and signals the child only once the master is open and unlocked.
pub proof fn lemma_parent_handshake(s: ParentState, e: ParentEvent)
    ensures
        parent_next(s, e).doing == ParentAction::OpenMaster ==> s.doing == ParentAction::AwaitChild
            && e == ParentEvent::Byte(SIGNAL_MOUNTED_DEVPTS),
        parent_next(s, e).doing == ParentAction::SignalChild ==> s.doing
            == ParentAction::OpenMaster && e == ParentEvent::Done,
{
}

/// A start state is consistent, every step keeps the state consistent, and
/// a parent whose terminal is raw never comes to rest without restoring
/// it: whatever happens, it comes to rest with the terminal not raw.
pub proof fn lemma_parent_restores_terminal(s: ParentState, e: ParentEvent)
    requires
        parent_consistent(s),
    ensures
        parent_consistent(parent_start(s.userns, s.netns)),
        parent_consistent(parent_next(s, e)),
        parent_at_rest(parent_next(s, e).doing) ==> !parent_next(s, e).raw,
        s.raw && parent_at_rest(parent_next(s, e).doing) ==> s.doing
            == ParentAction::RestoreTerminal,
{
}

/// Every step brings the parent nearer to the end of its script, and a
/// parent at rest stays as it is.
pub proof fn lemma_parent_progress(s: ParentState, e: ParentEvent)
    ensures
        parent_at_rest(s.doing) ==> parent_next(s, e) == s,
        !parent_at_rest(s.doing) ==> parent_distance(parent_next(s, e).doing) < parent_distance(
            s.doing,
        ),
{
}

/// The parent's side of one container.
pub struct Container {
    state: ParentState,
}

impl View for Container {
    type V = ParentState;

    closed spec fn view(&self) -> ParentState {
        self.state
    }
}

impl Container {
    /// A container that is about to be launched.
    pub fn new(userns: bool, netns: bool) -> (c: Self)
        ensures
            c@ == parent_start(userns, netns),
    {
        Container {
            state: ParentState {
                doing: ParentAction::CreatePipes,
                userns,
                netns,
                raw: false,
                pending: None,
            },
        }
    }

    /// The flags of the clone call.
    pub fn clone_flags(userns: bool, netns: bool) -> (bits: u64)
        ensures
            bits == clone_flag_bits(userns, netns),
    {
        let user: u64 = if userns {
            CLONE_NEWUSER
        } else {
            0
        };
        let net: u64 = if netns {
            CLONE_NEWNET
        } else {
            0
        };
        CLONE_NEWNS | CLONE_NEWUTS | CLONE_NEWIPC | CLONE_NEWPID | user | net
    }

    /// The action in hand.
    pub fn doing(&self) -> (a: ParentAction)
        ensures
            a == self@.doing,
    {
        self.state.doing
    }

    /// Takes in what came of the action in hand and moves to the next one.
    pub fn advance(&mut self, event: ParentEvent) -> (a: ParentAction)
        ensures
            final(self)@ == parent_next(old(self)@, event),
            a == final(self)@.doing,
    {
        let s = self.state;
        let next = match s.doing {
            ParentAction::Finished => s,
            ParentAction::Fail(_) => s,
            ParentAction::RestoreTerminal => {
                let doing = match s.pending {
                    Some(err) => ParentAction::Fail(err),
                    None => match event {
                        ParentEvent::Done => ParentAction::Finished,
                        _ => ParentAction::Fail(ParentError::StepFailed),
                    },
                };
                ParentState { doing, raw: false, ..s }
            },
            ParentAction::AwaitChild => match event {
                ParentEvent::Byte(b) => {
                    if b == SIGNAL_MOUNTED_DEVPTS {
                        ParentState { doing: ParentAction::OpenMaster, ..s }
                    } else {
                        Self::failing(s, ParentError::UnexpectedSignal(b))
                    }
                },
                _ => Self::failing(s, ParentError::StepFailed),
            },
            ParentAction::Clone(_) => match event {
                ParentEvent::Done => Self::succeeding(s),
                _ => Self::failing(s, ParentError::CloneFailed),
            },
            _ => match event {
                ParentEvent::Done => Self::succeeding(s),
                _ => Self::failing(s, ParentError::StepFailed),
            },
        };
        self.state = next;
        next.doing
    }

    /// Leaves the running container to wait for the child's exit, then
    /// winds down: the pump stops and the terminal is restored.
    pub fn wait(&mut self) -> (a: ParentAction)
        ensures
            final(self)@ == parent_next(old(self)@, ParentEvent::Done),
            a == final(self)@.doing,
            old(self)@.doing == ParentAction::Ready ==> a == ParentAction::WaitChild,
    {
        self.advance(ParentEvent::Done)
    }

    fn failing(s: ParentState, err: ParentError) -> (next: ParentState)
        ensures
            next == parent_failing(s, err),
    {
        if s.raw {
            ParentState { doing: ParentAction::RestoreTerminal, pending: Some(err), ..s }
        } else {
            ParentState { doing: ParentAction::Fail(err), ..s }
        }
    }

    fn succeeding(s: ParentState) -> (next: ParentState)
        ensures
            next == parent_succeeding(s),
    {
        match s.doing {
            ParentAction::CreatePipes => ParentState {
                doing: ParentAction::Clone(Self::clone_flags(s.userns, s.netns)),
                ..s
            },
            ParentAction::Clone(_) => ParentState {
                doing: if s.userns {
                    ParentAction::MapIds
                } else {
                    ParentAction::EnterNamespaces
                },
                ..s
            },
            ParentAction::MapIds => ParentState { doing: ParentAction::EnterNamespaces, ..s },
            ParentAction::EnterNamespaces => ParentState { doing: ParentAction::AwaitChild, ..s },
            ParentAction::OpenMaster => ParentState { doing: ParentAction::SignalChild, ..s },
            ParentAction::SignalChild => ParentState { doing: ParentAction::RawMode, ..s },
            ParentAction::RawMode => ParentState {
                doing: ParentAction::SyncWindowSize,
                raw: true,
                ..s
            },
            ParentAction::SyncWindowSize => ParentState { doing: ParentAction::Ready, ..s },
            ParentAction::Ready => ParentState { doing: ParentAction::WaitChild, ..s },
            ParentAction::WaitChild => ParentState { doing: ParentAction::StopPump, ..s },
            ParentAction::StopPump => ParentState { doing: ParentAction::RestoreTerminal, ..s },
            _ => Self::failing(s, ParentError::StepFailed),
        }
    }
}

} // verus!
