//! The decisions of the pump that carries bytes between the parent's
//! terminal and the pseudoterminal of the container.
//!
//! The pump waits on three descriptors, each registered under a tag. For
//! every descriptor that is ready it reads once and, if anything came,
//! writes it all to the other side; the shutdown descriptor ends the pump.

use vstd::prelude::*;

verus! {

/// The least size of the pump's buffer, in bytes.
pub const MIN_BUFFER_SIZE: usize = 4096;

/// The size of the pump's buffer, in bytes.
pub const BUFFER_SIZE: usize = 1_048_576;

/// The source that a ready descriptor stands for.
#[derive(Clone, Copy, Debug, PartialEq, Eq, Structural)]
pub enum IOEvent {
    /// The parent's input has bytes for the container.
    ParentStdin,
    /// The container has bytes for the parent's output.
    ChildStdout,
    /// The pump is asked to stop.
    Shutdown,
}

/// What the pump does about one ready descriptor.
#[derive(Clone, Copy, Debug, PartialEq, Eq, Structural)]
pub enum PumpAction {
    /// Read once from the parent's input and pass it to the container.
    ParentToChild,
    /// Read once from the container and pass it to the parent's output.
    ChildToParent,
    /// Leave the loop.
    Stop,
    /// The tag names no registered descriptor.
    Unknown(u64),
}

/// The tag under which `event` is registered.
pub open spec fn tag_of(event: IOEvent) -> u64 {
    match event {
        IOEvent::ParentStdin => 0,
        IOEvent::ChildStdout => 1,
        IOEvent::Shutdown => 2,
    }
}

/// The event registered under `tag`, if any.
pub open spec fn event_of(tag: u64) -> Option<IOEvent> {
    if tag == 0 {
        Some(IOEvent::ParentStdin)
    } else if tag == 1 {
        Some(IOEvent::ChildStdout)
    } else if tag == 2 {
        Some(IOEvent::Shutdown)
    } else {
        None
    }
}

/// What the pump does about a descriptor that is ready under `tag`.
pub open spec fn action_for(tag: u64) -> PumpAction {
    match event_of(tag) {
        Some(IOEvent::ParentStdin) => PumpAction::ParentToChild,
        Some(IOEvent::ChildStdout) => PumpAction::ChildToParent,
        Some(IOEvent::Shutdown) => PumpAction::Stop,
        None => PumpAction::Unknown(tag),
    }
}

/// Whether the pump goes on after `action`.
pub open spec fn goes_on(action: PumpAction) -> bool {
    action is ParentToChild || action is ChildToParent
}

/// The index of the first of `tags` after which the pump does not go on,
/// or the number of tags where there is none.
pub open spec fn first_stop(tags: Seq<u64>, from: int) -> int
    decreases tags.len() - from,
{
    if from >= tags.len() {
        tags.len() as int
    } else if !goes_on(action_for(tags[from])) {
        from
    } else {
        first_stop(tags, from + 1)
    }
}

/// What the pump does about one batch of ready descriptors: it serves them
/// in order, up to and including the first that ends the pump, and none
/// after it.
pub open spec fn batch_plan(tags: Seq<u64>) -> Seq<PumpAction> {
    let stop = first_stop(tags, 0);
    let served = if stop < tags.len() {
        stop + 1
    } else {
        stop
    };
    Seq::new(served as nat, |i: int| action_for(tags[i]))
}

/// A tag and its event stand for each other.
pub proof fn lemma_tags_round_trip(event: IOEvent, tag: u64)
    ensures
        event_of(tag_of(event)) == Some(event),
        event_of(tag) matches Some(e) ==> tag_of(e) == tag,
        event_of(tag) is Some <==> tag <= 2,
{
}

/// `first_stop` lands between its starting point and the end, on a tag
/// that ends the pump if it stops early, and passes none that does.
pub proof fn lemma_first_stop(tags: Seq<u64>, from: int)
    requires
        0 <= from <= tags.len(),
    ensures
        from <= first_stop(tags, from) <= tags.len(),
        first_stop(tags, from) < tags.len() ==> !goes_on(action_for(tags[first_stop(tags, from)])),
        forall|j: int| from <= j < first_stop(tags, from) ==> goes_on(action_for(#[trigger] tags[j])),
    decreases tags.len() - from,
{
    if from < tags.len() && goes_on(action_for(tags[from])) {
        lemma_first_stop(tags, from + 1);
    }
}

/// Once the shutdown descriptor has been seen in a batch, nothing more is
/// read: what ends the pump is the last action of the plan, and every
/// action before it is a transfer.
pub proof fn lemma_nothing_read_after_shutdown(tags: Seq<u64>, i: int)
    requires
        0 <= i < batch_plan(tags).len(),
    ensures
        batch_plan(tags).len() <= tags.len(),
        batch_plan(tags)[i] == action_for(tags[i]),
        !goes_on(batch_plan(tags)[i]) ==> i == batch_plan(tags).len() - 1,
        i < batch_plan(tags).len() - 1 ==> goes_on(batch_plan(tags)[i]),
{
    lemma_first_stop(tags, 0);
}

impl IOEvent {
    /// The tag under which the event's descriptor is registered.
    pub fn tag(self) -> (t: u64)
        ensures
            t == tag_of(self),
    {
        match self {
            IOEvent::ParentStdin => 0,
            IOEvent::ChildStdout => 1,
            IOEvent::Shutdown => 2,
        }
    }

    /// The event registered under `tag`.
    pub fn from_tag(tag: u64) -> (e: Option<IOEvent>)
        ensures
            e == event_of(tag),
    {
        if tag == 0 {
            Some(IOEvent::ParentStdin)
        } else if tag == 1 {
            Some(IOEvent::ChildStdout)
        } else if tag == 2 {
            Some(IOEvent::Shutdown)
        } else {
            None
        }
    }
}

/// The pump's decisions, for which this type is the namespace.
pub struct IoConnector;

impl IoConnector {
    /// The events to register, each with its tag, in the order of
    /// registration.
    pub fn new() -> (registrations: Vec<(IOEvent, u64)>)
        ensures
            registrations@ == seq![
                (IOEvent::ParentStdin, tag_of(IOEvent::ParentStdin)),
                (IOEvent::ChildStdout, tag_of(IOEvent::ChildStdout)),
                (IOEvent::Shutdown, tag_of(IOEvent::Shutdown)),
            ],
    {
        let mut registrations: Vec<(IOEvent, u64)> = Vec::new();
        registrations.push((IOEvent::ParentStdin, IOEvent::ParentStdin.tag()));
        registrations.push((IOEvent::ChildStdout, IOEvent::ChildStdout.tag()));
        registrations.push((IOEvent::Shutdown, IOEvent::Shutdown.tag()));
        assert(registrations@ =~= seq![
            (IOEvent::ParentStdin, tag_of(IOEvent::ParentStdin)),
            (IOEvent::ChildStdout, tag_of(IOEvent::ChildStdout)),
            (IOEvent::Shutdown, tag_of(IOEvent::Shutdown)),
        ]);
        registrations
    }

    /// What to do about one ready descriptor.
    pub fn dispatch(tag: u64) -> (a: PumpAction)
        ensures
            a == action_for(tag),
    {
        match IOEvent::from_tag(tag) {
            Some(IOEvent::ParentStdin) => PumpAction::ParentToChild,
            Some(IOEvent::ChildStdout) => PumpAction::ChildToParent,
            Some(IOEvent::Shutdown) => PumpAction::Stop,
            None => PumpAction::Unknown(tag),
        }
    }

    /// What to do about one batch of ready descriptors, in order.
    pub fn plan(tags: &Vec<u64>) -> (actions: Vec<PumpAction>)
        ensures
            actions@ == batch_plan(tags@),
    {
        let mut actions: Vec<PumpAction> = Vec::new();
        let mut i: usize = 0;
        while i < tags.len()
            invariant
                i <= tags.len(),
                first_stop(tags@, 0) == first_stop(tags@, i as int),
                actions@ == Seq::new(i as nat, |k: int| action_for(tags@[k])),
            decreases tags.len() - i,
        {
            let a = Self::dispatch(tags[i]);
            actions.push(a);
            assert(actions@ =~= Seq::new((i + 1) as nat, |k: int| action_for(tags@[k])));
            match a {
                PumpAction::ParentToChild => {},
                PumpAction::ChildToParent => {},
                _ => {
                    return actions;
                },
            }
            i += 1;
        }
        actions
    }

    /// Whether what one read returned is passed on: an empty read is not.
    pub fn forwards(bytes_read: usize) -> (r: bool)
        ensures
            r == (bytes_read > 0),
    {
        bytes_read > 0
    }

    /// The value that is written to the shutdown descriptor to stop the
    /// pump.
    pub fn stop() -> (v: u64)
        ensures
            v == 1,
    {
        1
    }
}

} // verus!
