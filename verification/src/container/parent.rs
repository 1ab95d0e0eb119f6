//! The parent's side of the launch: which namespaces of the child it
//! enters, and what it writes to map the child's identities.

pub mod io_connector;

use crate::container::id::{map_line, map_words, Mapping, MappingId};
use crate::container::{CLONE_NEWNS, CLONE_NEWUSER};
use crate::text::{
    copy_text, decimal, decimal_string, pairs, push_decimal, push_text, strings,
};
use vstd::prelude::*;

verus! {

/// A file below the `/proc` directory of process `pid`.
pub open spec fn proc_path(pid: u32, tail: Seq<char>) -> Seq<char> {
    "/proc/"@ + decimal(pid as nat) + tail
}

/// The namespace files of the child that the parent enters, each with the
/// kind of namespace it holds: the user namespace first, then the mount
/// namespace, each only where the child was cloned into one.
pub open spec fn namespaces_to_enter(pid: u32, clone_flags: u64) -> Seq<(Seq<char>, u64)> {
    (if clone_flags & CLONE_NEWUSER == CLONE_NEWUSER {
        seq![(proc_path(pid, "/ns/user"@), CLONE_NEWUSER)]
    } else {
        seq![]
    }) + (if clone_flags & CLONE_NEWNS == CLONE_NEWNS {
        seq![(proc_path(pid, "/ns/mnt"@), CLONE_NEWNS)]
    } else {
        seq![]
    })
}

/// The writes that map the child's identities, in the order in which they
/// are made: the user map, the refusal of `setgroups`, then the group map.
pub open spec fn id_map_writes(pid: u32, uid: Mapping, gid: Mapping) -> Seq<
    (Seq<char>, Seq<char>),
> {
    seq![
        (proc_path(pid, "/uid_map"@), map_line(uid)),
        (proc_path(pid, "/setgroups"@), "deny"@),
        (proc_path(pid, "/gid_map"@), map_line(gid)),
    ]
}

/// The arguments of a mapping helper: the process, then each mapping as
/// three words.
pub open spec fn helper_arguments(pid: u32, own: Mapping, subordinate: Mapping) -> Seq<
    Seq<char>,
> {
    seq![decimal(pid as nat)] + map_words(own) + map_words(subordinate)
}

/// The paths and namespace kinds of `v`.
pub open spec fn namespace_views(v: Seq<(String, u64)>) -> Seq<(Seq<char>, u64)> {
    Seq::new(v.len(), |i: int| (v[i].0@, v[i].1))
}

/// The parent's setup, for which this type is the namespace.
pub struct Initilizer;

impl Initilizer {
    /// The path of a file below the `/proc` directory of process `pid`.
    pub fn proc_file(pid: u32, tail: &str) -> (path: String)
        ensures
            path@ == proc_path(pid, tail@),
    {
        let mut path = copy_text("/proc/");
        push_decimal(&mut path, pid as u64);
        push_text(&mut path, tail);
        path
    }

    /// The namespaces of the child to enter, in order.
    pub fn setns(child_pid: u32, clone_flags: u64) -> (targets: Vec<(String, u64)>)
        ensures
            namespace_views(targets@) == namespaces_to_enter(child_pid, clone_flags),
    {
        let mut targets: Vec<(String, u64)> = Vec::new();
        if clone_flags & CLONE_NEWUSER == CLONE_NEWUSER {
            targets.push((Self::proc_file(child_pid, "/ns/user"), CLONE_NEWUSER));
        }
        if clone_flags & CLONE_NEWNS == CLONE_NEWNS {
            targets.push((Self::proc_file(child_pid, "/ns/mnt"), CLONE_NEWNS));
        }
        assert(namespace_views(targets@) =~= namespaces_to_enter(child_pid, clone_flags));
        targets
    }

    /// The files to write, with their contents, to map the child's
    /// identities without a helper.
    pub fn map_id(child_pid: u32, uid: &MappingId, gid: &MappingId) -> (writes: Vec<
        (String, String),
    >)
        ensures
            pairs(writes@) == id_map_writes(child_pid, uid@, gid@),
    {
        let mut writes: Vec<(String, String)> = Vec::new();
        writes.push((Self::proc_file(child_pid, "/uid_map"), uid.to_string()));
        writes.push((Self::proc_file(child_pid, "/setgroups"), copy_text("deny")));
        writes.push((Self::proc_file(child_pid, "/gid_map"), gid.to_string()));
        assert(pairs(writes@) =~= id_map_writes(child_pid, uid@, gid@));
        writes
    }

    /// The arguments with which a mapping helper is run for the child: the
    /// process id, the mapping of the caller's own id, then that of its
    /// subordinate range.
    pub fn map_id_with_helper(child_pid: u32, own: MappingId, subordinate: MappingId) -> (args:
        Vec<String>)
        ensures
            strings(args@) == helper_arguments(child_pid, own@, subordinate@),
    {
        let mut args: Vec<String> = Vec::new();
        args.push(decimal_string(child_pid as u64));
        let ghost first = strings(args@);
        let mut a = own.into_vec();
        let ghost a_words = strings(a@);
        let mut b = subordinate.into_vec();
        let ghost b_words = strings(b@);
        args.append(&mut a);
        args.append(&mut b);
        assert(strings(args@) =~= first + a_words + b_words);
        assert(first =~= seq![decimal(child_pid as nat)]);
        args
    }
}

} // verus!
