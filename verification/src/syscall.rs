//! The flag words of the system calls, from yes-or-no choices.

use crate::container::{
    CLONE_NEWIPC, CLONE_NEWNET, CLONE_NEWNS, CLONE_NEWPID, CLONE_NEWUSER, CLONE_NEWUTS,
};
use crate::mount::{MNT_DETACH, MS_BIND};
use vstd::prelude::*;

verus! {

/// `flag` if `chosen`, else no flag.
pub open spec fn flag_if(chosen: bool, flag: u64) -> u64 {
    if chosen {
        flag
    } else {
        0
    }
}

/// The flags of a clone into the chosen namespaces.
pub open spec fn namespace_flags(
    user: bool,
    mnt: bool,
    uts: bool,
    pid: bool,
    ipc: bool,
    net: bool,
) -> u64 {
    flag_if(user, CLONE_NEWUSER) | flag_if(mnt, CLONE_NEWNS) | flag_if(uts, CLONE_NEWUTS)
        | flag_if(pid, CLONE_NEWPID) | flag_if(ipc, CLONE_NEWIPC) | flag_if(net, CLONE_NEWNET)
}

fn choose_flag(chosen: bool, flag: u64) -> (r: u64)
    ensures
        r == flag_if(chosen, flag),
{
    if chosen {
        flag
    } else {
        0
    }
}

/// The flags of a clone into the chosen namespaces.
pub fn clone(
    user_flag: bool,
    mnt_flag: bool,
    uts_flag: bool,
    pid_flag: bool,
    ipc_flag: bool,
    net_flag: bool,
) -> (flags: u64)
    ensures
        flags == namespace_flags(user_flag, mnt_flag, uts_flag, pid_flag, ipc_flag, net_flag),
{
    choose_flag(user_flag, CLONE_NEWUSER) | choose_flag(mnt_flag, CLONE_NEWNS) | choose_flag(
        uts_flag,
        CLONE_NEWUTS,
    ) | choose_flag(pid_flag, CLONE_NEWPID) | choose_flag(ipc_flag, CLONE_NEWIPC) | choose_flag(
        net_flag,
        CLONE_NEWNET,
    )
}

/// The flags of a mount: a bind mount if `bind_flag`, else a plain one.
pub fn mount(bind_flag: bool) -> (flags: u64)
    ensures
        flags == flag_if(bind_flag, MS_BIND),
{
    choose_flag(bind_flag, MS_BIND)
}

/// The flags of an unmount: a lazy one if `detach_flag`, else a plain one.
pub fn umount(detach_flag: bool) -> (flags: u32)
    ensures
        flags == if detach_flag {
            MNT_DETACH
        } else {
            0
        },
{
    if detach_flag {
        MNT_DETACH
    } else {
        0
    }
}

} // verus!
