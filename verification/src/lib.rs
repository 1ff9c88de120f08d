//! Construction of unprivileged Linux containers as a pipeline of
//! namespace-entering steps.
//!
//! The crate is organised around a step chain: each step (user namespace,
//! mount namespace, pid namespace, identity switch, working-directory
//! switch, command execution) owns its successor, and running the outermost
//! step runs the whole container. The crate computes and verifies the
//! decisions of that pipeline — id-map file contents, syscall ordering,
//! validation, error nesting — while an unverified driver performs the
//! process cloning and the rendezvous that the kernel requires.
pub mod bytes;
pub mod container;
pub mod linux;
pub mod subid;

use vstd::prelude::*;

verus! {

/// Clone flag for a cgroup namespace (`CLONE_NEWCGROUP`).
pub const CLONE_NEWCGROUP: i32 = 0x0200_0000;

/// Clone flag for an IPC namespace (`CLONE_NEWIPC`).
pub const CLONE_NEWIPC: i32 = 0x0800_0000;

/// Clone flag for a mount namespace (`CLONE_NEWNS`).
pub const CLONE_NEWNS: i32 = 0x0002_0000;

/// Clone flag for a network namespace (`CLONE_NEWNET`).
pub const CLONE_NEWNET: i32 = 0x4000_0000;

/// Clone flag for a pid namespace (`CLONE_NEWPID`).
pub const CLONE_NEWPID: i32 = 0x2000_0000;

/// Clone flag for a time namespace (`CLONE_NEWTIME`).
pub const CLONE_NEWTIME: i32 = 0x0000_0080;

/// Clone flag for a user namespace (`CLONE_NEWUSER`).
pub const CLONE_NEWUSER: i32 = 0x1000_0000;

/// Clone flag for a UTS namespace (`CLONE_NEWUTS`).
pub const CLONE_NEWUTS: i32 = 0x0400_0000;

/// Errors raised while joining the namespaces of an existing process.
/// The payload of `ErrorOpeningNamespace` is the raw `errno`.
#[derive(Debug, Clone, Copy, PartialEq, Eq)]
pub enum JoinNamespaceError {
    NamespaceNotFound,
    UnableToOpenPidFd,
    ErrorOpeningNamespace(i32),
}

/// One kind of kernel namespace.
#[derive(Debug, Clone, Copy, PartialEq, Eq)]
pub enum Namespace {
    CGroup,
    Ipc,
    Mnt,
    Net,
    Pid,
    Time,
    User,
    Uts,
}

impl Namespace {
    /// The clone flag that selects this namespace kind.
    pub open spec fn spec_ns_type(&self) -> i32 {
        match self {
            Namespace::CGroup => CLONE_NEWCGROUP,
            Namespace::Ipc => CLONE_NEWIPC,
            Namespace::Mnt => CLONE_NEWNS,
            Namespace::Net => CLONE_NEWNET,
            Namespace::Pid => CLONE_NEWPID,
            Namespace::Time => CLONE_NEWTIME,
            Namespace::User => CLONE_NEWUSER,
            Namespace::Uts => CLONE_NEWUTS,
        }
    }

    /// The clone flag that selects this namespace kind.
    #[verifier::when_used_as_spec(spec_ns_type)]
    pub fn ns_type(&self) -> (r: i32)
        ensures
            r == self.spec_ns_type(),
    {
        match self {
            Namespace::CGroup => CLONE_NEWCGROUP,
            Namespace::Ipc => CLONE_NEWIPC,
            Namespace::Mnt => CLONE_NEWNS,
            Namespace::Net => CLONE_NEWNET,
            Namespace::Pid => CLONE_NEWPID,
            Namespace::Time => CLONE_NEWTIME,
            Namespace::User => CLONE_NEWUSER,
            Namespace::Uts => CLONE_NEWUTS,
        }
    }
}

/// The bitwise OR of the clone flags of `ns`, oldest first.
pub open spec fn spec_namespace_flags(ns: Seq<Namespace>) -> i32
    decreases ns.len(),
{
    if ns.len() == 0 {
        0
    } else {
        spec_namespace_flags(ns.drop_last()) | ns.last().spec_ns_type()
    }
}

/// Folds the clone flags of all requested namespaces into one flag word,
/// as handed to `setns` when joining an existing process's namespaces.
pub fn namespaces_flags(namespaces: &[Namespace]) -> (r: i32)
    ensures
        r == spec_namespace_flags(namespaces@),
{
    let mut acc: i32 = 0;
    let mut i: usize = 0;
    while i < namespaces.len()
        invariant
            0 <= i <= namespaces@.len(),
            acc == spec_namespace_flags(namespaces@.take(i as int)),
        decreases namespaces@.len() - i,
    {
        proof {
            assert(namespaces@.take(i as int + 1).drop_last() =~= namespaces@.take(i as int));
        }
        acc = acc | namespaces[i].ns_type();
        i += 1;
    }
    proof {
        assert(namespaces@.take(i as int) =~= namespaces@);
    }
    acc
}

} // verus!
