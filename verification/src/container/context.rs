//! The container context: a record, borrowed through the step chain,
//! of which namespaces have been entered along the run. Each
//! namespace-entering step sets its flag before invoking its successor;
//! once set, a flag stays set for the rest of the run.
use vstd::prelude::*;

verus! {

/// Which namespaces the running chain has entered so far, plus the
/// pid file descriptor of the container process once one exists.
#[derive(Debug, Clone, Copy, PartialEq, Eq, Structural)]
pub struct Context {
    pub cgroup: bool,
    pub ipc: bool,
    pub mnt: bool,
    pub net: bool,
    pub pid: bool,
    pub time: bool,
    pub user: bool,
    pub uts: bool,
    pub pidfd: Option<i32>,
}

/// Every flag set in `a` is set in `b`: along a run, contexts only ever
/// gain flags, never lose one.
pub open spec fn context_le(a: Context, b: Context) -> bool {
    &&& (a.cgroup ==> b.cgroup)
    &&& (a.ipc ==> b.ipc)
    &&& (a.mnt ==> b.mnt)
    &&& (a.net ==> b.net)
    &&& (a.pid ==> b.pid)
    &&& (a.time ==> b.time)
    &&& (a.user ==> b.user)
    &&& (a.uts ==> b.uts)
}

impl Context {
    /// The context of a run that has entered nothing yet.
    pub fn new() -> (r: Context)
        ensures
            r == (Context {
                cgroup: false,
                ipc: false,
                mnt: false,
                net: false,
                pid: false,
                time: false,
                user: false,
                uts: false,
                pidfd: None,
            }),
    {
        Context {
            cgroup: false,
            ipc: false,
            mnt: false,
            net: false,
            pid: false,
            time: false,
            user: false,
            uts: false,
            pidfd: None,
        }
    }

    /// Records that the run entered a cgroup namespace.
    pub fn set_cgroup(&mut self)
        ensures
            *final(self) == (Context { cgroup: true, ..*old(self) }),
            context_le(*old(self), *final(self)),
    {
        self.cgroup = true;
    }

    /// Records that the run entered an IPC namespace.
    pub fn set_ipc(&mut self)
        ensures
            *final(self) == (Context { ipc: true, ..*old(self) }),
            context_le(*old(self), *final(self)),
    {
        self.ipc = true;
    }

    /// Records that the run entered a mount namespace.
    pub fn entered_mnt_ns(&mut self)
        ensures
            *final(self) == (Context { mnt: true, ..*old(self) }),
            context_le(*old(self), *final(self)),
    {
        self.mnt = true;
    }

    /// Records that the run entered a network namespace.
    pub fn set_net(&mut self)
        ensures
            *final(self) == (Context { net: true, ..*old(self) }),
            context_le(*old(self), *final(self)),
    {
        self.net = true;
    }

    /// Records that the run entered a pid namespace.
    pub fn entered_pid_ns(&mut self)
        ensures
            *final(self) == (Context { pid: true, ..*old(self) }),
            context_le(*old(self), *final(self)),
    {
        self.pid = true;
    }

    /// Records that the run entered a time namespace.
    pub fn set_time(&mut self)
        ensures
            *final(self) == (Context { time: true, ..*old(self) }),
            context_le(*old(self), *final(self)),
    {
        self.time = true;
    }

    /// Records that the run entered a user namespace.
    pub fn entered_user_ns(&mut self)
        ensures
            *final(self) == (Context { user: true, ..*old(self) }),
            context_le(*old(self), *final(self)),
    {
        self.user = true;
    }

    /// Records that the run entered a UTS namespace.
    pub fn set_uts(&mut self)
        ensures
            *final(self) == (Context { uts: true, ..*old(self) }),
            context_le(*old(self), *final(self)),
    {
        self.uts = true;
    }

    /// Records the pid file descriptor of the container process.
    pub fn set_pidfd(&mut self, fd: i32)
        ensures
            *final(self) == (Context { pidfd: Some(fd), ..*old(self) }),
            context_le(*old(self), *final(self)),
    {
        self.pidfd = Some(fd);
    }

    pub fn cgroup(&self) -> (r: bool)
        ensures
            r == self.cgroup,
    {
        self.cgroup
    }

    pub fn ipc(&self) -> (r: bool)
        ensures
            r == self.ipc,
    {
        self.ipc
    }

    pub fn mnt(&self) -> (r: bool)
        ensures
            r == self.mnt,
    {
        self.mnt
    }

    pub fn net(&self) -> (r: bool)
        ensures
            r == self.net,
    {
        self.net
    }

    pub fn pid(&self) -> (r: bool)
        ensures
            r == self.pid,
    {
        self.pid
    }

    pub fn time(&self) -> (r: bool)
        ensures
            r == self.time,
    {
        self.time
    }

    pub fn user(&self) -> (r: bool)
        ensures
            r == self.user,
    {
        self.user
    }

    pub fn uts(&self) -> (r: bool)
        ensures
            r == self.uts,
    {
        self.uts
    }

    pub fn pidfd(&self) -> (r: Option<i32>)
        ensures
            r == self.pidfd,
    {
        self.pidfd
    }
}

} // verus!
