//! The step chain: each step owns its successor, and running the
//! outermost step runs the whole container. The chain is a tree of step
//! values; the successor-ownership invariant — every step invokes its
//! successor exactly once on the success path, and not at all on
//! failure — is what the plan and outcome modules state and prove.
pub mod mount_namespace;
pub mod pid_namespace;
pub mod run_command;
pub mod switch_user;
pub mod switch_working_directory;
pub mod user_namespace;

use vstd::prelude::*;

verus! {

use mount_namespace::MountNamespace;
use pid_namespace::PIDNamespace;
use run_command::RunCommand;
use switch_user::SwitchUser;
use switch_working_directory::SwitchWorkingDirectory;
use user_namespace::UserNamespaceRoot;

/// One step of the container pipeline, owning its successor. The
/// innermost step is always a command to run.
#[derive(Debug)]
pub enum Step {
    UserNamespace(UserNamespaceRoot),
    MountNamespace(MountNamespace),
    PidNamespace(PIDNamespace),
    SwitchUser(SwitchUser),
    SwitchWorkingDirectory(SwitchWorkingDirectory),
    RunCommand(RunCommand),
}

impl Step {
    /// The successor this step wraps, if it is not the terminal leaf.
    pub open spec fn spec_next(&self) -> Option<Step> {
        match self {
            Step::UserNamespace(u) => Some(*u.next_step),
            Step::MountNamespace(m) => Some(*m.next),
            Step::PidNamespace(p) => Some(*p.0),
            Step::SwitchUser(s) => Some(*s.next_step),
            Step::SwitchWorkingDirectory(w) => Some(*w.next),
            Step::RunCommand(_) => None,
        }
    }

    /// How many steps the chain holds, this one counted.
    pub open spec fn step_count(&self) -> nat
        decreases self,
    {
        match self {
            Step::UserNamespace(u) => 1 + u.next_step.step_count(),
            Step::MountNamespace(m) => 1 + m.next.step_count(),
            Step::PidNamespace(p) => 1 + p.0.step_count(),
            Step::SwitchUser(s) => 1 + s.next_step.step_count(),
            Step::SwitchWorkingDirectory(w) => 1 + w.next.step_count(),
            Step::RunCommand(_) => 1,
        }
    }

    /// Borrows the successor, if any.
    pub fn next_ref(&self) -> (r: Option<&Step>)
        ensures
            match r {
                Some(n) => self.spec_next() == Some(*n),
                None => self.spec_next() is None,
            },
    {
        match self {
            Step::UserNamespace(u) => Some(&*u.next_step),
            Step::MountNamespace(m) => Some(&*m.next),
            Step::PidNamespace(p) => Some(&*p.0),
            Step::SwitchUser(s) => Some(&*s.next_step),
            Step::SwitchWorkingDirectory(w) => Some(&*w.next),
            Step::RunCommand(_) => None,
        }
    }

    /// How many steps the chain holds, as a machine integer.
    pub fn count(&self) -> (r: usize)
        requires
            self.step_count() <= usize::MAX,
        ensures
            r == self.step_count(),
        decreases self,
    {
        match self {
            Step::UserNamespace(u) => 1 + u.next_step.count(),
            Step::MountNamespace(m) => 1 + m.next.count(),
            Step::PidNamespace(p) => 1 + p.0.count(),
            Step::SwitchUser(s) => 1 + s.next_step.count(),
            Step::SwitchWorkingDirectory(w) => 1 + w.next.count(),
            Step::RunCommand(_) => 1,
        }
    }
}

} // verus!
