//! The typed configuration lifecycle. A container configuration exists
//! in one of three states — freely mutable, semantically checked, or
//! backed by live processes — and the states move one way only:
//! NotValidated, then Validated, then Created. Only validated
//! configurations may be instantiated; the validation functions are the
//! sole producers of the `Validated` tag.
use vstd::prelude::*;

verus! {

use crate::container::plan::{plan_spec, userns_opening, ActionModel};
use crate::container::step::mount_namespace::{MountNamespace as MountNamespaceStep, MountOperation};
use crate::container::step::pid_namespace::PIDNamespace;
use crate::container::step::run_command::RunCommand;
use crate::container::step::user_namespace::UserNamespaceRoot;
use crate::container::step::Step;
use crate::container::{id_map_content, Group, IdMap, User};
use crate::CLONE_NEWPID;

/// The state of a configuration that has not passed the semantic
/// checks yet.
#[derive(Debug, Clone, Copy, PartialEq, Eq)]
pub struct NotValidated;

/// The state of a configuration that passed the semantic checks.
#[derive(Debug, Clone, Copy, PartialEq, Eq)]
pub struct Validated;

/// The state of a configuration whose backing processes exist.
#[derive(Debug, Clone, Copy, PartialEq, Eq)]
pub struct Created;

/// The states in which a configuration is still a plain value: no
/// backing process exists, so it may be copied back to the mutable
/// state and edited further.
pub trait NotCreated {

}

impl NotCreated for NotValidated {

}

impl NotCreated for Validated {

}

/// A user-namespace configuration: the maps to install and the identity
/// the contained process runs as.
#[derive(Debug)]
pub struct UserNamespace<V> {
    pub uid_map: IdMap<User>,
    pub gid_map: IdMap<Group>,
    pub run_as: (u32, u32),
    pub _p: core::marker::PhantomData<V>,
}

impl UserNamespace<NotValidated> {
    /// A fresh, not yet validated user-namespace configuration.
    pub fn new(uid_map: IdMap<User>, gid_map: IdMap<Group>, run_as: (u32, u32)) -> (r: Self)
        ensures
            r.uid_map@ == uid_map@,
            r.gid_map@ == gid_map@,
            r.run_as == run_as,
    {
        Self { uid_map, gid_map, run_as, _p: core::marker::PhantomData }
    }
}

impl<V> UserNamespace<V> {
    /// Steps the configuration back to the mutable state, keeping its
    /// contents.
    pub fn to_not_validated(self) -> (r: UserNamespace<NotValidated>)
        ensures
            r.uid_map@ == self.uid_map@,
            r.gid_map@ == self.gid_map@,
            r.run_as == self.run_as,
    {
        UserNamespace {
            uid_map: self.uid_map,
            gid_map: self.gid_map,
            run_as: self.run_as,
            _p: core::marker::PhantomData,
        }
    }
}

/// A mount-namespace configuration: the operations to apply, in order.
#[derive(Debug)]
pub struct MountNamespace<V> {
    pub mounts: Vec<MountOperation>,
    pub _p: core::marker::PhantomData<V>,
}

impl MountNamespace<NotValidated> {
    /// A fresh, not yet validated mount-namespace configuration.
    pub fn new(mounts: Vec<MountOperation>) -> (r: Self)
        ensures
            r.mounts@ == mounts@,
    {
        Self { mounts, _p: core::marker::PhantomData }
    }
}

impl<V> MountNamespace<V> {
    /// Steps the configuration back to the mutable state, keeping its
    /// contents.
    pub fn to_not_validated(self) -> (r: MountNamespace<NotValidated>)
        ensures
            r.mounts@ == self.mounts@,
    {
        MountNamespace { mounts: self.mounts, _p: core::marker::PhantomData }
    }
}

/// A network-namespace configuration. Network setup is outside the
/// core: entering the namespace is all it asks.
#[derive(Debug, Clone, Copy, PartialEq, Eq)]
pub struct Network;

/// A container configuration: which namespaces to enter and how. The
/// state parameter tracks the lifecycle.
#[derive(Debug)]
pub struct Container<S> {
    pub user: Option<UserNamespace<S>>,
    pub mount: Option<MountNamespace<S>>,
    pub pid: bool,
    pub net: Option<Network>,
    pub _p: core::marker::PhantomData<S>,
}

impl Container<NotValidated> {
    /// The empty configuration: no namespaces requested.
    pub fn new() -> (r: Self)
        ensures
            r.user is None,
            r.mount is None,
            !r.pid,
            r.net is None,
    {
        Self {
            user: None,
            mount: None,
            pid: false,
            net: None,
            _p: core::marker::PhantomData,
        }
    }
}

/// The contents of `a` and `b` agree, whatever their states: same
/// namespaces requested, with the same maps, mounts and identities.
pub open spec fn same_config<S1, S2>(a: Container<S1>, b: Container<S2>) -> bool {
    &&& match (a.user, b.user) {
        (Some(ua), Some(ub)) => ua.uid_map@ == ub.uid_map@ && ua.gid_map@ == ub.gid_map@
            && ua.run_as == ub.run_as,
        (None, None) => true,
        _ => false,
    }
    &&& match (a.mount, b.mount) {
        (Some(ma), Some(mb)) => ma.mounts@ == mb.mounts@,
        (None, None) => true,
        _ => false,
    }
    &&& a.pid == b.pid
    &&& a.net == b.net
}

impl<S: NotCreated> Container<S> {
    /// Drops the configuration back to the mutable state, keeping its
    /// contents.
    pub fn to_not_validated(self) -> (r: Container<NotValidated>)
        ensures
            same_config(self, r),
    {
        Container {
            user: match self.user {
                Some(u) => Some(u.to_not_validated()),
                None => None,
            },
            mount: match self.mount {
                Some(m) => Some(m.to_not_validated()),
                None => None,
            },
            pid: self.pid,
            net: self.net,
            _p: core::marker::PhantomData,
        }
    }

    /// Requests a user namespace with the given configuration; any
    /// earlier user-namespace request is replaced.
    pub fn create_user_namespace(self, user_namespace: UserNamespace<NotValidated>) -> (r:
        Container<NotValidated>)
        ensures
            r.user matches Some(u) && u.uid_map@ == user_namespace.uid_map@ && u.gid_map@
                == user_namespace.gid_map@ && u.run_as == user_namespace.run_as,
            match (r.mount, self.mount) {
                (Some(ma), Some(mb)) => ma.mounts@ == mb.mounts@,
                (None, None) => true,
                _ => false,
            },
            r.pid == self.pid,
            r.net == self.net,
    {
        Container { user: Some(user_namespace), ..self.to_not_validated() }
    }

    /// Requests a mount namespace with the given configuration; any
    /// earlier mount-namespace request is replaced.
    pub fn create_mount_namespace(self, mount: MountNamespace<NotValidated>) -> (r: Container<
        NotValidated,
    >)
        ensures
            r.mount matches Some(m) && m.mounts@ == mount.mounts@,
            match (r.user, self.user) {
                (Some(ua), Some(ub)) => ua.uid_map@ == ub.uid_map@ && ua.gid_map@ == ub.gid_map@
                    && ua.run_as == ub.run_as,
                (None, None) => true,
                _ => false,
            },
            r.pid == self.pid,
            r.net == self.net,
    {
        Container { mount: Some(mount), ..self.to_not_validated() }
    }

    /// Requests a pid namespace.
    pub fn create_pid_namespace(self) -> (r: Container<NotValidated>)
        ensures
            r.pid,
            same_config(
                Container { pid: true, ..self },
                Container { pid: true, ..r },
            ),
    {
        Container { pid: true, ..self.to_not_validated() }
    }

    /// Requests a network namespace.
    pub fn create_net_namespace(self, net: Network) -> (r: Container<NotValidated>)
        ensures
            r.net == Some(net),
            same_config(
                Container { net: Some(net), ..self },
                Container { net: Some(net), ..r },
            ),
    {
        Container { net: Some(net), ..self.to_not_validated() }
    }
}

/// The run trace a validated configuration instantiates around a
/// command: the user-namespace rendezvous outermost — its child
/// switching to the identity the configuration runs as — then the
/// mount namespace with its operations in order, then the
/// pid-namespace clone, then the command.
pub open spec fn validated_plan(c: Container<Validated>, command: RunCommand) -> Seq<
    ActionModel,
> {
    let run = seq![
        ActionModel::Execute {
            program: command.program@,
            args: command.args@.map_values(|a: Vec<u8>| a@),
        },
    ];
    let with_pid = if c.pid {
        seq![ActionModel::CloneChild { flags: CLONE_NEWPID }] + run + seq![
            ActionModel::AwaitChild,
        ]
    } else {
        run
    };
    let with_mount = match c.mount {
        Some(m) => seq![ActionModel::UnshareMountNamespace] + m.mounts@.map_values(
            |op: MountOperation| ActionModel::Mount(op@),
        ) + with_pid,
        None => with_pid,
    };
    match c.user {
        Some(u) => userns_opening(id_map_content(u.uid_map@), id_map_content(u.gid_map@)) + seq![
            ActionModel::SwitchUser { uid: u.run_as.0, gid: u.run_as.1 },
        ] + with_mount + seq![ActionModel::AwaitChild],
        None => with_mount,
    }
}

impl Container<Validated> {
    /// Instantiates the validated configuration as a step chain around
    /// `command` — the bridge out of the Validated state, which only
    /// validated configurations have. The backing processes that make
    /// the chain live are the driver's work, as is entering a requested
    /// network namespace: the step set carries no network step, so that
    /// request stays in the configuration for the driver, as it did
    /// before this design.
    pub fn to_step(self, command: RunCommand) -> (r: Step)
        ensures
            plan_spec(r) == validated_plan(self, command),
    {
        let ghost cfg = self;
        let ghost cmd = command;
        let Container { user, mount, pid, net: _, _p } = self;
        let mut chain = Step::RunCommand(command);
        let ghost t_run = plan_spec(chain);
        if pid {
            chain = Step::PidNamespace(PIDNamespace::new(chain));
            proof {
                assert(plan_spec(chain) =~= seq![ActionModel::CloneChild { flags: CLONE_NEWPID }]
                    + t_run + seq![ActionModel::AwaitChild]);
            }
        }
        let ghost t_pid = plan_spec(chain);
        match mount {
            Some(m) => {
                let ghost mounts_view = m.mounts@;
                chain = Step::MountNamespace(MountNamespaceStep::new(m.mounts, chain));
                proof {
                    assert(plan_spec(chain) =~= seq![ActionModel::UnshareMountNamespace]
                        + mounts_view.map_values(|op: MountOperation| ActionModel::Mount(op@))
                        + t_pid);
                }
            },
            None => {},
        }
        let ghost t_mount = plan_spec(chain);
        match user {
            Some(u) => {
                chain = Step::UserNamespace(
                    UserNamespaceRoot {
                        uid_map: u.uid_map,
                        gid_map: u.gid_map,
                        switch_to: Some(u.run_as),
                        next_step: Box::new(chain),
                    },
                );
                proof {
                    assert(plan_spec(chain) =~= userns_opening(
                        id_map_content(cfg.user->Some_0.uid_map@),
                        id_map_content(cfg.user->Some_0.gid_map@),
                    ) + seq![
                        ActionModel::SwitchUser {
                            uid: cfg.user->Some_0.run_as.0,
                            gid: cfg.user->Some_0.run_as.1,
                        },
                    ] + t_mount + seq![ActionModel::AwaitChild]);
                }
            },
            None => {},
        }
        proof {
            assert(plan_spec(chain) =~= validated_plan(cfg, cmd));
        }
        chain
    }
}

} // verus!
