//! Validation: the total semantic checks that move a configuration
//! from NotValidated to Validated. A user-namespace configuration is
//! valid exactly when the identity it runs as is mapped by both maps; a
//! mount-namespace configuration is valid exactly when a user namespace
//! stands beside it whose uid map makes some id the namespace root —
//! unprivileged mounting demands root inside the user namespace.
use vstd::prelude::*;

verus! {

use crate::container::define::{
    Container,
    MountNamespace,
    NotCreated,
    NotValidated,
    UserNamespace,
    Validated,
};
use crate::container::{has_root_entry, id_mapped};

/// A failed validation of a whole container configuration.
#[derive(Debug, Clone, Copy, PartialEq, Eq)]
pub enum ValidationError {
    UserValidationError(UserValidationError),
    MountValidationError(MountValidationError),
}

/// Why a user-namespace configuration is invalid.
#[derive(Debug, Clone, Copy, PartialEq, Eq)]
pub enum UserValidationError {
    RunAsGidNotMapped,
    RunAsUidNotMapped,
}

/// Why a mount-namespace configuration is invalid.
#[derive(Debug, Clone, Copy, PartialEq, Eq)]
pub enum MountValidationError {
    RootNotMapped,
}

/// Validates a user-namespace configuration: accepted exactly when the
/// uid it runs as lies in some uid-map entry and the gid in some
/// gid-map entry. The uid is checked first; the contents pass through
/// unchanged.
pub fn user<V: NotCreated>(user_ns: UserNamespace<V>) -> (r: Result<
    UserNamespace<Validated>,
    UserValidationError,
>)
    ensures
        r is Ok <==> (id_mapped(user_ns.uid_map@, user_ns.run_as.0) && id_mapped(
            user_ns.gid_map@,
            user_ns.run_as.1,
        )),
        (match r {
            Err(e) => e == UserValidationError::RunAsUidNotMapped,
            Ok(_) => false,
        }) <==> !id_mapped(user_ns.uid_map@, user_ns.run_as.0),
        (match r {
            Err(e) => e == UserValidationError::RunAsGidNotMapped,
            Ok(_) => false,
        }) <==> (id_mapped(user_ns.uid_map@, user_ns.run_as.0) && !id_mapped(
            user_ns.gid_map@,
            user_ns.run_as.1,
        )),
        r matches Ok(v) ==> v.uid_map@ == user_ns.uid_map@ && v.gid_map@ == user_ns.gid_map@ && v.run_as
            == user_ns.run_as,
{
    let (uid, gid) = user_ns.run_as;
    if !user_ns.uid_map.contains_interior_id(uid) {
        return Err(UserValidationError::RunAsUidNotMapped);
    }
    if !user_ns.gid_map.contains_interior_id(gid) {
        return Err(UserValidationError::RunAsGidNotMapped);
    }
    Ok(
        UserNamespace {
            uid_map: user_ns.uid_map,
            gid_map: user_ns.gid_map,
            run_as: user_ns.run_as,
            _p: core::marker::PhantomData,
        },
    )
}

/// Validates a mount-namespace configuration against the user-namespace
/// configuration standing beside it: accepted exactly when there is one
/// and some entry of its uid map has interior id zero. The operations
/// pass through unchanged.
pub fn mount<V: NotCreated>(
    mount_ns: MountNamespace<V>,
    user_ns: Option<&UserNamespace<NotValidated>>,
) -> (r: Result<MountNamespace<Validated>, MountValidationError>)
    ensures
        r is Ok <==> (user_ns matches Some(u) && has_root_entry(u.uid_map@)),
        r matches Err(e) ==> e == MountValidationError::RootNotMapped,
        r matches Ok(m) ==> m.mounts@ == mount_ns.mounts@,
{
    let u = match user_ns {
        Some(u) => u,
        None => {
            return Err(MountValidationError::RootNotMapped);
        },
    };
    if !u.uid_map.maps_root() {
        return Err(MountValidationError::RootNotMapped);
    }
    Ok(MountNamespace { mounts: mount_ns.mounts, _p: core::marker::PhantomData })
}

/// A validated container configuration agrees with the one it came
/// from and meets every rule: its user namespace, if any, maps the
/// identity it runs as, and a mount namespace only stands beside a
/// user namespace that maps root.
pub open spec fn container_rules_hold(c: Container<NotValidated>) -> bool {
    &&& (c.user matches Some(u) ==> id_mapped(u.uid_map@, u.run_as.0) && id_mapped(
        u.gid_map@,
        u.run_as.1,
    ))
    &&& (c.mount is Some ==> (c.user matches Some(u) && has_root_entry(u.uid_map@)))
}

impl Container<NotValidated> {
    /// Validates the whole configuration: the user namespace first,
    /// then the mount namespace against it. Accepted exactly when every
    /// rule holds; the contents pass through unchanged.
    pub fn validate(self) -> (r: Result<Container<Validated>, ValidationError>)
        ensures
            r is Ok <==> container_rules_hold(self),
            r matches Ok(c) ==> crate::container::define::same_config(self, c),
            r matches Err(e) ==> !container_rules_hold(self),
    {
        let Container { user: user_cfg, mount: mount_cfg, pid, net, _p } = self;
        let (validated_user, user_for_mount): (
            Option<UserNamespace<Validated>>,
            Option<UserNamespace<NotValidated>>,
        ) = match user_cfg {
            Some(u) => {
                let kept = UserNamespace::<NotValidated>::new(
                    u.uid_map.duplicate(),
                    u.gid_map.duplicate(),
                    u.run_as,
                );
                match crate::container::validate::user(u) {
                    Ok(v) => (Some(v), Some(kept)),
                    Err(e) => {
                        return Err(ValidationError::UserValidationError(e));
                    },
                }
            },
            None => (None, None),
        };
        let validated_mount: Option<MountNamespace<Validated>> = match mount_cfg {
            Some(m) => {
                match crate::container::validate::mount(m, user_for_mount.as_ref()) {
                    Ok(v) => Some(v),
                    Err(e) => {
                        return Err(ValidationError::MountValidationError(e));
                    },
                }
            },
            None => None,
        };
        Ok(
            Container {
                user: validated_user,
                mount: validated_mount,
                pid,
                net,
                _p: core::marker::PhantomData,
            },
        )
    }
}

} // verus!
