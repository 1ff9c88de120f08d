//! The switch-user step: changes the effective uid and gid, then runs
//! the successor. The identity change itself is
//! [`crate::linux::switch_user`].
use vstd::prelude::*;

verus! {

use crate::container::step::Step;

/// A switch-user step: the identity to assume and the successor.
#[derive(Debug)]
pub struct SwitchUser {
    pub uid: u32,
    pub gid: u32,
    pub next_step: Box<Step>,
}

impl SwitchUser {
    /// Wraps `next_step` in a step that first assumes `uid` and `gid`.
    pub fn new(uid: u32, gid: u32, next_step: Step) -> (r: Self)
        ensures
            r.uid == uid,
            r.gid == gid,
            *r.next_step == next_step,
    {
        Self { uid, gid, next_step: Box::new(next_step) }
    }
}

} // verus!
