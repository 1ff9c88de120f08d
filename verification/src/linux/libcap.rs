//! The capability oracle: a boolean query on the calling process's
//! effective capability set.
use vstd::prelude::*;

verus! {

/// Value of `CAP_SETGID` in the kernel's capability numbering.
pub const CAP_SETGID: i32 = 6;

/// Value of `CAP_SETUID` in the kernel's capability numbering.
pub const CAP_SETUID: i32 = 7;

/// The capabilities this crate ever asks about.
#[derive(Debug, Clone, Copy, PartialEq, Eq)]
pub enum Capability {
    SETGID,
    SETUID,
}

impl Capability {
    /// The kernel's numeric value for this capability.
    pub fn to_cap(&self) -> (r: i32)
        ensures
            self is SETGID ==> r == CAP_SETGID,
            self is SETUID ==> r == CAP_SETUID,
    {
        match self {
            Capability::SETGID => CAP_SETGID,
            Capability::SETUID => CAP_SETUID,
        }
    }
}

/// Relies on `caps::has_cap`: whether the calling process holds `cap` in
/// its effective set. An error from the query counts as not holding the
/// capability.
#[verifier::external_body]
pub fn has_capability(cap: Capability) -> bool {
    let c = match cap {
        Capability::SETGID => caps::Capability::CAP_SETGID,
        Capability::SETUID => caps::Capability::CAP_SETUID,
    };
    caps::has_cap(None, caps::CapSet::Effective, c).unwrap_or(false)
}

} // verus!
