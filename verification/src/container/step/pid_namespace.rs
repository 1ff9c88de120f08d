//! The pid-namespace step. Entering a new pid namespace only affects
//! children forked afterwards, so this step clones a fresh VM-sharing
//! process — performed by the unverified driver — whose child invokes
//! the successor.
use vstd::prelude::*;

verus! {

use crate::container::step::Step;

/// A pid-namespace step, wrapping its successor.
#[derive(Debug)]
pub struct PIDNamespace(pub Box<Step>);

impl PIDNamespace {
    /// Wraps `next` in a pid-namespace step.
    pub fn new(next: Step) -> (r: Self)
        ensures
            *r.0 == next,
    {
        Self(Box::new(next))
    }
}

} // verus!
