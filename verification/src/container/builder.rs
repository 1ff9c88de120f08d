//! The container entry point: wraps the outermost step of a configured
//! chain and lays out the run.
use vstd::prelude::*;

verus! {

use crate::container::plan::{build_plan, plan_spec, Action};
use crate::container::step::Step;

/// Owns the outermost step of a container's chain.
pub struct ContainerBuilder {
    component: Step,
}

impl ContainerBuilder {
    /// The wrapped chain.
    pub closed spec fn spec_component(&self) -> Step {
        self.component
    }

    /// Wraps the outermost step.
    pub fn new(component: Step) -> (r: Self)
        ensures
            r.spec_component() == component,
    {
        Self { component }
    }

    /// Lays out the run of the whole container: the ordered actions of
    /// [`plan_spec`], which a driver performs one by one, aborting at
    /// the first failure. The process cloning among them is work no
    /// verified code can do, so performing the actions — and reporting
    /// each step's outcome to [`crate::container::outcome::run_outcome`]
    /// — stays with the driver.
    pub fn run(self) -> (r: Vec<Action>)
        ensures
            r@.map_values(|a: Action| a@) == plan_spec(self.spec_component()),
    {
        build_plan(self.component)
    }
}

} // verus!
