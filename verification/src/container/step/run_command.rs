//! The terminal leaf of the chain: an external command, run where the
//! chain has placed the process. Spawning and waiting are the driver's
//! work; the step holds the program and its arguments as plain bytes.
use vstd::prelude::*;

verus! {

/// The command the innermost step runs.
#[derive(Debug, Clone, PartialEq, Eq)]
pub struct RunCommand {
    pub program: Vec<u8>,
    pub args: Vec<Vec<u8>>,
}

impl RunCommand {
    /// The leaf step running `program` with `args`.
    pub fn new(program: Vec<u8>, args: Vec<Vec<u8>>) -> (r: Self)
        ensures
            r.program@ == program@,
            r.args@ == args@,
    {
        Self { program, args }
    }
}

} // verus!
