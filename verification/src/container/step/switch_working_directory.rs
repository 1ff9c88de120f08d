//! The working-directory step: sets the process working directory, then
//! runs the successor.
use vstd::prelude::*;

verus! {

use crate::container::step::Step;
use crate::linux::sys;

/// A working-directory step: the directory to enter and the successor.
#[derive(Debug)]
pub struct SwitchWorkingDirectory {
    pub new_wd: Vec<u8>,
    pub next: Box<Step>,
}

impl SwitchWorkingDirectory {
    /// Wraps `next` in a step that first enters `new_wd`.
    pub fn new(new_wd: Vec<u8>, next: Step) -> (r: Self)
        ensures
            r.new_wd@ == new_wd@,
            *r.next == next,
    {
        Self { new_wd, next: Box::new(next) }
    }
}

/// Changes the working directory to the byte path. `Err` carries the
/// raw `errno`; the outcome rests with the kernel.
pub fn change_directory(path: &[u8]) -> Result<(), i32> {
    sys::chdir_raw(path)
}

} // verus!
