//! The exit status that a run of the monitor ends with.

use vstd::prelude::*;

verus! {

/// A value that stands for an exit status.
pub trait ExitCode: Sized {
    /// The status that `self` stands for.
    spec fn status(self) -> i32;

    /// Returns the value to use as the exit status.
    fn code(self) -> (status: i32)
        ensures
            status == self.status(),
    ;
}

impl ExitCode for i32 {
    open spec fn status(self) -> i32 {
        self
    }

    fn code(self) -> (status: i32) {
        self
    }
}

impl ExitCode for () {
    open spec fn status(self) -> i32 {
        0
    }

    fn code(self) -> (status: i32) {
        0
    }
}

} // verus!
