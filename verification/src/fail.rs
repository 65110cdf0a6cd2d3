//! Failures, as an error number and a cause.

use vstd::prelude::*;

verus! {

/// Why an operation failed.
#[derive(Debug, PartialEq, Eq)]
pub struct Fail {
    /// The error number, positive by POSIX convention.
    pub errno: i32,
    /// What went wrong, for a human reader.
    pub cause: String,
}

impl Fail {
    /// This failure carries the number `errno` and the text `cause`.
    pub open spec fn reports(self, errno: i32, cause: &str) -> bool {
        self.errno == errno && self.cause@ == cause@
    }

    /// A failure with the given number and cause.
    pub fn new(errno: i32, cause: &str) -> (fail: Fail)
        ensures
            fail.reports(errno, cause),
    {
        Fail { errno, cause: cause.to_owned() }
    }
}

} // verus!
