//! How a child process the caller ran has ended.

use vstd::prelude::*;

verus! {

/// The end of a child process as the caller observed it: whether it
/// succeeded, its exit code when it exited normally, and the status as the
/// platform describes it (such as `exit status: 1`).
#[derive(Debug, Clone, PartialEq, Eq)]
pub struct ProcessExit {
    pub success: bool,
    pub code: Option<i32>,
    pub description: String,
}

} // verus!
