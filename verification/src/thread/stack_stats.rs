//! How much of its stack a thread has used.

use vstd::prelude::*;
use super::NoSuchThread;

verus! {

/// Where the stack of a thread lies and how much of it was never touched.
///
/// The kernel measures the free part by looking, from the low end of the
/// stack upward, for the pattern it wrote there when the thread was made.
/// A thread that happened to write the same pattern makes the measure too
/// large, so `free` is an estimate: at least `size - free` bytes were used.
#[derive(Debug, Clone, Copy, PartialEq, Eq, Structural)]
pub struct StackStats {
    /// The address of the low end of the stack. It identifies the stack and
    /// is not to be followed.
    pub start: usize,
    /// The size of the stack in bytes, as the thread was given it.
    pub size: usize,
    /// The number of bytes at the low end that still hold the kernel's
    /// pattern.
    pub free: usize,
}

/// Why the stack of a thread could not be described.
#[derive(Debug, Clone, Copy, PartialEq, Eq, Structural)]
pub enum StackStatsError {
    /// The kernel has no thread under the identifier.
    NoSuchThread,
    /// The kernel was built without the means to tell.
    InformationUnavailable,
}

impl From<NoSuchThread> for StackStatsError {
    fn from(_e: NoSuchThread) -> (r: StackStatsError) {
        StackStatsError::NoSuchThread
    }
}

impl vstd::std_specs::convert::FromSpecImpl<NoSuchThread> for StackStatsError {
    open spec fn obeys_from_spec() -> bool {
        true
    }

    open spec fn from_spec(_e: NoSuchThread) -> StackStatsError {
        StackStatsError::NoSuchThread
    }
}

} // verus!
