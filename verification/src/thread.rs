//! Inspect and signal the kernel's threads.
//!
//! A [`KernelPID`] names a thread slot. It is checked once, when it is made,
//! against the range of identifiers of the [`Backend`] in use; what the
//! kernel then answers about it is read by the methods of [`KernelPID`].

use vstd::prelude::*;

mod backend;
mod pid;
mod stack_stats;
mod status;
mod tokenparts;

pub use backend::Backend;
pub use pid::{
    get_pid, lemma_equal_by_number, lemma_listed, lemma_listed_pids_are_valid,
    lemma_valid_pids_are_listed, lemma_validated, KernelPID, ThreadBlock,
};
pub use stack_stats::{StackStats, StackStatsError};
pub use status::{
    lemma_distinct_codes_name_their_states, lemma_name_is_unique, lemma_other_iff_unrecognized,
    Status, StatusCodes,
};
pub use tokenparts::{
    with_start_token, EndToken, FlagSemantics, InIsr, InThread, MessageSemantics, Never,
    StartToken, TerminationToken, TokenParts, ValueInThread,
};

verus! {

/// Error of the operations on a thread identifier: the kernel has no thread
/// under that identifier at the instant it was asked.
#[derive(Debug, Clone, Copy, PartialEq, Eq, Structural)]
pub struct NoSuchThread;

} // verus!
