//! What differs between the kernels that this crate can be used with.

use vstd::prelude::*;
use super::status::StatusCodes;

verus! {

/// The kernel in use, as far as this crate needs to know it.
///
/// Two kernels are known, a C one and a Rust one, and each has its
/// constructor here. Everything else in the crate takes the description and
/// never asks which of the two it stands for.
#[derive(Debug, Clone, Copy, PartialEq, Eq, Structural)]
pub struct Backend {
    /// The lowest thread identifier.
    pub pid_first: i16,
    /// The highest thread identifier. Below `pid_first` where the kernel has
    /// no thread slots at all.
    pub pid_last: i16,
    /// The codes by which the kernel reports the states of its threads.
    pub status_codes: StatusCodes,
    /// Whether the kernel can tell the names of its threads.
    pub thread_names: bool,
    /// Whether the kernel keeps the bounds of its threads' stacks, as a
    /// development build does.
    pub stack_info: bool,
}

impl Backend {
    /// The C kernel: its identifiers run from `pid_first` to `pid_last`, it
    /// can name its threads, and it keeps their stack bounds in a
    /// development build.
    pub fn riot_c(
        pid_first: i16,
        pid_last: i16,
        status_codes: StatusCodes,
        develhelp: bool,
    ) -> (r: Backend)
        ensures
            r.pid_first == pid_first,
            r.pid_last == pid_last,
            r.status_codes == status_codes,
            r.thread_names,
            r.stack_info == develhelp,
    {
        Backend { pid_first, pid_last, status_codes, thread_names: true, stack_info: develhelp }
    }

    /// The Rust kernel: its `threads` slots are numbered from zero, and it
    /// tells neither names nor stack bounds.
    pub fn riot_rs(threads: u8, status_codes: StatusCodes) -> (r: Backend)
        ensures
            r.pid_first == 0,
            r.pid_last == threads - 1,
            r.status_codes == status_codes,
            !r.thread_names,
            !r.stack_info,
    {
        let count: i16 = threads as i16;
        Backend {
            pid_first: 0,
            pid_last: count - 1,
            status_codes,
            thread_names: false,
            stack_info: false,
        }
    }

    /// Whether `raw` is a thread identifier of this kernel.
    pub open spec fn has_pid(self, raw: int) -> bool {
        self.pid_first <= raw <= self.pid_last
    }

    /// How many thread identifiers this kernel has.
    pub open spec fn pid_count(self) -> nat {
        if self.pid_first <= self.pid_last {
            (self.pid_last - self.pid_first + 1) as nat
        } else {
            0
        }
    }

    /// Tells whether `pid` is a thread identifier of this kernel.
    pub fn pid_is_valid(&self, pid: i16) -> (r: bool)
        ensures
            r == self.has_pid(pid as int),
    {
        self.pid_first <= pid && pid <= self.pid_last
    }
}

} // verus!
