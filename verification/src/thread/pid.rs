//! Thread identifiers.

use vstd::prelude::*;
use vstd::string::StringSliceAdditionalSpecFns;
use vstd::utf8::valid_utf8;
use crate::helpers::str_from_utf8;
use super::backend::Backend;
use super::stack_stats::{StackStats, StackStatsError};
use super::status::Status;
use super::NoSuchThread;

verus! {

/// What the kernel keeps on one thread, as far as this crate reads it.
#[derive(Debug, Clone, Copy, PartialEq, Eq, Structural)]
pub struct ThreadBlock {
    /// The priority at which the thread is scheduled.
    pub priority: u8,
    /// The address of the low end of the thread's stack.
    pub stack_start: usize,
    /// The size of the thread's stack in bytes.
    pub stack_size: usize,
    /// The number of bytes of the stack that the kernel found untouched.
    pub stack_free: usize,
}

/// The number of a thread slot that the kernel in use has.
///
/// The number was in the kernel's range of identifiers when the value was
/// made, and that is all it says: the thread may have ended since, and the
/// kernel may have given the slot to another. Two identifiers are equal when
/// their numbers are.
#[derive(Debug, Clone, Copy, PartialEq, Eq, Structural)]
pub struct KernelPID(i16);

impl KernelPID {
    /// The number of the thread slot.
    pub closed spec fn number(self) -> i16 {
        self.0
    }

    /// The identifier with the number `pid`, where `backend` has one.
    pub closed spec fn validated(pid: i16, backend: Backend) -> Option<KernelPID> {
        if backend.has_pid(pid as int) {
            Some(KernelPID(pid))
        } else {
            None
        }
    }

    /// All identifiers of `backend`, lowest first.
    pub closed spec fn listed(backend: Backend) -> Seq<KernelPID> {
        Seq::new(backend.pid_count(), |i: int| KernelPID((backend.pid_first + i) as i16))
    }

    /// Checks a raw number against the kernel's range of identifiers. This is
    /// the only way from a number to an identifier.
    pub fn new(pid: i16, backend: &Backend) -> (r: Option<KernelPID>)
        ensures
            r == Self::validated(pid, *backend),
            r.is_some() <==> backend.pid_first <= pid <= backend.pid_last,
            r matches Some(p) ==> p.number() == pid,
    {
        if backend.pid_is_valid(pid) {
            Some(KernelPID(pid))
        } else {
            None
        }
    }

    /// Every identifier of the kernel, lowest first, each of them passed
    /// through [`KernelPID::new`].
    pub fn all_pids(backend: &Backend) -> (r: Vec<KernelPID>)
        ensures
            r@ == Self::listed(*backend),
            r@.len() == backend.pid_count(),
            forall|i: int|
                0 <= i < r@.len() ==> (#[trigger] r@[i]).number() == backend.pid_first + i,
            forall|i: int|
                0 <= i < r@.len() ==> Self::validated((#[trigger] r@[i]).number(), *backend)
                    == Some(r@[i]),
    {
        let mut pids: Vec<KernelPID> = Vec::new();
        let mut next: i32 = backend.pid_first as i32;
        while next <= backend.pid_last as i32
            invariant
                backend.pid_first <= next,
                next <= backend.pid_last + 1 || next == backend.pid_first,
                pids@.len() == next - backend.pid_first,
                forall|i: int|
                    0 <= i < pids@.len() ==> (#[trigger] pids@[i]) == KernelPID(
                        (backend.pid_first + i) as i16,
                    ),
            decreases backend.pid_last + 1 - next,
        {
            let pid = KernelPID::new(next as i16, backend).unwrap();
            pids.push(pid);
            next = next + 1;
        }
        assert(pids@ =~= Self::listed(*backend));
        pids
    }

    /// The name of the thread, from what the kernel answered when asked for
    /// it: `reported` holds the bytes of the name, or nothing where the
    /// kernel had no name to give.
    ///
    /// There is a name only where the kernel tells names at all, gave one,
    /// and gave it in well-formed UTF-8. A thread without a name may well
    /// exist.
    pub fn get_name<'a>(&self, backend: &Backend, reported: Option<&'a [u8]>) -> (r: Option<
        &'a str,
    >)
        ensures
            r is Some <==> backend.thread_names && reported is Some && valid_utf8(
                reported.unwrap()@,
            ),
            r matches Some(name) ==> name.spec_bytes() == reported.unwrap()@,
    {
        if !backend.thread_names {
            return None;
        }
        match reported {
            Some(bytes) => str_from_utf8(bytes),
            None => None,
        }
    }

    /// The state of the thread, from the raw status that the kernel answered
    /// when asked for it.
    ///
    /// The kernel's code for a thread it does not have gives the error; any
    /// other code gives the state that the kernel's table names it, and
    /// `Other` where the table has no name for it.
    pub fn status(&self, backend: &Backend, raw: i32) -> (r: Result<Status, NoSuchThread>)
        ensures
            r is Err <==> raw == backend.status_codes.not_found,
            r matches Ok(status) ==> status == backend.status_codes.name_of(raw),
            r matches Ok(status) ==> status.names(raw, backend.status_codes),
            r == Ok::<Status, NoSuchThread>(Status::Other) <==> raw
                != backend.status_codes.not_found && !backend.status_codes.recognizes(raw),
    {
        if raw == backend.status_codes.not_found {
            Err(NoSuchThread)
        } else {
            Ok(Status::from_int(raw, &backend.status_codes))
        }
    }

    /// Whether the thread was woken, from what the kernel answered to the
    /// request: 1 where it has made the sleeping thread runnable, anything
    /// else where it has no such thread to wake.
    pub fn wakeup(&self, success: i32) -> (r: Result<(), NoSuchThread>)
        ensures
            r is Ok <==> success == 1,
    {
        if success == 1 {
            Ok(())
        } else {
            Err(NoSuchThread)
        }
    }

    /// The control block of the thread, where the kernel's table of threads
    /// held one under this identifier.
    fn thread<'a>(&self, block: Option<&'a ThreadBlock>) -> (r: Result<
        &'a ThreadBlock,
        NoSuchThread,
    >)
        ensures
            block is None ==> r is Err,
            block matches Some(b) ==> r == Ok::<&ThreadBlock, NoSuchThread>(b),
    {
        match block {
            Some(b) => Ok(b),
            None => Err(NoSuchThread),
        }
    }

    /// The priority of the thread, from the control block that the kernel
    /// held for it.
    pub fn priority(&self, block: Option<&ThreadBlock>) -> (r: Result<u8, NoSuchThread>)
        ensures
            block is None ==> r is Err,
            block matches Some(b) ==> r == Ok::<u8, NoSuchThread>(b.priority),
    {
        let thread = self.thread(block)?;
        Ok(thread.priority)
    }

    /// Where the stack of the thread lies and how much of it is unused, from
    /// the control block that the kernel held for it.
    ///
    /// A thread that is gone is reported as such whatever the kernel was
    /// built with; for one that exists, the bounds are known only where the
    /// kernel keeps them.
    pub fn stack_stats(&self, backend: &Backend, block: Option<&ThreadBlock>) -> (r: Result<
        StackStats,
        StackStatsError,
    >)
        ensures
            block is None ==> r == Err::<StackStats, StackStatsError>(
                StackStatsError::NoSuchThread,
            ),
            block is Some && !backend.stack_info ==> r == Err::<StackStats, StackStatsError>(
                StackStatsError::InformationUnavailable,
            ),
            block matches Some(b) ==> (backend.stack_info ==> r == Ok::<
                StackStats,
                StackStatsError,
            >(StackStats { start: b.stack_start, size: b.stack_size, free: b.stack_free })),
    {
        let thread = match self.thread(block) {
            Ok(thread) => thread,
            Err(e) => { return Err(StackStatsError::from(e)); },
        };
        if backend.stack_info {
            Ok(
                StackStats {
                    start: thread.stack_start,
                    size: thread.stack_size,
                    free: thread.stack_free,
                },
            )
        } else {
            Err(StackStatsError::InformationUnavailable)
        }
    }

    /// The number of the thread slot.
    pub fn raw(&self) -> (r: i16)
        ensures
            r == self.number(),
    {
        self.0
    }
}

impl From<KernelPID> for i16 {
    fn from(pid: KernelPID) -> (r: i16) {
        pid.0
    }
}

impl vstd::std_specs::convert::FromSpecImpl<KernelPID> for i16 {
    open spec fn obeys_from_spec() -> bool {
        true
    }

    open spec fn from_spec(pid: KernelPID) -> i16 {
        pid.number()
    }
}

impl From<&KernelPID> for i16 {
    fn from(pid: &KernelPID) -> (r: i16) {
        pid.0
    }
}

impl vstd::std_specs::convert::FromSpecImpl<&KernelPID> for i16 {
    open spec fn obeys_from_spec() -> bool {
        true
    }

    open spec fn from_spec(pid: &KernelPID) -> i16 {
        pid.number()
    }
}

/// What checking a number gives: an identifier exactly for the numbers in the
/// kernel's range, and then the one with that number.
pub proof fn lemma_validated(pid: i16, backend: Backend)
    ensures
        KernelPID::validated(pid, backend) is Some <==> backend.has_pid(pid as int),
        KernelPID::validated(pid, backend) matches Some(p) ==> p.number() == pid,
{
}

/// What a kernel lists: as many identifiers as it has, with the numbers of
/// its range in ascending order.
pub proof fn lemma_listed(backend: Backend)
    ensures
        KernelPID::listed(backend).len() == backend.pid_count(),
        forall|i: int|
            0 <= i < KernelPID::listed(backend).len() ==> (#[trigger] KernelPID::listed(
                backend,
            )[i]).number() == backend.pid_first + i,
{
}

/// Two identifiers are equal exactly when their numbers are, whatever has
/// become of the threads they were made for.
pub proof fn lemma_equal_by_number(a: KernelPID, b: KernelPID)
    ensures
        a == b <==> a.number() == b.number(),
{
}

/// Checking an identifier again gives the same identifier: what a kernel
/// lists as its identifiers passes `new` against that kernel.
pub proof fn lemma_listed_pids_are_valid(backend: Backend, i: int)
    requires
        0 <= i < KernelPID::listed(backend).len(),
    ensures
        KernelPID::validated(KernelPID::listed(backend)[i].number(), backend) == Some(
            KernelPID::listed(backend)[i],
        ),
{
}

/// Every number in the kernel's range is listed, at the place that its
/// distance from the lowest identifier gives.
pub proof fn lemma_valid_pids_are_listed(backend: Backend, pid: i16)
    requires
        backend.has_pid(pid as int),
    ensures
        0 <= pid - backend.pid_first < KernelPID::listed(backend).len(),
        KernelPID::validated(pid, backend) == Some(
            KernelPID::listed(backend)[pid - backend.pid_first],
        ),
{
}

/// The identifier of the thread that is running, from the number under which
/// the kernel knows it.
pub fn get_pid(backend: &Backend, current: i16) -> (r: KernelPID)
    requires
        backend.has_pid(current as int),
    ensures
        Some(r) == KernelPID::validated(current, *backend),
        r.number() == current,
{
    KernelPID(current)
}

} // verus!
