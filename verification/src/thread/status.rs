//! The states of a thread, and the table that names the kernel's raw codes.

use vstd::prelude::*;

verus! {

/// The state of a thread in its life cycle.
///
/// The kernel reports a state as a number whose meaning depends on the
/// kernel's version; [`Status::from_int`] looks that number up in a
/// [`StatusCodes`] table.
#[derive(Debug, Clone, Copy, PartialEq, Eq, Structural)]
#[non_exhaustive]
pub enum Status {
    Stopped,
    Sleeping,
    MutexBlocked,
    ReceiveBlocked,
    SendBlocked,
    ReplyBlocked,
    FlagBlockedAny,
    FlagBlockedAll,
    MboxBlocked,
    Running,
    Pending,
    /// A state that the table in use has no name for. Later kernels may add
    /// states, so this is an answer like any other and never an error.
    Other,
}

/// The raw codes by which one kernel reports the states of its threads.
#[derive(Debug, Clone, Copy, PartialEq, Eq, Structural)]
pub struct StatusCodes {
    /// The code the kernel answers with when it has no such thread.
    pub not_found: i32,
    pub stopped: i32,
    pub sleeping: i32,
    pub mutex_blocked: i32,
    pub receive_blocked: i32,
    pub send_blocked: i32,
    pub reply_blocked: i32,
    pub flag_blocked_any: i32,
    pub flag_blocked_all: i32,
    pub mbox_blocked: i32,
    pub running: i32,
    pub pending: i32,
}

impl StatusCodes {
    /// The code that this table gives to a named state; `Other` has none.
    pub open spec fn code_of(self, status: Status) -> Option<i32> {
        match status {
            Status::Stopped => Some(self.stopped),
            Status::Sleeping => Some(self.sleeping),
            Status::MutexBlocked => Some(self.mutex_blocked),
            Status::ReceiveBlocked => Some(self.receive_blocked),
            Status::SendBlocked => Some(self.send_blocked),
            Status::ReplyBlocked => Some(self.reply_blocked),
            Status::FlagBlockedAny => Some(self.flag_blocked_any),
            Status::FlagBlockedAll => Some(self.flag_blocked_all),
            Status::MboxBlocked => Some(self.mbox_blocked),
            Status::Running => Some(self.running),
            Status::Pending => Some(self.pending),
            Status::Other => None,
        }
    }

    /// The state that this table names `raw`: the first state, in the order
    /// in which the states are declared, whose code is `raw`, and `Other`
    /// where no state has that code.
    pub open spec fn name_of(self, raw: i32) -> Status {
        if raw == self.stopped {
            Status::Stopped
        } else if raw == self.sleeping {
            Status::Sleeping
        } else if raw == self.mutex_blocked {
            Status::MutexBlocked
        } else if raw == self.receive_blocked {
            Status::ReceiveBlocked
        } else if raw == self.send_blocked {
            Status::SendBlocked
        } else if raw == self.reply_blocked {
            Status::ReplyBlocked
        } else if raw == self.flag_blocked_any {
            Status::FlagBlockedAny
        } else if raw == self.flag_blocked_all {
            Status::FlagBlockedAll
        } else if raw == self.mbox_blocked {
            Status::MboxBlocked
        } else if raw == self.running {
            Status::Running
        } else if raw == self.pending {
            Status::Pending
        } else {
            Status::Other
        }
    }

    /// Whether no two named states share a code.
    pub open spec fn distinct(self) -> bool {
        forall|a: Status, b: Status|
            a != b && a != Status::Other && b != Status::Other ==> #[trigger] self.code_of(a)
                != #[trigger] self.code_of(b)
    }

    /// Whether some named state has the code `raw`.
    pub open spec fn recognizes(self, raw: i32) -> bool {
        exists|status: Status| self.code_of(status) == Some(raw)
    }
}

impl Status {
    /// The place of a state in the order in which the states are declared.
    pub open spec fn rank(self) -> nat {
        match self {
            Status::Stopped => 0,
            Status::Sleeping => 1,
            Status::MutexBlocked => 2,
            Status::ReceiveBlocked => 3,
            Status::SendBlocked => 4,
            Status::ReplyBlocked => 5,
            Status::FlagBlockedAny => 6,
            Status::FlagBlockedAll => 7,
            Status::MboxBlocked => 8,
            Status::Running => 9,
            Status::Pending => 10,
            Status::Other => 11,
        }
    }

    /// Whether `self` is the name that `codes` gives to `raw`, said without
    /// going through the table: `self` has the code `raw` unless it is
    /// `Other`, and no state declared before it has.
    pub open spec fn names(self, raw: i32, codes: StatusCodes) -> bool {
        &&& self != Status::Other ==> codes.code_of(self) == Some(raw)
        &&& forall|other: Status| #[trigger]
            codes.code_of(other) == Some(raw) ==> self.rank() <= other.rank()
    }

    /// Names a raw status code of the kernel.
    ///
    /// A code that the table does not hold gives `Other`.
    pub fn from_int(status: i32, codes: &StatusCodes) -> (r: Status)
        ensures
            r == codes.name_of(status),
            r.names(status, *codes),
            r == Status::Other <==> !codes.recognizes(status),
    {
        let r = if status == codes.stopped {
            Status::Stopped
        } else if status == codes.sleeping {
            Status::Sleeping
        } else if status == codes.mutex_blocked {
            Status::MutexBlocked
        } else if status == codes.receive_blocked {
            Status::ReceiveBlocked
        } else if status == codes.send_blocked {
            Status::SendBlocked
        } else if status == codes.reply_blocked {
            Status::ReplyBlocked
        } else if status == codes.flag_blocked_any {
            Status::FlagBlockedAny
        } else if status == codes.flag_blocked_all {
            Status::FlagBlockedAll
        } else if status == codes.mbox_blocked {
            Status::MboxBlocked
        } else if status == codes.running {
            Status::Running
        } else if status == codes.pending {
            Status::Pending
        } else {
            Status::Other
        };
        assert(r != Status::Other ==> codes.code_of(r) == Some(status));
        r
    }
}

/// A raw code has exactly one name: what meets [`Status::names`] is what the
/// table gives.
pub proof fn lemma_name_is_unique(codes: StatusCodes, raw: i32, status: Status)
    ensures
        status.names(raw, codes) <==> status == codes.name_of(raw),
{
    let named = codes.name_of(raw);
    if named != Status::Other {
        assert(codes.code_of(named) == Some(raw));
    }
    if status.names(raw, codes) && status != named {
        if status != Status::Other {
            assert(codes.code_of(status) == Some(raw));
        }
    }
}

/// A code that the table does not hold is named `Other`, and no other code
/// is.
pub proof fn lemma_other_iff_unrecognized(codes: StatusCodes, raw: i32)
    ensures
        codes.name_of(raw) == Status::Other <==> !codes.recognizes(raw),
{
    let named = codes.name_of(raw);
    if named != Status::Other {
        assert(codes.code_of(named) == Some(raw));
    }
}

/// Where no two states share a code, each named state is what its own code
/// is named.
pub proof fn lemma_distinct_codes_name_their_states(codes: StatusCodes, status: Status)
    requires
        codes.distinct(),
        status != Status::Other,
    ensures
        codes.name_of(codes.code_of(status).unwrap()) == status,
{
    let raw = codes.code_of(status).unwrap();
    let named = codes.name_of(raw);
    assert(codes.code_of(status) == Some(raw));
    if named != status {
        assert(codes.code_of(named) == Some(raw));
    }
}

} // verus!
