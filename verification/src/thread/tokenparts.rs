//! Tokens by which a thread shows what it has not done yet.
//!
//! Some steps may be taken once in the life of a thread, and some rule out
//! that the thread ever ends. A thread is handed a [`StartToken`] when it
//! starts. Each such step takes the token, or the part of it that stands for
//! the step, by value and gives back what is left, so that a second attempt
//! does not compile. To end, the thread has to hand in an [`EndToken`], and
//! that is made only from a token which still holds the right to end.
//!
//! None of the tokens takes up memory, and nothing is tested while the
//! program runs.

use vstd::prelude::*;
use core::marker::PhantomData;
use std::rc::Rc;

verus! {

/// A [`StartToken`] from which some parts may have been taken.
///
/// The three parameters say what is still there: the right to decide how the
/// thread's messages are read, the right to install a message queue, and the
/// right to decide how the thread's flags are read.
pub struct TokenParts<
    const MSG_SEMANTICS: bool,
    const MSG_QUEUE: bool,
    const FLAG_SEMANTICS: bool,
> {
    _not_send: PhantomData<Rc<()>>,
}

/// The result of what never comes back. There is no value of this type.
pub type Never = core::convert::Infallible;

/// What a thread is given when it starts: nothing that can be done once
/// only has been done yet.
pub type StartToken = TokenParts<true, true, true>;

/// What a thread hands in to end and to leave a value behind: nothing has
/// been done that the thread's end would break.
pub struct TerminationToken<T> {
    value: T,
    _not_send: PhantomData<Rc<()>>,
}

/// What a thread hands in to end.
pub type EndToken = TerminationToken<()>;

/// The right to decide how the messages sent to the thread are read, taken
/// from a token by [`TokenParts::take_msg_semantics`].
pub struct MessageSemantics {
    _not_send: PhantomData<Rc<()>>,
}

/// The right to decide how the flags set on the thread are read, taken from
/// a token by [`TokenParts::take_flag_semantics`].
pub struct FlagSemantics {
    _not_send: PhantomData<Rc<()>>,
}

/// Shows that the code that holds it runs in a thread.
#[derive(Debug, Clone, Copy)]
pub struct InThread {
    _not_send: PhantomData<Rc<()>>,
}

/// Shows that the code that holds it runs in an interrupt.
#[derive(Debug, Clone, Copy)]
pub struct InIsr {
    _not_send: PhantomData<Rc<()>>,
}

/// A value together with the knowledge that the code holding it runs in a
/// thread.
pub struct ValueInThread<T> {
    value: T,
    in_thread: InThread,
}

impl<const MSG_SEMANTICS: bool, const MSG_QUEUE: bool, const FLAG_SEMANTICS: bool> TokenParts<
    MSG_SEMANTICS,
    MSG_QUEUE,
    FLAG_SEMANTICS,
> {
    /// Whoever holds a token runs in a thread.
    pub fn in_thread(&self) -> InThread {
        InThread { _not_send: PhantomData }
    }
}

impl<const MSG_QUEUE: bool, const FLAG_SEMANTICS: bool> TokenParts<
    true,
    MSG_QUEUE,
    FLAG_SEMANTICS,
> {
    /// Takes out the right to decide how the thread's messages are read.
    pub fn take_msg_semantics(self) -> (
        TokenParts<false, MSG_QUEUE, FLAG_SEMANTICS>,
        MessageSemantics,
    ) {
        (TokenParts { _not_send: PhantomData }, MessageSemantics { _not_send: PhantomData })
    }
}

impl<const MSG_SEMANTICS: bool, const MSG_QUEUE: bool> TokenParts<MSG_SEMANTICS, MSG_QUEUE, true> {
    /// Takes out the right to decide how the thread's flags are read.
    pub fn take_flag_semantics(self) -> (
        TokenParts<MSG_SEMANTICS, MSG_QUEUE, false>,
        FlagSemantics,
    ) {
        (TokenParts { _not_send: PhantomData }, FlagSemantics { _not_send: PhantomData })
    }
}

impl<const MSG_SEMANTICS: bool, const FLAG_SEMANTICS: bool> TokenParts<
    MSG_SEMANTICS,
    true,
    FLAG_SEMANTICS,
> {
    /// Runs `f` as the rest of the thread, which has a message queue on its
    /// stack, and hands back what `f` returns. No value is of that type: `f`
    /// has to run for ever, and its token gives no right to end the thread.
    pub fn with_message_queue<
        F: FnOnce(TokenParts<MSG_SEMANTICS, false, FLAG_SEMANTICS>) -> Never,
    >(self, f: F) -> (r: Never)
        requires
            forall|token: TokenParts<MSG_SEMANTICS, false, FLAG_SEMANTICS>|
                call_requires(f, (token,)),
        ensures
            exists|token: TokenParts<MSG_SEMANTICS, false, FLAG_SEMANTICS>|
                call_ensures(f, (token,), r),
    {
        f(TokenParts { _not_send: PhantomData })
    }

    /// States that the thread may end: no message queue was installed.
    pub fn can_end(self) -> (r: EndToken)
        ensures
            r.value() == (),
    {
        TerminationToken { value: (), _not_send: PhantomData }
    }

    /// States that the thread may end and leave `value` behind.
    pub fn can_end_with<T>(self, value: T) -> (r: TerminationToken<T>)
        ensures
            r.value() == value,
    {
        TerminationToken { value, _not_send: PhantomData }
    }
}

impl<T> TerminationToken<T> {
    /// The value that the thread leaves behind.
    pub closed spec fn value(self) -> T {
        self.value
    }

    /// Takes the value that the thread left behind.
    fn into_inner(self) -> (r: T)
        ensures
            r == self.value(),
    {
        self.value
    }
}

impl InThread {
    /// Tells a thread from an interrupt: `irq_is_in` is the kernel's answer
    /// to whether an interrupt is being served.
    pub fn new(irq_is_in: bool) -> (r: Result<InThread, InIsr>)
        ensures
            r is Ok <==> !irq_is_in,
    {
        if irq_is_in {
            Err(InIsr { _not_send: PhantomData })
        } else {
            Ok(InThread { _not_send: PhantomData })
        }
    }

    /// Joins a value to the knowledge of running in a thread.
    pub fn promote<T>(self, value: T) -> (r: ValueInThread<T>)
        ensures
            r.value() == value,
    {
        ValueInThread { value, in_thread: self }
    }
}

impl InIsr {
    /// Tells an interrupt from a thread: `irq_is_in` is the kernel's answer
    /// to whether an interrupt is being served.
    pub fn new(irq_is_in: bool) -> (r: Result<InIsr, InThread>)
        ensures
            r is Ok <==> irq_is_in,
    {
        match InThread::new(irq_is_in) {
            Ok(i) => Err(i),
            Err(i) => Ok(i),
        }
    }
}

impl<T> ValueInThread<T> {
    /// The value that is held.
    pub closed spec fn value(self) -> T {
        self.value
    }

    /// The knowledge of running in a thread, without the value.
    pub fn in_thread(&self) -> InThread {
        self.in_thread
    }

    /// The value, by reference.
    pub fn get(&self) -> (r: &T)
        ensures
            *r == self.value(),
    {
        &self.value
    }

    /// The value, without the knowledge of running in a thread.
    pub fn into_inner(self) -> (r: T)
        ensures
            r == self.value(),
    {
        self.value
    }
}

/// Runs the body of a thread that has just started: hands it the one
/// [`StartToken`] of its life and takes the value it ends with.
///
/// This is where a thread's entry point is held to its shape. The body
/// cannot return without a [`TerminationToken`], and can make one only from
/// a token that still holds the right to end.
pub fn with_start_token<T, F: FnOnce(StartToken) -> TerminationToken<T>>(body: F) -> (r: T)
    requires
        forall|start: StartToken| call_requires(body, (start,)),
    ensures
        exists|start: StartToken, end: TerminationToken<T>|
            call_ensures(body, (start,), end) && r == end.value(),
{
    let end = body(TokenParts { _not_send: PhantomData });
    end.into_inner()
}

} // verus!
