//! The bridge between the accept loop's runtime and the protocol engine's
//! conventions: the listener that turns accept results into a sequence of
//! connections, and the stateless proxy around one accepted connection.

use vstd::prelude::*;
use crate::stream::{Op, Outcome};

verus! {

/// How an accept error bears on the listening socket.
#[derive(Clone, Copy, Debug, PartialEq, Eq, Structural)]
pub enum AcceptFault {
    /// The socket is still listening; a later accept may succeed.
    Transient,
    /// The socket no longer listens.
    Fatal,
}

/// The code for "not enough memory", as Linux numbers it.
pub const ENOMEM: i32 = 12;

/// The code for "too many open files in the system", as Linux numbers it.
pub const ENFILE: i32 = 23;

/// The code for "too many open files in this process", as Linux numbers it.
pub const EMFILE: i32 = 24;

/// The code for "no buffer space available", as Linux numbers it.
pub const ENOBUFS: i32 = 105;

/// An accept error is transient exactly when the operating system reports
/// that a resource ran out, by one of the four codes above.
pub open spec fn fault_of(os_code: Option<i32>) -> AcceptFault {
    match os_code {
        Some(code) => if code == ENOMEM || code == ENFILE || code == EMFILE || code == ENOBUFS {
            AcceptFault::Transient
        } else {
            AcceptFault::Fatal
        },
        None => AcceptFault::Fatal,
    }
}

/// Classifies an accept error by the code the operating system gave for it,
/// if it gave one.
pub fn classify_accept_error(os_code: Option<i32>) -> (fault: AcceptFault)
    ensures
        fault == fault_of(os_code),
{
    match os_code {
        Some(code) => {
            if code == ENOMEM || code == ENFILE || code == EMFILE || code == ENOBUFS {
                AcceptFault::Transient
            } else {
                AcceptFault::Fatal
            }
        },
        None => AcceptFault::Fatal,
    }
}

/// What one non-blocking accept on the listening socket reported.
#[derive(Debug, PartialEq, Eq)]
pub enum Accepted<C, E> {
    /// No connection is waiting.
    Pending,
    /// A peer connected; the connection is now ours.
    Connection(C),
    /// The accept failed.
    Error(AcceptFault, E),
}

/// What the listener's sequence does next.
#[derive(Debug, PartialEq, Eq)]
pub enum Accepting<T, E> {
    /// Nothing to yield yet.
    Pending,
    /// The next item of the sequence.
    Yield(T),
    /// A transient error: to be logged, after which the accept is tried again.
    Retry(E),
    /// The sequence has ended, with the fatal error that ended it, or with
    /// none if it had ended before.
    Closed(Option<E>),
}

/// The native operation that serves an operation of the byte-stream capability.
#[derive(Clone, Copy, Debug, PartialEq, Eq, Structural)]
pub enum NativeOp {
    /// A non-blocking read into the unfilled part of the caller's storage.
    Read,
    /// A non-blocking write of the caller's bytes.
    Write,
    /// A flush.
    Flush,
    /// Closing the connection's write side.
    Close,
}

/// The accounting of the storage a caller supplies for a read: how many bytes
/// it holds in all, and how many of them are filled already.
#[derive(Clone, Copy, Debug, PartialEq, Eq, Structural)]
pub struct ReadWindow {
    pub capacity: usize,
    pub filled: usize,
}

impl ReadWindow {
    /// No more is filled than there is room for.
    pub open spec fn wf(self) -> bool {
        self.filled <= self.capacity
    }

    /// The room that is left.
    pub open spec fn spec_remaining(self) -> nat {
        if self.filled <= self.capacity {
            (self.capacity - self.filled) as nat
        } else {
            0
        }
    }

    /// A window over `capacity` bytes of storage, none of them filled.
    pub fn new(capacity: usize) -> (w: ReadWindow)
        ensures
            w == (ReadWindow { capacity, filled: 0 }),
            w.wf(),
    {
        ReadWindow { capacity, filled: 0 }
    }

    /// The room that is left; none where more is marked filled than fits.
    pub fn remaining(&self) -> (n: usize)
        ensures
            n == self.spec_remaining(),
    {
        if self.filled <= self.capacity {
            self.capacity - self.filled
        } else {
            0
        }
    }
}

/// The stateless proxy around one accepted connection.
#[derive(Debug, PartialEq, Eq)]
pub struct HyperStream<C>(pub C);

/// What a read through the proxy reports for a native read's outcome, and the
/// window after it: a completed read of `n` bytes fills `n` more bytes and
/// nothing else changes anything.
pub open spec fn read_step<E>(window: ReadWindow, native: Outcome<usize, E>) -> (
    ReadWindow,
    Outcome<(), E>,
) {
    match native {
        Outcome::Pending => (window, Outcome::Pending),
        Outcome::Ready(n) => (
            ReadWindow { capacity: window.capacity, filled: (window.filled + n) as usize },
            Outcome::Ready(()),
        ),
        Outcome::Failed(e) => (window, Outcome::Failed(e)),
    }
}

impl<C> HyperStream<C> {
    /// The native operation that serves `op`: each operation is served by its
    /// namesake, and the half-close by closing the connection.
    pub open spec fn native_of(op: Op) -> NativeOp {
        match op {
            Op::Read => NativeOp::Read,
            Op::Write => NativeOp::Write,
            Op::Flush => NativeOp::Flush,
            Op::Shutdown => NativeOp::Close,
        }
    }

    /// Wraps an accepted connection.
    pub fn new(connection: C) -> (s: Self)
        ensures
            s.0 == connection,
    {
        HyperStream(connection)
    }

    /// The native operation to perform on the connection for `op`.
    pub fn delegate(op: Op) -> (native: NativeOp)
        ensures
            native == Self::native_of(op),
    {
        match op {
            Op::Read => NativeOp::Read,
            Op::Write => NativeOp::Write,
            Op::Flush => NativeOp::Flush,
            Op::Shutdown => NativeOp::Close,
        }
    }

    /// Accounts for a native read into the unfilled part of the caller's
    /// storage: on completion the bytes read count as filled, in the order
    /// the connection delivered them; a pending or failed read is reported as
    /// it is and fills nothing.
    pub fn poll_read<E>(window: &mut ReadWindow, native: Outcome<usize, E>) -> (r: Outcome<(), E>)
        requires
            old(window).wf(),
            native matches Outcome::Ready(n) ==> n <= old(window).spec_remaining(),
        ensures
            (*final(window), r) == read_step(*old(window), native),
            final(window).wf(),
    {
        match native {
            Outcome::Pending => Outcome::Pending,
            Outcome::Ready(n) => {
                window.filled = window.filled + n;
                Outcome::Ready(())
            },
            Outcome::Failed(e) => Outcome::Failed(e),
        }
    }
}

/// The listener: owns the native sequence of incoming connections and turns
/// what each accept reports into the next step of a sequence that, once
/// ended, stays ended.
#[derive(Debug)]
pub struct HyperListener<L> {
    incoming: L,
    ended: bool,
}

/// The listener's step: whether the sequence has ended after `event`, and
/// what it does next.
pub open spec fn accept_step<C, E>(ended: bool, event: Accepted<C, E>) -> (
    bool,
    Accepting<HyperStream<C>, E>,
) {
    if ended {
        (true, Accepting::Closed(None))
    } else {
        match event {
            Accepted::Pending => (false, Accepting::Pending),
            Accepted::Connection(c) => (false, Accepting::Yield(HyperStream(c))),
            Accepted::Error(AcceptFault::Transient, e) => (false, Accepting::Retry(e)),
            Accepted::Error(AcceptFault::Fatal, e) => (true, Accepting::Closed(Some(e))),
        }
    }
}

impl<L> HyperListener<L> {
    /// The native sequence of incoming connections.
    pub closed spec fn incoming(&self) -> L {
        self.incoming
    }

    /// Whether the sequence has ended.
    pub closed spec fn ended(&self) -> bool {
        self.ended
    }

    /// A listener over the native sequence of a bound socket.
    pub fn new(incoming: L) -> (listener: Self)
        ensures
            listener.incoming() == incoming,
            !listener.ended(),
    {
        HyperListener { incoming, ended: false }
    }

    /// Whether the sequence has ended.
    pub fn is_ended(&self) -> (r: bool)
        ensures
            r == self.ended(),
    {
        self.ended
    }

    /// The native sequence, to be polled for the next accept.
    pub fn incoming_mut(&mut self) -> (native: &mut L)
        ensures
            *native == old(self).incoming(),
            final(self).incoming() == *final(native),
            final(self).ended() == old(self).ended(),
    {
        &mut self.incoming
    }

    /// Takes what one accept reported and says what the sequence does next:
    /// a connection is yielded, wrapped, to the caller, who owns it from then
    /// on; a transient error is handed out to be logged and the accept tried
    /// again; a fatal error ends the sequence. After the end nothing is
    /// yielded any more, and what is reported is dropped.
    pub fn poll_accept<C, E>(&mut self, event: Accepted<C, E>) -> (r: Accepting<HyperStream<C>, E>)
        ensures
            (final(self).ended(), r) == accept_step(old(self).ended(), event),
            final(self).incoming() == old(self).incoming(),
    {
        if self.ended {
            return Accepting::Closed(None);
        }
        match event {
            Accepted::Pending => Accepting::Pending,
            Accepted::Connection(c) => Accepting::Yield(HyperStream::new(c)),
            Accepted::Error(fault, e) => {
                match fault {
                    AcceptFault::Transient => Accepting::Retry(e),
                    AcceptFault::Fatal => {
                        self.ended = true;
                        Accepting::Closed(Some(e))
                    },
                }
            },
        }
    }
}

} // verus!
