//! The handshake-then-stream state machine that puts TLS in front of a
//! connection without the protocol engine noticing, and the acceptor that
//! starts one such machine for every connection the listener yields.

use std::sync::Arc;
use vstd::prelude::*;
use crate::compat::{Accepted, Accepting, HyperListener, HyperStream};
use crate::stream::Op;

verus! {

/// The two phases of a stream's life.
#[derive(Clone, Copy, Debug, PartialEq, Eq, Structural)]
pub enum Phase {
    /// The handshake has not completed.
    Handshaking,
    /// The handshake completed; every operation goes to the encrypted stream.
    Streaming,
}

/// What a stream holds: the pending handshake operation, or the established
/// encrypted stream that the handshake produced. There is no third state: a
/// stream is closed by dropping it.
#[derive(Debug, PartialEq, Eq)]
pub enum State<H, S> {
    /// The pending handshake operation over the wrapped connection.
    Handshaking(H),
    /// The established encrypted stream.
    Streaming(S),
}

impl<H, S> State<H, S> {
    /// The phase this state belongs to.
    pub open spec fn phase(self) -> Phase {
        match self {
            State::Handshaking(_) => Phase::Handshaking,
            State::Streaming(_) => Phase::Streaming,
        }
    }
}

/// What the adapter does first when the protocol engine asks for an operation.
#[derive(Clone, Copy, Debug, PartialEq, Eq, Structural)]
pub enum Directive {
    /// Drive the handshake operation forward by one non-blocking step and
    /// report what it said.
    DriveHandshake,
    /// Perform the operation on the established stream and report its result
    /// as it is.
    Forward(Op),
    /// Report success without touching anything: nothing is buffered before
    /// the handshake has produced a stream. This confirms no delivery.
    Complete,
}

/// What one non-blocking step of the handshake operation reported.
#[derive(Debug, PartialEq, Eq)]
pub enum HandshakePoll<S, E> {
    /// The handshake needs more from the peer.
    Pending,
    /// The handshake completed and produced the encrypted stream.
    Established(S),
    /// The handshake failed.
    Failed(E),
}

/// What the adapter does after the handshake was driven.
#[derive(Debug, PartialEq, Eq)]
pub enum Resolution<E> {
    /// Report "would block"; the caller retries the same operation when woken.
    WouldBlock,
    /// Perform the operation that was asked for on the encrypted stream, now,
    /// and report its result as it is.
    Forward(Op),
    /// Report the error as it is.
    Fail(E),
}

/// The first thing to do for `op` in `phase`. While handshaking, reads and
/// writes drive the handshake, and flush and shutdown succeed at once; while
/// streaming, every operation goes to the encrypted stream.
pub open spec fn directive(phase: Phase, op: Op) -> Directive {
    match phase {
        Phase::Streaming => Directive::Forward(op),
        Phase::Handshaking => if op.moves_bytes() {
            Directive::DriveHandshake
        } else {
            Directive::Complete
        },
    }
}

/// The state after the handshake reported `poll` while `op` was asked for,
/// and what the adapter does then. A handshake that completes moves the
/// stream to streaming and has the very operation that triggered it performed
/// on the new stream; a pending or failed handshake leaves the state alone.
/// A stream that is streaming already stays so, whatever is reported.
pub open spec fn resolve<H, S, E>(state: State<H, S>, op: Op, poll: HandshakePoll<S, E>) -> (
    State<H, S>,
    Resolution<E>,
) {
    match state {
        State::Streaming(_) => (state, Resolution::Forward(op)),
        State::Handshaking(_) => match poll {
            HandshakePoll::Pending => (state, Resolution::WouldBlock),
            HandshakePoll::Established(stream) => (State::Streaming(stream), Resolution::Forward(op)),
            HandshakePoll::Failed(e) => (state, Resolution::Fail(e)),
        },
    }
}

/// A byte stream with a TLS handshake in front of it. It starts out
/// handshaking and moves to streaming once, when the handshake completes.
#[derive(Debug)]
pub struct TlsStream<H, S> {
    state: State<H, S>,
}

impl<H, S> TlsStream<H, S> {
    /// What the stream holds.
    pub closed spec fn state(&self) -> State<H, S> {
        self.state
    }

    /// A stream that is handshaking, from the handshake operation that the TLS
    /// engine made of the wrapped connection and the server's identity.
    pub fn new(handshake: H) -> (stream: Self)
        ensures
            stream.state() == State::<H, S>::Handshaking(handshake),
    {
        TlsStream { state: State::Handshaking(handshake) }
    }

    /// The phase the stream is in.
    pub fn phase(&self) -> (phase: Phase)
        ensures
            phase == self.state().phase(),
    {
        match &self.state {
            State::Handshaking(_) => Phase::Handshaking,
            State::Streaming(_) => Phase::Streaming,
        }
    }

    /// The first thing to do for `op`.
    pub fn begin(&self, op: Op) -> (d: Directive)
        ensures
            d == directive(self.state().phase(), op),
    {
        match &self.state {
            State::Streaming(_) => Directive::Forward(op),
            State::Handshaking(_) => {
                if op.carries_bytes() {
                    Directive::DriveHandshake
                } else {
                    Directive::Complete
                }
            },
        }
    }

    /// The first thing to do for a read.
    pub fn poll_read(&self) -> (d: Directive)
        ensures
            d == directive(self.state().phase(), Op::Read),
            self.state().phase() is Handshaking ==> d == Directive::DriveHandshake,
            self.state().phase() is Streaming ==> d == Directive::Forward(Op::Read),
    {
        self.begin(Op::Read)
    }

    /// The first thing to do for a write.
    pub fn poll_write(&self) -> (d: Directive)
        ensures
            d == directive(self.state().phase(), Op::Write),
            self.state().phase() is Handshaking ==> d == Directive::DriveHandshake,
            self.state().phase() is Streaming ==> d == Directive::Forward(Op::Write),
    {
        self.begin(Op::Write)
    }

    /// The first thing to do for a flush.
    pub fn poll_flush(&self) -> (d: Directive)
        ensures
            d == directive(self.state().phase(), Op::Flush),
            self.state().phase() is Handshaking ==> d == Directive::Complete,
            self.state().phase() is Streaming ==> d == Directive::Forward(Op::Flush),
    {
        self.begin(Op::Flush)
    }

    /// The first thing to do for a shutdown.
    pub fn poll_shutdown(&self) -> (d: Directive)
        ensures
            d == directive(self.state().phase(), Op::Shutdown),
            self.state().phase() is Handshaking ==> d == Directive::Complete,
            self.state().phase() is Streaming ==> d == Directive::Forward(Op::Shutdown),
    {
        self.begin(Op::Shutdown)
    }

    /// The pending handshake operation, to be driven; none once streaming.
    pub fn handshake_mut(&mut self) -> (r: Option<&mut H>)
        ensures
            old(self).state() is Streaming ==> r is None && final(self).state() == old(
                self,
            ).state(),
            old(self).state() matches State::Handshaking(h) ==> r matches Some(m) && *m == h
                && final(self).state() == State::<H, S>::Handshaking(*final(m)),
    {
        match &mut self.state {
            State::Handshaking(h) => Some(h),
            State::Streaming(_) => None,
        }
    }

    /// The established stream, to perform an operation on; none while
    /// handshaking.
    pub fn stream_mut(&mut self) -> (r: Option<&mut S>)
        ensures
            old(self).state() is Handshaking ==> r is None && final(self).state() == old(
                self,
            ).state(),
            old(self).state() matches State::Streaming(s) ==> r matches Some(m) && *m == s
                && final(self).state() == State::<H, S>::Streaming(*final(m)),
    {
        match &mut self.state {
            State::Handshaking(_) => None,
            State::Streaming(s) => Some(s),
        }
    }

    /// Takes what one step of the handshake reported while `op` was asked
    /// for, moves to streaming if the handshake completed, and says what to
    /// do for `op` now.
    pub fn handshake_polled<E>(&mut self, op: Op, poll: HandshakePoll<S, E>) -> (r: Resolution<E>)
        ensures
            (final(self).state(), r) == resolve(old(self).state(), op, poll),
            old(self).state().phase() is Streaming ==> final(self).state() == old(self).state(),
    {
        match self.phase() {
            Phase::Streaming => Resolution::Forward(op),
            Phase::Handshaking => {
                match poll {
                    HandshakePoll::Pending => Resolution::WouldBlock,
                    HandshakePoll::Established(stream) => {
                        self.state = State::Streaming(stream);
                        Resolution::Forward(op)
                    },
                    HandshakePoll::Failed(e) => Resolution::Fail(e),
                }
            },
        }
    }
}

/// Another handle to the same identity.
///
/// Calls `Arc::clone`, of which the standard library says that it makes
/// another pointer to the same allocation.
#[verifier::external_body]
fn share<I>(identity: &Arc<I>) -> (shared: Arc<I>)
    ensures
        shared == *identity,
{
    Arc::clone(identity)
}

/// The acceptor that puts a TLS handshake in front of every connection the
/// listener yields. The server's identity is loaded once and shared, read
/// only, by all handshakes.
#[derive(Debug)]
pub struct TlsAcceptor<L, I> {
    config: Arc<I>,
    listener: HyperListener<L>,
}

impl<L, I> TlsAcceptor<L, I> {
    /// The server's identity.
    pub closed spec fn config(&self) -> Arc<I> {
        self.config
    }

    /// The listener whose connections are wrapped.
    pub closed spec fn listener(&self) -> HyperListener<L> {
        self.listener
    }

    /// An acceptor over `listener` that handshakes with `config`.
    pub fn new(config: Arc<I>, listener: HyperListener<L>) -> (acceptor: Self)
        ensures
            acceptor.config() == config,
            acceptor.listener() == listener,
    {
        TlsAcceptor { config, listener }
    }

    /// The listener, to be polled for the next accept.
    pub fn listener_mut(&mut self) -> (listener: &mut HyperListener<L>)
        ensures
            *listener == old(self).listener(),
            final(self).listener() == *final(listener),
            final(self).config() == old(self).config(),
    {
        &mut self.listener
    }

    /// Takes what one accept reported and says what the sequence does next.
    /// A connection is yielded together with the server's identity, from
    /// which the TLS engine makes the handshake operation of a new
    /// [`TlsStream`]; everything else is the listener's own step.
    pub fn poll_accept<C, E>(&mut self, event: Accepted<C, E>) -> (r: Accepting<
        (HyperStream<C>, Arc<I>),
        E,
    >)
        ensures
            final(self).config() == old(self).config(),
            final(self).listener().incoming() == old(self).listener().incoming(),
            (final(self).listener().ended(), r) == secure_step(
                old(self).listener().ended(),
                old(self).config(),
                event,
            ),
    {
        match self.listener.poll_accept(event) {
            Accepting::Pending => Accepting::Pending,
            Accepting::Yield(stream) => Accepting::Yield((stream, share(&self.config))),
            Accepting::Retry(e) => Accepting::Retry(e),
            Accepting::Closed(e) => Accepting::Closed(e),
        }
    }
}

/// The acceptor's step: the listener's, with the identity put beside every
/// connection that is yielded.
pub open spec fn secure_step<C, E, I>(ended: bool, config: Arc<I>, event: Accepted<C, E>) -> (
    bool,
    Accepting<(HyperStream<C>, Arc<I>), E>,
) {
    let (ended_after, step) = crate::compat::accept_step(ended, event);
    (
        ended_after,
        match step {
            Accepting::Pending => Accepting::Pending,
            Accepting::Yield(stream) => Accepting::Yield((stream, config)),
            Accepting::Retry(e) => Accepting::Retry(e),
            Accepting::Closed(e) => Accepting::Closed(e),
        },
    )
}

} // verus!
