//! One acceptor and one connection type for both configurations: with a
//! server identity every connection gets a TLS handshake in front of it,
//! without one it is handed on as it was accepted. The protocol engine is
//! written once, against these.

use std::sync::Arc;
use vstd::prelude::*;
use crate::compat::{accept_step, Accepted, Accepting, HyperListener, HyperStream};
use crate::stream::Op;
use crate::tls::{directive, Directive, State, TlsAcceptor, TlsStream};

verus! {

/// A connection the acceptor takes in, as it leaves the accept loop.
#[derive(Debug, PartialEq, Eq)]
pub enum Admission<C, I> {
    /// To be served as it is.
    Plain(HyperStream<C>),
    /// To be served behind a handshake with this identity.
    Secure(HyperStream<C>, Arc<I>),
}

/// The admission of a connection under a configuration: secured exactly when
/// an identity is configured.
pub open spec fn admission<C, I>(tls: Option<Arc<I>>, stream: HyperStream<C>) -> Admission<C, I> {
    match tls {
        Some(config) => Admission::Secure(stream, config),
        None => Admission::Plain(stream),
    }
}

/// The acceptor's step under a configuration: the listener's step, with
/// every yielded connection taken in under the configuration.
pub open spec fn admission_step<C, E, I>(ended: bool, tls: Option<Arc<I>>, event: Accepted<C, E>) -> (
    bool,
    Accepting<Admission<C, I>, E>,
) {
    let (ended_after, step) = accept_step(ended, event);
    (
        ended_after,
        match step {
            Accepting::Pending => Accepting::Pending,
            Accepting::Yield(stream) => Accepting::Yield(admission(tls, stream)),
            Accepting::Retry(e) => Accepting::Retry(e),
            Accepting::Closed(e) => Accepting::Closed(e),
        },
    )
}

/// The acceptor of either configuration.
#[derive(Debug)]
pub enum Acceptor<L, I> {
    /// No identity is configured: connections are served in plaintext.
    Plain(HyperListener<L>),
    /// An identity is configured: connections are served over TLS.
    Secure(TlsAcceptor<L, I>),
}

impl<L, I> Acceptor<L, I> {
    /// The identity connections are secured with, if any.
    pub open spec fn tls(&self) -> Option<Arc<I>> {
        match self {
            Acceptor::Plain(_) => None,
            Acceptor::Secure(acceptor) => Some(acceptor.config()),
        }
    }

    /// The listener whose connections are taken in.
    pub open spec fn listener(&self) -> HyperListener<L> {
        match self {
            Acceptor::Plain(listener) => *listener,
            Acceptor::Secure(acceptor) => acceptor.listener(),
        }
    }

    /// The acceptor for a listener and the configured identity, if there is
    /// one: the configuration alone selects between the two.
    pub fn new(listener: HyperListener<L>, tls: Option<Arc<I>>) -> (acceptor: Self)
        ensures
            acceptor.tls() == tls,
            acceptor.listener() == listener,
            tls is None <==> acceptor is Plain,
    {
        match tls {
            Some(config) => Acceptor::Secure(TlsAcceptor::new(config, listener)),
            None => Acceptor::Plain(listener),
        }
    }

    /// The listener, to be polled for the next accept.
    pub fn listener_mut(&mut self) -> (listener: &mut HyperListener<L>)
        ensures
            *listener == old(self).listener(),
            final(self).listener() == *final(listener),
            final(self).tls() == old(self).tls(),
    {
        match self {
            Acceptor::Plain(listener) => listener,
            Acceptor::Secure(acceptor) => acceptor.listener_mut(),
        }
    }

    /// Takes what one accept reported and says what the sequence does next.
    pub fn poll_accept<C, E>(&mut self, event: Accepted<C, E>) -> (r: Accepting<Admission<C, I>, E>)
        ensures
            final(self).tls() == old(self).tls(),
            final(self).listener().incoming() == old(self).listener().incoming(),
            (final(self).listener().ended(), r) == admission_step(
                old(self).listener().ended(),
                old(self).tls(),
                event,
            ),
    {
        match self {
            Acceptor::Plain(listener) => {
                match listener.poll_accept(event) {
                    Accepting::Pending => Accepting::Pending,
                    Accepting::Yield(stream) => Accepting::Yield(Admission::Plain(stream)),
                    Accepting::Retry(e) => Accepting::Retry(e),
                    Accepting::Closed(e) => Accepting::Closed(e),
                }
            },
            Acceptor::Secure(acceptor) => {
                match acceptor.poll_accept(event) {
                    Accepting::Pending => Accepting::Pending,
                    Accepting::Yield((stream, config)) => Accepting::Yield(
                        Admission::Secure(stream, config),
                    ),
                    Accepting::Retry(e) => Accepting::Retry(e),
                    Accepting::Closed(e) => Accepting::Closed(e),
                }
            },
        }
    }
}

/// A connection of either configuration, as the protocol engine holds it.
#[derive(Debug)]
pub enum Connection<C, H, S> {
    /// A plaintext connection.
    Plain(HyperStream<C>),
    /// A connection behind a TLS handshake.
    Secure(TlsStream<H, S>),
}

/// What a connection of either configuration holds.
pub enum Link<C, H, S> {
    /// The raw connection.
    Plain(C),
    /// The pending handshake or the encrypted stream.
    Secure(State<H, S>),
}

impl<C, H, S> Link<C, H, S> {
    /// The first thing to do for `op` on a connection: a plaintext connection
    /// performs it at once, a secured one follows its phase.
    pub open spec fn directive_of(self, op: Op) -> Directive {
        match self {
            Link::Plain(_) => Directive::Forward(op),
            Link::Secure(state) => directive(state.phase(), op),
        }
    }
}

impl<C, H, S> Connection<C, H, S> {
    /// What the connection holds.
    pub open spec fn link(&self) -> Link<C, H, S> {
        match self {
            Connection::Plain(stream) => Link::Plain(stream.0),
            Connection::Secure(stream) => Link::Secure(stream.state()),
        }
    }

    /// The first thing to do for `op` on the connection.
    pub open spec fn directive_of(&self, op: Op) -> Directive {
        self.link().directive_of(op)
    }

    /// The first thing to do for `op`.
    pub fn begin(&self, op: Op) -> (d: Directive)
        ensures
            d == self.directive_of(op),
            self is Plain ==> d == Directive::Forward(op),
    {
        match self {
            Connection::Plain(_) => Directive::Forward(op),
            Connection::Secure(stream) => stream.begin(op),
        }
    }
}

/// The configuration alone decides how a connection is taken in: while the
/// sequence has not ended, every accepted connection is yielded once, as it
/// is where no identity is configured, and beside the configured identity
/// where one is.
pub proof fn lemma_configuration_decides<C, E, I>(tls: Option<Arc<I>>, connection: C)
    ensures
        admission_step::<C, E, I>(false, tls, Accepted::Connection(connection)) == (
            false,
            Accepting::<Admission<C, I>, E>::Yield(admission(tls, HyperStream(connection))),
        ),
        tls is None ==> admission(tls, HyperStream(connection)) == Admission::<C, I>::Plain(
            HyperStream(connection),
        ),
        tls matches Some(config) ==> admission(tls, HyperStream(connection))
            == Admission::<C, I>::Secure(HyperStream(connection), config),
{
}

/// With an identity configured, no connection leaves the acceptor without a
/// handshake in front of it, whatever the accept reported.
pub proof fn lemma_identity_secures_every_connection<C, E, I>(
    ended: bool,
    config: Arc<I>,
    event: Accepted<C, E>,
)
    ensures
        admission_step(ended, Some(config), event).1 matches Accepting::Yield(taken_in)
            ==> taken_in is Secure,
{
}

/// Once the sequence of connections has ended it stays ended, and yields
/// nothing more.
pub proof fn lemma_ended_stays_ended<C, E, I>(tls: Option<Arc<I>>, event: Accepted<C, E>)
    ensures
        admission_step(true, tls, event) == (true, Accepting::<Admission<C, I>, E>::Closed(None)),
{
}

} // verus!
