//! What the protocol engine observes over the life of a stream: a model of
//! whole calls, made of the decisions in [`crate::tls`], and what holds of
//! every sequence of them.

use vstd::prelude::*;
use crate::stream::{Op, Outcome};
use crate::tls::{directive, resolve, Directive, HandshakePoll, Resolution, State};
use crate::transport::Link;

verus! {

/// One call of the protocol engine on a stream, with what the world would
/// answer: what the handshake operation reports if it is driven, and what the
/// encrypted stream reports if the operation is performed on it (for a read
/// or a write, the number of bytes moved).
pub struct Call<S, E> {
    pub op: Op,
    pub handshake: HandshakePoll<S, E>,
    pub answer: Outcome<usize, E>,
}

/// What the caller is told after the handshake was driven.
pub open spec fn reply_to<E>(resolution: Resolution<E>, answer: Outcome<usize, E>) -> Outcome<
    usize,
    E,
> {
    match resolution {
        Resolution::WouldBlock => Outcome::Pending,
        Resolution::Forward(_) => answer,
        Resolution::Fail(e) => Outcome::Failed(e),
    }
}

/// One whole call: the state after it and what the caller is told.
pub open spec fn call<H, S, E>(state: State<H, S>, c: Call<S, E>) -> (
    State<H, S>,
    Outcome<usize, E>,
) {
    match directive(state.phase(), c.op) {
        Directive::Forward(_) => (state, c.answer),
        Directive::Complete => (state, Outcome::Ready(0)),
        Directive::DriveHandshake => {
            let (next, resolution) = resolve(state, c.op, c.handshake);
            (next, reply_to(resolution, c.answer))
        },
    }
}

/// Whether the call performs its operation on the encrypted stream.
pub open spec fn reaches_stream<H, S, E>(state: State<H, S>, c: Call<S, E>) -> bool {
    match directive(state.phase(), c.op) {
        Directive::Forward(_) => true,
        Directive::Complete => false,
        Directive::DriveHandshake => resolve(state, c.op, c.handshake).1 is Forward,
    }
}

/// The state after a sequence of calls, in the order they were issued.
pub open spec fn run<H, S, E>(state: State<H, S>, calls: Seq<Call<S, E>>) -> State<H, S>
    decreases calls.len(),
{
    if calls.len() == 0 {
        state
    } else {
        call(run(state, calls.drop_last()), calls.last()).0
    }
}

/// What the caller is told by the call at position `i` of a sequence.
pub open spec fn reply_at<H, S, E>(state: State<H, S>, calls: Seq<Call<S, E>>, i: int) -> Outcome<
    usize,
    E,
> {
    call(run(state, calls.take(i)), calls[i]).1
}

/// Whether the call at position `i` of a sequence performs its operation on
/// the encrypted stream.
pub open spec fn reaches_stream_at<H, S, E>(
    state: State<H, S>,
    calls: Seq<Call<S, E>>,
    i: int,
) -> bool {
    reaches_stream(run(state, calls.take(i)), calls[i])
}

/// While the handshake stays pending, a handshaking stream stays handshaking.
pub proof fn lemma_pending_keeps_handshaking<H, S, E>(state: State<H, S>, calls: Seq<Call<S, E>>)
    requires
        state.phase() is Handshaking,
        forall|i: int| 0 <= i < calls.len() ==> (#[trigger] calls[i]).handshake is Pending,
    ensures
        run(state, calls) == state,
    decreases calls.len(),
{
    if calls.len() > 0 {
        lemma_pending_keeps_handshaking(state, calls.drop_last());
    }
}

/// Every read and write issued against a handshaking stream before the
/// handshake completes is told "would block": none of them is told that zero
/// bytes, or any number of bytes, were moved, and the stream stays
/// handshaking.
pub proof fn lemma_reads_and_writes_block_until_handshake<H, S, E>(
    state: State<H, S>,
    calls: Seq<Call<S, E>>,
)
    requires
        state.phase() is Handshaking,
        forall|i: int|
            0 <= i < calls.len() ==> (#[trigger] calls[i]).handshake is Pending
                && calls[i].op.moves_bytes(),
    ensures
        forall|i: int|
            0 <= i < calls.len() ==> #[trigger] reply_at(state, calls, i) == Outcome::<
                usize,
                E,
            >::Pending,
        forall|i: int| 0 <= i < calls.len() ==> !(#[trigger] reply_at(state, calls, i) is Ready),
        run(state, calls).phase() is Handshaking,
{
    lemma_pending_keeps_handshaking(state, calls);
    assert forall|i: int| 0 <= i < calls.len() implies #[trigger] reply_at(state, calls, i)
        == Outcome::<usize, E>::Pending by {
        lemma_pending_keeps_handshaking(state, calls.take(i));
    }
}

/// The call whose drive of the handshake completes it is served as if the
/// stream had been streaming all along: the stream is streaming afterwards,
/// the operation reaches the new stream within the same call, and the caller
/// is told exactly what that stream answered.
pub proof fn lemma_completing_call_is_served<H, S, E>(state: State<H, S>, c: Call<S, E>, stream: S)
    requires
        state.phase() is Handshaking,
        c.op.moves_bytes(),
        c.handshake == HandshakePoll::<S, E>::Established(stream),
    ensures
        call(state, c) == (State::<H, S>::Streaming(stream), c.answer),
        call(state, c) == call(State::<H, S>::Streaming(stream), c),
        reaches_stream(state, c),
{
}

/// With a handshake that stays pending through the calls before position
/// `n` and completes at position `n`, the call at `n` is told what the new
/// stream answered to it, and every earlier read or write was told "would
/// block".
pub proof fn lemma_nth_call_is_served<H, S, E>(
    state: State<H, S>,
    calls: Seq<Call<S, E>>,
    n: int,
    stream: S,
)
    requires
        state.phase() is Handshaking,
        0 <= n < calls.len(),
        forall|i: int| 0 <= i < n ==> (#[trigger] calls[i]).handshake is Pending,
        calls[n].op.moves_bytes(),
        calls[n].handshake == HandshakePoll::<S, E>::Established(stream),
    ensures
        reply_at(state, calls, n) == calls[n].answer,
        reaches_stream_at(state, calls, n),
        run(state, calls.take(n + 1)) == State::<H, S>::Streaming(stream),
        forall|i: int|
            0 <= i < n && calls[i].op.moves_bytes() ==> #[trigger] reply_at(state, calls, i)
                == Outcome::<usize, E>::Pending,
{
    let before = calls.take(n);
    lemma_pending_keeps_handshaking(state, before);
    lemma_completing_call_is_served(state, calls[n], stream);
    let upto = calls.take(n + 1);
    assert(upto.drop_last() =~= before);
    assert(upto.last() == calls[n]);
    assert forall|i: int| 0 <= i < n && calls[i].op.moves_bytes() implies #[trigger] reply_at(
        state,
        calls,
        i,
    ) == Outcome::<usize, E>::Pending by {
        lemma_pending_keeps_handshaking(state, calls.take(i));
    }
}

/// One call never takes a streaming stream back to handshaking, nor changes
/// the stream it holds.
pub proof fn lemma_call_keeps_streaming<H, S, E>(state: State<H, S>, c: Call<S, E>)
    requires
        state.phase() is Streaming,
    ensures
        call(state, c).0 == state,
        call(state, c).1 == c.answer,
{
}

/// Once streaming, always streaming: no sequence of calls takes a stream back
/// to handshaking, and the encrypted stream it holds stays the same.
pub proof fn lemma_streaming_is_forever<H, S, E>(state: State<H, S>, calls: Seq<Call<S, E>>)
    requires
        state.phase() is Streaming,
    ensures
        run(state, calls) == state,
        run(state, calls).phase() is Streaming,
    decreases calls.len(),
{
    if calls.len() > 0 {
        lemma_streaming_is_forever(state, calls.drop_last());
    }
}

/// The phase only moves forward: whatever is called, a stream that has
/// reached streaming at some point of a sequence is streaming at every later
/// point.
pub proof fn lemma_phase_moves_forward<H, S, E>(
    state: State<H, S>,
    calls: Seq<Call<S, E>>,
    i: int,
    j: int,
)
    requires
        0 <= i <= j <= calls.len(),
        run(state, calls.take(i)).phase() is Streaming,
    ensures
        run(state, calls.take(j)) == run(state, calls.take(i)),
        run(state, calls.take(j)).phase() is Streaming,
    decreases j - i,
{
    if i < j {
        lemma_phase_moves_forward(state, calls, i, j - 1);
        let upto = calls.take(j);
        assert(upto.drop_last() =~= calls.take(j - 1));
        lemma_call_keeps_streaming(run(state, calls.take(j - 1)), upto.last());
    }
}

/// While no handshake completes, a handshaking stream stays handshaking.
pub proof fn lemma_unfinished_keeps_handshaking<H, S, E>(
    state: State<H, S>,
    calls: Seq<Call<S, E>>,
)
    requires
        state.phase() is Handshaking,
        forall|i: int| 0 <= i < calls.len() ==> !((#[trigger] calls[i]).handshake is Established),
    ensures
        run(state, calls) == state,
    decreases calls.len(),
{
    if calls.len() > 0 {
        lemma_unfinished_keeps_handshaking(state, calls.drop_last());
    }
}

/// A peer that never completes a handshake exchanges no application bytes:
/// whether the handshake stalls or fails, no call reaches the encrypted
/// stream, and no read or write is told that bytes were moved.
pub proof fn lemma_no_bytes_without_handshake<H, S, E>(state: State<H, S>, calls: Seq<Call<S, E>>)
    requires
        state.phase() is Handshaking,
        forall|i: int| 0 <= i < calls.len() ==> !((#[trigger] calls[i]).handshake is Established),
    ensures
        forall|i: int| 0 <= i < calls.len() ==> !#[trigger] reaches_stream_at(state, calls, i),
        forall|i: int|
            0 <= i < calls.len() && calls[i].op.moves_bytes() ==> !(#[trigger] reply_at(
                state,
                calls,
                i,
            ) is Ready),
        forall|i: int|
            0 <= i < calls.len() && calls[i].handshake is Failed && calls[i].op.moves_bytes()
                ==> #[trigger] reply_at(state, calls, i) == Outcome::<usize, E>::Failed(
                calls[i].handshake->Failed_0,
            ),
        run(state, calls).phase() is Handshaking,
{
    lemma_unfinished_keeps_handshaking(state, calls);
    assert forall|i: int| 0 <= i < calls.len() implies !#[trigger] reaches_stream_at(
        state,
        calls,
        i,
    ) by {
        lemma_unfinished_keeps_handshaking(state, calls.take(i));
    }
    assert forall|i: int| 0 <= i < calls.len() && calls[i].op.moves_bytes() implies !(
    #[trigger] reply_at(state, calls, i) is Ready) by {
        lemma_unfinished_keeps_handshaking(state, calls.take(i));
    }
    assert forall|i: int|
        0 <= i < calls.len() && calls[i].handshake is Failed
            && calls[i].op.moves_bytes() implies #[trigger] reply_at(state, calls, i)
        == Outcome::<usize, E>::Failed(calls[i].handshake->Failed_0) by {
        lemma_unfinished_keeps_handshaking(state, calls.take(i));
    }
}

/// One whole call on a connection of either configuration. For a plaintext
/// connection the answer is that of the raw connection.
pub open spec fn link_call<C, H, S, E>(link: Link<C, H, S>, c: Call<S, E>) -> (
    Link<C, H, S>,
    Outcome<usize, E>,
) {
    match link {
        Link::Plain(_) => (link, c.answer),
        Link::Secure(state) => (Link::Secure(call(state, c).0), call(state, c).1),
    }
}

/// The connection after a sequence of calls.
pub open spec fn link_run<C, H, S, E>(link: Link<C, H, S>, calls: Seq<Call<S, E>>) -> Link<C, H, S>
    decreases calls.len(),
{
    if calls.len() == 0 {
        link
    } else {
        link_call(link_run(link, calls.drop_last()), calls.last()).0
    }
}

/// A plaintext connection is transparent: every operation is performed on the
/// raw connection at once, no handshake is ever driven, and every call is
/// told exactly what the raw connection answered, from the first call on.
pub proof fn lemma_plaintext_is_transparent<C, H, S, E>(
    link: Link<C, H, S>,
    calls: Seq<Call<S, E>>,
    i: int,
)
    requires
        link is Plain,
        0 <= i < calls.len(),
    ensures
        link_run(link, calls.take(i)) == link,
        link_run(link, calls.take(i)).directive_of(calls[i].op) == Directive::Forward(calls[i].op),
        link_call(link_run(link, calls.take(i)), calls[i]).1 == calls[i].answer,
    decreases i,
{
    if i > 0 {
        lemma_plaintext_is_transparent(link, calls, i - 1);
        let upto = calls.take(i);
        assert(upto.drop_last() =~= calls.take(i - 1));
    }
}

/// A secured connection is its stream: what it is told and where it ends up
/// are those of the stream's own calls.
pub proof fn lemma_secured_follows_its_stream<C, H, S, E>(
    state: State<H, S>,
    calls: Seq<Call<S, E>>,
)
    ensures
        link_run(Link::<C, H, S>::Secure(state), calls) == Link::<C, H, S>::Secure(
            run(state, calls),
        ),
    decreases calls.len(),
{
    if calls.len() > 0 {
        lemma_secured_follows_its_stream::<C, H, S, E>(state, calls.drop_last());
    }
}

/// A call on one connection of many.
pub struct Routed<S, E> {
    pub connection: int,
    pub call: Call<S, E>,
}

/// The connections after a call on one of them: that one takes its step, the
/// others are as they were.
pub open spec fn system_call<H, S, E>(system: Seq<State<H, S>>, routed: Routed<S, E>) -> Seq<
    State<H, S>,
> {
    if 0 <= routed.connection < system.len() {
        system.update(routed.connection, call(system[routed.connection], routed.call).0)
    } else {
        system
    }
}

/// The connections after a sequence of calls, interleaved in any way.
pub open spec fn system_run<H, S, E>(system: Seq<State<H, S>>, routed: Seq<Routed<S, E>>) -> Seq<
    State<H, S>,
>
    decreases routed.len(),
{
    if routed.len() == 0 {
        system
    } else {
        system_call(system_run(system, routed.drop_last()), routed.last())
    }
}

/// The calls of an interleaving that are made on connection `j`, in order.
pub open spec fn own_calls<S, E>(routed: Seq<Routed<S, E>>, j: int) -> Seq<Call<S, E>>
    decreases routed.len(),
{
    if routed.len() == 0 {
        Seq::empty()
    } else if routed.last().connection == j {
        own_calls(routed.drop_last(), j).push(routed.last().call)
    } else {
        own_calls(routed.drop_last(), j)
    }
}

/// Connections are independent: after any interleaving of calls on many
/// connections, each connection is in the state its own calls alone would
/// have taken it to. A stalled or failed handshake on one connection changes
/// nothing on another.
pub proof fn lemma_connections_are_independent<H, S, E>(
    system: Seq<State<H, S>>,
    routed: Seq<Routed<S, E>>,
    j: int,
)
    requires
        0 <= j < system.len(),
    ensures
        system_run(system, routed).len() == system.len(),
        system_run(system, routed)[j] == run(system[j], own_calls(routed, j)),
    decreases routed.len(),
{
    if routed.len() > 0 {
        lemma_connections_are_independent(system, routed.drop_last(), j);
        if routed.last().connection == j {
            let own = own_calls(routed, j);
            assert(own.drop_last() =~= own_calls(routed.drop_last(), j));
            assert(own.last() == routed.last().call);
        }
    }
}

/// What a call on one connection is told does not depend on the calls made
/// on other connections before it: it is what the connection's own earlier
/// calls and this call determine.
pub proof fn lemma_replies_are_independent<H, S, E>(
    system: Seq<State<H, S>>,
    routed: Seq<Routed<S, E>>,
    k: int,
)
    requires
        0 <= k < routed.len(),
        0 <= routed[k].connection < system.len(),
    ensures
        call(system_run(system, routed.take(k))[routed[k].connection], routed[k].call) == call(
            run(system[routed[k].connection], own_calls(routed.take(k), routed[k].connection)),
            routed[k].call,
        ),
{
    lemma_connections_are_independent(system, routed.take(k), routed[k].connection);
}

} // verus!
