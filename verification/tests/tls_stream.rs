use thebestofcmu::stream::{Op, Outcome};
use thebestofcmu::tls::{Directive, HandshakePoll, Phase, Resolution, TlsStream};

/// A handshake that completes, or fails, on a chosen poll.
struct FakeHandshake {
    ends_on: usize,
    fails: bool,
    polls: usize,
    inbox: Vec<u8>,
}

/// An established stream: what the peer sent, and what was written to it.
#[derive(Debug, PartialEq, Eq)]
struct FakeStream {
    inbox: Vec<u8>,
    outbox: Vec<u8>,
    flushes: usize,
    shutdowns: usize,
}

type Stream = TlsStream<FakeHandshake, FakeStream>;

fn handshake(ends_on: usize, fails: bool, inbox: &[u8]) -> FakeHandshake {
    FakeHandshake { ends_on, fails, polls: 0, inbox: inbox.to_vec() }
}

fn drive(handshake: &mut FakeHandshake) -> HandshakePoll<FakeStream, String> {
    handshake.polls += 1;
    if handshake.polls < handshake.ends_on {
        HandshakePoll::Pending
    } else if handshake.fails {
        HandshakePoll::Failed(String::from("bad record"))
    } else {
        HandshakePoll::Established(FakeStream {
            inbox: handshake.inbox.clone(),
            outbox: Vec::new(),
            flushes: 0,
            shutdowns: 0,
        })
    }
}

fn perform(stream: &mut FakeStream, op: Op, buf: &mut Vec<u8>) -> Outcome<usize, String> {
    match op {
        Op::Read => {
            let n = stream.inbox.len();
            buf.extend(stream.inbox.drain(..));
            Outcome::Ready(n)
        }
        Op::Write => {
            stream.outbox.extend_from_slice(buf);
            Outcome::Ready(buf.len())
        }
        Op::Flush => {
            stream.flushes += 1;
            Outcome::Ready(0)
        }
        Op::Shutdown => {
            stream.shutdowns += 1;
            Outcome::Ready(0)
        }
    }
}

/// One whole call, as an adapter makes it of the stream's decisions.
fn call(stream: &mut Stream, op: Op, buf: &mut Vec<u8>) -> Outcome<usize, String> {
    let first = match op {
        Op::Read => stream.poll_read(),
        Op::Write => stream.poll_write(),
        Op::Flush => stream.poll_flush(),
        Op::Shutdown => stream.poll_shutdown(),
    };
    assert_eq!(first, stream.begin(op));
    match first {
        Directive::Complete => Outcome::Ready(0),
        Directive::Forward(op) => perform(stream.stream_mut().unwrap(), op, buf),
        Directive::DriveHandshake => {
            let poll = drive(stream.handshake_mut().unwrap());
            match stream.handshake_polled(op, poll) {
                Resolution::WouldBlock => Outcome::Pending,
                Resolution::Forward(op) => perform(stream.stream_mut().unwrap(), op, buf),
                Resolution::Fail(e) => Outcome::Failed(e),
            }
        }
    }
}

#[test]
fn new_stream_is_handshaking() {
    let mut stream: Stream = TlsStream::new(handshake(3, false, b""));
    assert_eq!(stream.phase(), Phase::Handshaking);
    assert!(stream.stream_mut().is_none());
    assert!(stream.handshake_mut().is_some());
}

#[test]
fn directives_while_handshaking() {
    let stream: Stream = TlsStream::new(handshake(3, false, b""));
    assert_eq!(stream.poll_read(), Directive::DriveHandshake);
    assert_eq!(stream.poll_write(), Directive::DriveHandshake);
    assert_eq!(stream.poll_flush(), Directive::Complete);
    assert_eq!(stream.poll_shutdown(), Directive::Complete);
}

#[test]
fn directives_while_streaming() {
    let mut stream: Stream = TlsStream::new(handshake(1, false, b""));
    let mut buf = Vec::new();
    assert_eq!(call(&mut stream, Op::Read, &mut buf), Outcome::Ready(0));
    assert_eq!(stream.phase(), Phase::Streaming);
    assert_eq!(stream.poll_read(), Directive::Forward(Op::Read));
    assert_eq!(stream.poll_write(), Directive::Forward(Op::Write));
    assert_eq!(stream.poll_flush(), Directive::Forward(Op::Flush));
    assert_eq!(stream.poll_shutdown(), Directive::Forward(Op::Shutdown));
    assert!(stream.handshake_mut().is_none());
}

#[test]
fn reads_and_writes_block_while_the_handshake_is_pending() {
    let mut stream: Stream = TlsStream::new(handshake(usize::MAX, false, b"hello"));
    for round in 0..50 {
        let mut buf = b"payload".to_vec();
        let op = if round % 2 == 0 { Op::Read } else { Op::Write };
        let reply = call(&mut stream, op, &mut buf);
        assert_eq!(reply, Outcome::Pending);
        assert_ne!(reply, Outcome::Ready(0));
        assert_eq!(stream.phase(), Phase::Handshaking);
        assert_eq!(buf, b"payload".to_vec());
    }
    assert_eq!(stream.handshake_mut().unwrap().polls, 50);
}

#[test]
fn nth_write_is_observed_by_the_new_stream() {
    let n = 4;
    let mut stream: Stream = TlsStream::new(handshake(n, false, b""));
    for _ in 1..n {
        let mut buf = b"PING".to_vec();
        assert_eq!(call(&mut stream, Op::Write, &mut buf), Outcome::Pending);
    }
    let mut buf = b"PING".to_vec();
    assert_eq!(call(&mut stream, Op::Write, &mut buf), Outcome::Ready(4));
    assert_eq!(stream.phase(), Phase::Streaming);
    assert_eq!(stream.stream_mut().unwrap().outbox, b"PING".to_vec());
}

#[test]
fn nth_read_delivers_what_the_peer_sent() {
    let n = 3;
    let mut stream: Stream = TlsStream::new(handshake(n, false, b"PING"));
    for _ in 1..n {
        let mut buf = Vec::new();
        assert_eq!(call(&mut stream, Op::Read, &mut buf), Outcome::Pending);
        assert!(buf.is_empty());
    }
    let mut buf = Vec::new();
    assert_eq!(call(&mut stream, Op::Read, &mut buf), Outcome::Ready(4));
    assert_eq!(buf, b"PING".to_vec());
}

#[test]
fn handshake_completing_at_once_serves_the_first_call() {
    let mut stream: Stream = TlsStream::new(handshake(1, false, b""));
    let mut buf = b"first".to_vec();
    assert_eq!(call(&mut stream, Op::Write, &mut buf), Outcome::Ready(5));
    assert_eq!(stream.stream_mut().unwrap().outbox, b"first".to_vec());
}

#[test]
fn streaming_never_goes_back() {
    let mut stream: Stream = TlsStream::new(handshake(1, false, b"abc"));
    let mut buf = Vec::new();
    assert_eq!(call(&mut stream, Op::Read, &mut buf), Outcome::Ready(3));
    for op in [Op::Read, Op::Write, Op::Flush, Op::Shutdown, Op::Write, Op::Read] {
        let mut buf = b"x".to_vec();
        let reply = call(&mut stream, op, &mut buf);
        assert!(matches!(reply, Outcome::Ready(_)));
        assert_eq!(stream.phase(), Phase::Streaming);
    }
    assert_eq!(stream.stream_mut().unwrap().outbox, b"xx".to_vec());
    assert_eq!(stream.stream_mut().unwrap().flushes, 1);
    assert_eq!(stream.stream_mut().unwrap().shutdowns, 1);
}

#[test]
fn a_late_handshake_report_leaves_a_streaming_stream_alone() {
    let mut stream: Stream = TlsStream::new(handshake(1, false, b"abc"));
    let mut buf = b"kept".to_vec();
    assert_eq!(call(&mut stream, Op::Write, &mut buf), Outcome::Ready(4));
    let pending: HandshakePoll<FakeStream, String> = HandshakePoll::Pending;
    assert_eq!(stream.handshake_polled(Op::Read, pending), Resolution::Forward(Op::Read));
    let failed: HandshakePoll<FakeStream, String> = HandshakePoll::Failed(String::from("late"));
    assert_eq!(stream.handshake_polled(Op::Write, failed), Resolution::Forward(Op::Write));
    let other = FakeStream { inbox: Vec::new(), outbox: Vec::new(), flushes: 9, shutdowns: 9 };
    let again: HandshakePoll<FakeStream, String> = HandshakePoll::Established(other);
    assert_eq!(stream.handshake_polled(Op::Flush, again), Resolution::Forward(Op::Flush));
    assert_eq!(stream.phase(), Phase::Streaming);
    assert_eq!(stream.stream_mut().unwrap().outbox, b"kept".to_vec());
    assert_eq!(stream.stream_mut().unwrap().flushes, 0);
}

#[test]
fn flush_and_shutdown_succeed_at_once_while_handshaking() {
    let mut stream: Stream = TlsStream::new(handshake(5, false, b""));
    let mut buf = Vec::new();
    assert_eq!(call(&mut stream, Op::Flush, &mut buf), Outcome::Ready(0));
    assert_eq!(call(&mut stream, Op::Shutdown, &mut buf), Outcome::Ready(0));
    assert_eq!(stream.phase(), Phase::Handshaking);
    assert_eq!(stream.handshake_mut().unwrap().polls, 0);
}

#[test]
fn failed_handshake_is_reported_and_moves_no_bytes() {
    let mut stream: Stream = TlsStream::new(handshake(2, true, b"secret"));
    let mut buf = b"GET / HTTP/1.1".to_vec();
    assert_eq!(call(&mut stream, Op::Write, &mut buf), Outcome::Pending);
    let mut buf = Vec::new();
    assert_eq!(call(&mut stream, Op::Read, &mut buf), Outcome::Failed(String::from("bad record")));
    assert!(buf.is_empty());
    assert_eq!(stream.phase(), Phase::Handshaking);
    assert!(stream.stream_mut().is_none());
}

#[test]
fn raw_bytes_to_tls_listener_fail_the_handshake() {
    // The peer speaks no TLS: the engine's first read drives the handshake,
    // which fails on the peer's bytes. Nothing is echoed back.
    let mut stream: Stream = TlsStream::new(handshake(1, true, b"PING"));
    let mut echoed: Vec<u8> = Vec::new();
    let mut buf = Vec::new();
    match call(&mut stream, Op::Read, &mut buf) {
        Outcome::Ready(_) => echoed.extend_from_slice(&buf),
        Outcome::Pending => panic!("the handshake was over"),
        Outcome::Failed(e) => assert_eq!(e, "bad record"),
    }
    assert!(echoed.is_empty());
    assert!(stream.stream_mut().is_none());
    drop(stream);
}

#[test]
fn a_stalled_connection_does_not_hold_up_the_others() {
    let mut connections: Vec<Stream> = Vec::new();
    for i in 0..6 {
        let ends_on = if i == 2 { usize::MAX } else { i + 1 };
        connections.push(TlsStream::new(handshake(ends_on, i == 4, b"PING")));
    }
    let mut received: Vec<Vec<u8>> = vec![Vec::new(); 6];
    let mut failed: Vec<bool> = vec![false; 6];
    for _round in 0..10 {
        for (i, connection) in connections.iter_mut().enumerate() {
            if failed[i] || !received[i].is_empty() {
                continue;
            }
            let mut buf = Vec::new();
            match call(connection, Op::Read, &mut buf) {
                Outcome::Ready(_) => received[i] = buf,
                Outcome::Pending => {}
                Outcome::Failed(_) => failed[i] = true,
            }
        }
    }
    for i in [0, 1, 3, 5] {
        assert_eq!(received[i], b"PING".to_vec());
        assert_eq!(connections[i].phase(), Phase::Streaming);
    }
    assert!(received[2].is_empty());
    assert_eq!(connections[2].phase(), Phase::Handshaking);
    assert!(failed[4]);
    assert!(received[4].is_empty());
}

#[test]
fn only_reads_and_writes_carry_bytes() {
    assert!(Op::Read.carries_bytes());
    assert!(Op::Write.carries_bytes());
    assert!(!Op::Flush.carries_bytes());
    assert!(!Op::Shutdown.carries_bytes());
}
