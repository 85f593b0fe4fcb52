//! The vocabulary of the byte-stream capability: the four non-blocking
//! operations a transport offers, and what one attempt at any of them reports.

use vstd::prelude::*;

verus! {

/// One of the four operations of the byte-stream capability.
#[derive(Clone, Copy, Debug, PartialEq, Eq, Structural)]
pub enum Op {
    /// Read into storage supplied by the caller.
    Read,
    /// Write bytes supplied by the caller.
    Write,
    /// Push buffered bytes towards the peer.
    Flush,
    /// Close the write side.
    Shutdown,
}

impl Op {
    /// Read and write carry application bytes; flush and shutdown carry none.
    pub open spec fn moves_bytes(self) -> bool {
        self == Op::Read || self == Op::Write
    }

    /// Whether this operation carries application bytes.
    pub fn carries_bytes(self) -> (r: bool)
        ensures
            r == self.moves_bytes(),
    {
        match self {
            Op::Read => true,
            Op::Write => true,
            Op::Flush => false,
            Op::Shutdown => false,
        }
    }
}

/// What one non-blocking attempt reports: not ready yet, done with a value,
/// or failed with the error of the layer below.
#[derive(Debug, PartialEq, Eq)]
pub enum Outcome<T, E> {
    /// Nothing could be done yet; the caller is woken when it is worth retrying.
    Pending,
    /// The attempt completed.
    Ready(T),
    /// The attempt failed; the error is that of the layer below, untouched.
    Failed(E),
}

} // verus!
