//! A response as plain values: what the protocol engine is asked to send.

use vstd::prelude::*;
use crate::method::AllowedMethod;

verus! {

/// The status of a served page.
pub const OK: u16 = 200;

/// The status of an RSVP that was taken.
pub const ACCEPTED: u16 = 202;

/// The status of a request that cannot be read.
pub const BAD_REQUEST: u16 = 400;

/// The status of a path that leads nowhere.
pub const NOT_FOUND: u16 = 404;

/// The status of a method that is not served.
pub const METHOD_NOT_ALLOWED: u16 = 405;

/// The status of a failure on the server's side.
pub const INTERNAL_SERVER_ERROR: u16 = 500;

/// The body of a response.
#[derive(Debug, PartialEq, Eq)]
pub enum Body {
    /// No body.
    Empty,
    /// A text.
    Text(String),
    /// Bytes that are part of the program.
    Bytes(&'static [u8]),
}

/// What a body holds.
pub enum Content {
    Empty,
    Text(Seq<char>),
    Bytes(Seq<u8>),
}

impl View for Body {
    type V = Content;

    open spec fn view(&self) -> Content {
        match self {
            Body::Empty => Content::Empty,
            Body::Text(text) => Content::Text(text@),
            Body::Bytes(bytes) => Content::Bytes(bytes@),
        }
    }
}

/// A response: the protocol version it answers in, which is that of the
/// request, its status, the methods it names as allowed, and its body.
#[derive(Debug, PartialEq, Eq)]
pub struct Reply<V> {
    pub version: V,
    pub status: u16,
    pub allow: Vec<AllowedMethod>,
    pub body: Body,
}

impl<V> Reply<V> {
    /// Whether this is the response with the given parts and no allowed
    /// methods named.
    pub open spec fn is_plain(&self, version: V, status: u16, content: Content) -> bool {
        &&& self.version == version
        &&& self.status == status
        &&& self.allow@ == Seq::<AllowedMethod>::empty()
        &&& self.body@ == content
    }

    /// A response that names no allowed methods.
    pub fn plain(version: V, status: u16, body: Body) -> (reply: Self)
        ensures
            reply.is_plain(version, status, body@),
    {
        Reply { version, status, allow: Vec::new(), body }
    }
}

} // verus!
