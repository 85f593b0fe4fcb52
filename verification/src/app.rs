//! The application behind the protocol engine: which response a request
//! gets, and which acceptor a configuration starts.

use std::sync::Arc;
use vstd::prelude::*;
use vstd::string::StringExecFns;
use crate::common::PostPath;
use crate::compat::HyperListener;
use crate::method::AllowedMethod;
use crate::response::{
    Body,
    Content,
    Reply,
    ACCEPTED,
    BAD_REQUEST,
    INTERNAL_SERVER_ERROR,
    NOT_FOUND,
    OK,
};
use crate::transport::Acceptor;
use crate::website::{path_of, without_leading_slash, RequestUri, Website};

verus! {

/// The head of a request, and whether its body has ended before a byte of
/// it came.
#[derive(Debug)]
pub struct RequestHead<V> {
    pub method: String,
    pub uri: RequestUri,
    pub version: V,
    pub body_is_empty: bool,
}

/// What is done with a request.
#[derive(Debug, PartialEq, Eq)]
pub enum Handling<V> {
    /// It is answered at once.
    Respond(Reply<V>),
    /// It is an RSVP: its body is to be decoded and entered in the database,
    /// and the outcome answered by [`App::enter_rsvp`].
    EnterRsvp(V),
}

/// How entering an RSVP went.
#[derive(Debug, PartialEq, Eq)]
pub enum RsvpOutcome {
    /// The body was no RSVP.
    BadClientData,
    /// The database failed.
    DatabaseError,
    /// The database answered, and this is its answer as JSON.
    Answered(String),
    /// The database answered, and its answer could not be written as JSON.
    Unwritable,
}

/// The RSVP could not be answered in an orderly way.
#[derive(Clone, Copy, Debug, PartialEq, Eq, Structural)]
pub struct Miscellaneous;

/// The application: a database and the site.
#[derive(Debug)]
pub struct App<D> {
    pub database: D,
    pub website: Website,
}

/// The response of the site to a request with an allowed method.
pub open spec fn site_reply<V>(
    website: Website,
    method: AllowedMethod,
    uri: RequestUri,
    version: V,
    body_is_empty: bool,
    reply: Reply<V>,
) -> bool {
    if !body_is_empty {
        reply.is_plain(version, BAD_REQUEST, Content::Text("A request must have an empty body"@))
    } else if method == AllowedMethod::HEAD {
        reply.is_plain(version, OK, Content::Empty)
    } else {
        match website.served_at(path_of(uri)) {
            Some(content) => reply.is_plain(version, OK, content),
            None => reply.is_plain(
                version,
                NOT_FOUND,
                Content::Text("According to my book-keeping, that page does not exist."@),
            ),
        }
    }
}

/// The response to the outcome of an RSVP, where there is an orderly one.
pub open spec fn rsvp_reply<V>(version: V, outcome: RsvpOutcome, reply: Reply<V>) -> bool {
    match outcome {
        RsvpOutcome::BadClientData => reply.is_plain(
            version,
            BAD_REQUEST,
            Content::Text("Unable to parse RSVP json"@),
        ),
        RsvpOutcome::DatabaseError => reply.is_plain(
            version,
            INTERNAL_SERVER_ERROR,
            Content::Text("Database error"@),
        ),
        RsvpOutcome::Answered(json) => reply.is_plain(version, ACCEPTED, Content::Text(json@)),
        RsvpOutcome::Unwritable => false,
    }
}

impl<D> App<D> {
    /// The acceptor the server starts with: over the bound socket's sequence
    /// of connections, with TLS exactly when an identity is configured.
    pub fn start_server<L, I>(incoming: L, tls: Option<Arc<I>>) -> (acceptor: Acceptor<L, I>)
        ensures
            acceptor.tls() == tls,
            acceptor.listener().incoming() == incoming,
            !acceptor.listener().ended(),
            tls is None <==> acceptor is Plain,
    {
        Acceptor::new(HyperListener::new(incoming), tls)
    }

    /// What is done with a request: a method that is not allowed is told so,
    /// GET and HEAD are served by the site, and a POST is an RSVP where its
    /// path says so and is not found otherwise.
    pub fn handle_request<V: Copy>(&self, request: RequestHead<V>) -> (handling: Handling<V>)
        ensures
            match AllowedMethod::named(request.method@) {
                None => handling matches Handling::Respond(reply) && reply.version
                    == request.version && reply.status == crate::response::METHOD_NOT_ALLOWED
                    && reply.allow@ == crate::method::ALL_ALLOWED@ && reply.body@ == Content::Text(
                    crate::method::not_allowed_message(),
                ),
                Some(AllowedMethod::POST) => match PostPath::of_text(
                    without_leading_slash(path_of(request.uri)),
                ) {
                    None => handling matches Handling::Respond(reply) && reply.is_plain(
                        request.version,
                        NOT_FOUND,
                        Content::Text("Non-existent POST path"@),
                    ),
                    Some(PostPath::EnterRsvp) => handling == Handling::EnterRsvp(request.version),
                },
                Some(method) => handling matches Handling::Respond(reply) && site_reply(
                    self.website,
                    method,
                    request.uri,
                    request.version,
                    request.body_is_empty,
                    reply,
                ),
            },
    {
        let version = request.version;
        match AllowedMethod::find_from(request.method.as_str()) {
            None => Handling::Respond(AllowedMethod::method_not_alllowed(version)),
            Some(AllowedMethod::GET) => Handling::Respond(
                self.yield_site(AllowedMethod::GET, request.uri, version, request.body_is_empty),
            ),
            Some(AllowedMethod::HEAD) => Handling::Respond(
                self.yield_site(AllowedMethod::HEAD, request.uri, version, request.body_is_empty),
            ),
            Some(AllowedMethod::POST) => {
                match self.website.validate_post_path(request.uri) {
                    None => Handling::Respond(
                        Reply::plain(
                            version,
                            NOT_FOUND,
                            Body::Text(String::from_str("Non-existent POST path")),
                        ),
                    ),
                    Some(PostPath::EnterRsvp) => Handling::EnterRsvp(version),
                }
            },
        }
    }

    /// The site's response to a request: a request with a body is refused,
    /// a HEAD request gets an empty page whatever its path, and any other
    /// gets what the site serves at its path, or is told that nothing is
    /// there.
    pub fn yield_site<V>(
        &self,
        method: AllowedMethod,
        uri: RequestUri,
        version: V,
        body_is_empty: bool,
    ) -> (reply: Reply<V>)
        ensures
            site_reply(self.website, method, uri, version, body_is_empty, reply),
    {
        if !body_is_empty {
            return Reply::plain(
                version,
                BAD_REQUEST,
                Body::Text(String::from_str("A request must have an empty body")),
            );
        }
        let body = match method {
            AllowedMethod::HEAD => Body::Empty,
            _ => {
                match self.website.yield_site_body(uri) {
                    Some(body) => body,
                    None => {
                        let msg = "According to my book-keeping, that page does not exist.";
                        return Reply::plain(version, NOT_FOUND, Body::Text(String::from_str(msg)));
                    },
                }
            },
        };
        Reply::plain(version, OK, body)
    }

    /// The response to the outcome of an RSVP: bad client data and a failed
    /// database are told to the client, the database's answer is passed on,
    /// and an answer that could not be written is no orderly outcome.
    pub fn enter_rsvp<V>(version: V, outcome: RsvpOutcome) -> (r: Result<Reply<V>, Miscellaneous>)
        ensures
            match r {
                Ok(reply) => rsvp_reply(version, outcome, reply),
                Err(_) => outcome is Unwritable,
            },
    {
        match outcome {
            RsvpOutcome::BadClientData => Ok(
                Reply::plain(
                    version,
                    BAD_REQUEST,
                    Body::Text(String::from_str("Unable to parse RSVP json")),
                ),
            ),
            RsvpOutcome::DatabaseError => Ok(
                Reply::plain(
                    version,
                    INTERNAL_SERVER_ERROR,
                    Body::Text(String::from_str("Database error")),
                ),
            ),
            RsvpOutcome::Answered(json) => Ok(Reply::plain(version, ACCEPTED, Body::Text(json))),
            RsvpOutcome::Unwritable => Err(Miscellaneous),
        }
    }

    /// The response that closes an RSVP: the orderly one, or word of a
    /// miscellaneous error.
    pub fn answer_rsvp<V>(version: V, entered: Result<Reply<V>, Miscellaneous>) -> (reply: Reply<V>)
        ensures
            match entered {
                Ok(orderly) => reply == orderly,
                Err(_) => reply.is_plain(
                    version,
                    INTERNAL_SERVER_ERROR,
                    Content::Text("Miscellaneous error"@),
                ),
            },
    {
        match entered {
            Ok(orderly) => orderly,
            Err(_) => Reply::plain(
                version,
                INTERNAL_SERVER_ERROR,
                Body::Text(String::from_str("Miscellaneous error")),
            ),
        }
    }
}

} // verus!
