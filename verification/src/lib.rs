//! Connection acceptance and transport security for a small invitation
//! service: the decisions that sit between accepted sockets, an optional TLS
//! handshake and the protocol engine, together with the service's own rules
//! on requests, configuration and server identity.

pub mod app;
pub mod cli;
pub mod common;
pub mod compat;
pub mod config;
pub mod identity;
pub mod method;
pub mod response;
pub mod startup;
pub mod stream;
pub mod text;
pub mod tls;
pub mod trace;
pub mod transport;
pub mod website;
