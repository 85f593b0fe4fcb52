//! What the process decides when it starts: whether it serves or
//! administers, and which identity files it needs.

use vstd::prelude::*;
use crate::config::Tls;
use crate::text::same_text;

verus! {

/// The directory the configuration lives in.
pub const CONFIG_DIRECTORY: &'static str = "config";

/// The configuration file.
pub const CONFIG_FILE: &'static str = "config/config.ron";

/// The file of the server's certificate chain.
pub const SERVER_CERTIFICATE: &'static str = "config/server-certificate.pem";

/// The file of the server's private key.
pub const SERVER_KEY: &'static str = "config/server-certificate.key";

/// The file of the certificates that clients are checked against.
pub const CLIENT_CERTIFICATE: &'static str = "config/client-certificate.pem";

/// What the process runs as.
#[derive(Clone, Copy, Debug, PartialEq, Eq, Structural)]
pub enum RunMode {
    /// The administration tool on the terminal.
    Cli,
    /// The server.
    Server,
}

/// The mode of a process by the first of its arguments.
pub open spec fn mode_of(first_arg: Option<Seq<char>>) -> RunMode {
    if first_arg == Some("cli"@) {
        RunMode::Cli
    } else {
        RunMode::Server
    }
}

/// What the process runs as: the administration tool where the first of its
/// arguments is `cli`, the server otherwise.
pub fn run_mode(first_arg: Option<&str>) -> (mode: RunMode)
    ensures
        mode == mode_of(
            match first_arg {
                Some(arg) => Some(arg@),
                None => None,
            },
        ),
{
    match first_arg {
        Some(arg) => {
            if same_text(arg, "cli") {
                RunMode::Cli
            } else {
                RunMode::Server
            }
        },
        None => RunMode::Server,
    }
}

/// The files an identity is read from.
#[derive(Clone, Copy, Debug)]
pub struct IdentityFiles {
    pub certificate: &'static str,
    pub key: &'static str,
    pub client_certificate: Option<&'static str>,
}

/// The files to read for a TLS configuration: none where TLS is off, the
/// server's certificate and key where it is on, and the clients'
/// certificates besides where clients must show one.
pub fn identity_files(tls: &Tls) -> (files: Option<IdentityFiles>)
    ensures
        files is Some <==> tls.enable,
        files matches Some(f) ==> f.certificate == SERVER_CERTIFICATE && f.key == SERVER_KEY && (
        f.client_certificate is Some <==> tls.client_auth) && (f.client_certificate matches Some(c)
            ==> c == CLIENT_CERTIFICATE),
{
    if tls.enable {
        Some(
            IdentityFiles {
                certificate: SERVER_CERTIFICATE,
                key: SERVER_KEY,
                client_certificate: if tls.client_auth {
                    Some(CLIENT_CERTIFICATE)
                } else {
                    None
                },
            },
        )
    } else {
        None
    }
}

} // verus!
