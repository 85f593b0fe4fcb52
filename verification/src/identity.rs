//! The server's TLS identity: the certificate chain and the one private key,
//! taken from PEM text, held as plain bytes, and handed to the TLS engine.

use vstd::prelude::*;

verus! {

/// The error type of the standard library's I/O, as the PEM reader returns it.
#[verifier::external_type_specification]
#[verifier::external_body]
pub struct ExIoError(std::io::Error);

/// The TLS engine's configuration of a server.
#[verifier::external_type_specification]
#[verifier::external_body]
pub struct ExServerConfig(rustls::ServerConfig);

/// The TLS engine's store of trusted root certificates.
#[verifier::external_type_specification]
#[verifier::external_body]
pub struct ExRootCertStore(rustls::RootCertStore);

/// The TLS engine's error.
#[verifier::external_type_specification]
#[verifier::external_body]
pub struct ExTlsError(rustls::Error);

/// A DER-encoded certificate.
#[derive(Clone, Debug, PartialEq, Eq)]
pub struct Certificate(pub Vec<u8>);

/// A DER-encoded private key.
#[derive(Clone, Debug, PartialEq, Eq)]
pub struct PrivateKey(pub Vec<u8>);

/// Why an identity could not be had.
#[derive(Debug)]
pub enum IdentityError {
    /// The PEM text could not be read; the reader's error says why.
    Pem(std::io::Error),
    /// The key file holds no PKCS#8 private key.
    NoPrivateKeys,
    /// The key file holds more than one PKCS#8 private key.
    TooManyKeys,
    /// A certificate that clients are checked against is no trust anchor;
    /// the text is the TLS engine's reason.
    ClientCertificate(String),
    /// The TLS engine refuses the private key.
    Tls(rustls::Error),
}

/// The certificates that the PEM reader finds in a text, in order, or none
/// where it rejects the text.
pub uninterp spec fn pem_certificates(pem: Seq<char>) -> Option<Seq<Seq<u8>>>;

/// The PKCS#8 private keys that the PEM reader finds in a text, in order, or
/// none where it rejects the text.
pub uninterp spec fn pem_pkcs8_keys(pem: Seq<char>) -> Option<Seq<Seq<u8>>>;

/// Calls `rustls_pemfile::certs` on the text. The result is a function of
/// the text alone: the DER contents of its certificate sections in order, or
/// the reader's error for a malformed section.
#[verifier::external_body]
fn pemfile_certs(pem: &str) -> (r: Result<Vec<Vec<u8>>, std::io::Error>)
    ensures
        match r {
            Ok(ders) => pem_certificates(pem@) == Some(ders.deep_view()),
            Err(_) => pem_certificates(pem@) is None,
        },
{
    let mut reader = std::io::Cursor::new(pem);
    rustls_pemfile::certs(&mut reader)
}

/// Calls `rustls_pemfile::pkcs8_private_keys` on the text. The result is a
/// function of the text alone: the DER contents of its PKCS#8 key sections in
/// order, or the reader's error for a malformed section.
#[verifier::external_body]
fn pemfile_pkcs8_private_keys(pem: &str) -> (r: Result<Vec<Vec<u8>>, std::io::Error>)
    ensures
        match r {
            Ok(ders) => pem_pkcs8_keys(pem@) == Some(ders.deep_view()),
            Err(_) => pem_pkcs8_keys(pem@) is None,
        },
{
    let mut reader = std::io::Cursor::new(pem);
    rustls_pemfile::pkcs8_private_keys(&mut reader)
}

/// The DER contents of a chain of certificates.
pub open spec fn chain_view(chain: Seq<Certificate>) -> Seq<Seq<u8>> {
    Seq::new(chain.len(), |i: int| chain[i].0@)
}

/// Wraps each DER block as a certificate, keeping the order.
pub fn certificates_from(ders: Vec<Vec<u8>>) -> (chain: Vec<Certificate>)
    ensures
        chain_view(chain@) == ders.deep_view(),
{
    let ghost wanted = ders.deep_view();
    let mut chain: Vec<Certificate> = Vec::new();
    for der in it: ders
        invariant
            chain.len() == it.index(),
            it.seq().len() == wanted.len(),
            forall|j: int| 0 <= j < it.seq().len() ==> (#[trigger] it.seq()[j])@ == wanted[j],
            forall|j: int| 0 <= j < chain.len() ==> (#[trigger] chain[j]).0@ == wanted[j],
    {
        chain.push(Certificate(der));
    }
    proof {
        assert(chain_view(chain@) =~= wanted);
    }
    chain
}

/// The certificates of a PEM text, in order. Sections of other kinds are
/// passed over; a text without certificates gives an empty chain.
pub fn load_certificates(pem: &str) -> (r: Result<Vec<Certificate>, IdentityError>)
    ensures
        match r {
            Ok(chain) => pem_certificates(pem@) == Some(chain_view(chain@)),
            Err(e) => e is Pem && pem_certificates(pem@) is None,
        },
{
    match pemfile_certs(pem) {
        Ok(ders) => Ok(certificates_from(ders)),
        Err(e) => Err(IdentityError::Pem(e)),
    }
}

/// What is made of the keys found in a key file: the key, if there is
/// exactly one.
pub open spec fn selected_key(keys: Seq<Seq<u8>>) -> Result<Seq<u8>, IdentityError> {
    if keys.len() == 0 {
        Err(IdentityError::NoPrivateKeys)
    } else if keys.len() == 1 {
        Ok(keys[0])
    } else {
        Err(IdentityError::TooManyKeys)
    }
}

/// Picks the private key out of the keys found in a key file: exactly one
/// key is wanted, none and several are both refused.
pub fn select_private_key(keys: Vec<Vec<u8>>) -> (r: Result<PrivateKey, IdentityError>)
    ensures
        match r {
            Ok(key) => selected_key(keys.deep_view()) == Ok::<Seq<u8>, IdentityError>(key.0@),
            Err(e) => selected_key(keys.deep_view()) == Err::<Seq<u8>, IdentityError>(e),
        },
{
    let ghost found = keys.deep_view();
    let mut keys = keys;
    match keys.pop() {
        None => Err(IdentityError::NoPrivateKeys),
        Some(key) => {
            if keys.len() > 0 {
                Err(IdentityError::TooManyKeys)
            } else {
                proof {
                    assert(key@ == found[0]);
                }
                Ok(PrivateKey(key))
            }
        },
    }
}

/// The private key of a PEM text, which must hold exactly one PKCS#8 key.
pub fn load_private_key(pem: &str) -> (r: Result<PrivateKey, IdentityError>)
    ensures
        match pem_pkcs8_keys(pem@) {
            None => r is Err && r->Err_0 is Pem,
            Some(keys) => match r {
                Ok(key) => selected_key(keys) == Ok::<Seq<u8>, IdentityError>(key.0@),
                Err(e) => selected_key(keys) == Err::<Seq<u8>, IdentityError>(e),
            },
        },
{
    match pemfile_pkcs8_private_keys(pem) {
        Ok(keys) => select_private_key(keys),
        Err(e) => Err(IdentityError::Pem(e)),
    }
}

impl IdentityError {
    /// The text that describes a refused key file; none for the errors of the
    /// PEM reader and of the TLS engine, which describe themselves.
    pub fn describe(&self) -> (text: Option<&'static str>)
        ensures
            self is NoPrivateKeys <==> text == Some("No private keys found"),
            self is TooManyKeys <==> text == Some("Too many keys"),
            self is NoPrivateKeys || self is TooManyKeys <==> text is Some,
    {
        match self {
            IdentityError::Pem(_) => None,
            IdentityError::NoPrivateKeys => Some("No private keys found"),
            IdentityError::TooManyKeys => Some("Too many keys"),
            IdentityError::ClientCertificate(_) => None,
            IdentityError::Tls(_) => None,
        }
    }
}

/// Whether the TLS engine takes a DER block as a trust anchor.
pub uninterp spec fn is_trust_anchor(der: Seq<u8>) -> bool;

/// Whether the TLS engine takes a DER block as a private key to sign with.
pub uninterp spec fn is_signing_key(der: Seq<u8>) -> bool;

/// Calls `rustls::RootCertStore::empty`.
#[verifier::external_body]
fn root_store_empty() -> (store: rustls::RootCertStore) {
    rustls::RootCertStore::empty()
}

/// Calls `rustls::RootCertStore::add`, which parses the certificate as a
/// trust anchor and fails, leaving the store alone, where it is none. Whether
/// it is one depends on the certificate's bytes alone. The error is handed
/// back as its text.
#[verifier::external_body]
fn root_store_add(store: &mut rustls::RootCertStore, certificate: &Certificate) -> (r: Result<
    (),
    String,
>)
    ensures
        r is Ok <==> is_trust_anchor(certificate.0@),
{
    store.add(&rustls::Certificate(certificate.0.clone())).map_err(|e| e.to_string())
}

/// Builds a server configuration that asks clients for a certificate and
/// checks it against the store: `rustls::ServerConfig::builder` with the safe
/// defaults, `AllowAnyAuthenticatedClient::new` as the verifier of client
/// certificates and `with_single_cert`, which fails exactly where the key is
/// none the engine can sign with; the protocols are then set on the result.
#[verifier::external_body]
fn config_with_client_auth(
    roots: rustls::RootCertStore,
    chain: Vec<Certificate>,
    key: PrivateKey,
    protocols: Vec<Vec<u8>>,
) -> (r: Result<rustls::ServerConfig, rustls::Error>)
    ensures
        r is Ok <==> is_signing_key(key.0@),
{
    let verifier = rustls::server::AllowAnyAuthenticatedClient::new(roots);
    let chain = chain.into_iter().map(|c| rustls::Certificate(c.0)).collect();
    let builder = rustls::ServerConfig::builder().with_safe_defaults();
    let builder = builder.with_client_cert_verifier(verifier);
    let mut config = builder.with_single_cert(chain, rustls::PrivateKey(key.0))?;
    config.alpn_protocols = protocols;
    Ok(config)
}

/// Builds a server configuration that asks clients for no certificate:
/// `rustls::ServerConfig::builder` with the safe defaults,
/// `NoClientAuth::new` as the verifier of client certificates and
/// `with_single_cert`, which fails exactly where the key is none the engine
/// can sign with; the protocols are then set on the result.
#[verifier::external_body]
fn config_without_client_auth(
    chain: Vec<Certificate>,
    key: PrivateKey,
    protocols: Vec<Vec<u8>>,
) -> (r: Result<rustls::ServerConfig, rustls::Error>)
    ensures
        r is Ok <==> is_signing_key(key.0@),
{
    let verifier = rustls::server::NoClientAuth::new();
    let chain = chain.into_iter().map(|c| rustls::Certificate(c.0)).collect();
    let builder = rustls::ServerConfig::builder().with_safe_defaults();
    let builder = builder.with_client_cert_verifier(verifier);
    let mut config = builder.with_single_cert(chain, rustls::PrivateKey(key.0))?;
    config.alpn_protocols = protocols;
    Ok(config)
}

/// Whether every certificate of a list is a trust anchor.
pub open spec fn all_trust_anchors(roots: Seq<Certificate>) -> bool {
    forall|i: int| 0 <= i < roots.len() ==> is_trust_anchor((#[trigger] roots[i]).0@)
}

/// The store of the certificates that clients are checked against. Every
/// one of them must be a trust anchor; the first that is none is refused
/// with the engine's reason.
pub fn client_store(roots: &Vec<Certificate>) -> (r: Result<rustls::RootCertStore, IdentityError>)
    ensures
        r is Ok <==> all_trust_anchors(roots@),
        r matches Err(e) ==> e is ClientCertificate,
{
    let mut store = root_store_empty();
    let mut i: usize = 0;
    while i < roots.len()
        invariant
            i <= roots.len(),
            all_trust_anchors(roots@.take(i as int)),
        decreases roots.len() - i,
    {
        match root_store_add(&mut store, &roots[i]) {
            Ok(()) => {},
            Err(reason) => {
                return Err(IdentityError::ClientCertificate(reason));
            },
        }
        proof {
            assert forall|j: int| 0 <= j < i + 1 implies is_trust_anchor(
                (#[trigger] roots@.take(i + 1)[j]).0@,
            ) by {
                if j < i {
                    assert(roots@.take(i as int)[j] == roots@[j]);
                }
            }
        }
        i = i + 1;
    }
    proof {
        assert(roots@.take(roots.len() as int) =~= roots@);
    }
    Ok(store)
}

/// The protocols offered to clients during the handshake, most wanted first.
pub open spec fn offered_protocols() -> Seq<Seq<u8>> {
    seq![seq![0x68u8, 0x32u8], seq![0x68u8, 0x74u8, 0x74u8, 0x70u8, 0x2fu8, 0x31u8, 0x2eu8, 0x31u8]]
}

/// The protocols offered to clients during the handshake: HTTP/2 first, then
/// HTTP/1.1, by their registered names `h2` and `http/1.1`.
pub fn alpn_protocols() -> (protocols: Vec<Vec<u8>>)
    ensures
        protocols.deep_view() == offered_protocols(),
{
    let mut h2: Vec<u8> = Vec::new();
    h2.push(0x68u8);
    h2.push(0x32u8);
    let mut http11: Vec<u8> = Vec::new();
    http11.push(0x68u8);
    http11.push(0x74u8);
    http11.push(0x74u8);
    http11.push(0x70u8);
    http11.push(0x2fu8);
    http11.push(0x31u8);
    http11.push(0x2eu8);
    http11.push(0x31u8);
    let mut protocols: Vec<Vec<u8>> = Vec::new();
    protocols.push(h2);
    protocols.push(http11);
    proof {
        assert(protocols.deep_view() =~~= offered_protocols());
    }
    protocols
}

/// A server identity as plain bytes: the certificate chain, the private key,
/// the certificates clients are checked against where they must show one,
/// and the protocols offered in the handshake.
#[derive(Debug)]
pub struct Identity {
    pub chain: Vec<Certificate>,
    pub key: PrivateKey,
    pub client_roots: Option<Vec<Certificate>>,
    pub alpn_protocols: Vec<Vec<u8>>,
}

/// What the contents of the identity files amount to: the first of them that
/// is refused decides, in the order certificate chain, key, clients'
/// certificates.
pub open spec fn assembled(
    certificate_pem: Seq<char>,
    key_pem: Seq<char>,
    client_certificate_pem: Option<Seq<char>>,
    r: Result<Identity, IdentityError>,
) -> bool {
    match pem_certificates(certificate_pem) {
        None => r is Err && r->Err_0 is Pem,
        Some(chain) => match pem_pkcs8_keys(key_pem) {
            None => r is Err && r->Err_0 is Pem,
            Some(keys) => match selected_key(keys) {
                Err(e) => r == Err::<Identity, IdentityError>(e),
                Ok(key) => match client_certificate_pem {
                    None => r matches Ok(identity) && identity_is(identity, chain, key, None),
                    Some(pem) => match pem_certificates(pem) {
                        None => r is Err && r->Err_0 is Pem,
                        Some(roots) => r matches Ok(identity) && identity_is(
                            identity,
                            chain,
                            key,
                            Some(roots),
                        ),
                    },
                },
            },
        },
    }
}

/// Whether an identity holds exactly these bytes, and offers the protocols
/// of [`offered_protocols`].
pub open spec fn identity_is(
    identity: Identity,
    chain: Seq<Seq<u8>>,
    key: Seq<u8>,
    client_roots: Option<Seq<Seq<u8>>>,
) -> bool {
    &&& chain_view(identity.chain@) == chain
    &&& identity.key.0@ == key
    &&& match client_roots {
        None => identity.client_roots is None,
        Some(roots) => identity.client_roots matches Some(held) && chain_view(held@) == roots,
    }
    &&& identity.alpn_protocols.deep_view() == offered_protocols()
}

impl Identity {
    /// Makes the identity of the contents of its files. The key file must
    /// hold exactly one PKCS#8 key, and every file must be well-formed PEM;
    /// the clients' certificates are read only where they are given.
    pub fn assemble(
        certificate_pem: &str,
        key_pem: &str,
        client_certificate_pem: Option<&str>,
    ) -> (r: Result<Identity, IdentityError>)
        ensures
            assembled(
                certificate_pem@,
                key_pem@,
                match client_certificate_pem {
                    Some(pem) => Some(pem@),
                    None => None,
                },
                r,
            ),
    {
        let chain = match load_certificates(certificate_pem) {
            Ok(chain) => chain,
            Err(e) => {
                return Err(e);
            },
        };
        let key = match load_private_key(key_pem) {
            Ok(key) => key,
            Err(e) => {
                return Err(e);
            },
        };
        let client_roots = match client_certificate_pem {
            None => None,
            Some(pem) => match load_certificates(pem) {
                Ok(roots) => Some(roots),
                Err(e) => {
                    return Err(e);
                },
            },
        };
        Ok(Identity { chain, key, client_roots, alpn_protocols: alpn_protocols() })
    }

    /// Whether the TLS engine takes the identity: the key must be one it can
    /// sign with, and every certificate that clients are checked against a
    /// trust anchor.
    pub open spec fn is_usable(&self) -> bool {
        &&& is_signing_key(self.key.0@)
        &&& self.client_roots matches Some(roots) ==> all_trust_anchors(roots@)
    }

    /// Hands the identity to the TLS engine, which makes the configuration
    /// that every handshake shares. Clients must show a certificate exactly
    /// where the identity holds certificates to check them against. The
    /// clients' certificates are looked at first, then the key.
    pub fn server_config(self) -> (r: Result<rustls::ServerConfig, IdentityError>)
        ensures
            r is Ok <==> self.is_usable(),
            r matches Err(e) ==> (e is ClientCertificate <==> (self.client_roots matches Some(roots)
                && !all_trust_anchors(roots@))) && (e is Tls || e is ClientCertificate),
    {
        let built = match self.client_roots {
            Some(roots) => {
                let store = match client_store(&roots) {
                    Ok(store) => store,
                    Err(e) => {
                        return Err(e);
                    },
                };
                config_with_client_auth(store, self.chain, self.key, self.alpn_protocols)
            },
            None => config_without_client_auth(self.chain, self.key, self.alpn_protocols),
        };
        match built {
            Ok(config) => Ok(config),
            Err(e) => Err(IdentityError::Tls(e)),
        }
    }
}

} // verus!
