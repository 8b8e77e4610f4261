use vstd::prelude::*;
use crate::error::ClientError;
use rustls::pki_types::ServerName;
use std::sync::Arc;

verus! {

#[verifier::external_type_specification]
#[verifier::external_body]
pub struct ExClientConfig(rustls::ClientConfig);

#[verifier::external_type_specification]
#[verifier::external_body]
pub struct ExRootCertStore(rustls::RootCertStore);

/// The protocol name of HTTP/2 in ALPN.
pub open spec fn h2_id() -> Seq<u8> {
    seq![0x68u8, 0x32u8]
}

/// The protocol name of HTTP/1.1 in ALPN.
pub open spec fn http11_id() -> Seq<u8> {
    seq![0x68u8, 0x74u8, 0x74u8, 0x70u8, 0x2fu8, 0x31u8, 0x2eu8, 0x31u8]
}

/// The application protocols offered in the handshake, in order of
/// preference: `h2`, then `http/1.1`. The request itself is always
/// HTTP/1.1, whatever the server picks.
pub fn alpn_offer() -> (r: Vec<Vec<u8>>)
    ensures
        r@.len() == 2,
        r@[0]@ == h2_id(),
        r@[1]@ == http11_id(),
{
    let h2: Vec<u8> = vec![0x68u8, 0x32u8];
    let http11: Vec<u8> = vec![0x68u8, 0x74u8, 0x74u8, 0x70u8, 0x2fu8, 0x31u8, 0x2eu8, 0x31u8];
    assert(h2@ =~= h2_id());
    assert(http11@ =~= http11_id());
    vec![h2, http11]
}

/// A rustls root store, with whether it holds the webpki-roots set.
pub struct RootStore {
    store: rustls::RootCertStore,
    browser_set: Ghost<bool>,
}

impl RootStore {
    /// The store holds the certificate authorities of webpki-roots.
    pub closed spec fn is_browser_set(&self) -> bool {
        self.browser_set@
    }
}

/// A rustls client configuration, with what it offers and trusts.
pub struct TlsConfig {
    config: rustls::ClientConfig,
    alpn: Ghost<Seq<Seq<u8>>>,
    browser_roots: Ghost<bool>,
    client_cert: Ghost<bool>,
}

impl TlsConfig {
    /// The application protocols offered in the handshake, in order.
    pub closed spec fn alpn_offered(&self) -> Seq<Seq<u8>> {
        self.alpn@
    }

    /// Server certificates are checked against the webpki-roots set.
    pub closed spec fn trusts_browser_roots(&self) -> bool {
        self.browser_roots@
    }

    /// A client certificate is presented when the server asks for one.
    pub closed spec fn presents_client_cert(&self) -> bool {
        self.client_cert@
    }

    /// The rustls configuration itself.
    pub fn into_rustls(self) -> rustls::ClientConfig {
        self.config
    }
}

/// Relies on webpki_roots::TLS_SERVER_ROOTS: the certificate authorities
/// that Mozilla trusts, as a rustls root store.
#[verifier::external_body]
fn browser_roots() -> (r: RootStore)
    ensures
        r.is_browser_set(),
{
    let store = rustls::RootCertStore { roots: webpki_roots::TLS_SERVER_ROOTS.into() };
    RootStore { store, browser_set: Ghost(true) }
}

/// Relies on rustls::ClientConfig::builder, with_root_certificates and
/// with_no_client_auth: a client configuration that trusts the roots of
/// `roots` alone, presents no certificate, and offers no application
/// protocol (`alpn_protocols` starts empty). The builder does not panic
/// here, since the crate enables exactly one crypto provider (ring).
#[verifier::external_body]
fn config_trusting(roots: RootStore) -> (r: TlsConfig)
    ensures
        r.trusts_browser_roots() == roots.is_browser_set(),
        !r.presents_client_cert(),
        r.alpn_offered() == Seq::<Seq<u8>>::empty(),
{
    let browser = roots.browser_set;
    let config =
        rustls::ClientConfig::builder().with_root_certificates(roots.store).with_no_client_auth();
    TlsConfig { config, alpn: Ghost(Seq::empty()), browser_roots: browser, client_cert: Ghost(false) }
}

/// Relies on the public field rustls::ClientConfig::alpn_protocols: the
/// protocols offered during the handshake, in order.
#[verifier::external_body]
fn set_alpn_protocols(config: &mut TlsConfig, protocols: Vec<Vec<u8>>)
    ensures
        final(config).alpn_offered() == protocols@.map_values(|p: Vec<u8>| p@),
        final(config).trusts_browser_roots() == old(config).trusts_browser_roots(),
        final(config).presents_client_cert() == old(config).presents_client_cert(),
{
    config.alpn = Ghost(protocols@.map_values(|p: Vec<u8>| p@));
    config.config.alpn_protocols = protocols;
}

/// The TLS client configuration: it trusts the browsers' roots, presents
/// no client certificate, and offers `h2`, then `http/1.1`. No key log is
/// set: writing session secrets out is for the caller to ask for.
pub fn client_config() -> (r: TlsConfig)
    ensures
        r.trusts_browser_roots(),
        !r.presents_client_cert(),
        r.alpn_offered() == seq![h2_id(), http11_id()],
{
    let mut config = config_trusting(browser_roots());
    let offer = alpn_offer();
    let ghost offered = offer@.map_values(|p: Vec<u8>| p@);
    set_alpn_protocols(&mut config, offer);
    assert(offered =~= seq![h2_id(), http11_id()]);
    config
}

#[verifier::external_type_specification]
#[verifier::external_body]
pub struct ExServerName<'a>(ServerName<'a>);

#[verifier::external_type_specification]
#[verifier::external_body]
pub struct ExClientConnection(rustls::ClientConnection);

#[verifier::external_type_specification]
#[verifier::external_body]
pub struct ExTlsError(rustls::Error);

/// Whether rustls takes `s` as the name of a server: a DNS name or an IP
/// address.
pub uninterp spec fn is_server_name(s: Seq<char>) -> bool;

/// Relies on `ServerName::try_from(String)` of rustls-pki-types: the name
/// to check the server's certificate against, where the text is a DNS name
/// or an IP address. The outcome depends on the text alone.
#[verifier::external_body]
fn server_name(host: &str) -> (r: Option<ServerName<'static>>)
    ensures
        r is Some == is_server_name(host@),
{
    ServerName::try_from(host.to_string()).ok()
}

/// Relies on rustls::ClientConnection::new: the state of a new client
/// session with the server `name` under `config`.
#[verifier::external_body]
fn new_session(config: rustls::ClientConfig, name: ServerName<'static>) -> (r: Result<
    rustls::ClientConnection,
    rustls::Error,
>) {
    rustls::ClientConnection::new(Arc::new(config), name)
}

/// Relies on std::io::Error::new with ErrorKind::InvalidInput: an I/O error
/// that says the host is no name a certificate can be checked against.
#[verifier::external_body]
fn invalid_server_name(host: &str) -> (r: std::io::Error) {
    std::io::Error::new(std::io::ErrorKind::InvalidInput, format!("invalid server name: {host}"))
}

/// Relies on std::io::Error::other: an I/O error that carries a TLS error.
#[verifier::external_body]
fn io_error_from_tls(e: rustls::Error) -> (r: std::io::Error) {
    std::io::Error::other(e)
}

/// A client session with `host` under `config`, ready for the handshake.
/// A host that is neither a DNS name nor an IP address gives a `Network`
/// error, as does a session that rustls refuses to start.
pub fn client_session(config: rustls::ClientConfig, host: &str) -> (r: Result<
    rustls::ClientConnection,
    ClientError,
>)
    ensures
        !is_server_name(host@) ==> r is Err,
        r is Err ==> r->Err_0 is Network,
{
    match server_name(host) {
        None => Err(ClientError::Network(invalid_server_name(host))),
        Some(name) => match new_session(config, name) {
            Ok(conn) => Ok(conn),
            Err(e) => Err(ClientError::Network(io_error_from_tls(e))),
        },
    }
}

} // verus!
