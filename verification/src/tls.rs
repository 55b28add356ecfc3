//! The TLS configuration builder: turns the configured certificate chain and
//! first private key into the one immutable TLS server configuration every
//! listener shares. The policy is fixed: exactly one protocol version (TLS
//! 1.3), exactly one application protocol (`ntske/1`), no client certificate
//! authentication.

use rustls::internal::msgs::codec::Codec;
use vstd::prelude::*;

use crate::errors::TlsConfigError;
use crate::rotator::clone_bytes;

verus! {

/// The TLS 1.3 protocol version code, as it appears on the wire.
pub const TLS13_CODE: u16 = 0x0304;

/// The one application-layer protocol identifier NTS-KE advertises: the
/// ASCII bytes of `ntske/1`.
pub open spec fn ntske_alpn() -> Seq<u8> {
    seq![0x6eu8, 0x74u8, 0x73u8, 0x6bu8, 0x65u8, 0x2fu8, 0x31u8]
}

/// Whether these DER bytes parse as a usable RSA or ECDSA signing key — a
/// property of the key bytes alone. A successful installation implies it;
/// installing an ECDSA key additionally needs the system random source, so
/// nothing states the converse of that implication.
pub uninterp spec fn key_der_accepted(key: Seq<u8>) -> bool;

#[verifier::external_type_specification]
#[verifier::external_body]
pub struct ExServerConfig(rustls::ServerConfig);

/// The immutable TLS server configuration shared by every listener. The
/// policy fields mirror what was installed into the underlying `rustls`
/// configuration; nothing mutates them after construction.
pub struct TlsServerConfig {
    versions: Vec<u16>,
    alpn_protocols: Vec<Vec<u8>>,
    client_auth_enabled: bool,
    cert_chain: Vec<Vec<u8>>,
    private_key: Vec<u8>,
    inner: rustls::ServerConfig,
}

impl TlsServerConfig {
    /// Protocol version codes enabled, in preference order.
    pub closed spec fn spec_versions(&self) -> Seq<u16> {
        self.versions@
    }

    /// Application protocols advertised, in preference order.
    pub closed spec fn spec_alpn_protocols(&self) -> Seq<Seq<u8>> {
        self.alpn_protocols@.map_values(|p: Vec<u8>| p@)
    }

    /// Whether client certificate authentication is enabled.
    pub closed spec fn spec_client_auth_enabled(&self) -> bool {
        self.client_auth_enabled
    }

    /// The DER certificate chain installed as the server identity.
    pub closed spec fn spec_cert_chain(&self) -> Seq<Seq<u8>> {
        self.cert_chain@.map_values(|c: Vec<u8>| c@)
    }

    /// The DER private key installed with the chain.
    pub closed spec fn spec_private_key(&self) -> Seq<u8> {
        self.private_key@
    }

    /// The fixed identity policy of the NTS-KE design: exactly one protocol
    /// version, TLS 1.3; exactly one application protocol, `ntske/1`; and no
    /// client certificate authentication.
    pub open spec fn wf(&self) -> bool {
        &&& self.spec_versions() == seq![TLS13_CODE]
        &&& self.spec_alpn_protocols() == seq![ntske_alpn()]
        &&& !self.spec_client_auth_enabled()
    }

    /// Build the server's TLS configuration from the DER certificate chain
    /// and the DER private key. It fails when the key is unusable (success
    /// is not promised: installing the identity is the outside call's
    /// decision); whatever it returns, an `Ok` carries the fixed policy and
    /// exactly the given identity, and an `Err` names the key.
    pub fn build(certs: &Vec<Vec<u8>>, key: &Vec<u8>) -> (r: Result<TlsServerConfig, TlsConfigError>)
        ensures
            r is Ok ==> key_der_accepted(key@),
            r is Err ==> r == Err::<TlsServerConfig, TlsConfigError>(TlsConfigError::InvalidPrivateKey),
            r is Ok ==> r->Ok_0.wf(),
            r is Ok ==> r->Ok_0.spec_cert_chain() == certs@.map_values(|c: Vec<u8>| c@),
            r is Ok ==> r->Ok_0.spec_private_key() == key@,
    {
        let mut inner = rustls_new_config();

        let mut versions: Vec<u16> = Vec::new();
        versions.push(TLS13_CODE);
        rustls_set_versions(&mut inner, &versions);

        if !rustls_set_single_cert(&mut inner, certs, key) {
            return Err(TlsConfigError::InvalidPrivateKey);
        }

        let mut alpn_protocols: Vec<Vec<u8>> = Vec::new();
        alpn_protocols.push(ntske_alpn_protocol());
        rustls_set_protocols(&mut inner, &alpn_protocols);

        let config = TlsServerConfig {
            versions,
            alpn_protocols,
            client_auth_enabled: false,
            cert_chain: clone_byte_vecs(certs),
            private_key: clone_bytes(key),
            inner,
        };
        proof {
            assert(config.spec_versions() =~= seq![TLS13_CODE]);
            assert(config.spec_alpn_protocols() =~= seq![ntske_alpn()]);
            assert(config.spec_cert_chain() =~= certs@.map_values(|c: Vec<u8>| c@));
        }
        Ok(config)
    }

    /// The enabled protocol version codes.
    pub fn versions(&self) -> (r: &Vec<u16>)
        ensures
            r@ == self.spec_versions(),
    {
        &self.versions
    }

    /// The advertised application protocols.
    pub fn alpn_protocols(&self) -> (r: &Vec<Vec<u8>>)
        ensures
            r@.map_values(|p: Vec<u8>| p@) == self.spec_alpn_protocols(),
    {
        &self.alpn_protocols
    }

    /// Whether client certificate authentication is enabled.
    pub fn client_auth_enabled(&self) -> (r: bool)
        ensures
            r == self.spec_client_auth_enabled(),
    {
        self.client_auth_enabled
    }

    /// The installed DER certificate chain.
    pub fn cert_chain(&self) -> (r: &Vec<Vec<u8>>)
        ensures
            r@.map_values(|c: Vec<u8>| c@) == self.spec_cert_chain(),
    {
        &self.cert_chain
    }

    /// The installed DER private key.
    pub fn private_key(&self) -> (r: &Vec<u8>)
        ensures
            r@ == self.spec_private_key(),
    {
        &self.private_key
    }

    /// The underlying `rustls` configuration, for the I/O layer that wraps
    /// accepted connections in TLS.
    pub fn inner(&self) -> &rustls::ServerConfig {
        &self.inner
    }
}

/// Copy a vector of byte vectors.
fn clone_byte_vecs(v: &Vec<Vec<u8>>) -> (r: Vec<Vec<u8>>)
    ensures
        r@.map_values(|c: Vec<u8>| c@) == v@.map_values(|c: Vec<u8>| c@),
{
    let mut r: Vec<Vec<u8>> = Vec::new();
    let mut i: usize = 0;
    while i < v.len()
        invariant
            i <= v@.len(),
            r@.len() == i as int,
            forall|j: int| #![trigger r@[j]] 0 <= j < i as int ==> r@[j]@ == v@[j]@,
        decreases v@.len() - i,
    {
        r.push(crate::rotator::clone_bytes(&v[i]));
        i = i + 1;
    }
    proof {
        assert(r@.map_values(|c: Vec<u8>| c@) =~= v@.map_values(|c: Vec<u8>| c@));
    }
    r
}

/// The ASCII bytes of `ntske/1`.
pub fn ntske_alpn_protocol() -> (v: Vec<u8>)
    ensures
        v@ == ntske_alpn(),
{
    let mut v: Vec<u8> = Vec::new();
    v.push(0x6e);
    v.push(0x74);
    v.push(0x73);
    v.push(0x6b);
    v.push(0x65);
    v.push(0x2f);
    v.push(0x31);
    proof {
        assert(v@ =~= ntske_alpn());
    }
    v
}

/// Relies on `rustls::ServerConfig::new` and `rustls::NoClientAuth::new`: a
/// fresh server configuration whose client certificate verifier demands no
/// client certificate, with no keys and no application protocols installed.
#[verifier::external_body]
fn rustls_new_config() -> rustls::ServerConfig {
    rustls::ServerConfig::new(rustls::NoClientAuth::new())
}

/// Relies on the public `versions` field of `rustls::ServerConfig` and on
/// `rustls::ProtocolVersion::read_bytes`: replaces the enabled protocol
/// versions with exactly the given wire codes.
#[verifier::external_body]
fn rustls_set_versions(config: &mut rustls::ServerConfig, codes: &Vec<u16>) {
    config.versions = codes
        .iter()
        .map(|c| rustls::ProtocolVersion::read_bytes(&c.to_be_bytes()).unwrap())
        .collect();
}

/// Relies on `rustls::ServerConfig::set_single_cert`: installs the DER
/// certificate chain and DER private key as the sole server identity. It
/// fails when the key is not a usable RSA or ECDSA key (the chain itself is
/// not inspected there), and the construction of an ECDSA key pair also
/// depends on the system random source, so only the one direction is
/// stated: success implies the key parsed.
#[verifier::external_body]
fn rustls_set_single_cert(config: &mut rustls::ServerConfig, certs: &Vec<Vec<u8>>, key: &Vec<u8>) -> (ok: bool)
    ensures
        ok ==> key_der_accepted(key@),
{
    let chain = certs.iter().map(|c| rustls::Certificate(c.clone())).collect();
    config.set_single_cert(chain, rustls::PrivateKey(key.clone())).is_ok()
}

/// Relies on `rustls::ServerConfig::set_protocols`: replaces the advertised
/// application protocols with exactly the given list.
#[verifier::external_body]
fn rustls_set_protocols(config: &mut rustls::ServerConfig, protocols: &Vec<Vec<u8>>) {
    config.set_protocols(protocols);
}

} // verus!
