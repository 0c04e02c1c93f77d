//! TLS configuration from PEM material: a server configuration from a
//! certificate chain and a private key, a client configuration from trusted
//! root certificates. Reading the files is left to the caller; this module
//! parses their contents and builds the configurations.

use crate::error::{encryption_error, FleetNetError};
use rustls::pki_types::{CertificateDer, PrivateKeyDer, PrivatePkcs1KeyDer, PrivatePkcs8KeyDer, PrivateSec1KeyDer};
use rustls::{ClientConfig, RootCertStore, ServerConfig};
use std::sync::Arc;
use vstd::prelude::*;
use vstd::string::*;

verus! {

#[verifier::external_type_specification]
#[verifier::external_body]
pub struct ExServerConfig(ServerConfig);

#[verifier::external_type_specification]
#[verifier::external_body]
pub struct ExClientConfig(ClientConfig);

#[verifier::external_type_specification]
#[verifier::external_body]
pub struct ExRootCertStore(RootCertStore);

/// The DER certificates of the `CERTIFICATE` sections of `pem`, or `None`
/// when reading the PEM fails.
pub uninterp spec fn pem_certificates(pem: Seq<u8>) -> Option<Seq<Seq<u8>>>;

/// The DER keys of the PKCS#8 `PRIVATE KEY` sections of `pem`, or `None`
/// when reading the PEM fails.
pub uninterp spec fn pem_pkcs8_keys(pem: Seq<u8>) -> Option<Seq<Seq<u8>>>;

/// The DER keys of the PKCS#1 `RSA PRIVATE KEY` sections of `pem`, or `None`
/// when reading the PEM fails.
pub uninterp spec fn pem_pkcs1_keys(pem: Seq<u8>) -> Option<Seq<Seq<u8>>>;

/// The DER keys of the SEC1 `EC PRIVATE KEY` sections of `pem`, or `None`
/// when reading the PEM fails.
pub uninterp spec fn pem_sec1_keys(pem: Seq<u8>) -> Option<Seq<Seq<u8>>>;

/// Whether the DER chain `certs` and the DER key `key` of encoding `format`
/// pass rustls's checks of a server's certificate and key under the ring
/// provider. Passing is necessary for a configuration to be built, not
/// sufficient: loading an ECDSA key also draws from the system's random source,
/// which may fail.
pub uninterp spec fn server_pair_accepted(certs: Seq<Seq<u8>>, format: KeyFormat, key: Seq<u8>) -> bool;

/// Whether rustls accepts the DER certificate `der` as a trust anchor.
pub uninterp spec fn trust_anchor_accepted(der: Seq<u8>) -> bool;

/// The bytes `-----BEGIN ` that open every PEM section.
pub open spec fn pem_begin_marker() -> Seq<u8> {
    seq![45u8, 45, 45, 45, 45, 66, 69, 71, 73, 78, 32]
}

/// Whether `pem` holds the opening marker of a PEM section anywhere.
pub open spec fn has_pem_section_start(pem: Seq<u8>) -> bool {
    exists|i: int| 0 <= i && i + 11 <= pem.len() && #[trigger] pem.subrange(i, i + 11) == pem_begin_marker()
}

/// The message of the error for a PEM input without certificates.
pub open spec fn no_certificates_message() -> Seq<char> {
    "No certificates found in file"@
}

/// The message of the error for a PEM input without private keys.
pub open spec fn no_private_keys_message() -> Seq<char> {
    "No valid private keys found in file"@
}

/// The byte contents of each buffer of `v`.
pub open spec fn ders(v: Seq<Vec<u8>>) -> Seq<Seq<u8>> {
    v.map_values(|d: Vec<u8>| d@)
}

/// Relies on rustls_pemfile::certs: the certificates of the PEM sections of
/// `pem`, in order, stopping at the first read error. A section starts only on
/// a line that begins with `-----BEGIN `, so an input without those bytes has
/// none.
#[verifier::external_body]
fn read_pem_certificates(pem: &[u8]) -> (r: Result<Vec<Vec<u8>>, String>)
    ensures
        match pem_certificates(pem@) {
            Some(c) => r is Ok && ders(r->Ok_0@) == c,
            None => r is Err,
        },
        !has_pem_section_start(pem@) ==> r is Ok && r->Ok_0@.len() == 0,
{
    let mut reader: &[u8] = pem;
    rustls_pemfile::certs(&mut reader).map(|c| c.map(|d| d.to_vec()).map_err(|e| e.to_string())).collect()
}

/// Relies on rustls_pemfile::pkcs8_private_keys: the PKCS#8 keys of the PEM
/// sections of `pem`, in order, stopping at the first read error; an input
/// without the bytes `-----BEGIN ` has no section.
#[verifier::external_body]
fn read_pem_pkcs8_keys(pem: &[u8]) -> (r: Result<Vec<Vec<u8>>, String>)
    ensures
        match pem_pkcs8_keys(pem@) {
            Some(c) => r is Ok && ders(r->Ok_0@) == c,
            None => r is Err,
        },
        !has_pem_section_start(pem@) ==> r is Ok && r->Ok_0@.len() == 0,
{
    let mut reader: &[u8] = pem;
    rustls_pemfile::pkcs8_private_keys(&mut reader)
        .map(|k| k.map(|d| d.secret_pkcs8_der().to_vec()).map_err(|e| e.to_string()))
        .collect()
}

/// Relies on rustls_pemfile::rsa_private_keys: the PKCS#1 keys of the PEM
/// sections of `pem`, in order, stopping at the first read error; an input
/// without the bytes `-----BEGIN ` has no section.
#[verifier::external_body]
fn read_pem_pkcs1_keys(pem: &[u8]) -> (r: Result<Vec<Vec<u8>>, String>)
    ensures
        match pem_pkcs1_keys(pem@) {
            Some(c) => r is Ok && ders(r->Ok_0@) == c,
            None => r is Err,
        },
        !has_pem_section_start(pem@) ==> r is Ok && r->Ok_0@.len() == 0,
{
    let mut reader: &[u8] = pem;
    rustls_pemfile::rsa_private_keys(&mut reader)
        .map(|k| k.map(|d| d.secret_pkcs1_der().to_vec()).map_err(|e| e.to_string()))
        .collect()
}

/// Relies on rustls_pemfile::ec_private_keys: the SEC1 keys of the PEM
/// sections of `pem`, in order, stopping at the first read error; an input
/// without the bytes `-----BEGIN ` has no section.
#[verifier::external_body]
fn read_pem_sec1_keys(pem: &[u8]) -> (r: Result<Vec<Vec<u8>>, String>)
    ensures
        match pem_sec1_keys(pem@) {
            Some(c) => r is Ok && ders(r->Ok_0@) == c,
            None => r is Err,
        },
        !has_pem_section_start(pem@) ==> r is Ok && r->Ok_0@.len() == 0,
{
    let mut reader: &[u8] = pem;
    rustls_pemfile::ec_private_keys(&mut reader)
        .map(|k| k.map(|d| d.secret_sec1_der().to_vec()).map_err(|e| e.to_string()))
        .collect()
}

/// The encoding of a private key.
#[derive(Debug, Clone, Copy, PartialEq, Eq, Structural)]
pub enum KeyFormat {
    /// PKCS#8 (`PRIVATE KEY`).
    Pkcs8,
    /// PKCS#1 RSA (`RSA PRIVATE KEY`).
    Pkcs1,
    /// SEC1 EC (`EC PRIVATE KEY`).
    Sec1,
}

/// A DER private key and its encoding.
#[derive(Debug, Clone)]
pub struct PrivateKey {
    pub format: KeyFormat,
    pub der: Vec<u8>,
}

/// The key that `pem` yields: the first PKCS#8 key, else the first PKCS#1
/// key, else the first SEC1 key. `None` when a read fails or no key is found.
pub open spec fn pem_private_key(pem: Seq<u8>) -> Option<(KeyFormat, Seq<u8>)> {
    match pem_pkcs8_keys(pem) {
        None => None,
        Some(k8) => if k8.len() > 0 {
            Some((KeyFormat::Pkcs8, k8[0]))
        } else {
            match pem_pkcs1_keys(pem) {
                None => None,
                Some(k1) => if k1.len() > 0 {
                    Some((KeyFormat::Pkcs1, k1[0]))
                } else {
                    match pem_sec1_keys(pem) {
                        None => None,
                        Some(ke) => if ke.len() > 0 {
                            Some((KeyFormat::Sec1, ke[0]))
                        } else {
                            None
                        },
                    }
                },
            }
        },
    }
}

/// Whether all three key reads of `pem` succeed and find no key.
pub open spec fn pem_without_keys(pem: Seq<u8>) -> bool {
    &&& pem_pkcs8_keys(pem) is Some && pem_pkcs8_keys(pem)->Some_0.len() == 0
    &&& pem_pkcs1_keys(pem) is Some && pem_pkcs1_keys(pem)->Some_0.len() == 0
    &&& pem_sec1_keys(pem) is Some && pem_sec1_keys(pem)->Some_0.len() == 0
}

/// The certificates that `pem` yields when there is at least one.
pub open spec fn pem_certificate_chain(pem: Seq<u8>) -> Option<Seq<Seq<u8>>> {
    match pem_certificates(pem) {
        Some(c) => if c.len() > 0 {
            Some(c)
        } else {
            None
        },
        None => None,
    }
}

/// An encryption error whose message is `prefix` followed by `detail`.
fn detailed_encryption_error(prefix: &str, detail: &String) -> (r: FleetNetError)
    ensures
        r is EncryptionError,
        r->EncryptionError_0@ == prefix@ + detail@,
{
    let mut msg = prefix.to_owned();
    msg.append(detail.as_str());
    FleetNetError::EncryptionError(msg)
}

/// The certificates of `pem`: an encryption error when reading fails or when
/// it holds none.
pub fn load_certs(pem: &[u8]) -> (r: Result<Vec<Vec<u8>>, FleetNetError>)
    ensures
        match pem_certificate_chain(pem@) {
            Some(c) => r is Ok && ders(r->Ok_0@) == c,
            None => r is Err && r->Err_0 is EncryptionError,
        },
        pem_certificates(pem@) == Some(Seq::<Seq<u8>>::empty()) ==> r is Err && r->Err_0 is EncryptionError
            && r->Err_0->EncryptionError_0@ == no_certificates_message(),
        !has_pem_section_start(pem@) ==> r is Err && r->Err_0 is EncryptionError
            && r->Err_0->EncryptionError_0@ == no_certificates_message(),
{
    let certs = match read_pem_certificates(pem) {
        Ok(c) => c,
        Err(e) => {
            return Err(detailed_encryption_error("Failed to read certificates: ", &e));
        },
    };
    if certs.len() == 0 {
        return Err(encryption_error("No certificates found in file"));
    }
    Ok(certs)
}

/// The private key of `pem`, trying PKCS#8, then PKCS#1, then SEC1, and
/// taking the first key of the first encoding that has one; an encryption
/// error when a read fails or no key is found.
pub fn load_private_key(pem: &[u8]) -> (r: Result<PrivateKey, FleetNetError>)
    ensures
        match pem_private_key(pem@) {
            Some(k) => r is Ok && r->Ok_0.format == k.0 && r->Ok_0.der@ == k.1,
            None => r is Err && r->Err_0 is EncryptionError,
        },
        pem_without_keys(pem@) ==> r is Err && r->Err_0 is EncryptionError
            && r->Err_0->EncryptionError_0@ == no_private_keys_message(),
        !has_pem_section_start(pem@) ==> r is Err && r->Err_0 is EncryptionError
            && r->Err_0->EncryptionError_0@ == no_private_keys_message(),
{
    let pkcs8 = match read_pem_pkcs8_keys(pem) {
        Ok(k) => k,
        Err(e) => {
            return Err(detailed_encryption_error("Failed to read PKCS8 private key: ", &e));
        },
    };
    if pkcs8.len() > 0 {
        assert(ders(pkcs8@)[0] == pkcs8@[0]@);
        return Ok(PrivateKey { format: KeyFormat::Pkcs8, der: take_first(pkcs8) });
    }
    let pkcs1 = match read_pem_pkcs1_keys(pem) {
        Ok(k) => k,
        Err(e) => {
            return Err(detailed_encryption_error("Failed to read RSA private key: ", &e));
        },
    };
    if pkcs1.len() > 0 {
        assert(ders(pkcs1@)[0] == pkcs1@[0]@);
        return Ok(PrivateKey { format: KeyFormat::Pkcs1, der: take_first(pkcs1) });
    }
    let sec1 = match read_pem_sec1_keys(pem) {
        Ok(k) => k,
        Err(e) => {
            return Err(detailed_encryption_error("Failed to read EC private key: ", &e));
        },
    };
    if sec1.len() > 0 {
        assert(ders(sec1@)[0] == sec1@[0]@);
        return Ok(PrivateKey { format: KeyFormat::Sec1, der: take_first(sec1) });
    }
    Err(encryption_error("No valid private keys found in file"))
}

/// The first buffer of `v`.
fn take_first(v: Vec<Vec<u8>>) -> (r: Vec<u8>)
    requires
        v@.len() > 0,
    ensures
        r == v@[0],
{
    let mut v = v;
    v.swap_remove(0)
}

/// Relies on rustls: `ServerConfig::builder_with_provider` with the ring
/// provider, its safe default protocol versions (which the ring provider
/// always supports), no client authentication and `with_single_cert`, which
/// refuses a chain and key that fail its checks; it can also fail when loading
/// the key draws from a failing system random source. A failure is returned
/// as text.
#[verifier::external_body]
fn build_server_config(certs: Vec<Vec<u8>>, key: PrivateKey) -> (r: Result<Arc<ServerConfig>, String>)
    ensures
        r is Ok ==> server_pair_accepted(ders(certs@), key.format, key.der@),
{
    let chain: Vec<CertificateDer<'static>> = certs.into_iter().map(CertificateDer::from).collect();
    let key_der: PrivateKeyDer<'static> = match key.format {
        KeyFormat::Pkcs8 => PrivateKeyDer::Pkcs8(PrivatePkcs8KeyDer::from(key.der)),
        KeyFormat::Pkcs1 => PrivateKeyDer::Pkcs1(PrivatePkcs1KeyDer::from(key.der)),
        KeyFormat::Sec1 => PrivateKeyDer::Sec1(PrivateSec1KeyDer::from(key.der)),
    };
    ServerConfig::builder_with_provider(Arc::new(rustls::crypto::ring::default_provider()))
        .with_safe_default_protocol_versions()
        .and_then(|b| b.with_no_client_auth().with_single_cert(chain, key_der))
        .map(Arc::new)
        .map_err(|e| e.to_string())
}

/// Relies on rustls's `RootCertStore::empty`: a store with no trust anchors.
#[verifier::external_body]
fn empty_root_store() -> (r: RootCertStore) {
    RootCertStore::empty()
}

/// Relies on rustls's `RootCertStore::add`: adds the DER certificate `der` as a
/// trust anchor, or reports as text why it cannot be one; which of the two
/// depends on the bytes alone.
#[verifier::external_body]
fn add_root(store: &mut RootCertStore, der: &Vec<u8>) -> (r: Result<(), String>)
    ensures
        r is Ok <==> trust_anchor_accepted(der@),
{
    store.add(CertificateDer::from(der.as_slice())).map_err(|e| e.to_string())
}

/// Relies on rustls: `ClientConfig::builder_with_provider` with the ring
/// provider, its safe default protocol versions, the trust anchors of `store`
/// and no client authentication. Choosing the versions fails only for a
/// provider without cipher suites or key-exchange groups, and ring has both.
#[verifier::external_body]
fn build_client_config(store: RootCertStore) -> (r: Result<Arc<ClientConfig>, String>)
    ensures
        r is Ok,
{
    ClientConfig::builder_with_provider(Arc::new(rustls::crypto::ring::default_provider()))
        .with_safe_default_protocol_versions()
        .map(|b| Arc::new(b.with_root_certificates(store).with_no_client_auth()))
        .map_err(|e| e.to_string())
}

/// A server or client TLS configuration, built once and shared read-only.
pub struct TlsConfig {
    pub server_config: Option<Arc<ServerConfig>>,
    pub client_config: Option<Arc<ClientConfig>>,
}

impl TlsConfig {
    /// The configuration of a server built by rustls: the server configuration
    /// on success, an encryption error carrying rustls's reason otherwise.
    pub fn from_built_server(built: Result<Arc<ServerConfig>, String>) -> (r: Result<TlsConfig, FleetNetError>)
        ensures
            match built {
                Ok(c) => r is Ok && r->Ok_0.server_config == Some(c) && r->Ok_0.client_config is None,
                Err(e) => r is Err && r->Err_0 is EncryptionError,
            },
    {
        match built {
            Ok(c) => Ok(TlsConfig { server_config: Some(c), client_config: None }),
            Err(e) => Err(detailed_encryption_error("Failed to create TLS server config: ", &e)),
        }
    }

    /// The configuration of a client built by rustls: the client configuration
    /// on success, an encryption error carrying rustls's reason otherwise.
    pub fn from_built_client(built: Result<Arc<ClientConfig>, String>) -> (r: Result<TlsConfig, FleetNetError>)
        ensures
            match built {
                Ok(c) => r is Ok && r->Ok_0.client_config == Some(c) && r->Ok_0.server_config is None,
                Err(e) => r is Err && r->Err_0 is EncryptionError,
            },
    {
        match built {
            Ok(c) => Ok(TlsConfig { server_config: None, client_config: Some(c) }),
            Err(e) => Err(detailed_encryption_error("Failed to create TLS client config: ", &e)),
        }
    }

    /// A server configuration from the contents of a PEM certificate chain and
    /// a PEM private key, without client authentication. Fails with an
    /// encryption error when the chain is unreadable or empty (checked first),
    /// when no key is found, or when rustls cannot build the configuration
    /// (the pair fails its checks, or the system random source fails).
    pub fn new_server(cert_pem: &[u8], key_pem: &[u8]) -> (r: Result<TlsConfig, FleetNetError>)
        ensures
            r is Err ==> r->Err_0 is EncryptionError,
            r is Ok ==> r->Ok_0.server_config is Some && r->Ok_0.client_config is None,
            pem_certificate_chain(cert_pem@) is None ==> r is Err,
            pem_certificates(cert_pem@) == Some(Seq::<Seq<u8>>::empty()) || !has_pem_section_start(cert_pem@) ==> r is Err
                && r->Err_0->EncryptionError_0@ == no_certificates_message(),
            pem_certificate_chain(cert_pem@) is Some ==> {
                &&& pem_private_key(key_pem@) is None ==> r is Err
                &&& pem_without_keys(key_pem@) || !has_pem_section_start(key_pem@) ==> r is Err
                    && r->Err_0->EncryptionError_0@ == no_private_keys_message()
                &&& pem_private_key(key_pem@) is Some && r is Ok ==> (server_pair_accepted(
                    pem_certificate_chain(cert_pem@)->Some_0,
                    pem_private_key(key_pem@)->Some_0.0,
                    pem_private_key(key_pem@)->Some_0.1,
                ))
            },
    {
        let certs = match load_certs(cert_pem) {
            Ok(c) => c,
            Err(e) => {
                return Err(e);
            },
        };
        let key = match load_private_key(key_pem) {
            Ok(k) => k,
            Err(e) => {
                return Err(e);
            },
        };
        TlsConfig::from_built_server(build_server_config(certs, key))
    }

    /// A client configuration that trusts the certificates of the PEM
    /// `ca_cert_pem` as roots and offers no client certificate. Fails with an
    /// encryption error when the certificates are unreadable or absent, or
    /// when one cannot be a trust anchor.
    pub fn new_client(ca_cert_pem: &[u8]) -> (r: Result<TlsConfig, FleetNetError>)
        ensures
            r is Err ==> r->Err_0 is EncryptionError,
            r is Ok ==> r->Ok_0.client_config is Some && r->Ok_0.server_config is None,
            pem_certificate_chain(ca_cert_pem@) is None ==> r is Err,
            pem_certificates(ca_cert_pem@) == Some(Seq::<Seq<u8>>::empty()) || !has_pem_section_start(ca_cert_pem@)
                ==> r is Err && r->Err_0->EncryptionError_0@ == no_certificates_message(),
            pem_certificate_chain(ca_cert_pem@) is Some ==> (r is Ok <==> forall|i: int|
                0 <= i < pem_certificate_chain(ca_cert_pem@)->Some_0.len() ==> trust_anchor_accepted(
                    #[trigger] pem_certificate_chain(ca_cert_pem@)->Some_0[i],
                )),
    {
        let ca_certs = match load_certs(ca_cert_pem) {
            Ok(c) => c,
            Err(e) => {
                return Err(e);
            },
        };
        let ghost chain = ders(ca_certs@);
        assert(chain.len() > 0);
        let mut store = empty_root_store();
        let mut i: usize = 0;
        while i < ca_certs.len()
            invariant
                0 <= i <= ca_certs@.len(),
                chain == ders(ca_certs@),
                pem_certificate_chain(ca_cert_pem@) == Some(chain),
                has_pem_section_start(ca_cert_pem@),
                pem_certificates(ca_cert_pem@) != Some(Seq::<Seq<u8>>::empty()),
                forall|j: int| 0 <= j < i ==> trust_anchor_accepted(#[trigger] chain[j]),
            decreases ca_certs@.len() - i,
        {
            assert(chain[i as int] == ca_certs@[i as int]@);
            match add_root(&mut store, &ca_certs[i]) {
                Ok(()) => {},
                Err(e) => {
                    assert(!trust_anchor_accepted(chain[i as int]));
                    return Err(detailed_encryption_error("Failed to add CA certificate to root store: ", &e));
                },
            }
            i = i + 1;
        }
        TlsConfig::from_built_client(build_client_config(store))
    }
}

} // verus!
