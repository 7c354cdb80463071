//! The credential loader: from the bytes of a PEM private-key file and a PEM
//! certificate-chain file to one immutable, validated TLS server identity.
//!
//! The caller reads the two files (or reports them missing) and hands their
//! contents in as plain byte vectors; everything decided here — which error a
//! missing or unusable input produces, that PKCS#8 is preferred and PKCS#1 is
//! the legacy fallback, and how a rejected chain/key pair propagates — is
//! verified. Only the PEM decoding itself and the final chain/key validation
//! are performed by `rustls-pemfile` and `rustls` behind trusted wrappers.

use vstd::prelude::*;

verus! {

/// The DER of the first PKCS#8 private-key section of a PEM file, if the
/// first such section exists and decodes.
pub uninterp spec fn pkcs8_first_key(pem: Seq<u8>) -> Option<Seq<u8>>;

/// The DER of the first PKCS#1 (RSA) private-key section of a PEM file, if
/// the first such section exists and decodes.
pub uninterp spec fn rsa_first_key(pem: Seq<u8>) -> Option<Seq<u8>>;

/// The DER certificates of a PEM file, leaf first, if every certificate
/// section decodes.
pub uninterp spec fn cert_chain_of(pem: Seq<u8>) -> Option<Seq<Seq<u8>>>;

/// The encoding the private key was accepted under.
#[derive(Clone, Copy, PartialEq, Eq, Structural, Debug)]
pub enum KeyFormat {
    /// PKCS#8, the preferred encoding.
    Pkcs8,
    /// PKCS#1 (RSA), the legacy fallback.
    Pkcs1,
}

/// Why loading the TLS server identity failed.
#[derive(Debug)]
pub enum LoadError {
    /// The private-key file does not exist at this path.
    KeyNotFound { path: String },
    /// The certificate file does not exist at this path.
    CertificateNotFound { path: String },
    /// The key file yields neither a PKCS#8 nor a PKCS#1 private key.
    InvalidKey,
    /// A certificate section of the certificate file does not decode.
    BadCertificates,
    /// The chain and key were rejected as a pair (unusable key material or a
    /// key that does not match the leaf certificate).
    IncompatibleCredentials,
}

impl LoadError {
    /// The operator-facing description of the failure; a not-found error
    /// names the missing path and its role, key or certificate.
    pub fn message(&self) -> (r: String)
        ensures
            self matches LoadError::KeyNotFound { path } ==> r@ == "TLS key not found: "@
                + path@,
            self matches LoadError::CertificateNotFound { path } ==> r@
                == "TLS certificate not found: "@ + path@,
            self is InvalidKey ==> r@ == "Invalid private key"@,
            self is BadCertificates ==> r@ == "Invalid certificate file"@,
            self is IncompatibleCredentials ==> r@
                == "Certificate chain and private key are incompatible"@,
    {
        match self {
            LoadError::KeyNotFound { path } => {
                let mut s = "TLS key not found: ".to_owned();
                s.append(path.as_str());
                s
            },
            LoadError::CertificateNotFound { path } => {
                let mut s = "TLS certificate not found: ".to_owned();
                s.append(path.as_str());
                s
            },
            LoadError::InvalidKey => "Invalid private key".to_owned(),
            LoadError::BadCertificates => "Invalid certificate file".to_owned(),
            LoadError::IncompatibleCredentials => {
                "Certificate chain and private key are incompatible".to_owned()
            },
        }
    }
}

/// Relies on `rustls_pemfile::pkcs8_private_keys`: an iterator over the
/// PKCS#8 private-key sections of the input, a pure function of the bytes;
/// its first item, when present and well-formed, is the key's DER.
#[verifier::external_body]
fn first_pkcs8_key(pem: &Vec<u8>) -> (r: Option<Vec<u8>>)
    ensures
        r.deep_view() == pkcs8_first_key(pem@),
{
    let mut rd: &[u8] = pem.as_slice();
    let first = rustls_pemfile::pkcs8_private_keys(&mut rd).next();
    match first {
        Some(Ok(key)) => Some(key.secret_pkcs8_der().to_vec()),
        _ => None,
    }
}

/// Relies on `rustls_pemfile::rsa_private_keys`: an iterator over the PKCS#1
/// (RSA) private-key sections of the input, a pure function of the bytes;
/// its first item, when present and well-formed, is the key's DER.
#[verifier::external_body]
fn first_rsa_key(pem: &Vec<u8>) -> (r: Option<Vec<u8>>)
    ensures
        r.deep_view() == rsa_first_key(pem@),
{
    let mut rd: &[u8] = pem.as_slice();
    let first = rustls_pemfile::rsa_private_keys(&mut rd).next();
    match first {
        Some(Ok(key)) => Some(key.secret_pkcs1_der().to_vec()),
        _ => None,
    }
}

/// Relies on `rustls_pemfile::certs`: an iterator over the certificate
/// sections of the input in file order, a pure function of the bytes; each
/// well-formed item is one certificate's DER, and any malformed item is an
/// error.
#[verifier::external_body]
fn parse_cert_chain(pem: &Vec<u8>) -> (r: Option<Vec<Vec<u8>>>)
    ensures
        r.deep_view() == cert_chain_of(pem@),
{
    let mut rd: &[u8] = pem.as_slice();
    let parsed: Result<Vec<rustls::pki_types::CertificateDer<'static>>, std::io::Error> =
        rustls_pemfile::certs(&mut rd).collect();
    match parsed {
        Ok(certs) => Some(certs.iter().map(|c| c.as_ref().to_vec()).collect()),
        Err(_) => None,
    }
}

#[verifier::external_type_specification]
#[verifier::external_body]
pub struct ExServerConfig(rustls::ServerConfig);

#[verifier::external_type_specification]
#[verifier::external_body]
pub struct ExRustlsError(rustls::Error);

/// Relies on `rustls::ServerConfig::builder().with_no_client_auth()
/// .with_single_cert(..)`: builds a server configuration that demands no
/// client certificate from the given DER chain and key, and fails when the
/// key's DER is unusable or its public half does not match the leaf
/// certificate.
#[verifier::external_body]
fn build_server_config(chain: &Vec<Vec<u8>>, key_der: &Vec<u8>, format: KeyFormat) -> (r: Result<
    rustls::ServerConfig,
    rustls::Error,
>)
{
    let certs: Vec<rustls::pki_types::CertificateDer<'static>> =
        chain.iter().map(|c| rustls::pki_types::CertificateDer::from(c.clone())).collect();
    let key = match format {
        KeyFormat::Pkcs8 => rustls::pki_types::PrivateKeyDer::Pkcs8(
            rustls::pki_types::PrivatePkcs8KeyDer::from(key_der.clone()),
        ),
        KeyFormat::Pkcs1 => rustls::pki_types::PrivateKeyDer::Pkcs1(
            rustls::pki_types::PrivatePkcs1KeyDer::from(key_der.clone()),
        ),
    };
    rustls::ServerConfig::builder().with_no_client_auth().with_single_cert(certs, key)
}

/// The immutable TLS server identity: the certificate chain and the one
/// private key it was validated with, and the server configuration built
/// from them. Never mutated after construction; shared read-only across
/// connections by the caller.
pub struct TlsIdentity {
    /// The certificate chain, leaf first, as DER.
    pub chain_der: Vec<Vec<u8>>,
    /// The accepted private key as DER.
    pub key_der: Vec<u8>,
    /// The encoding the key was accepted under.
    pub key_format: KeyFormat,
    /// The validated configuration; requires no client authentication.
    pub config: rustls::ServerConfig,
}

impl TlsIdentity {
    /// The chain as a sequence of DER byte sequences.
    pub open spec fn chain_view(self) -> Seq<Seq<u8>> {
        self.chain_der.deep_view()
    }
}

/// The key the loader settles on for a key file's bytes: the first PKCS#8
/// key when one decodes, else the first PKCS#1 key, else nothing.
pub open spec fn chosen_key(key_pem: Seq<u8>) -> Option<(KeyFormat, Seq<u8>)> {
    match pkcs8_first_key(key_pem) {
        Some(der) => Some((KeyFormat::Pkcs8, der)),
        None => match rsa_first_key(key_pem) {
            Some(der) => Some((KeyFormat::Pkcs1, der)),
            None => None,
        },
    }
}

/// Pick the private key from a key file's bytes: PKCS#8 first, PKCS#1 (RSA)
/// as the fallback.
pub fn select_private_key(key_pem: &Vec<u8>) -> (r: Option<(KeyFormat, Vec<u8>)>)
    ensures
        r is Some <==> chosen_key(key_pem@) is Some,
        r matches Some(p) ==> (chosen_key(key_pem@) matches Some(c) && p.0 == c.0 && p.1@ == c.1),
{
    match first_pkcs8_key(key_pem) {
        Some(der) => Some((KeyFormat::Pkcs8, der)),
        None => match first_rsa_key(key_pem) {
            Some(der) => Some((KeyFormat::Pkcs1, der)),
            None => None,
        },
    }
}

/// Turn the outcome of the chain/key validation into the loader's result:
/// an accepted pair becomes the identity holding exactly that chain, key and
/// configuration; a rejected pair propagates as an incompatible-credentials
/// error, never swallowed.
pub fn finish_identity(
    chain_der: Vec<Vec<u8>>,
    key_der: Vec<u8>,
    key_format: KeyFormat,
    built: Result<rustls::ServerConfig, rustls::Error>,
) -> (r: Result<TlsIdentity, LoadError>)
    ensures
        built matches Ok(config) ==> (r matches Ok(id) && id == (TlsIdentity {
            chain_der,
            key_der,
            key_format,
            config,
        })),
        built is Err ==> (r matches Err(e) && e is IncompatibleCredentials),
{
    match built {
        Ok(config) => Ok(TlsIdentity { chain_der, key_der, key_format, config }),
        Err(_) => Err(LoadError::IncompatibleCredentials),
    }
}

/// What the loader owes for given file contents: the exact error for a
/// missing key file, an unusable key, a missing certificate file or a bad
/// certificate section, in the loader's fixed order; and, once all inputs
/// decode, either the identity holding exactly the chosen key and chain or
/// the propagated rejection of the pair — never anything else.
pub open spec fn loader_obeys(
    key_path: Seq<char>,
    cert_path: Seq<char>,
    key_file: Option<Seq<u8>>,
    cert_file: Option<Seq<u8>>,
    r: Result<TlsIdentity, LoadError>,
) -> bool {
    match key_file {
        None => match r {
            Err(LoadError::KeyNotFound { path }) => path@ == key_path,
            _ => false,
        },
        Some(kf) => match chosen_key(kf) {
            None => r matches Err(LoadError::InvalidKey),
            Some(ck) => match cert_file {
                None => match r {
                    Err(LoadError::CertificateNotFound { path }) => path@ == cert_path,
                    _ => false,
                },
                Some(cf) => match cert_chain_of(cf) {
                    None => r matches Err(LoadError::BadCertificates),
                    Some(chain) => match r {
                        Ok(id) => id.chain_view() == chain && id.key_der@ == ck.1 && id.key_format
                            == ck.0,
                        Err(e) => e is IncompatibleCredentials,
                    },
                },
            },
        },
    }
}

/// Load the TLS server identity from the contents of the key and certificate
/// files, handed in as `None` when the file does not exist at its path.
///
/// The checks run in the loader's fixed order: a missing key file first, then
/// the key itself (PKCS#8 preferred, PKCS#1 fallback, else invalid), then a
/// missing certificate file, then the certificate sections, and last the
/// chain/key validation, whose rejection propagates.
pub fn load_identity(
    key_path: String,
    cert_path: String,
    key_file: Option<Vec<u8>>,
    cert_file: Option<Vec<u8>>,
) -> (r: Result<TlsIdentity, LoadError>)
    ensures
        loader_obeys(key_path@, cert_path@, key_file.deep_view(), cert_file.deep_view(), r),
{
    let key_pem = match key_file {
        None => {
            return Err(LoadError::KeyNotFound { path: key_path });
        },
        Some(k) => k,
    };
    proof {
        assert(key_pem.deep_view() =~= key_pem@);
    }
    let (key_format, key_der) = match select_private_key(&key_pem) {
        None => {
            return Err(LoadError::InvalidKey);
        },
        Some(p) => p,
    };
    let cert_pem = match cert_file {
        None => {
            return Err(LoadError::CertificateNotFound { path: cert_path });
        },
        Some(c) => c,
    };
    proof {
        assert(cert_pem.deep_view() =~= cert_pem@);
    }
    let chain_der = match parse_cert_chain(&cert_pem) {
        None => {
            return Err(LoadError::BadCertificates);
        },
        Some(ch) => ch,
    };
    let built = build_server_config(&chain_der, &key_der, key_format);
    finish_identity(chain_der, key_der, key_format, built)
}

/// A key file with a decodable PKCS#8 key is accepted as PKCS#8, whatever
/// else the file holds.
pub proof fn lemma_pkcs8_preferred(key_pem: Seq<u8>)
    requires
        pkcs8_first_key(key_pem) is Some,
    ensures
        chosen_key(key_pem) matches Some(c) && c.0 == KeyFormat::Pkcs8 && Some(c.1)
            == pkcs8_first_key(key_pem),
{
}

/// A key file with no decodable PKCS#8 key but a decodable PKCS#1 (RSA) key
/// is still accepted, through the fallback, as PKCS#1.
pub proof fn lemma_rsa_fallback(key_pem: Seq<u8>)
    requires
        pkcs8_first_key(key_pem) is None,
        rsa_first_key(key_pem) is Some,
    ensures
        chosen_key(key_pem) matches Some(c) && c.0 == KeyFormat::Pkcs1 && Some(c.1)
            == rsa_first_key(key_pem),
{
}

} // verus!
