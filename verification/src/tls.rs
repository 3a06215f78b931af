//! TLS material: decoding the PEM-encoded certificate chain and private key
//! that the binary carries, and deciding which private-key encodings are
//! accepted.

use vstd::prelude::*;

verus! {

/// One decoded PEM section, as the PEM parser classifies it.
pub enum PemEntry {
    /// A `CERTIFICATE` section: a DER-encoded X.509 certificate.
    Certificate(Vec<u8>),
    /// An `RSA PRIVATE KEY` section: a DER-encoded PKCS#1 key.
    RsaKey(Vec<u8>),
    /// A `PRIVATE KEY` section: a DER-encoded PKCS#8 key.
    Pkcs8Key(Vec<u8>),
    /// An `EC PRIVATE KEY` section: a DER-encoded SEC1 key.
    EcKey(Vec<u8>),
    /// An `X509 CRL` section: a DER-encoded revocation list.
    Crl(Vec<u8>),
    /// A section of a kind this library does not know.
    Unrecognized,
}

/// The mathematical counterpart of `PemEntry`.
pub ghost enum PemEntryV {
    /// A `CERTIFICATE` section.
    Certificate(Seq<u8>),
    /// An `RSA PRIVATE KEY` section.
    RsaKey(Seq<u8>),
    /// A `PRIVATE KEY` section.
    Pkcs8Key(Seq<u8>),
    /// An `EC PRIVATE KEY` section.
    EcKey(Seq<u8>),
    /// An `X509 CRL` section.
    Crl(Seq<u8>),
    /// A section of a kind this library does not know.
    Unrecognized,
}

impl View for PemEntry {
    type V = PemEntryV;

    open spec fn view(&self) -> PemEntryV {
        match self {
            PemEntry::Certificate(d) => PemEntryV::Certificate(d@),
            PemEntry::RsaKey(d) => PemEntryV::RsaKey(d@),
            PemEntry::Pkcs8Key(d) => PemEntryV::Pkcs8Key(d@),
            PemEntry::EcKey(d) => PemEntryV::EcKey(d@),
            PemEntry::Crl(d) => PemEntryV::Crl(d@),
            PemEntry::Unrecognized => PemEntryV::Unrecognized,
        }
    }
}

impl DeepView for PemEntry {
    type V = PemEntryV;

    open spec fn deep_view(&self) -> PemEntryV {
        self@
    }
}

/// The encodings of a private key that the server accepts.
#[derive(Clone, Copy, Debug, PartialEq, Eq, Structural)]
pub enum KeyKind {
    /// PKCS#1, from an `RSA PRIVATE KEY` section.
    Rsa,
    /// PKCS#8, from a `PRIVATE KEY` section.
    Pkcs8,
    /// SEC1, from an `EC PRIVATE KEY` section.
    Ec,
}

/// Why TLS material could not be loaded.
#[derive(Clone, Copy, Debug, PartialEq, Eq, Structural)]
pub enum TlsError {
    /// The certificate bytes are not well-formed PEM.
    MalformedCertPem,
    /// The certificate bytes hold no `CERTIFICATE` section.
    NoCertificates,
    /// The key bytes are not well-formed PEM.
    MalformedKeyPem,
    /// The key bytes hold no PEM section at all.
    NoKeyFound,
    /// The first PEM section of the key bytes is not a private key of an
    /// accepted encoding.
    UnsupportedKey,
}

/// The one private key of the server, in DER.
#[derive(Clone, Debug)]
pub struct PrivateKeyMaterial {
    /// Which encoding the key came in.
    pub kind: KeyKind,
    /// The DER bytes of the key.
    pub der: Vec<u8>,
}

/// Everything the TLS listener needs: the certificate chain and exactly one
/// private key.
#[derive(Clone, Debug)]
pub struct TlsMaterial {
    /// The DER certificates, in the order the PEM input gives them.
    pub certs: Vec<Vec<u8>>,
    /// The private key.
    pub key: PrivateKeyMaterial,
}

// What the PEM parser returns on given bytes. Both parses are functions of
// the input alone: `None` stands for a malformed input, `Some` for the
// parser's answer on a well-formed one.
pub uninterp spec fn pem_first_entry(input: Seq<u8>) -> Option<Option<PemEntryV>>;

pub uninterp spec fn pem_certificates(input: Seq<u8>) -> Option<Seq<Seq<u8>>>;

/// Relies on rustls_pemfile::read_one: decodes the first PEM section of the
/// input, `Ok(None)` at end of input, `Err` on a malformed section; on a
/// byte slice the outcome depends on the input bytes alone.
#[verifier::external_body]
fn read_one_pem(input: &[u8]) -> (r: Option<Option<PemEntry>>)
    ensures
        r.deep_view() == pem_first_entry(input@),
{
    let mut rd: &[u8] = input;
    match rustls_pemfile::read_one(&mut rd) {
        Err(_) => None,
        Ok(None) => Some(None),
        Ok(Some(rustls_pemfile::Item::X509Certificate(d))) => Some(Some(PemEntry::Certificate(d))),
        Ok(Some(rustls_pemfile::Item::RSAKey(d))) => Some(Some(PemEntry::RsaKey(d))),
        Ok(Some(rustls_pemfile::Item::PKCS8Key(d))) => Some(Some(PemEntry::Pkcs8Key(d))),
        Ok(Some(rustls_pemfile::Item::ECKey(d))) => Some(Some(PemEntry::EcKey(d))),
        Ok(Some(rustls_pemfile::Item::Crl(d))) => Some(Some(PemEntry::Crl(d))),
        Ok(Some(_)) => Some(Some(PemEntry::Unrecognized)),
    }
}

/// Relies on rustls_pemfile::certs: collects the DER contents of every
/// `CERTIFICATE` section, `Err` on a malformed section; on a byte slice the
/// outcome depends on the input bytes alone.
#[verifier::external_body]
fn read_pem_certs(input: &[u8]) -> (r: Option<Vec<Vec<u8>>>)
    ensures
        r.deep_view() == pem_certificates(input@),
{
    let mut rd: &[u8] = input;
    rustls_pemfile::certs(&mut rd).ok()
}

/// Which key a decoded first PEM section yields: the DER of an RSA, PKCS#8
/// or EC key, and the exact error otherwise.
pub open spec fn key_of_entry(e: Option<PemEntryV>) -> Result<(KeyKind, Seq<u8>), TlsError> {
    match e {
        Option::None => Err(TlsError::NoKeyFound),
        Option::Some(PemEntryV::RsaKey(d)) => Ok((KeyKind::Rsa, d)),
        Option::Some(PemEntryV::Pkcs8Key(d)) => Ok((KeyKind::Pkcs8, d)),
        Option::Some(PemEntryV::EcKey(d)) => Ok((KeyKind::Ec, d)),
        Option::Some(_) => Err(TlsError::UnsupportedKey),
    }
}

/// What loading a private key from given bytes must yield.
pub open spec fn key_outcome(input: Seq<u8>) -> Result<(KeyKind, Seq<u8>), TlsError> {
    match pem_first_entry(input) {
        Option::None => Err(TlsError::MalformedKeyPem),
        Option::Some(e) => key_of_entry(e),
    }
}

/// What loading a certificate chain from given bytes must yield: every
/// `CERTIFICATE` section, and there must be at least one.
pub open spec fn certs_outcome(input: Seq<u8>) -> Result<Seq<Seq<u8>>, TlsError> {
    match pem_certificates(input) {
        Option::None => Err(TlsError::MalformedCertPem),
        Option::Some(cs) => if cs.len() == 0 {
            Err(TlsError::NoCertificates)
        } else {
            Ok(cs)
        },
    }
}

/// Accept exactly the RSA, PKCS#8 and EC private-key sections; reject a
/// missing section and every other kind.
pub fn entry_to_key(entry: Option<PemEntry>) -> (r: Result<PrivateKeyMaterial, TlsError>)
    ensures
        match r {
            Ok(k) => key_of_entry(entry.deep_view()) == Ok::<(KeyKind, Seq<u8>), TlsError>(
                (k.kind, k.der@),
            ),
            Err(e) => key_of_entry(entry.deep_view()) == Err::<(KeyKind, Seq<u8>), TlsError>(e),
        },
{
    match entry {
        Some(PemEntry::RsaKey(d)) => Ok(PrivateKeyMaterial { kind: KeyKind::Rsa, der: d }),
        Some(PemEntry::Pkcs8Key(d)) => Ok(PrivateKeyMaterial { kind: KeyKind::Pkcs8, der: d }),
        Some(PemEntry::EcKey(d)) => Ok(PrivateKeyMaterial { kind: KeyKind::Ec, der: d }),
        Some(_) => Err(TlsError::UnsupportedKey),
        None => Err(TlsError::NoKeyFound),
    }
}

/// Load the server's private key from PEM bytes: the first PEM section must
/// be an RSA, PKCS#8 or EC private key.
pub fn load_private_key(pem: &[u8]) -> (r: Result<PrivateKeyMaterial, TlsError>)
    ensures
        match r {
            Ok(k) => key_outcome(pem@) == Ok::<(KeyKind, Seq<u8>), TlsError>((k.kind, k.der@)),
            Err(e) => key_outcome(pem@) == Err::<(KeyKind, Seq<u8>), TlsError>(e),
        },
{
    match read_one_pem(pem) {
        None => Err(TlsError::MalformedKeyPem),
        Some(entry) => entry_to_key(entry),
    }
}

/// Load the server's certificate chain from PEM bytes; it must be nonempty.
pub fn load_certificates(pem: &[u8]) -> (r: Result<Vec<Vec<u8>>, TlsError>)
    ensures
        match r {
            Ok(c) => certs_outcome(pem@) == Ok::<Seq<Seq<u8>>, TlsError>(c.deep_view())
                && c@.len() > 0,
            Err(e) => certs_outcome(pem@) == Err::<Seq<Seq<u8>>, TlsError>(e),
        },
{
    match read_pem_certs(pem) {
        None => Err(TlsError::MalformedCertPem),
        Some(certs) => {
            if certs.len() == 0 {
                Err(TlsError::NoCertificates)
            } else {
                Ok(certs)
            }
        },
    }
}

/// Load the whole TLS material: the certificate chain first, then the one
/// private key, failing on the first of the two that is bad.
pub fn load_tls_material(cert_pem: &[u8], key_pem: &[u8]) -> (r: Result<TlsMaterial, TlsError>)
    ensures
        match r {
            Ok(m) => certs_outcome(cert_pem@) == Ok::<Seq<Seq<u8>>, TlsError>(m.certs.deep_view())
                && m.certs@.len() > 0 && key_outcome(key_pem@) == Ok::<
                (KeyKind, Seq<u8>),
                TlsError,
            >((m.key.kind, m.key.der@)),
            Err(e) => certs_outcome(cert_pem@) == Err::<Seq<Seq<u8>>, TlsError>(e) || (
            certs_outcome(cert_pem@) is Ok && key_outcome(key_pem@) == Err::<
                (KeyKind, Seq<u8>),
                TlsError,
            >(e)),
        },
{
    let certs = match load_certificates(cert_pem) {
        Ok(c) => c,
        Err(e) => {
            return Err(e);
        },
    };
    let key = match load_private_key(key_pem) {
        Ok(k) => k,
        Err(e) => {
            return Err(e);
        },
    };
    Ok(TlsMaterial { certs, key })
}

} // verus!
