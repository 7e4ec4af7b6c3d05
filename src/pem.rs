//! The certificate chain and the private key that the server presents, taken
//! from PEM text by `rustls`'s PEM reader.
use vstd::prelude::*;

verus! {

/// Why the PEM text gives no usable material.
#[derive(Clone, Copy, Debug, PartialEq, Eq, Structural)]
pub enum PemError {
    /// The text holds a section that does not decode.
    Unreadable,
    /// The text holds no certificate.
    NoCertificate,
    /// The text holds no PKCS #8 private key.
    NoKey,
}

/// The DER contents of the certificate sections of a PEM text, or `None`
/// where a section does not decode.
pub uninterp spec fn pem_certificates(pem: Seq<u8>) -> Option<Seq<Seq<u8>>>;

/// The DER contents of the PKCS #8 private-key sections of a PEM text, or
/// `None` where a section does not decode.
pub uninterp spec fn pem_pkcs8_keys(pem: Seq<u8>) -> Option<Seq<Seq<u8>>>;

pub open spec fn ders_view(r: Option<Vec<Vec<u8>>>) -> Option<Seq<Seq<u8>>> {
    match r {
        Some(v) => Some(v@.map_values(|d: Vec<u8>| d@)),
        None => None,
    }
}

/// Relies on `rustls::internal::pemfile::certs`, read from the bytes in
/// memory: its result depends on the text alone.
#[verifier::external_body]
fn read_certificates(pem: &[u8]) -> (r: Option<Vec<Vec<u8>>>)
    ensures
        ders_view(r) == pem_certificates(pem@),
{
    let mut rd: &[u8] = pem;
    match rustls::internal::pemfile::certs(&mut rd) {
        Ok(certs) => Some(certs.into_iter().map(|c| c.0).collect()),
        Err(()) => None,
    }
}

/// Relies on `rustls::internal::pemfile::pkcs8_private_keys`, read from the
/// bytes in memory: its result depends on the text alone.
#[verifier::external_body]
fn read_pkcs8_keys(pem: &[u8]) -> (r: Option<Vec<Vec<u8>>>)
    ensures
        ders_view(r) == pem_pkcs8_keys(pem@),
{
    let mut rd: &[u8] = pem;
    match rustls::internal::pemfile::pkcs8_private_keys(&mut rd) {
        Ok(keys) => Some(keys.into_iter().map(|k| k.0).collect()),
        Err(()) => None,
    }
}

/// The certificate chain a PEM text holds, or why it holds none.
pub open spec fn chain_outcome(pem: Seq<u8>) -> Result<Seq<Seq<u8>>, PemError> {
    match pem_certificates(pem) {
        None => Err(PemError::Unreadable),
        Some(c) => if c.len() == 0 {
            Err(PemError::NoCertificate)
        } else {
            Ok(c)
        },
    }
}

/// The first PKCS #8 key a PEM text holds, or why it holds none.
pub open spec fn key_outcome(pem: Seq<u8>) -> Result<Seq<u8>, PemError> {
    match pem_pkcs8_keys(pem) {
        None => Err(PemError::Unreadable),
        Some(k) => if k.len() == 0 {
            Err(PemError::NoKey)
        } else {
            Ok(k[0])
        },
    }
}

/// The certificate chain of a PEM text, leaf first: every certificate it
/// holds. A text with none is refused.
pub fn certificate_chain(pem: &[u8]) -> (r: Result<Vec<Vec<u8>>, PemError>)
    ensures
        match r {
            Ok(c) => chain_outcome(pem@) == Ok::<Seq<Seq<u8>>, PemError>(
                c@.map_values(|d: Vec<u8>| d@),
            ),
            Err(e) => chain_outcome(pem@) == Err::<Seq<Seq<u8>>, PemError>(e),
        },
{
    match read_certificates(pem) {
        None => Err(PemError::Unreadable),
        Some(certs) => if certs.len() == 0 {
            Err(PemError::NoCertificate)
        } else {
            Ok(certs)
        },
    }
}

/// The first PKCS #8 private key of a PEM text. A text with none is refused.
pub fn first_pkcs8_key(pem: &[u8]) -> (r: Result<Vec<u8>, PemError>)
    ensures
        match r {
            Ok(k) => key_outcome(pem@) == Ok::<Seq<u8>, PemError>(k@),
            Err(e) => key_outcome(pem@) == Err::<Seq<u8>, PemError>(e),
        },
{
    match read_pkcs8_keys(pem) {
        None => Err(PemError::Unreadable),
        Some(mut keys) => if keys.len() == 0 {
            Err(PemError::NoKey)
        } else {
            Ok(keys.swap_remove(0))
        },
    }
}

} // verus!
