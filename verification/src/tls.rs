use vstd::prelude::*;

verus! {

#[verifier::external_type_specification]
#[verifier::external_body]
pub struct ExIoError(std::io::Error);

/// The DER certificates that a PEM text holds, in order; `None` when the
/// text cannot be read as PEM.
pub uninterp spec fn pem_certs(pem: Seq<u8>) -> Option<Seq<Seq<u8>>>;

/// The DER PKCS#8 private keys that a PEM text holds, in order; `None` when
/// the text cannot be read as PEM.
pub uninterp spec fn pem_pkcs8_keys(pem: Seq<u8>) -> Option<Seq<Seq<u8>>>;

/// `rustls_pemfile::certs` on a PEM text held in memory. Claimed: it fails
/// or returns the certificates as a function of the text alone.
#[verifier::external_body]
fn pemfile_certs(pem: &[u8]) -> (r: Result<Vec<Vec<u8>>, std::io::Error>)
    ensures
        match r {
            Ok(v) => pem_certs(pem@) == Some(v.deep_view()),
            Err(_) => pem_certs(pem@) is None,
        },
{
    let mut reader: &[u8] = pem;
    rustls_pemfile::certs(&mut reader)
}

/// `rustls_pemfile::pkcs8_private_keys` on a PEM text held in memory.
/// Claimed: it fails or returns the keys as a function of the text alone.
#[verifier::external_body]
fn pemfile_pkcs8_keys(pem: &[u8]) -> (r: Result<Vec<Vec<u8>>, std::io::Error>)
    ensures
        match r {
            Ok(v) => pem_pkcs8_keys(pem@) == Some(v.deep_view()),
            Err(_) => pem_pkcs8_keys(pem@) is None,
        },
{
    let mut reader: &[u8] = pem;
    rustls_pemfile::pkcs8_private_keys(&mut reader)
}

/// Why the server's certificate chain and key could not be had.
#[derive(Clone, Copy, Debug, PartialEq, Eq, Structural)]
pub enum TlsError {
    /// A PEM text could not be read.
    Malformed,
    /// The certificate text holds no certificate.
    NoCertificate,
    /// The key text does not hold exactly one PKCS#8 key; it holds this many.
    KeyCount(usize),
}

/// The certificates of a PEM text.
pub fn parse_certs(pem: &[u8]) -> (r: Result<Vec<Vec<u8>>, TlsError>)
    ensures
        match pem_certs(pem@) {
            Some(cs) => r matches Ok(v) && v.deep_view() == cs,
            None => r == Err::<Vec<Vec<u8>>, TlsError>(TlsError::Malformed),
        },
{
    match pemfile_certs(pem) {
        Ok(v) => Ok(v),
        Err(_) => Err(TlsError::Malformed),
    }
}

/// The PKCS#8 private keys of a PEM text.
pub fn parse_pkcs8_keys(pem: &[u8]) -> (r: Result<Vec<Vec<u8>>, TlsError>)
    ensures
        match pem_pkcs8_keys(pem@) {
            Some(ks) => r matches Ok(v) && v.deep_view() == ks,
            None => r == Err::<Vec<Vec<u8>>, TlsError>(TlsError::Malformed),
        },
{
    match pemfile_pkcs8_keys(pem) {
        Ok(v) => Ok(v),
        Err(_) => Err(TlsError::Malformed),
    }
}

/// The server's identity from the certificates and keys read: the whole
/// chain and its one key. There must be at least one certificate and
/// exactly one key.
pub fn identity_from(certs: Vec<Vec<u8>>, keys: Vec<Vec<u8>>) -> (r: Result<(Vec<Vec<u8>>, Vec<u8>), TlsError>)
    ensures
        if certs@.len() == 0 {
            r == Err::<(Vec<Vec<u8>>, Vec<u8>), TlsError>(TlsError::NoCertificate)
        } else if keys@.len() != 1 {
            r == Err::<(Vec<Vec<u8>>, Vec<u8>), TlsError>(TlsError::KeyCount(keys@.len() as usize))
        } else {
            &&& r matches Ok(id)
            &&& id.0.deep_view() == certs.deep_view()
            &&& id.1@ == keys@[0]@
        },
{
    if certs.len() == 0 {
        return Err(TlsError::NoCertificate);
    }
    if keys.len() != 1 {
        return Err(TlsError::KeyCount(keys.len()));
    }
    let mut keys = keys;
    let key = keys.remove(0);
    Ok((certs, key))
}

/// Reads the server's certificate chain and private key from the texts of
/// the certificate file and of the key file. The chain must hold at least
/// one certificate and the key file exactly one PKCS#8 key.
pub fn read_certs_from_file(cert_pem: &[u8], key_pem: &[u8]) -> (r: Result<(Vec<Vec<u8>>, Vec<u8>), TlsError>)
    ensures
        match pem_certs(cert_pem@) {
            None => r == Err::<(Vec<Vec<u8>>, Vec<u8>), TlsError>(TlsError::Malformed),
            Some(cs) => if cs.len() == 0 {
                r == Err::<(Vec<Vec<u8>>, Vec<u8>), TlsError>(TlsError::NoCertificate)
            } else {
                match pem_pkcs8_keys(key_pem@) {
                    None => r == Err::<(Vec<Vec<u8>>, Vec<u8>), TlsError>(TlsError::Malformed),
                    Some(ks) => if ks.len() == 1 {
                        &&& r matches Ok(id)
                        &&& id.0.deep_view() == cs
                        &&& id.1@ == ks[0]
                    } else {
                        r == Err::<(Vec<Vec<u8>>, Vec<u8>), TlsError>(TlsError::KeyCount(ks.len() as usize))
                    },
                }
            },
        },
{
    let certs = match parse_certs(cert_pem) {
        Ok(c) => c,
        Err(e) => return Err(e),
    };
    if certs.len() == 0 {
        return Err(TlsError::NoCertificate);
    }
    proof {
        assert(certs@.len() == certs.deep_view().len());
    }
    let keys = match parse_pkcs8_keys(key_pem) {
        Ok(k) => k,
        Err(e) => return Err(e),
    };
    proof {
        assert(keys@.len() == keys.deep_view().len());
        if keys@.len() == 1 {
            assert(keys@[0]@ == keys.deep_view()[0]);
        }
    }
    identity_from(certs, keys)
}

} // verus!
