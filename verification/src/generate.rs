use vstd::prelude::*;
use crate::bundle::key_is_supported;
use crate::codec::key_outcome;
use crate::codec::lenient_chain;
use crate::errors::ResolutionError;

verus! {

/// Relies on rcgen::generate_simple_self_signed (fresh self-signed
/// certificate material bound to the given name as its only subject name,
/// over a freshly generated key pair), on rcgen::Certificate::pem and on
/// rcgen::KeyPair::serialize_pem. The certificate text is the PEM encoding
/// of the one generated certificate: a single CERTIFICATE section, so its
/// lenient parse yields exactly one certificate. The key text is a single
/// PRIVATE KEY section holding the PKCS#8 encoding of the freshly generated
/// key, which rustls's ring provider accepts (rcgen generates an ECDSA
/// P-256 key by default, one of the supported schemes). The material is
/// random: nothing relates two calls beyond these shapes.
#[verifier::external_body]
fn generate_self_signed_pem(hostname: &str) -> (r: Option<(Vec<u8>, Vec<u8>)>)
    ensures
        (r matches Some(material) ==> lenient_chain(material.0@).len() == 1),
        (r matches Some(material) ==> (key_outcome(material.1@) matches Ok(k)
            && key_is_supported(k))),
{
    match rcgen::generate_simple_self_signed(vec![hostname.to_string()]) {
        Ok(generated) => Some(
            (
                generated.cert.pem().into_bytes(),
                generated.signing_key.serialize_pem().into_bytes(),
            ),
        ),
        Err(_) => None,
    }
}

/// Decides what an on-disk record needs, given which of its two files exist,
/// and synthesizes fresh PEM material only when both are absent.
///
/// A complete record is kept as it stands (idempotent no-op); a record with
/// exactly one file present is an inconsistency that an operator must
/// resolve, never an occasion to overwrite material; only an absent record
/// is filled, and the caller persists the returned certificate and key
/// texts to the record's two files. Successfully generated material always
/// finishes a resolution: the certificate text parses to exactly one
/// certificate and the key text to exactly one supported key.
pub fn generate_if_absent(hostname: &str, cert_exists: bool, key_exists: bool) -> (r: Result<
    Option<(Vec<u8>, Vec<u8>)>,
    ResolutionError,
>)
    ensures
        cert_exists && key_exists ==> (r matches Ok(p) && p is None),
        cert_exists != key_exists ==> (r matches Err(e) && e == ResolutionError::InconsistentRecord),
        !cert_exists && !key_exists ==> match r {
            Ok(p) => {
                &&& p matches Some(material)
                &&& lenient_chain(material.0@).len() == 1
                &&& key_outcome(material.1@) matches Ok(k) && key_is_supported(k)
            },
            Err(e) => e == ResolutionError::GenerationFailed,
        },
{
    if cert_exists && key_exists {
        Ok(None)
    } else if cert_exists != key_exists {
        Err(ResolutionError::InconsistentRecord)
    } else {
        match generate_self_signed_pem(hostname) {
            Some(material) => Ok(Some(material)),
            None => Err(ResolutionError::GenerationFailed),
        }
    }
}

} // verus!
