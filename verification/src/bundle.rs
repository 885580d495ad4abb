use vstd::prelude::*;

verus! {

/// rustls's pairing of a certificate chain with a signing key. The library
/// carries a value of it through opaquely; the caller hands it to the TLS
/// stack.
#[verifier::external_type_specification]
#[verifier::external_body]
pub struct ExCertifiedKey(rustls::sign::CertifiedKey);

/// Whether rustls accepts a PKCS#8-encoded private key for one of its
/// supported signature schemes; decided by the key bytes alone.
pub uninterp spec fn key_is_supported(key_der: Seq<u8>) -> bool;

/// The mathematical content of a signed-key bundle: the DER bytes of the
/// certificates of the chain, leaf first, and of the PKCS#8 private key.
#[verifier::ext_equal]
pub ghost struct BundleView {
    pub chain: Seq<Seq<u8>>,
    pub key: Seq<u8>,
}

/// An immutable pairing of a certificate chain with its private key and the
/// key's signing capability, ready to present for one hostname. Shared
/// read-only between handshakes once cached.
pub struct SignedKeyBundle {
    chain: Vec<Vec<u8>>,
    key: Vec<u8>,
    signer: rustls::sign::CertifiedKey,
}

impl View for SignedKeyBundle {
    type V = BundleView;

    closed spec fn view(&self) -> BundleView {
        BundleView { chain: self.chain.deep_view(), key: self.key@ }
    }
}

/// Relies on rustls::crypto::ring::sign::any_supported_type (a signing key
/// from the PKCS#8 bytes, succeeding exactly when some supported scheme
/// accepts them; a function of the bytes alone) and on
/// rustls::sign::CertifiedKey::new (the pairing of that key with the chain).
#[verifier::external_body]
fn build_signer(chain: &Vec<Vec<u8>>, key_der: &Vec<u8>) -> (r: Option<
    rustls::sign::CertifiedKey,
>)
    ensures
        r is Some <==> key_is_supported(key_der@),
{
    let ders: Vec<rustls::pki_types::CertificateDer<'static>> = chain
        .iter()
        .map(|c| rustls::pki_types::CertificateDer::from(c.clone()))
        .collect();
    let key = rustls::pki_types::PrivateKeyDer::Pkcs8(
        rustls::pki_types::PrivatePkcs8KeyDer::from(key_der.clone()),
    );
    match rustls::crypto::ring::sign::any_supported_type(&key) {
        Ok(signing_key) => Some(rustls::sign::CertifiedKey::new(ders, signing_key)),
        Err(_) => None,
    }
}

impl SignedKeyBundle {
    /// Pairs a chain with its private key, constructing the signing
    /// capability; fails exactly when no supported scheme accepts the key.
    pub fn new(chain: Vec<Vec<u8>>, key: Vec<u8>) -> (r: Option<SignedKeyBundle>)
        ensures
            r is Some <==> key_is_supported(key@),
            r matches Some(b) ==> b@ == (BundleView { chain: chain.deep_view(), key: key@ }),
    {
        match build_signer(&chain, &key) {
            Some(signer) => Some(SignedKeyBundle { chain, key, signer }),
            None => None,
        }
    }

    /// The DER-encoded certificates of the chain, leaf first.
    pub fn chain(&self) -> (r: &Vec<Vec<u8>>)
        ensures
            r.deep_view() == self@.chain,
    {
        &self.chain
    }

    /// The DER-encoded PKCS#8 private key.
    pub fn key(&self) -> (r: &Vec<u8>)
        ensures
            r@ == self@.key,
    {
        &self.key
    }

    /// The rustls bundle to hand to the TLS stack.
    pub fn certified_key(&self) -> &rustls::sign::CertifiedKey {
        &self.signer
    }
}

} // verus!
