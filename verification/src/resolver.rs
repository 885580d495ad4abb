use vstd::prelude::*;
use std::sync::Arc;
use crate::bundle::BundleView;
use crate::bundle::SignedKeyBundle;
use crate::bundle::key_is_supported;
use crate::cache::CacheTier;
use crate::cache::empty_entries;
use crate::cache::tier_entries;
use crate::codec;
use crate::codec::key_outcome;
use crate::codec::lenient_chain;
use crate::errors::CodecError;
use crate::errors::ResolutionError;

verus! {

/// The resolver's mathematical state: what each tier holds, and whether
/// authority-issued certificates may be served.
#[verifier::ext_equal]
pub ghost struct ResolverView {
    pub authority_enabled: bool,
    pub authority: Map<Seq<char>, BundleView>,
    pub self_signed: Map<Seq<char>, BundleView>,
}

/// The material a cache-only lookup yields for a hostname: an
/// authority-issued bundle when that tier is enabled and holds the hostname,
/// else a self-signed one, else nothing.
pub open spec fn cached_material(r: ResolverView, host: Seq<char>) -> Option<BundleView> {
    if r.authority_enabled && r.authority.contains_key(host) {
        Some(r.authority[host])
    } else if r.self_signed.contains_key(host) {
        Some(r.self_signed[host])
    } else {
        None
    }
}

/// What a cache-only lookup produced.
pub enum CacheLookup {
    /// A ready bundle from one of the tiers.
    Hit(Arc<SignedKeyBundle>),
    /// Neither tier serves the hostname: the disk record must be consulted
    /// and, if absent, filled by generation.
    Miss,
}

/// Resolves, per incoming TLS handshake, the certificate to present for the
/// requested hostname: authority-issued material first where enabled, then
/// cached self-signed material, then material loaded from disk or freshly
/// generated.
pub struct DynamicCertResolver {
    enable_lets_encrypt: bool,
    self_signed_cert_cache: CacheTier,
    lets_encrypt_signed_certs: CacheTier,
}

impl View for DynamicCertResolver {
    type V = ResolverView;

    closed spec fn view(&self) -> ResolverView {
        ResolverView {
            authority_enabled: self.enable_lets_encrypt,
            authority: tier_entries(self.lets_encrypt_signed_certs),
            self_signed: tier_entries(self.self_signed_cert_cache),
        }
    }
}

impl DynamicCertResolver {
    /// A resolver with empty tiers; authority-backed issuance is consulted
    /// only when enabled here.
    pub fn new(enable_lets_encrypt: bool) -> (r: Self)
        ensures
            r@.authority_enabled == enable_lets_encrypt,
            r@.authority == empty_entries(),
            r@.self_signed == empty_entries(),
    {
        DynamicCertResolver {
            enable_lets_encrypt,
            self_signed_cert_cache: CacheTier::new(),
            lets_encrypt_signed_certs: CacheTier::new(),
        }
    }

    /// Stores a bundle in the self-signed tier, replacing any previous entry
    /// for the hostname.
    pub fn add_self_signed_cert_to_cache(&mut self, domain: &str, cert: SignedKeyBundle)
        ensures
            final(self)@.self_signed == old(self)@.self_signed.insert(domain@, cert@),
            final(self)@.authority == old(self)@.authority,
            final(self)@.authority_enabled == old(self)@.authority_enabled,
    {
        let bundle = Arc::new(cert);
        self.self_signed_cert_cache.insert(domain, &bundle);
    }

    /// Stores a bundle in the authority-issued tier, replacing any previous
    /// entry for the hostname; issuance itself runs out of band.
    pub fn add_lets_encrypt_signed_cert_to_mem_cache(&mut self, domain: &str, cert: SignedKeyBundle)
        ensures
            final(self)@.authority == old(self)@.authority.insert(domain@, cert@),
            final(self)@.self_signed == old(self)@.self_signed,
            final(self)@.authority_enabled == old(self)@.authority_enabled,
    {
        let bundle = Arc::new(cert);
        self.lets_encrypt_signed_certs.insert(domain, &bundle);
    }

    /// The self-signed tier's entry for the hostname, if any.
    pub fn get_self_signed_cert_from_cache(&self, domain: &str) -> (r: Option<
        Arc<SignedKeyBundle>,
    >)
        ensures
            match r {
                Some(b) => self@.self_signed.contains_key(domain@) && b@ == self@.self_signed[domain@],
                None => !self@.self_signed.contains_key(domain@),
            },
    {
        self.self_signed_cert_cache.get(domain)
    }

    /// The authority-issued tier's entry for the hostname, if any; serving
    /// decisions also respect the enable switch, which this getter ignores.
    pub fn get_lets_encrypt_signed_cert_from_mem_cache(&self, domain: &str) -> (r: Option<
        Arc<SignedKeyBundle>,
    >)
        ensures
            match r {
                Some(b) => self@.authority.contains_key(domain@) && b@ == self@.authority[domain@],
                None => !self@.authority.contains_key(domain@),
            },
    {
        self.lets_encrypt_signed_certs.get(domain)
    }

    /// The cache-only part of a resolution: fails when the handshake carried
    /// no server name; otherwise serves the authority-issued tier first where
    /// enabled, then the self-signed tier, and reports a miss when neither
    /// holds the hostname, so that the caller proceeds to the disk record.
    pub fn resolve_cached(&self, sni: Option<&str>) -> (r: Result<CacheLookup, ResolutionError>)
        ensures
            match sni {
                None => (r matches Err(e) && e == ResolutionError::MissingServerName),
                Some(host) => match cached_material(self@, host@) {
                    Some(m) => (r matches Ok(l) && l matches CacheLookup::Hit(b) && b@ == m),
                    None => (r matches Ok(l) && l is Miss),
                },
            },
    {
        let host = match sni {
            Some(host) => host,
            None => {
                return Err(ResolutionError::MissingServerName);
            },
        };
        if self.enable_lets_encrypt {
            if let Some(bundle) = self.lets_encrypt_signed_certs.get(host) {
                return Ok(CacheLookup::Hit(bundle));
            }
        }
        match self.self_signed_cert_cache.get(host) {
            Some(bundle) => Ok(CacheLookup::Hit(bundle)),
            None => Ok(CacheLookup::Miss),
        }
    }

    /// Finishes a resolution after a double miss, from the PEM texts of the
    /// hostname's record: parses the chain leniently, requires it non-empty,
    /// requires exactly one usable private key, constructs the signing
    /// capability, stores the bundle in the self-signed tier and returns it.
    /// On any failure the caches are left as they were.
    pub fn finish_resolve(&mut self, hostname: &str, cert_pem: &[u8], key_pem: &[u8]) -> (r: Result<
        Arc<SignedKeyBundle>,
        ResolutionError,
    >)
        ensures
            final(self)@.authority == old(self)@.authority,
            final(self)@.authority_enabled == old(self)@.authority_enabled,
            (r matches Ok(b) ==> {
                &&& lenient_chain(cert_pem@).len() > 0
                &&& key_outcome(key_pem@) matches Ok(k) && k == b@.key
                &&& key_is_supported(b@.key)
                &&& b@.chain == lenient_chain(cert_pem@)
                &&& final(self)@.self_signed == old(self)@.self_signed.insert(hostname@, b@)
            }),
            (r is Ok <==> lenient_chain(cert_pem@).len() > 0 && (key_outcome(
                key_pem@,
            ) matches Ok(k) && key_is_supported(k))),
            (r matches Err(e) ==> {
                &&& final(self)@.self_signed == old(self)@.self_signed
                &&& (e == ResolutionError::EmptyCertificateChain <==> lenient_chain(
                    cert_pem@,
                ).len() == 0)
                &&& (e == ResolutionError::NoKeyFound <==> lenient_chain(cert_pem@).len() > 0 && (
                key_outcome(key_pem@) == Err::<Seq<u8>, CodecError>(CodecError::NoKeyFound)
                    || key_outcome(key_pem@) == Err::<Seq<u8>, CodecError>(
                    CodecError::MalformedPem,
                )))
                &&& (e == ResolutionError::AmbiguousKey <==> lenient_chain(cert_pem@).len() > 0
                    && key_outcome(key_pem@) == Err::<Seq<u8>, CodecError>(
                    CodecError::AmbiguousKey,
                ))
                &&& (e == ResolutionError::SigningKeyConstructionFailed <==> lenient_chain(
                    cert_pem@,
                ).len() > 0 && (key_outcome(key_pem@) matches Ok(k) && !key_is_supported(k)))
            }),
    {
        let chain = codec::extract_cert_from_pem_str(cert_pem);
        if chain.len() == 0 {
            return Err(ResolutionError::EmptyCertificateChain);
        }
        let key = match codec::extract_priv_key_from_pem(key_pem) {
            Ok(key) => key,
            Err(CodecError::MalformedPem) => {
                return Err(ResolutionError::NoKeyFound);
            },
            Err(CodecError::NoKeyFound) => {
                return Err(ResolutionError::NoKeyFound);
            },
            Err(CodecError::AmbiguousKey) => {
                return Err(ResolutionError::AmbiguousKey);
            },
        };
        let bundle = match SignedKeyBundle::new(chain, key) {
            Some(bundle) => bundle,
            None => {
                return Err(ResolutionError::SigningKeyConstructionFailed);
            },
        };
        let shared = Arc::new(bundle);
        self.self_signed_cert_cache.insert(hostname, &shared);
        Ok(shared)
    }
}

} // verus!
