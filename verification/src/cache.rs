use vstd::prelude::*;
use crate::bundle::BundleView;
use crate::bundle::SignedKeyBundle;
use std::sync::Arc;

verus! {

/// One cache tier: a concurrent hostname-to-bundle map with no eviction.
/// Entries are shared read-only; an insert for a present key replaces.
#[verifier::external_body]
pub struct CacheTier {
    inner: dashmap::DashMap<String, Arc<SignedKeyBundle>>,
}

/// The entries a cache tier holds, keyed by hostname.
pub uninterp spec fn tier_entries(tier: CacheTier) -> Map<Seq<char>, BundleView>;

/// The contents of a tier that holds nothing.
pub open spec fn empty_entries() -> Map<Seq<char>, BundleView> {
    Map::empty()
}

impl CacheTier {
    /// Relies on dashmap::DashMap::new: the new map holds no entries.
    #[verifier::external_body]
    pub(crate) fn new() -> (t: CacheTier)
        ensures
            tier_entries(t) == empty_entries(),
    {
        CacheTier { inner: dashmap::DashMap::new() }
    }

    /// Relies on dashmap::DashMap::get: returns the value stored under the
    /// key, or nothing when the key is absent.
    #[verifier::external_body]
    pub(crate) fn get(&self, host: &str) -> (r: Option<Arc<SignedKeyBundle>>)
        ensures
            match r {
                Some(b) => tier_entries(*self).contains_key(host@) && b@ == tier_entries(
                    *self,
                )[host@],
                None => !tier_entries(*self).contains_key(host@),
            },
    {
        self.inner.get(host).map(|entry| entry.value().clone())
    }

    /// Relies on dashmap::DashMap::insert: stores the value under the key,
    /// replacing any previous entry for it.
    #[verifier::external_body]
    pub(crate) fn insert(&mut self, host: &str, bundle: &Arc<SignedKeyBundle>)
        ensures
            tier_entries(*final(self)) == tier_entries(*old(self)).insert(host@, bundle@),
    {
        self.inner.insert(host.to_string(), bundle.clone());
    }
}

} // verus!
