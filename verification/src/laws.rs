use vstd::prelude::*;
use crate::bundle::BundleView;
use crate::resolver::ResolverView;
use crate::resolver::cached_material;

verus! {

/// Cache stability: after a first lookup found nothing for a hostname and
/// the freshly resolved material was stored in the self-signed tier, a
/// second lookup returns exactly that material, bit for bit, as long as no
/// authority issuance intervened.
pub proof fn lemma_resolve_is_idempotent(
    before: ResolverView,
    after: ResolverView,
    host: Seq<char>,
    material: BundleView,
)
    requires
        cached_material(before, host) is None,
        after.authority_enabled == before.authority_enabled,
        after.authority == before.authority,
        after.self_signed == before.self_signed.insert(host, material),
    ensures
        cached_material(after, host) == Some(material),
{
}

/// Precedence: when the authority tier is enabled and holds the hostname,
/// a lookup returns its entry, whatever the self-signed tier holds for the
/// same hostname.
pub proof fn lemma_authority_precedence(r: ResolverView, host: Seq<char>)
    requires
        r.authority_enabled,
        r.authority.contains_key(host),
    ensures
        cached_material(r, host) == Some(r.authority[host]),
{
}

/// Isolation: with authority lookup disabled, the lookup's result comes
/// from the self-signed tier alone; an authority-issued bundle is never
/// returned, however the authority tier is populated.
pub proof fn lemma_disabled_authority_is_isolated(r: ResolverView, host: Seq<char>)
    requires
        !r.authority_enabled,
    ensures
        cached_material(r, host) == (if r.self_signed.contains_key(host) {
            Some(r.self_signed[host])
        } else {
            None
        }),
{
}

} // verus!
