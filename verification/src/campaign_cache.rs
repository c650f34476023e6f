//! The campaign server's cache of campaigns, keyed by campaign id: a click
//! is served from the cache, and a campaign met for the first time is
//! loaded from the database and kept for the clicks that follow.

use vstd::prelude::*;
use std::collections::HashMap;

verus! {

broadcast use vstd::std_specs::hash::group_hash_axioms;

/// Campaigns by id (the id's 128-bit value).
pub struct CampaignCache<C> {
    campaigns: HashMap<u128, C>,
}

impl<C> View for CampaignCache<C> {
    type V = Map<u128, C>;

    closed spec fn view(&self) -> Map<u128, C> {
        self.campaigns@
    }
}

/// The cache after a campaign was looked up: unchanged when it held the
/// campaign, otherwise holding the campaign as it was loaded.
pub open spec fn after_lookup<C>(cache: Map<u128, C>, id: u128, loaded: C) -> Map<u128, C> {
    if cache.contains_key(id) {
        cache
    } else {
        cache.insert(id, loaded)
    }
}

impl<C: Clone> CampaignCache<C> {
    /// An empty cache.
    pub fn new() -> (c: CampaignCache<C>)
        ensures
            c@ == Map::<u128, C>::empty(),
    {
        CampaignCache { campaigns: HashMap::new() }
    }

    /// A copy of the cached campaign `id`, if the cache holds it.
    pub fn cached(&self, id: u128) -> (r: Option<C>)
        ensures
            r is Some <==> self@.contains_key(id),
            r matches Some(c) ==> cloned(self@[id], c),
    {
        self.campaigns.get(&id).cloned()
    }

    /// Keeps `campaign` as campaign `id`, in place of any kept before.
    pub fn remember(&mut self, id: u128, campaign: C)
        ensures
            final(self)@ == old(self)@.insert(id, campaign),
    {
        self.campaigns.insert(id, campaign);
    }
}

/// The campaign `id` for a click: the cached one when there is one;
/// otherwise the one `load` gives (it reads the database and stamps the
/// time of the click), which is kept in the cache for the clicks that
/// follow.
pub fn find_campaign<C: Clone, F: FnOnce() -> C>(
    cache: &mut CampaignCache<C>,
    id: u128,
    load: F,
) -> (r: C)
    requires
        call_requires(load, ()),
    ensures
        old(cache)@.contains_key(id) ==> final(cache)@ == old(cache)@ && cloned(
            old(cache)@[id],
            r,
        ),
        !old(cache)@.contains_key(id) ==> exists|loaded: C|
            call_ensures(load, (), loaded) && cloned(loaded, r) && final(cache)@ == after_lookup(
                old(cache)@,
                id,
                loaded,
            ),
{
    match cache.cached(id) {
        Some(c) => c,
        None => {
            let loaded = load();
            let r = loaded.clone();
            cache.remember(id, loaded);
            assert(cloned(loaded, r));
            r
        },
    }
}

/// After a campaign was looked up once, the cache holds it, and looking it
/// up again changes nothing, whatever a second load would give.
pub proof fn law_lookup_is_remembered<C>(cache: Map<u128, C>, id: u128, first: C, second: C)
    ensures
        after_lookup(cache, id, first).contains_key(id),
        after_lookup(after_lookup(cache, id, first), id, second) == after_lookup(cache, id, first),
        !cache.contains_key(id) ==> after_lookup(cache, id, first)[id] == first,
{
}

/// Looking up one campaign leaves every other cached campaign as it was.
pub proof fn law_lookup_keeps_others<C>(cache: Map<u128, C>, id: u128, loaded: C, other: u128)
    requires
        other != id,
    ensures
        after_lookup(cache, id, loaded).contains_key(other) == cache.contains_key(other),
        cache.contains_key(other) ==> after_lookup(cache, id, loaded)[other] == cache[other],
{
}

} // verus!
