//! The cache of user links, keyed by the chat user's id.
use vstd::prelude::*;
use dashmap::DashMap;
use crate::cache::CachedData;
use crate::models::UserLink;

verus! {

/// The entries that a link cache's map holds.
pub uninterp spec fn cached_links(m: DashMap<u64, CachedData<UserLink>>) -> Map<u64, CachedData<UserLink>>;

/// Relies on DashMap::new: a new map holds no entry.
#[verifier::external_body]
fn links_map_new() -> (r: DashMap<u64, CachedData<UserLink>>)
    ensures
        cached_links(r).dom() == Set::<u64>::empty(),
{
    DashMap::new()
}

/// Relies on DashMap::get and Ref::value: the entry under `k`, if any, read
/// through the guard and copied out.
#[verifier::external_body]
fn links_map_get(m: &DashMap<u64, CachedData<UserLink>>, k: u64) -> (r: Option<CachedData<UserLink>>)
    ensures
        r == (if cached_links(*m).contains_key(k) {
            Some(cached_links(*m)[k])
        } else {
            None::<CachedData<UserLink>>
        }),
{
    m.get(&k).map(|e| e.value().clone())
}

/// Relies on DashMap::insert: `v` is stored under `k`, replacing any entry.
#[verifier::external_body]
fn links_map_insert(m: &mut DashMap<u64, CachedData<UserLink>>, k: u64, v: CachedData<UserLink>)
    ensures
        cached_links(*final(m)) == cached_links(*old(m)).insert(k, v),
{
    m.insert(k, v);
}

/// Relies on DashMap::remove: the entry under `k`, if any, is gone, and is
/// handed back.
#[verifier::external_body]
fn links_map_remove(m: &mut DashMap<u64, CachedData<UserLink>>, k: u64) -> (r: Option<CachedData<UserLink>>)
    ensures
        cached_links(*final(m)) == cached_links(*old(m)).remove(k),
        r == (if cached_links(*old(m)).contains_key(k) {
            Some(cached_links(*old(m))[k])
        } else {
            None::<CachedData<UserLink>>
        }),
{
    m.remove(&k).map(|(_, v)| v)
}

/// The in-memory tier of user links: owner id to the link and the instant
/// it was cached.
pub struct UserLinkCache {
    map: DashMap<u64, CachedData<UserLink>>,
}

impl View for UserLinkCache {
    type V = Map<u64, CachedData<UserLink>>;

    closed spec fn view(&self) -> Map<u64, CachedData<UserLink>> {
        cached_links(self.map)
    }
}

impl UserLinkCache {
    pub fn new() -> (r: Self)
        ensures
            r@.dom() == Set::<u64>::empty(),
    {
        UserLinkCache { map: links_map_new() }
    }

    /// The entry for `owner_id`; the caller judges its freshness.
    pub fn get(&self, owner_id: u64) -> (r: Option<CachedData<UserLink>>)
        ensures
            r == (if self@.contains_key(owner_id) {
                Some(self@[owner_id])
            } else {
                None::<CachedData<UserLink>>
            }),
    {
        links_map_get(&self.map, owner_id)
    }

    pub fn insert(&mut self, owner_id: u64, entry: CachedData<UserLink>)
        ensures
            final(self)@ == old(self)@.insert(owner_id, entry),
    {
        links_map_insert(&mut self.map, owner_id, entry);
    }

    /// Removes the entry for `owner_id`; says whether there was one.
    pub fn remove(&mut self, owner_id: u64) -> (r: bool)
        ensures
            final(self)@ == old(self)@.remove(owner_id),
            r == old(self)@.contains_key(owner_id),
    {
        links_map_remove(&mut self.map, owner_id).is_some()
    }
}

/// A new, empty cache of user links.
pub fn create_user_cache() -> (r: UserLinkCache)
    ensures
        r@.dom() == Set::<u64>::empty(),
{
    UserLinkCache::new()
}

} // verus!
