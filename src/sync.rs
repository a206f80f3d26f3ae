//! The link synchronizer: the decisions of the link, lookup and unlink
//! protocols across the cache, the durable store and the remote verifier.
//!
//! Each protocol is a chain of stages. A stage takes what the previous
//! outside call answered, updates the cache where the protocol says so, and
//! yields either the next call to make or the protocol's outcome. The caller
//! makes the calls (verifier, store) and hands the answers back.
use vstd::prelude::*;
use crate::cache::{CachedData, stale_at};
use crate::models::{StoreError, UserLink};
use crate::riot::{lowercase_of, to_lower, RiotAccount, RiotApiError};
use crate::store::upsert_row;
use crate::text::text_eq;
use crate::user_cache::UserLinkCache;

verus! {

// ---------------------------------------------------------------- link

/// Whether `i` is the position of the one `#` in `s`.
pub open spec fn is_sole_hash(s: Seq<char>, i: int) -> bool {
    &&& 0 <= i < s.len()
    &&& s[i] == '#'
    &&& forall|j: int| 0 <= j < s.len() && j != i ==> s[j] != '#'
}

/// The name and tag of a `Name#TAG` id: the text around its one `#`. An id
/// with no `#`, or with more than one, has none.
pub open spec fn riot_id_parts(s: Seq<char>) -> Option<(Seq<char>, Seq<char>)> {
    if exists|i: int| is_sole_hash(s, i) {
        let i = choose|i: int| is_sole_hash(s, i);
        Some((s.subrange(0, i), s.subrange(i + 1, s.len() as int)))
    } else {
        None
    }
}

/// Splits a `Name#TAG` id into its name and tag.
pub fn split_riot_id(riot_id: &str) -> (r: Option<(String, String)>)
    ensures
        match r {
            Some((name, tag)) => riot_id_parts(riot_id@) == Some((name@, tag@)),
            None => riot_id_parts(riot_id@) is None,
        },
{
    let n = riot_id.unicode_len();
    let mut i: usize = 0;
    // The position of the first `#`; `n` while none was seen.
    let mut first: usize = n;
    let mut twice: bool = false;
    while i < n
        invariant
            n == riot_id@.len(),
            i <= n,
            first <= n,
            first < n ==> first < i && riot_id@[first as int] == '#',
            forall|j: int| 0 <= j < i && j < first ==> riot_id@[j] != '#',
            !twice ==> forall|j: int| first < j < i ==> riot_id@[j] != '#',
            twice ==> first < n && exists|j: int| first < j < i && riot_id@[j] == '#',
        decreases n - i,
    {
        let c = riot_id.get_char(i);
        if c == '#' {
            if first == n {
                first = i;
            } else {
                twice = true;
                assert(first < i as int && riot_id@[i as int] == '#');
            }
        }
        i = i + 1;
    }
    let s = Ghost(riot_id@);
    if first == n || twice {
        proof {
            if twice {
                let j = choose|j: int| first < j < i && s@[j] == '#';
                assert forall|k: int| !is_sole_hash(s@, k) by {
                    if is_sole_hash(s@, k) {
                        assert(s@[first as int] == '#');
                        assert(s@[j] == '#');
                    }
                }
            } else {
                assert forall|k: int| !is_sole_hash(s@, k) by {
                    if is_sole_hash(s@, k) {
                        assert(s@[k] == '#');
                    }
                }
            }
        }
        None
    } else {
        proof {
            assert(is_sole_hash(s@, first as int));
            let k = choose|k: int| is_sole_hash(s@, k);
            assert(s@[first as int] == '#');
            assert(k == first as int);
        }
        let name = String::from_str(riot_id.substring_char(0, first));
        let tag = String::from_str(riot_id.substring_char(first + 1, n));
        Some((name, tag))
    }
}

/// The closed set of game region codes that a link may name.
pub open spec fn valid_region(code: Seq<char>) -> bool {
    ||| code == "na"@
    ||| code == "euw"@
    ||| code == "eune"@
    ||| code == "kr"@
    ||| code == "br"@
    ||| code == "lan"@
    ||| code == "las"@
    ||| code == "oce"@
    ||| code == "ru"@
    ||| code == "tr"@
    ||| code == "jp"@
    ||| code == "ph"@
    ||| code == "sg"@
    ||| code == "th"@
    ||| code == "tw"@
    ||| code == "vn"@
}

pub fn is_valid_region(code: &str) -> (r: bool)
    ensures
        r == valid_region(code@),
{
    text_eq(code, "na") || text_eq(code, "euw") || text_eq(code, "eune") || text_eq(code, "kr")
        || text_eq(code, "br") || text_eq(code, "lan") || text_eq(code, "las") || text_eq(code, "oce")
        || text_eq(code, "ru") || text_eq(code, "tr") || text_eq(code, "jp") || text_eq(code, "ph")
        || text_eq(code, "sg") || text_eq(code, "th") || text_eq(code, "tw") || text_eq(code, "vn")
}

/// A link write that passed validation and awaits the verifier.
pub struct LinkRequest {
    pub owner_id: u64,
    /// The name as the user typed it.
    pub summoner_name: String,
    /// The tag as the user typed it.
    pub summoner_tag: String,
    /// A valid region code, in lower case.
    pub region: String,
}

/// How a link write ended.
pub enum LinkOutcome {
    /// Fewer than two arguments.
    Usage,
    /// The id is not of the form `Name#TAG`.
    InvalidRiotId,
    /// The region, in lower case, is outside the valid set.
    InvalidRegion(String),
    /// The verifier refused or failed; nothing was written.
    VerifyFailed { request: LinkRequest, error: RiotApiError },
    /// The store failed; the cache was left alone.
    StoreFailed(StoreError),
    /// The link is stored and cached, with the verifier's canonical fields.
    Linked(UserLink),
}

/// Whether `r` is what validating `riot_id` and the lower-case `region` of
/// `owner_id`'s link write gives.
pub open spec fn request_checked(
    r: Result<LinkRequest, LinkOutcome>,
    owner_id: u64,
    riot_id: Seq<char>,
    region: Seq<char>,
) -> bool {
    match riot_id_parts(riot_id) {
        None => r is Err && r->Err_0 is InvalidRiotId,
        Some((name, tag)) => if valid_region(region) {
            &&& r is Ok
            &&& r->Ok_0.owner_id == owner_id
            &&& r->Ok_0.summoner_name@ == name
            &&& r->Ok_0.summoner_tag@ == tag
            &&& r->Ok_0.region@ == region
        } else {
            r matches Err(LinkOutcome::InvalidRegion(code)) && code@ == region
        },
    }
}

impl LinkRequest {
    /// Validates a link write whose region code is already in lower case.
    /// No outside call is made.
    pub fn new(owner_id: u64, riot_id: &str, region: &str) -> (r: Result<LinkRequest, LinkOutcome>)
        ensures
            request_checked(r, owner_id, riot_id@, region@),
    {
        match split_riot_id(riot_id) {
            None => Err(LinkOutcome::InvalidRiotId),
            Some((summoner_name, summoner_tag)) => {
                if is_valid_region(region) {
                    Ok(LinkRequest { owner_id, summoner_name, summoner_tag, region: String::from_str(region) })
                } else {
                    Err(LinkOutcome::InvalidRegion(String::from_str(region)))
                }
            },
        }
    }
}

/// Validates a link command's arguments, `Name#TAG` and a region code in
/// any case. No outside call is made.
pub fn begin_link(owner_id: u64, args: &Vec<String>) -> (r: Result<LinkRequest, LinkOutcome>)
    ensures
        args.len() < 2 ==> r is Err && r->Err_0 is Usage,
        args.len() >= 2 ==> request_checked(r, owner_id, args@[0]@, lowercase_of(args@[1]@)),
{
    if args.len() < 2 {
        return Err(LinkOutcome::Usage);
    }
    let region = to_lower(args[1].as_str());
    LinkRequest::new(owner_id, args[0].as_str(), region.as_str())
}

/// The record a verified account makes: the verifier's name and tag, the
/// requested region, and the account's identifier.
pub open spec fn verified_record(req: LinkRequest, acc: RiotAccount) -> UserLink {
    UserLink {
        discord_user_id: req.owner_id,
        summoner_name: acc.game_name,
        summoner_tag: acc.tag_line,
        region: req.region,
        riot_puuid: Some(acc.puuid),
    }
}

/// What the verifier's answer makes of a link write: the record to store,
/// or the outcome when it refused or failed.
pub open spec fn link_verdict(
    req: LinkRequest,
    verdict: Result<RiotAccount, RiotApiError>,
) -> Result<UserLink, LinkOutcome> {
    match verdict {
        Ok(acc) => Ok(verified_record(req, acc)),
        Err(e) => Err(LinkOutcome::VerifyFailed { request: req, error: e }),
    }
}

/// Second stage of a link write: reads the verifier's answer. On success
/// the record is to be upserted into the store; on failure the write ends
/// here, with nothing to store and the cache untouched.
pub fn link_verified(
    request: LinkRequest,
    verdict: Result<RiotAccount, RiotApiError>,
) -> (r: Result<UserLink, LinkOutcome>)
    ensures
        r == link_verdict(request, verdict),
{
    match verdict {
        Ok(acc) => Ok(
            UserLink {
                discord_user_id: request.owner_id,
                summoner_name: acc.game_name,
                summoner_tag: acc.tag_line,
                region: request.region,
                riot_puuid: Some(acc.puuid),
            },
        ),
        Err(error) => Err(LinkOutcome::VerifyFailed { request, error }),
    }
}

/// The cache and the outcome once the store answered the upsert of `rec`.
pub open spec fn link_commit(
    cache: Map<u64, CachedData<UserLink>>,
    rec: UserLink,
    stored: Result<(), StoreError>,
    now: u64,
) -> (Map<u64, CachedData<UserLink>>, LinkOutcome) {
    match stored {
        Ok(_) => (
            cache.insert(rec.discord_user_id, CachedData { data: rec, cached_at: now }),
            LinkOutcome::Linked(rec),
        ),
        Err(e) => (cache, LinkOutcome::StoreFailed(e)),
    }
}

/// Last stage of a link write: the store answered the upsert of `record`.
/// Only a stored record is cached.
pub fn link_stored(
    cache: &mut UserLinkCache,
    record: UserLink,
    stored: Result<(), StoreError>,
    now: u64,
) -> (r: LinkOutcome)
    ensures
        (final(cache)@, r) == link_commit(old(cache)@, record, stored, now),
{
    match stored {
        Ok(()) => {
            cache.insert(record.discord_user_id, CachedData::new(record.clone(), now));
            LinkOutcome::Linked(record)
        },
        Err(e) => LinkOutcome::StoreFailed(e),
    }
}

// -------------------------------------------------------------- lookup

/// A lookup that the cache could not answer.
pub struct LookupPending {
    pub owner_id: u64,
    /// Whether the cache held a stale entry for the owner.
    pub had_entry: bool,
}

/// The first stage of a lookup: answered from the cache, or sent on to the
/// store.
pub enum LookupStep {
    Answered(UserLink),
    FetchFromStore(LookupPending),
}

/// How a lookup ended.
pub enum LookupOutcome {
    Found(UserLink),
    /// No record exists: a normal outcome.
    NotLinked,
    /// The store failed; any stale entry was left in place.
    StoreFailed(StoreError),
}

/// A fresh entry answers; a stale or missing one sends the lookup to the
/// store.
pub open spec fn lookup_step(
    cache: Map<u64, CachedData<UserLink>>,
    owner_id: u64,
    ttl: u64,
    now: u64,
) -> LookupStep {
    if cache.contains_key(owner_id) && !stale_at(cache[owner_id].cached_at, ttl, now) {
        LookupStep::Answered(cache[owner_id].data)
    } else {
        LookupStep::FetchFromStore(LookupPending { owner_id, had_entry: cache.contains_key(owner_id) })
    }
}

/// First stage of a lookup. A fresh entry answers with no I/O.
pub fn begin_lookup(cache: &UserLinkCache, owner_id: u64, ttl: u64, now: u64) -> (r: LookupStep)
    ensures
        r == lookup_step(cache@, owner_id, ttl, now),
{
    match cache.get(owner_id) {
        Some(entry) => {
            if entry.is_stale(ttl, now) {
                LookupStep::FetchFromStore(LookupPending { owner_id, had_entry: true })
            } else {
                LookupStep::Answered(entry.data)
            }
        },
        None => LookupStep::FetchFromStore(LookupPending { owner_id, had_entry: false }),
    }
}

/// The cache and the outcome once the store answered a lookup.
pub open spec fn lookup_commit(
    cache: Map<u64, CachedData<UserLink>>,
    pending: LookupPending,
    fetched: Result<Option<UserLink>, StoreError>,
    now: u64,
) -> (Map<u64, CachedData<UserLink>>, LookupOutcome) {
    match fetched {
        Ok(Some(link)) => (
            cache.insert(pending.owner_id, CachedData { data: link, cached_at: now }),
            LookupOutcome::Found(link),
        ),
        Ok(None) => (
            if pending.had_entry { cache.remove(pending.owner_id) } else { cache },
            LookupOutcome::NotLinked,
        ),
        Err(e) => (cache, LookupOutcome::StoreFailed(e)),
    }
}

/// Last stage of a lookup: the store answered. A found record refreshes
/// the cache; a missing one purges the stale entry, if there was one.
pub fn finish_lookup(
    cache: &mut UserLinkCache,
    pending: LookupPending,
    fetched: Result<Option<UserLink>, StoreError>,
    now: u64,
) -> (r: LookupOutcome)
    ensures
        (final(cache)@, r) == lookup_commit(old(cache)@, pending, fetched, now),
{
    match fetched {
        Ok(Some(link)) => {
            cache.insert(pending.owner_id, CachedData::new(link.clone(), now));
            LookupOutcome::Found(link)
        },
        Ok(None) => {
            if pending.had_entry {
                cache.remove(pending.owner_id);
            }
            LookupOutcome::NotLinked
        },
        Err(e) => LookupOutcome::StoreFailed(e),
    }
}

// -------------------------------------------------------------- unlink

/// The first stage of an unlink.
pub enum UnlinkStep {
    /// The cache knows the link: delete the owner's row.
    Delete(u64),
    /// The cache does not: ask the store whether a row exists.
    CheckStore(u64),
}

/// How an unlink ended.
pub enum UnlinkOutcome {
    Unlinked,
    /// No record existed: a normal outcome.
    NothingToDelete,
    /// The store failed while checking for a row.
    CheckFailed(StoreError),
    /// The store failed while deleting; the cache was left alone.
    DeleteFailed(StoreError),
}

pub open spec fn unlink_step(cache: Map<u64, CachedData<UserLink>>, owner_id: u64) -> UnlinkStep {
    if cache.contains_key(owner_id) {
        UnlinkStep::Delete(owner_id)
    } else {
        UnlinkStep::CheckStore(owner_id)
    }
}

/// First stage of an unlink. An empty cache is not taken for an empty
/// store.
pub fn begin_unlink(cache: &UserLinkCache, owner_id: u64) -> (r: UnlinkStep)
    ensures
        r == unlink_step(cache@, owner_id),
{
    match cache.get(owner_id) {
        Some(_) => UnlinkStep::Delete(owner_id),
        None => UnlinkStep::CheckStore(owner_id),
    }
}

/// What the store's answer to the existence check makes of an unlink: the
/// owner whose row to delete, or the outcome. A missing row ends the unlink
/// with no delete issued.
pub open spec fn unlink_check(
    owner_id: u64,
    fetched: Result<Option<UserLink>, StoreError>,
) -> Result<u64, UnlinkOutcome> {
    match fetched {
        Ok(Some(_)) => Ok(owner_id),
        Ok(None) => Err(UnlinkOutcome::NothingToDelete),
        Err(e) => Err(UnlinkOutcome::CheckFailed(e)),
    }
}

/// Second stage of an unlink that the cache could not settle.
pub fn unlink_checked(
    owner_id: u64,
    fetched: Result<Option<UserLink>, StoreError>,
) -> (r: Result<u64, UnlinkOutcome>)
    ensures
        r == unlink_check(owner_id, fetched),
{
    match fetched {
        Ok(Some(_)) => Ok(owner_id),
        Ok(None) => Err(UnlinkOutcome::NothingToDelete),
        Err(e) => Err(UnlinkOutcome::CheckFailed(e)),
    }
}

/// The cache and the outcome once the store answered the delete. The store
/// is authoritative: when it deleted nothing, the cached entry is an orphan
/// and goes too.
pub open spec fn unlink_commit(
    cache: Map<u64, CachedData<UserLink>>,
    owner_id: u64,
    deleted: Result<bool, StoreError>,
) -> (Map<u64, CachedData<UserLink>>, UnlinkOutcome) {
    match deleted {
        Ok(true) => (cache.remove(owner_id), UnlinkOutcome::Unlinked),
        Ok(false) => (cache.remove(owner_id), UnlinkOutcome::NothingToDelete),
        Err(e) => (cache, UnlinkOutcome::DeleteFailed(e)),
    }
}

/// Last stage of an unlink: the store answered the delete of `owner_id`'s
/// row, saying whether a row existed.
pub fn finish_unlink(
    cache: &mut UserLinkCache,
    owner_id: u64,
    deleted: Result<bool, StoreError>,
) -> (r: UnlinkOutcome)
    ensures
        (final(cache)@, r) == unlink_commit(old(cache)@, owner_id, deleted),
{
    match deleted {
        Ok(true) => {
            cache.remove(owner_id);
            UnlinkOutcome::Unlinked
        },
        Ok(false) => {
            cache.remove(owner_id);
            UnlinkOutcome::NothingToDelete
        },
        Err(e) => UnlinkOutcome::DeleteFailed(e),
    }
}

// ---------------------------------------------------------------- laws

/// The cache and the store rows after a whole link write of `req`, given
/// the verifier's answer and the store's answer to the upsert, if one was
/// issued. The store changes only through the upsert of the record that
/// `link_verified` yields, and a failed upsert leaves its rows as they were.
pub open spec fn link_write(
    cache: Map<u64, CachedData<UserLink>>,
    rows: Map<u64, UserLink>,
    req: LinkRequest,
    verdict: Result<RiotAccount, RiotApiError>,
    stored: Result<(), StoreError>,
    now: u64,
) -> (Map<u64, CachedData<UserLink>>, Map<u64, UserLink>, LinkOutcome) {
    match link_verdict(req, verdict) {
        Err(out) => (cache, rows, out),
        Ok(rec) => {
            let (cache2, out) = link_commit(cache, rec, stored, now);
            (cache2, if stored is Ok { upsert_row(rows, rec) } else { rows }, out)
        },
    }
}

/// A verifier failure of any kind ends a link write with the cache and the
/// store unchanged, and reports the failure.
pub proof fn verifier_failure_writes_nothing(
    cache: Map<u64, CachedData<UserLink>>,
    rows: Map<u64, UserLink>,
    req: LinkRequest,
    error: RiotApiError,
    stored: Result<(), StoreError>,
    now: u64,
)
    ensures
        link_write(cache, rows, req, Err(error), stored, now)
            == (cache, rows, LinkOutcome::VerifyFailed { request: req, error }),
{
}

/// A link write that the verifier accepts but the store fails leaves the
/// cache unpopulated, and reports the store's failure.
pub proof fn store_failure_leaves_cache(
    cache: Map<u64, CachedData<UserLink>>,
    rows: Map<u64, UserLink>,
    req: LinkRequest,
    account: RiotAccount,
    error: StoreError,
    now: u64,
)
    ensures
        link_write(cache, rows, req, Ok(account), Err(error), now)
            == (cache, rows, LinkOutcome::StoreFailed(error)),
{
}

/// After a successful link write, a lookup within the time to live answers
/// from the cache with the verifier's canonical name and tag, the requested
/// region and the account's identifier.
pub proof fn link_then_lookup(
    cache: Map<u64, CachedData<UserLink>>,
    rows: Map<u64, UserLink>,
    req: LinkRequest,
    account: RiotAccount,
    linked_at: u64,
    ttl: u64,
    now: u64,
)
    requires
        linked_at <= now,
        now - linked_at <= ttl,
    ensures
        ({
            let (cache2, rows2, out) = link_write(cache, rows, req, Ok(account), Ok(()), linked_at);
            &&& out == LinkOutcome::Linked(verified_record(req, account))
            &&& rows2[req.owner_id] == verified_record(req, account)
            &&& lookup_step(cache2, req.owner_id, ttl, now) == LookupStep::Answered(
                UserLink {
                    discord_user_id: req.owner_id,
                    summoner_name: account.game_name,
                    summoner_tag: account.tag_line,
                    region: req.region,
                    riot_puuid: Some(account.puuid),
                },
            )
        }),
{
}

/// A lookup consults the store exactly when the cached entry is stale: older
/// than the time to live, or written after `now`.
pub proof fn stale_entry_goes_to_store(
    cache: Map<u64, CachedData<UserLink>>,
    owner_id: u64,
    ttl: u64,
    now: u64,
)
    requires
        cache.contains_key(owner_id),
    ensures
        lookup_step(cache, owner_id, ttl, now) is FetchFromStore <==> stale_at(
            cache[owner_id].cached_at,
            ttl,
            now,
        ),
        !stale_at(cache[owner_id].cached_at, ttl, now) ==> lookup_step(cache, owner_id, ttl, now)
            == LookupStep::Answered(cache[owner_id].data),
{
}

/// When the cache holds an entry but the store has no row to delete, the
/// unlink goes straight to the delete, purges the orphaned entry, and
/// reports that there was nothing to delete.
pub proof fn unlink_purges_orphan(cache: Map<u64, CachedData<UserLink>>, owner_id: u64)
    requires
        cache.contains_key(owner_id),
    ensures
        unlink_step(cache, owner_id) == UnlinkStep::Delete(owner_id),
        unlink_commit(cache, owner_id, Ok(false)) == (
            cache.remove(owner_id),
            UnlinkOutcome::NothingToDelete,
        ),
        !unlink_commit(cache, owner_id, Ok(false)).0.contains_key(owner_id),
{
}

} // verus!
