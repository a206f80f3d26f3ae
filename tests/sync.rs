use summoner_link::cache::{CachedData, USER_LINK_TTL};
use summoner_link::models::{StoreError, UserLink};
use summoner_link::riot::{RiotAccount, RiotApiError};
use summoner_link::store::MemoryStore;
use summoner_link::sync::{
    begin_link, begin_lookup, begin_unlink, finish_lookup, finish_unlink, link_stored, link_verified,
    split_riot_id, unlink_checked, LinkOutcome, LinkRequest, LookupOutcome, LookupPending, LookupStep,
    UnlinkOutcome, UnlinkStep,
};
use summoner_link::user_cache::{create_user_cache, UserLinkCache};

const OWNER: u64 = 42;

fn args(a: &[&str]) -> Vec<String> {
    a.iter().map(|s| s.to_string()).collect()
}

fn faker_account() -> RiotAccount {
    RiotAccount { puuid: "p1".to_string(), game_name: "Faker".to_string(), tag_line: "KR1".to_string() }
}

fn link(owner: u64, name: &str, tag: &str, region: &str) -> UserLink {
    UserLink {
        discord_user_id: owner,
        summoner_name: name.to_string(),
        summoner_tag: tag.to_string(),
        region: region.to_string(),
        riot_puuid: Some("p".to_string()),
    }
}

fn store_error() -> StoreError {
    StoreError { message: "disk gone".to_string() }
}

/// Runs a whole link write against an in-memory store, with the verifier
/// answering `verdict`, and says whether the verifier was asked.
fn run_link(
    cache: &mut UserLinkCache,
    store: &mut MemoryStore,
    owner: u64,
    a: &[&str],
    verdict: Result<RiotAccount, RiotApiError>,
    now: u64,
) -> (LinkOutcome, bool) {
    let request = match begin_link(owner, &args(a)) {
        Ok(r) => r,
        Err(out) => return (out, false),
    };
    let record = match link_verified(request, verdict) {
        Ok(r) => r,
        Err(out) => return (out, true),
    };
    store.upsert_link(record.clone());
    (link_stored(cache, record, Ok(()), now), true)
}

/// Runs a whole lookup against an in-memory store; says whether the store
/// was asked.
fn run_lookup(cache: &mut UserLinkCache, store: &MemoryStore, owner: u64, now: u64) -> (LookupOutcome, bool) {
    match begin_lookup(cache, owner, USER_LINK_TTL, now) {
        LookupStep::Answered(l) => (LookupOutcome::Found(l), false),
        LookupStep::FetchFromStore(p) => {
            let fetched = Ok(store.get_link(p.owner_id));
            (finish_lookup(cache, p, fetched, now), true)
        }
    }
}

#[test]
fn link_scenario_stores_the_verified_record_and_lookup_needs_no_io() {
    let mut cache = create_user_cache();
    let mut store = MemoryStore::new();
    let (out, asked) = run_link(&mut cache, &mut store, OWNER, &["Faker#KR1", "kr"], Ok(faker_account()), 1_000);
    assert!(asked);
    assert!(matches!(out, LinkOutcome::Linked(_)));
    let row = store.get_link(OWNER).unwrap();
    assert_eq!(row.discord_user_id, OWNER);
    assert_eq!(row.summoner_name, "Faker");
    assert_eq!(row.summoner_tag, "KR1");
    assert_eq!(row.region, "kr");
    assert_eq!(row.riot_puuid, Some("p1".to_string()));
    let (found, store_asked) = run_lookup(&mut cache, &store, OWNER, 1_001);
    assert!(!store_asked);
    match found {
        LookupOutcome::Found(l) => {
            assert_eq!(l.summoner_name, "Faker");
            assert_eq!(l.summoner_tag, "KR1");
            assert_eq!(l.region, "kr");
            assert_eq!(l.riot_puuid, Some("p1".to_string()));
        }
        _ => panic!("expected the cached link"),
    }
}

#[test]
fn lookup_of_unknown_owner_is_not_linked_and_leaves_cache_alone() {
    let mut cache = create_user_cache();
    let store = MemoryStore::new();
    let (out, store_asked) = run_lookup(&mut cache, &store, OWNER, 5);
    assert!(store_asked);
    assert!(matches!(out, LookupOutcome::NotLinked));
    assert!(cache.get(OWNER).is_none());
}

#[test]
fn invalid_region_is_refused_before_the_verifier() {
    let mut cache = create_user_cache();
    let mut store = MemoryStore::new();
    let (out, asked) = run_link(&mut cache, &mut store, OWNER, &["Faker#KR1", "xx"], Ok(faker_account()), 1);
    assert!(!asked);
    match out {
        LinkOutcome::InvalidRegion(r) => assert_eq!(r, "xx"),
        _ => panic!("expected an invalid region"),
    }
    assert!(cache.get(OWNER).is_none());
    assert!(store.get_link(OWNER).is_none());
}

#[test]
fn round_trip_returns_canonical_casing() {
    let mut cache = create_user_cache();
    let mut store = MemoryStore::new();
    let (_, _) = run_link(&mut cache, &mut store, OWNER, &["faker#kr1", "KR"], Ok(faker_account()), 10);
    let (found, store_asked) = run_lookup(&mut cache, &store, OWNER, 10 + USER_LINK_TTL);
    assert!(!store_asked);
    match found {
        LookupOutcome::Found(l) => {
            assert_eq!(l.summoner_name, "Faker");
            assert_eq!(l.summoner_tag, "KR1");
            assert_eq!(l.region, "kr");
        }
        _ => panic!("expected the cached link"),
    }
}

#[test]
fn every_verifier_failure_writes_nothing() {
    let errors = vec![
        RiotApiError::NotFound,
        RiotApiError::RateLimited,
        RiotApiError::Unauthorized,
        RiotApiError::ServerError,
        RiotApiError::NetworkError("timeout".to_string()),
        RiotApiError::ParseError("bad json".to_string()),
    ];
    for e in errors {
        let mut cache = create_user_cache();
        let mut store = MemoryStore::new();
        cache.insert(7, CachedData::new(link(7, "a", "b", "na"), 3));
        let (out, asked) = run_link(&mut cache, &mut store, OWNER, &["Faker#KR1", "kr"], Err(e), 5);
        assert!(asked);
        match out {
            LinkOutcome::VerifyFailed { request, .. } => {
                assert_eq!(request.summoner_name, "Faker");
                assert_eq!(request.summoner_tag, "KR1");
                assert_eq!(request.region, "kr");
            }
            _ => panic!("expected a verifier failure"),
        }
        assert!(cache.get(OWNER).is_none());
        assert!(cache.get(7).is_some());
        assert!(store.get_link(OWNER).is_none());
    }
}

#[test]
fn store_failure_leaves_the_cache_unpopulated() {
    let mut cache = create_user_cache();
    let request = begin_link(OWNER, &args(&["Faker#KR1", "kr"])).ok().unwrap();
    let record = link_verified(request, Ok(faker_account())).ok().unwrap();
    let out = link_stored(&mut cache, record, Err(store_error()), 9);
    match out {
        LinkOutcome::StoreFailed(e) => assert_eq!(e.message, "disk gone"),
        _ => panic!("expected a store failure"),
    }
    assert!(cache.get(OWNER).is_none());
}

#[test]
fn upserting_twice_is_upserting_once() {
    let mut store = MemoryStore::new();
    store.upsert_link(link(OWNER, "a", "b", "na"));
    store.upsert_link(link(OWNER, "a", "b", "na"));
    let row = store.get_link(OWNER).unwrap();
    assert_eq!(row.summoner_name, "a");
    assert!(store.delete_link(OWNER));
    assert!(!store.delete_link(OWNER));
}

#[test]
fn upsert_overwrites_every_field() {
    let mut store = MemoryStore::new();
    store.upsert_link(link(OWNER, "a", "b", "na"));
    let mut newer = link(OWNER, "c", "d", "euw");
    newer.riot_puuid = None;
    store.upsert_link(newer);
    let row = store.get_link(OWNER).unwrap();
    assert_eq!(row.summoner_name, "c");
    assert_eq!(row.summoner_tag, "d");
    assert_eq!(row.region, "euw");
    assert_eq!(row.riot_puuid, None);
}

#[test]
fn stale_entry_sends_lookup_to_the_store() {
    let mut cache = create_user_cache();
    cache.insert(OWNER, CachedData::new(link(OWNER, "old", "t", "na"), 100));
    // age equal to the time to live: still fresh
    match begin_lookup(&cache, OWNER, 50, 150) {
        LookupStep::Answered(l) => assert_eq!(l.summoner_name, "old"),
        _ => panic!("expected a fresh entry"),
    }
    // one past the time to live: stale
    match begin_lookup(&cache, OWNER, 50, 151) {
        LookupStep::FetchFromStore(p) => {
            assert_eq!(p.owner_id, OWNER);
            assert!(p.had_entry);
        }
        _ => panic!("expected a store consultation"),
    }
    // the clock went backwards: stale
    assert!(matches!(begin_lookup(&cache, OWNER, 50, 99), LookupStep::FetchFromStore(_)));
}

#[test]
fn stale_refresh_updates_the_cache() {
    let mut cache = create_user_cache();
    let mut store = MemoryStore::new();
    cache.insert(OWNER, CachedData::new(link(OWNER, "old", "t", "na"), 0));
    store.upsert_link(link(OWNER, "new", "t", "na"));
    let (out, asked) = run_lookup(&mut cache, &store, OWNER, USER_LINK_TTL + 1);
    assert!(asked);
    match out {
        LookupOutcome::Found(l) => assert_eq!(l.summoner_name, "new"),
        _ => panic!("expected the refreshed link"),
    }
    let entry = cache.get(OWNER).unwrap();
    assert_eq!(entry.data.summoner_name, "new");
    assert_eq!(entry.cached_at, USER_LINK_TTL + 1);
}

#[test]
fn stale_entry_deleted_out_of_band_is_purged() {
    let mut cache = create_user_cache();
    let store = MemoryStore::new();
    cache.insert(OWNER, CachedData::new(link(OWNER, "old", "t", "na"), 0));
    let (out, _) = run_lookup(&mut cache, &store, OWNER, USER_LINK_TTL + 1);
    assert!(matches!(out, LookupOutcome::NotLinked));
    assert!(cache.get(OWNER).is_none());
}

#[test]
fn refresh_failure_keeps_the_stale_entry() {
    let mut cache = create_user_cache();
    cache.insert(OWNER, CachedData::new(link(OWNER, "old", "t", "na"), 0));
    let pending = LookupPending { owner_id: OWNER, had_entry: true };
    let out = finish_lookup(&mut cache, pending, Err(store_error()), 10);
    assert!(matches!(out, LookupOutcome::StoreFailed(_)));
    let entry = cache.get(OWNER).unwrap();
    assert_eq!(entry.data.summoner_name, "old");
    assert_eq!(entry.cached_at, 0);
}

#[test]
fn unlink_with_cached_entry_but_no_row_purges_and_reports_nothing() {
    let mut cache = create_user_cache();
    cache.insert(OWNER, CachedData::new(link(OWNER, "a", "b", "na"), 0));
    let step = begin_unlink(&cache, OWNER);
    assert!(matches!(step, UnlinkStep::Delete(OWNER)));
    let out = finish_unlink(&mut cache, OWNER, Ok(false));
    assert!(matches!(out, UnlinkOutcome::NothingToDelete));
    assert!(cache.get(OWNER).is_none());
}

#[test]
fn unlink_without_cache_entry_checks_the_store() {
    let cache = create_user_cache();
    assert!(matches!(begin_unlink(&cache, OWNER), UnlinkStep::CheckStore(OWNER)));
    assert!(matches!(unlink_checked(OWNER, Ok(None)), Err(UnlinkOutcome::NothingToDelete)));
    assert!(matches!(unlink_checked(OWNER, Err(store_error())), Err(UnlinkOutcome::CheckFailed(_))));
    assert!(matches!(unlink_checked(OWNER, Ok(Some(link(OWNER, "a", "b", "na")))), Ok(OWNER)));
}

#[test]
fn unlink_deletes_and_purges() {
    let mut cache = create_user_cache();
    let mut store = MemoryStore::new();
    cache.insert(OWNER, CachedData::new(link(OWNER, "a", "b", "na"), 0));
    store.upsert_link(link(OWNER, "a", "b", "na"));
    let deleted = Ok(store.delete_link(OWNER));
    assert!(matches!(finish_unlink(&mut cache, OWNER, deleted), UnlinkOutcome::Unlinked));
    assert!(cache.get(OWNER).is_none());
}

#[test]
fn unlink_delete_failure_keeps_the_cache() {
    let mut cache = create_user_cache();
    cache.insert(OWNER, CachedData::new(link(OWNER, "a", "b", "na"), 0));
    let out = finish_unlink(&mut cache, OWNER, Err(store_error()));
    assert!(matches!(out, UnlinkOutcome::DeleteFailed(_)));
    assert!(cache.get(OWNER).is_some());
}

#[test]
fn link_validation_outcomes() {
    assert!(matches!(begin_link(OWNER, &args(&["Faker#KR1"])), Err(LinkOutcome::Usage)));
    assert!(matches!(begin_link(OWNER, &args(&[])), Err(LinkOutcome::Usage)));
    assert!(matches!(begin_link(OWNER, &args(&["FakerKR1", "kr"])), Err(LinkOutcome::InvalidRiotId)));
    assert!(matches!(begin_link(OWNER, &args(&["a#b#c", "kr"])), Err(LinkOutcome::InvalidRiotId)));
    match begin_link(OWNER, &args(&["Hide on bush#KR1", "EUNE"])) {
        Ok(LinkRequest { owner_id, summoner_name, summoner_tag, region }) => {
            assert_eq!(owner_id, OWNER);
            assert_eq!(summoner_name, "Hide on bush");
            assert_eq!(summoner_tag, "KR1");
            assert_eq!(region, "eune");
        }
        _ => panic!("expected a valid request"),
    }
}

#[test]
fn riot_id_split_edges() {
    assert_eq!(split_riot_id("a#b"), Some(("a".to_string(), "b".to_string())));
    assert_eq!(split_riot_id("#b"), Some((String::new(), "b".to_string())));
    assert_eq!(split_riot_id("a#"), Some(("a".to_string(), String::new())));
    assert_eq!(split_riot_id("ab"), None);
    assert_eq!(split_riot_id("##"), None);
}

#[test]
fn cached_data_age_and_update() {
    let mut e = CachedData::new(5u32, 100);
    assert_eq!(e.age(130), Some(30));
    assert_eq!(e.age(99), None);
    assert!(!e.is_stale(30, 130));
    assert!(e.is_stale(29, 130));
    assert!(e.is_stale(1000, 99));
    e.update(6, 200);
    assert_eq!(e.data, 6);
    assert_eq!(e.cached_at, 200);
    assert_eq!(e.age(200), Some(0));
}

#[test]
fn link_cache_remove_says_whether_there_was_an_entry() {
    let mut cache = create_user_cache();
    assert!(!cache.remove(OWNER));
    cache.insert(OWNER, CachedData::new(link(OWNER, "a", "b", "na"), 0));
    assert_eq!(cache.get(OWNER).unwrap().data.summoner_name, "a");
    assert!(cache.remove(OWNER));
    assert!(cache.get(OWNER).is_none());
}
