//! The durable store's side: what its operations do to its rows, how rows
//! are read back into records, and an in-memory store with that behaviour.
//!
//! The store keys its rows by the decimal numeral of the owner or server
//! id (see `crate::text::decimal`).
use vstd::prelude::*;
use vstd::hash_map::HashMapWithView;
use crate::models::{ServerConfig, UserLink};
use crate::text::{numeral_value, parse_decimal};

verus! {

broadcast use vstd::std_specs::hash::group_hash_axioms;

/// The rows after `rec` is upserted: inserted, or replacing the owner's row
/// with every field overwritten.
pub open spec fn upsert_row(rows: Map<u64, UserLink>, rec: UserLink) -> Map<u64, UserLink> {
    rows.insert(rec.discord_user_id, rec)
}

/// Upserting the same record twice leaves the same rows as upserting it
/// once.
pub proof fn upsert_is_idempotent(rows: Map<u64, UserLink>, rec: UserLink)
    ensures
        upsert_row(upsert_row(rows, rec), rec) == upsert_row(rows, rec),
{
    assert(upsert_row(upsert_row(rows, rec), rec) =~= upsert_row(rows, rec));
}

/// Reads a stored link row back into a record; `None` when the owner key
/// is no numeral of an id.
pub fn link_from_row(
    owner_key: &str,
    summoner_name: String,
    summoner_tag: String,
    region: String,
    riot_puuid: Option<String>,
) -> (r: Option<UserLink>)
    ensures
        r == (match numeral_value(owner_key@) {
            Some(id) => Some(
                UserLink { discord_user_id: id, summoner_name, summoner_tag, region, riot_puuid },
            ),
            None => None::<UserLink>,
        }),
{
    match parse_decimal(owner_key) {
        Some(id) => Some(UserLink { discord_user_id: id, summoner_name, summoner_tag, region, riot_puuid }),
        None => None,
    }
}

/// Reads a stored server row back into its id and settings; `None` when the
/// server key is no numeral of an id.
pub fn config_from_row(guild_key: &str, prefix: String) -> (r: Option<(u64, ServerConfig)>)
    ensures
        r == (match numeral_value(guild_key@) {
            Some(id) => Some((id, ServerConfig { prefix })),
            None => None::<(u64, ServerConfig)>,
        }),
{
    match parse_decimal(guild_key) {
        Some(id) => Some((id, ServerConfig { prefix })),
        None => None,
    }
}

/// A store that keeps its link rows in memory and never fails.
pub struct MemoryStore {
    links: HashMapWithView<u64, UserLink>,
}

impl View for MemoryStore {
    type V = Map<u64, UserLink>;

    closed spec fn view(&self) -> Map<u64, UserLink> {
        self.links@
    }
}

impl MemoryStore {
    pub fn new() -> (r: Self)
        ensures
            r@.dom() == Set::<u64>::empty(),
    {
        MemoryStore { links: HashMapWithView::new() }
    }

    pub fn get_link(&self, owner_id: u64) -> (r: Option<UserLink>)
        ensures
            r == (if self@.contains_key(owner_id) {
                Some(self@[owner_id])
            } else {
                None::<UserLink>
            }),
    {
        match self.links.get(&owner_id) {
            Some(link) => Some(link.clone()),
            None => None,
        }
    }

    pub fn upsert_link(&mut self, record: UserLink)
        ensures
            final(self)@ == upsert_row(old(self)@, record),
    {
        self.links.insert(record.discord_user_id, record);
    }

    /// Deletes the owner's row; says whether there was one.
    pub fn delete_link(&mut self, owner_id: u64) -> (r: bool)
        ensures
            final(self)@ == old(self)@.remove(owner_id),
            r == old(self)@.contains_key(owner_id),
    {
        self.links.remove(&owner_id).is_some()
    }
}

} // verus!
