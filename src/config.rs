//! Per-server settings kept in memory: filled from the store at startup and
//! updated on every write, so reads never go to the store.
use vstd::prelude::*;
use dashmap::DashMap;
use crate::models::{default_prefix, ServerConfig};

verus! {

/// The settings that a config map's map holds.
pub uninterp spec fn stored_configs(m: DashMap<u64, ServerConfig>) -> Map<u64, ServerConfig>;

/// Relies on DashMap::new: a new map holds no entry.
#[verifier::external_body]
fn configs_map_new() -> (r: DashMap<u64, ServerConfig>)
    ensures
        stored_configs(r).dom() == Set::<u64>::empty(),
{
    DashMap::new()
}

/// Relies on DashMap::get and Ref::value: the settings under `k`, if any,
/// read through the guard and copied out.
#[verifier::external_body]
fn configs_map_get(m: &DashMap<u64, ServerConfig>, k: u64) -> (r: Option<ServerConfig>)
    ensures
        r == (if stored_configs(*m).contains_key(k) {
            Some(stored_configs(*m)[k])
        } else {
            None::<ServerConfig>
        }),
{
    m.get(&k).map(|e| e.value().clone())
}

/// Relies on DashMap::insert: `v` is stored under `k`, replacing any entry.
#[verifier::external_body]
fn configs_map_insert(m: &mut DashMap<u64, ServerConfig>, k: u64, v: ServerConfig)
    ensures
        stored_configs(*final(m)) == stored_configs(*old(m)).insert(k, v),
{
    m.insert(k, v);
}

/// Server id to that server's settings.
pub struct ConfigMap {
    map: DashMap<u64, ServerConfig>,
}

impl View for ConfigMap {
    type V = Map<u64, ServerConfig>;

    closed spec fn view(&self) -> Map<u64, ServerConfig> {
        stored_configs(self.map)
    }
}

impl ConfigMap {
    pub fn new() -> (r: Self)
        ensures
            r@.dom() == Set::<u64>::empty(),
    {
        ConfigMap { map: configs_map_new() }
    }

    pub fn get(&self, guild_id: u64) -> (r: Option<ServerConfig>)
        ensures
            r == (if self@.contains_key(guild_id) {
                Some(self@[guild_id])
            } else {
                None::<ServerConfig>
            }),
    {
        configs_map_get(&self.map, guild_id)
    }

    pub fn insert(&mut self, guild_id: u64, config: ServerConfig)
        ensures
            final(self)@ == old(self)@.insert(guild_id, config),
    {
        configs_map_insert(&mut self.map, guild_id, config);
    }
}

/// A new, empty config map.
pub fn create_config_map() -> (r: ConfigMap)
    ensures
        r@.dom() == Set::<u64>::empty(),
{
    ConfigMap::new()
}

/// The prefix in force: the server's own, else the default. Outside a
/// server the default applies.
pub open spec fn prefix_in(configs: Map<u64, ServerConfig>, guild_id: Option<u64>) -> Seq<char> {
    match guild_id {
        Some(g) => if configs.contains_key(g) {
            configs[g].prefix@
        } else {
            default_prefix()
        },
        None => default_prefix(),
    }
}

pub fn get_prefix(config_map: &ConfigMap, guild_id: Option<u64>) -> (r: String)
    ensures
        r@ == prefix_in(config_map@, guild_id),
{
    let found = match guild_id {
        Some(g) => config_map.get(g),
        None => None,
    };
    match found {
        Some(config) => config.prefix,
        None => ServerConfig::default().prefix,
    }
}

/// The map after inserting each pair of `configs` in order.
pub open spec fn insert_all(
    configs: Map<u64, ServerConfig>,
    rows: Seq<(u64, ServerConfig)>,
) -> Map<u64, ServerConfig>
    decreases rows.len(),
{
    if rows.len() == 0 {
        configs
    } else {
        insert_all(configs, rows.drop_last()).insert(rows.last().0, rows.last().1)
    }
}

/// Warms the map with the settings that the store holds.
pub fn load_configs(config_map: &mut ConfigMap, rows: &Vec<(u64, ServerConfig)>)
    ensures
        final(config_map)@ == insert_all(old(config_map)@, rows@),
{
    let ghost start = config_map@;
    let mut i: usize = 0;
    while i < rows.len()
        invariant
            i <= rows.len(),
            config_map@ == insert_all(start, rows@.subrange(0, i as int)),
        decreases rows.len() - i,
    {
        let (guild_id, config) = &rows[i];
        config_map.insert(*guild_id, config.clone());
        assert(rows@.subrange(0, i + 1).drop_last() =~= rows@.subrange(0, i as int));
        i = i + 1;
    }
    assert(rows@.subrange(0, rows.len() as int) =~= rows@);
}

/// How a prefix command ended.
pub enum PrefixOutcome {
    /// The command was given outside a server.
    NotInServer,
    /// No argument: the prefix in force.
    Current(String),
    /// An empty prefix was refused; nothing changed.
    EmptyPrefix,
    /// The server's prefix changed in memory; `config` is to be saved to the
    /// store.
    Changed { guild_id: u64, config: ServerConfig },
}

/// Views or sets a server's prefix. A new prefix takes effect in memory at
/// once; saving it to the store is the caller's next step.
pub fn prefix_command(
    config_map: &mut ConfigMap,
    guild_id: Option<u64>,
    args: &Vec<String>,
) -> (r: PrefixOutcome)
    ensures
        guild_id is None ==> r == PrefixOutcome::NotInServer && final(config_map)@ == old(
            config_map,
        )@,
        guild_id is Some && args.len() == 0 ==> (r matches PrefixOutcome::Current(p) && p@
            == prefix_in(old(config_map)@, guild_id)) && final(config_map)@ == old(config_map)@,
        guild_id is Some && args.len() > 0 && args@[0]@.len() == 0 ==> r == PrefixOutcome::EmptyPrefix
            && final(config_map)@ == old(config_map)@,
        guild_id is Some && args.len() > 0 && args@[0]@.len() > 0 ==> ({
            let config = ServerConfig { prefix: args@[0] };
            &&& r == (PrefixOutcome::Changed { guild_id: guild_id->0, config })
            &&& final(config_map)@ == old(config_map)@.insert(guild_id->0, config)
        }),
{
    let g = match guild_id {
        Some(g) => g,
        None => return PrefixOutcome::NotInServer,
    };
    if args.len() == 0 {
        return PrefixOutcome::Current(get_prefix(config_map, guild_id));
    }
    if args[0].unicode_len() == 0 {
        return PrefixOutcome::EmptyPrefix;
    }
    let config = ServerConfig { prefix: args[0].clone() };
    config_map.insert(g, config.clone());
    PrefixOutcome::Changed { guild_id: g, config }
}

} // verus!
