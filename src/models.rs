//! The records that the durable store holds.
use vstd::prelude::*;

verus! {

/// Copies an optional string; the copy equals its source.
fn copy_opt_string(s: &Option<String>) -> (r: Option<String>)
    ensures
        r == *s,
{
    match s {
        Some(v) => Some(v.clone()),
        None => None,
    }
}

/// Per-server settings.
pub struct ServerConfig {
    pub prefix: String,
}

/// The prefix a server has until it sets its own.
pub open spec fn default_prefix() -> Seq<char> {
    seq!['!']
}

impl Clone for ServerConfig {
    fn clone(&self) -> (r: Self)
        ensures
            r == *self,
    {
        ServerConfig { prefix: self.prefix.clone() }
    }
}

impl Default for ServerConfig {
    fn default() -> (r: Self)
        ensures
            r.prefix@ == default_prefix(),
    {
        let prefix = String::from_str("!");
        proof {
            reveal_strlit("!");
        }
        ServerConfig { prefix }
    }
}

/// The binding of one chat user to one game account.
pub struct UserLink {
    pub discord_user_id: u64,
    pub summoner_name: String,
    pub summoner_tag: String,
    /// A code of the closed set of game regions, in lower case.
    pub region: String,
    /// The account's identifier at the verifier; absent on legacy records.
    pub riot_puuid: Option<String>,
}

impl Clone for UserLink {
    fn clone(&self) -> (r: Self)
        ensures
            r == *self,
    {
        UserLink {
            discord_user_id: self.discord_user_id,
            summoner_name: self.summoner_name.clone(),
            summoner_tag: self.summoner_tag.clone(),
            region: self.region.clone(),
            riot_puuid: copy_opt_string(&self.riot_puuid),
        }
    }
}

/// A failure of the durable store (an I/O or database error), with its text.
pub struct StoreError {
    pub message: String,
}

} // verus!
