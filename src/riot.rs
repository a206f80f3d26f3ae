//! The remote verifier's side: region routing, the lookup address, and how
//! an answer's status is read.
use vstd::prelude::*;
use crate::text::{decimal, push_decimal, text_eq};

verus! {

/// What `str::to_lowercase` makes of a string.
pub uninterp spec fn lowercase_of(s: Seq<char>) -> Seq<char>;

/// Relies on str::to_lowercase: Unicode lower case, a function of the
/// characters alone.
#[verifier::external_body]
pub(crate) fn to_lower(s: &str) -> (r: String)
    ensures
        r@ == lowercase_of(s@),
{
    s.to_lowercase()
}

/// An account as the verifier returns it; its name and tag are canonical.
pub struct RiotAccount {
    pub puuid: String,
    pub game_name: String,
    pub tag_line: String,
}

/// How a verification can fail.
pub enum RiotApiError {
    /// The account does not exist upstream.
    NotFound,
    /// Too many requests; the caller should back off.
    RateLimited,
    /// The credential was refused: a configuration fault.
    Unauthorized,
    /// A server-side fault upstream.
    ServerError,
    /// The request did not complete, or came back with an unexpected status.
    NetworkError(String),
    /// The answer could not be read.
    ParseError(String),
}

/// The text that describes an error to a user.
pub open spec fn error_text(e: RiotApiError) -> Seq<char> {
    match e {
        RiotApiError::NotFound => "Summoner not found"@,
        RiotApiError::RateLimited => "Rate limited by Riot API"@,
        RiotApiError::Unauthorized => "Invalid API key"@,
        RiotApiError::ServerError => "Riot API server error"@,
        RiotApiError::NetworkError(m) => "Network error: "@ + m@,
        RiotApiError::ParseError(m) => "Parse error: "@ + m@,
    }
}

impl RiotApiError {
    pub fn message(&self) -> (r: String)
        ensures
            r@ == error_text(*self),
    {
        match self {
            RiotApiError::NotFound => String::from_str("Summoner not found"),
            RiotApiError::RateLimited => String::from_str("Rate limited by Riot API"),
            RiotApiError::Unauthorized => String::from_str("Invalid API key"),
            RiotApiError::ServerError => String::from_str("Riot API server error"),
            RiotApiError::NetworkError(m) => {
                let mut r = String::from_str("Network error: ");
                r.append(m.as_str());
                r
            },
            RiotApiError::ParseError(m) => {
                let mut r = String::from_str("Parse error: ");
                r.append(m.as_str());
                r
            },
        }
    }
}

/// The verifier's routing partitions.
#[derive(Clone, Copy, Debug, PartialEq, Eq, Structural)]
pub enum Region {
    Americas,
    Europe,
    Asia,
    Sea,
}

/// The partition that serves a (lower-case) game region code; a code of no
/// partition falls back to the Americas.
pub open spec fn partition_of(code: Seq<char>) -> Region {
    if code == "na"@ || code == "br"@ || code == "lan"@ || code == "las"@ {
        Region::Americas
    } else if code == "euw"@ || code == "eune"@ || code == "tr"@ || code == "ru"@ {
        Region::Europe
    } else if code == "kr"@ || code == "jp"@ {
        Region::Asia
    } else {
        Region::Americas
    }
}

/// The base address of a partition.
pub open spec fn base_url_of(r: Region) -> Seq<char> {
    match r {
        Region::Americas => "https://americas.api.riotgames.com"@,
        Region::Europe => "https://europe.api.riotgames.com"@,
        Region::Asia => "https://asia.api.riotgames.com"@,
        Region::Sea => "https://sea.api.riotgames.com"@,
    }
}

/// The path, under a base address, that resolves a name and tag.
pub open spec fn account_path() -> Seq<char> {
    "/riot/account/v1/accounts/by-riot-id/"@
}

/// The address that resolves `name#tag` in partition `r`.
pub open spec fn account_url_of(r: Region, name: Seq<char>, tag: Seq<char>) -> Seq<char> {
    base_url_of(r) + account_path() + name + "/"@ + tag
}

impl Region {
    /// The partition of a region code that is already in lower case.
    pub fn from_code(code: &str) -> (r: Region)
        ensures
            r == partition_of(code@),
    {
        if text_eq(code, "na") || text_eq(code, "br") || text_eq(code, "lan") || text_eq(code, "las") {
            Region::Americas
        } else if text_eq(code, "euw") || text_eq(code, "eune") || text_eq(code, "tr") || text_eq(code, "ru") {
            Region::Europe
        } else if text_eq(code, "kr") || text_eq(code, "jp") {
            Region::Asia
        } else {
            Region::Americas
        }
    }

    /// The partition of a region code, in any case.
    pub fn from_game_region(region: &str) -> (r: Region)
        ensures
            r == partition_of(lowercase_of(region@)),
    {
        let code = to_lower(region);
        Region::from_code(code.as_str())
    }

    pub fn api_base_url(&self) -> (r: &'static str)
        ensures
            r@ == base_url_of(*self),
    {
        match self {
            Region::Americas => "https://americas.api.riotgames.com",
            Region::Europe => "https://europe.api.riotgames.com",
            Region::Asia => "https://asia.api.riotgames.com",
            Region::Sea => "https://sea.api.riotgames.com",
        }
    }

    /// The address that resolves `game_name#tag_line` in this partition.
    pub fn account_url(&self, game_name: &str, tag_line: &str) -> (r: String)
        ensures
            r@ == account_url_of(*self, game_name@, tag_line@),
    {
        let mut url = String::from_str(self.api_base_url());
        url.append("/riot/account/v1/accounts/by-riot-id/");
        url.append(game_name);
        url.append("/");
        url.append(tag_line);
        url
    }
}

/// The address that resolves `game_name#tag_line` for a game region code in
/// any case.
pub fn account_url(game_name: &str, tag_line: &str, game_region: &str) -> (r: String)
    ensures
        r@ == account_url_of(partition_of(lowercase_of(game_region@)), game_name@, tag_line@),
{
    Region::from_game_region(game_region).account_url(game_name, tag_line)
}

/// Whether an HTTP status is a server error (5xx).
pub open spec fn is_server_error(status: u16) -> bool {
    500 <= status <= 599
}

/// What a status of the verifier's answer means: `Ok` when the body holds
/// the account, else the error it stands for.
pub fn classify_status(status: u16) -> (r: Result<(), RiotApiError>)
    ensures
        status == 200 ==> r is Ok,
        status == 404 ==> r == Err::<(), RiotApiError>(RiotApiError::NotFound),
        status == 403 ==> r == Err::<(), RiotApiError>(RiotApiError::Unauthorized),
        status == 429 ==> r == Err::<(), RiotApiError>(RiotApiError::RateLimited),
        is_server_error(status) ==> r == Err::<(), RiotApiError>(RiotApiError::ServerError),
        status != 200 && status != 404 && status != 403 && status != 429 && !is_server_error(status)
            ==> (r matches Err(RiotApiError::NetworkError(m))
                && m@ == "Unexpected status: "@ + decimal(status as nat)),
{
    if status == 200 {
        Ok(())
    } else if status == 404 {
        Err(RiotApiError::NotFound)
    } else if status == 403 {
        Err(RiotApiError::Unauthorized)
    } else if status == 429 {
        Err(RiotApiError::RateLimited)
    } else if 500 <= status && status <= 599 {
        Err(RiotApiError::ServerError)
    } else {
        let mut m = String::from_str("Unexpected status: ");
        push_decimal(&mut m, status as u64);
        Err(RiotApiError::NetworkError(m))
    }
}

} // verus!
