use summoner_link::riot::{account_url, classify_status, Region, RiotApiError};
use summoner_link::store::{config_from_row, link_from_row};
use summoner_link::sync::is_valid_region;
use summoner_link::text::{decimal_text, parse_decimal};

#[test]
fn regions_route_to_partitions() {
    assert_eq!(Region::from_game_region("na"), Region::Americas);
    assert_eq!(Region::from_game_region("LAS"), Region::Americas);
    assert_eq!(Region::from_game_region("EUW"), Region::Europe);
    assert_eq!(Region::from_game_region("tr"), Region::Europe);
    assert_eq!(Region::from_game_region("KR"), Region::Asia);
    assert_eq!(Region::from_game_region("jp"), Region::Asia);
    assert_eq!(Region::from_game_region("oce"), Region::Americas);
    assert_eq!(Region::from_game_region("nowhere"), Region::Americas);
    assert_eq!(Region::from_code("KR"), Region::Americas);
}

#[test]
fn base_urls() {
    assert_eq!(Region::Americas.api_base_url(), "https://americas.api.riotgames.com");
    assert_eq!(Region::Europe.api_base_url(), "https://europe.api.riotgames.com");
    assert_eq!(Region::Asia.api_base_url(), "https://asia.api.riotgames.com");
    assert_eq!(Region::Sea.api_base_url(), "https://sea.api.riotgames.com");
}

#[test]
fn account_url_for_a_region_in_upper_case() {
    assert_eq!(
        account_url("Faker", "KR1", "KR"),
        "https://asia.api.riotgames.com/riot/account/v1/accounts/by-riot-id/Faker/KR1"
    );
}

#[test]
fn statuses_map_to_errors() {
    assert!(classify_status(200).is_ok());
    assert!(matches!(classify_status(404), Err(RiotApiError::NotFound)));
    assert!(matches!(classify_status(403), Err(RiotApiError::Unauthorized)));
    assert!(matches!(classify_status(429), Err(RiotApiError::RateLimited)));
    assert!(matches!(classify_status(500), Err(RiotApiError::ServerError)));
    assert!(matches!(classify_status(503), Err(RiotApiError::ServerError)));
    match classify_status(418) {
        Err(RiotApiError::NetworkError(m)) => assert_eq!(m, "Unexpected status: 418"),
        _ => panic!("expected an unexpected status"),
    }
}

#[test]
fn error_messages() {
    assert_eq!(RiotApiError::NotFound.message(), "Summoner not found");
    assert_eq!(RiotApiError::RateLimited.message(), "Rate limited by Riot API");
    assert_eq!(RiotApiError::Unauthorized.message(), "Invalid API key");
    assert_eq!(RiotApiError::ServerError.message(), "Riot API server error");
    assert_eq!(RiotApiError::NetworkError("x".to_string()).message(), "Network error: x");
    assert_eq!(RiotApiError::ParseError("y".to_string()).message(), "Parse error: y");
}

#[test]
fn valid_region_set() {
    for code in ["na", "euw", "eune", "kr", "br", "lan", "las", "oce", "ru", "tr", "jp", "ph", "sg", "th", "tw", "vn"] {
        assert!(is_valid_region(code));
    }
    assert!(!is_valid_region("xx"));
    assert!(!is_valid_region("KR"));
    assert!(!is_valid_region(""));
}

#[test]
fn numerals_round_trip() {
    assert_eq!(decimal_text(0), "0");
    assert_eq!(decimal_text(1234567890123), "1234567890123");
    assert_eq!(decimal_text(u64::MAX), "18446744073709551615");
    assert_eq!(parse_decimal("18446744073709551615"), Some(u64::MAX));
    assert_eq!(parse_decimal("18446744073709551616"), None);
    assert_eq!(parse_decimal(""), None);
    assert_eq!(parse_decimal("12a"), None);
    assert_eq!(parse_decimal("-1"), None);
    assert_eq!(parse_decimal("007"), Some(7));
    for n in [0u64, 9, 10, 99, 100, 4242, u64::MAX] {
        assert_eq!(parse_decimal(&decimal_text(n)), Some(n));
    }
}

#[test]
fn rows_read_back() {
    let l = link_from_row("42", "a".to_string(), "b".to_string(), "na".to_string(), None).unwrap();
    assert_eq!(l.discord_user_id, 42);
    assert_eq!(l.summoner_name, "a");
    assert!(link_from_row("x42", "a".to_string(), "b".to_string(), "na".to_string(), None).is_none());
    let (g, c) = config_from_row("7", "?".to_string()).unwrap();
    assert_eq!(g, 7);
    assert_eq!(c.prefix, "?");
    assert!(config_from_row("", "?".to_string()).is_none());
}
