use thermostat_control::storage::{format_tokens, get_config_file_path, parse_tokens};
use thermostat_control::tokens::{fetch_tokens, get_tokens_with_code, refresh_tokens, GrantType, Tokens};

#[test]
fn config_file_path_joins_base_and_name() {
    assert_eq!(
        get_config_file_path("/home/op/.bulk_ecobee_thermostat_control", "api_key"),
        "/home/op/.bulk_ecobee_thermostat_control/api_key"
    );
}

#[test]
fn token_file_holds_access_then_refresh() {
    assert_eq!(format_tokens("AAA", "RRR"), "AAA\nRRR");
}

#[test]
fn token_file_round_trips() {
    let content = format_tokens("access-1", "refresh-2");
    let tokens = parse_tokens(content.as_str()).expect("two lines");
    assert_eq!(tokens.access_token, "access-1");
    assert_eq!(tokens.refresh_token, "refresh-2");
}

#[test]
fn token_text_without_line_break_is_rejected() {
    assert!(parse_tokens("lonely-token").is_none());
}

#[test]
fn freshly_authorized_store_parses_with_empty_refresh_slot() {
    let tokens = parse_tokens("the-code\n").expect("one break");
    assert_eq!(tokens.access_token, "the-code");
    assert_eq!(tokens.refresh_token, "");
}

#[test]
fn extra_lines_beyond_the_second_are_ignored() {
    let tokens = parse_tokens("a\nb\nc").expect("two breaks");
    assert_eq!(tokens.access_token, "a");
    assert_eq!(tokens.refresh_token, "b");
}

#[test]
fn refresh_request_sends_the_refresh_token() {
    let stored = Tokens {
        access_token: String::from("acc"),
        refresh_token: String::from("ref"),
    };
    let req = refresh_tokens(&stored);
    assert_eq!(req.grant_type, "refresh_token");
    assert_eq!(req.token_param, "refresh_token");
    assert_eq!(req.token_value, "ref");
}

#[test]
fn pin_exchange_sends_the_stored_code() {
    let stored = Tokens {
        access_token: String::from("the-code"),
        refresh_token: String::from(""),
    };
    let req = get_tokens_with_code(&stored);
    assert_eq!(req.grant_type, "ecobeePin");
    assert_eq!(req.token_param, "code");
    assert_eq!(req.token_value, "the-code");
}

#[test]
fn token_request_param_follows_grant_type() {
    let pin = fetch_tokens(String::from("x"), GrantType::EcobeePin);
    assert_eq!(pin.token_param, "code");
    let refresh = fetch_tokens(String::from("x"), GrantType::RefreshToken);
    assert_eq!(refresh.token_param, "refresh_token");
}
