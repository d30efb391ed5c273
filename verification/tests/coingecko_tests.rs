use rusty::coingecko::{check_api_error, coin_api_path, from_api_format, to_api_format, CoingeckoError};

#[test]
fn test_to_api_format_simple() {
    assert_eq!(to_api_format("bitcoin"), "bitcoin");
}

#[test]
fn test_to_api_format_with_space() {
    assert_eq!(to_api_format("ethereum classic"), "ethereum-classic");
}

#[test]
fn test_to_api_format_with_uppercase() {
    assert_eq!(to_api_format("Bitcoin Cash"), "bitcoin-cash");
}

#[test]
fn test_to_api_format_with_multiple_spaces() {
    assert_eq!(to_api_format("  usd coin  "), "usd-coin");
}

#[test]
fn test_to_api_format_empty() {
    assert_eq!(to_api_format(""), "");
}

#[test]
fn test_to_api_format_single_space() {
    assert_eq!(to_api_format(" "), "");
}

#[test]
fn from_api_format_capitalizes_each_word() {
    assert_eq!(from_api_format("bitcoin-cash"), "Bitcoin Cash");
    assert_eq!(from_api_format("usd-coin"), "Usd Coin");
    assert_eq!(from_api_format(""), "");
}

#[test]
fn from_api_format_undoes_to_api_format_on_capitalized_names() {
    assert_eq!(from_api_format(&to_api_format("Ethereum Classic")), "Ethereum Classic");
}

#[test]
fn coin_path_uses_api_format() {
    assert_eq!(coin_api_path("Bitcoin Cash"), "coins/bitcoin-cash");
}

#[test]
fn api_error_field_is_a_bad_request() {
    match check_api_error(Some("Could not find coin with the given id".to_string())) {
        Err(CoingeckoError::BadRequest(m)) => assert_eq!(m, "Could not find coin with the given id"),
        _ => panic!("expected a bad request"),
    }
    assert!(check_api_error(None).is_ok());
}

#[test]
fn test_send_request_success() {
    let url = rusty::coingecko::api_request_url("http://127.0.0.1:8080", "coins/bitcoin");
    assert_eq!(url, Ok("http://127.0.0.1:8080/coins/bitcoin".to_string()));
    assert!(check_api_error(None).is_ok());
}

#[test]
fn test_send_request_api_error() {
    let error_message = "Could not find coin with the given id";
    match check_api_error(Some(error_message.to_string())) {
        Err(CoingeckoError::BadRequest(msg)) => assert_eq!(msg, error_message),
        e => panic!("Expected BadRequest error, got {:?}", e),
    }
}

#[test]
fn to_api_format_reads_back_an_api_coin_id() {
    for id in ["bitcoin-cash", "usd-coin", "0x", "wrapped-bitcoin-2"] {
        assert_eq!(to_api_format(&from_api_format(id)), id);
    }
}

#[test]
fn to_api_format_keeps_non_ascii_characters_whole() {
    assert_eq!(to_api_format("Café"), "café");
    assert_eq!(to_api_format("  Bitcoin \t Cash "), "bitcoin-cash");
    assert_eq!(coin_api_path("Café Coin"), "coins/café-coin");
}
