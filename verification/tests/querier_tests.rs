use basset_vault::bignum::{Decimal256, Uint256};
use basset_vault::error::ContractError;
use basset_vault::querier::{
    borrower_key, query_price, query_token_balance, token_balance_key, token_info_key,
    AnchorMarketMsg, OracleQueryMsg, PriceResponse, TimeConstraints, Timestamp,
};

fn price(base: u64, quote: u64) -> PriceResponse {
    PriceResponse {
        rate: Decimal256::from_atomics(Uint256::from_u128(1_500_000_000_000_000_000)),
        last_updated_base: base,
        last_updated_quote: quote,
    }
}

fn constraints(block_millis: u64, frame: u64) -> Option<TimeConstraints> {
    Some(TimeConstraints {
        block_time: Timestamp { nanos: block_millis * 1_000_000 + 999_999 },
        valid_timeframe_millis: frame,
    })
}

#[test]
fn concat_joins_bytes() {
    assert_eq!(basset_vault::querier::concat(b"ab", b"cde"), b"abcde".to_vec());
    assert_eq!(basset_vault::querier::concat(b"", b"x"), b"x".to_vec());
    assert_eq!(basset_vault::querier::concat(b"x", b""), b"x".to_vec());
}

#[test]
fn raw_keys_are_length_prefixed() {
    let mut expected = vec![0u8, 7];
    expected.extend_from_slice(b"balance");
    expected.extend_from_slice(b"addr0001");
    assert_eq!(token_balance_key(b"addr0001"), expected);

    let mut expected = vec![0u8, 8];
    expected.extend_from_slice(b"borrower");
    expected.extend_from_slice(b"addr0001");
    assert_eq!(borrower_key(b"addr0001"), expected);

    let mut expected = vec![0u8, 10];
    expected.extend_from_slice(b"token_info");
    assert_eq!(token_info_key(), expected);
}

#[test]
fn token_balance_falls_back_to_zero() {
    assert_eq!(query_token_balance(Some(42)), 42);
    assert_eq!(query_token_balance(None), 0);
}

#[test]
fn price_without_constraints_is_accepted() {
    assert_eq!(query_price(price(0, 0), None), Ok(price(0, 0)));
}

#[test]
fn fresh_price_is_accepted() {
    // valid update time: 10_000 - 1_000 = 9_000
    assert_eq!(query_price(price(9_000, 9_500), constraints(10_000, 1_000)), Ok(price(9_000, 9_500)));
    assert_eq!(query_price(price(12_000, 9_000), constraints(10_000, 1_000)), Ok(price(12_000, 9_000)));
}

#[test]
fn stale_price_is_refused() {
    assert_eq!(
        query_price(price(8_999, 9_500), constraints(10_000, 1_000)),
        Err(ContractError::PriceTooOld)
    );
    assert_eq!(
        query_price(price(9_500, 8_999), constraints(10_000, 1_000)),
        Err(ContractError::PriceTooOld)
    );
}

#[test]
fn oracle_and_market_messages() {
    let msg = OracleQueryMsg::Price { base: "uluna".to_string(), quote: "uusd".to_string() };
    assert_ne!(msg, OracleQueryMsg::Config {});
    assert_ne!(AnchorMarketMsg::DepositStable {}, AnchorMarketMsg::ClaimRewards { to: None });
}

#[test]
fn keys_of_different_namespaces_never_collide() {
    let account = b"addr0001";
    assert_ne!(token_balance_key(account), borrower_key(account));
    assert_ne!(token_balance_key(b""), token_info_key());
    assert_ne!(borrower_key(b""), token_info_key());
    assert_ne!(token_balance_key(b"a"), token_balance_key(b"b"));
}

#[test]
fn wider_time_frame_accepts_more() {
    let p = price(9_500, 9_600);
    assert_eq!(query_price(p, constraints(10_000, 100)), Err(ContractError::PriceTooOld));
    assert_eq!(query_price(p, constraints(10_000, 500)), Ok(p));
    assert_eq!(query_price(p, constraints(10_000, 5_000)), Ok(p));
}
