use market_feed::signing::{
    cancel_order_query, cancel_order_request, limit_order_query, limit_order_request,
    listen_key_request, market_order_query, market_order_request, open_orders_query,
    open_orders_request, open_positions_request, sign_params, signature_text, signed_request,
    timestamp_query, user_stream_url,
};

#[test]
fn signature_is_the_keyed_hash_in_hexadecimal() {
    assert_eq!(
        sign_params("The quick brown fox jumps over the lazy dog", "key"),
        "f7bc83f430538424b13298e6aa6fb143ef4d59a14946175997479dbc2d1a3cd8"
    );
    assert_eq!(
        sign_params("", ""),
        "b613679a0814d9ec772f95d778c35fc5ff1697c493715653c6c712144292c5ad"
    );
    assert_ne!(sign_params("a", "key"), sign_params("b", "key"));
    assert_ne!(sign_params("a", "key"), sign_params("a", "yek"));
}

#[test]
fn hexadecimal_text_of_a_code() {
    assert_eq!(signature_text(&vec![]), "");
    assert_eq!(signature_text(&vec![0x00, 0x0f, 0x10, 0xab, 0xff]), "000f10abff");
}

#[test]
fn query_strings() {
    assert_eq!(
        limit_order_query("BUY", "0.01", "65000.5", 1_700_000_000_123),
        "symbol=BTCUSDT&side=BUY&type=LIMIT&timeInForce=GTC&quantity=0.01&price=65000.5&timestamp=1700000000123"
    );
    assert_eq!(
        market_order_query("SELL", "2", 1_700_000_000_123),
        "symbol=BTCUSDT&side=SELL&type=MARKET&quantity=2&timestamp=1700000000123"
    );
    assert_eq!(
        cancel_order_query("8886774", 1_700_000_000_123),
        "symbol=BTCUSDT&orderId=8886774&timestamp=1700000000123"
    );
    assert_eq!(
        open_orders_query("BTCUSDT", 1_700_000_000_123),
        "timestamp=1700000000123&symbol=BTCUSDT"
    );
    assert_eq!(timestamp_query(1_700_000_000_123), "timestamp=1700000000123");
    assert_eq!(timestamp_query(-5), "timestamp=-5");
}

#[test]
fn signed_request_appends_the_signature_of_the_query() {
    let params = "timestamp=1700000000123";
    let url = signed_request("https://testnet.binancefuture.com/fapi/v1/listenKey", params, "secret");
    assert_eq!(
        url,
        format!(
            "https://testnet.binancefuture.com/fapi/v1/listenKey?timestamp=1700000000123&signature={}",
            sign_params(params, "secret")
        )
    );
}

fn split_request(url: &str, endpoint: &str) -> (String, String) {
    let rest = url.strip_prefix(endpoint).unwrap().strip_prefix('?').unwrap();
    let (params, signature) = rest.split_once("&signature=").unwrap();
    (params.to_string(), signature.to_string())
}

#[test]
fn requests_are_signed_at_the_time_of_the_clock() {
    let order = "https://testnet.binancefuture.com/fapi/v1/order";
    let (params, signature) = split_request(&limit_order_request("BUY", "1", "2", "s"), order);
    assert!(params.starts_with(
        "symbol=BTCUSDT&side=BUY&type=LIMIT&timeInForce=GTC&quantity=1&price=2&timestamp="
    ));
    assert_eq!(signature, sign_params(&params, "s"));
    let (params, signature) = split_request(&market_order_request("SELL", "3", "s"), order);
    assert!(params.starts_with("symbol=BTCUSDT&side=SELL&type=MARKET&quantity=3&timestamp="));
    assert_eq!(signature, sign_params(&params, "s"));
    let (params, signature) = split_request(&cancel_order_request("77", "s"), order);
    assert!(params.starts_with("symbol=BTCUSDT&orderId=77&timestamp="));
    assert_eq!(signature, sign_params(&params, "s"));
    let (params, signature) = split_request(
        &open_orders_request("ETHUSDT", "s"),
        "https://testnet.binancefuture.com/fapi/v1/openOrders",
    );
    assert!(params.starts_with("timestamp="));
    assert!(params.ends_with("&symbol=ETHUSDT"));
    assert_eq!(signature, sign_params(&params, "s"));
    let (params, signature) = split_request(
        &open_positions_request("s"),
        "https://testnet.binancefuture.com/fapi/v2/positionRisk",
    );
    assert!(params.starts_with("timestamp="));
    assert_eq!(signature, sign_params(&params, "s"));
    let (params, signature) = split_request(
        &listen_key_request("s"),
        "https://testnet.binancefuture.com/fapi/v1/listenKey",
    );
    let millis: i64 = params.strip_prefix("timestamp=").unwrap().parse().unwrap();
    assert!(millis > 1_600_000_000_000);
    assert_eq!(signature, sign_params(&params, "s"));
}

#[test]
fn address_of_the_user_stream() {
    assert_eq!(user_stream_url("abc123"), "wss://stream.binancefuture.com/ws/abc123");
}
