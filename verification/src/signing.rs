//! Signed requests to the order API of the exchange.
//!
//! A request is a query string, which ends with the time at which it was
//! made, followed by its signature: the HMAC-SHA256 of the query string under
//! the secret key of the account, written in hexadecimal.

use vstd::prelude::*;
use vstd::string::{StringExecFns, StringSliceAdditionalSpecFns};
use vstd::utf8::encode_utf8;

use crate::clock::now_millis;
use crate::text::{hex_text, signed_string, signed_text};

verus! {

/// The HMAC-SHA256 of `message` under `key`.
pub uninterp spec fn hmac_sha256_of(key: Seq<u8>, message: Seq<u8>) -> Seq<u8>;

/// Computes the HMAC-SHA256 of `message` under `key` with
/// `hmac::Hmac<sha2::Sha256>`: `new_from_slice`, which accepts a key of any
/// length, then `update` and `finalize`. The contract only names the outcome.
#[verifier::external_body]
pub(crate) fn hmac_sha256(key: &[u8], message: &[u8]) -> (code: Vec<u8>)
    ensures
        code@ == hmac_sha256_of(key@, message@),
{
    let mut mac = <hmac::Hmac<sha2::Sha256> as hmac::Mac>::new_from_slice(key)
        .expect("HMAC can take key of any size");
    hmac::Mac::update(&mut mac, message);
    hmac::Mac::finalize(mac).into_bytes().to_vec()
}

/// Calls `hex::encode`, which writes every byte as two hexadecimal digits in
/// lower case.
#[verifier::external_body]
pub(crate) fn hex_encode(bytes: &[u8]) -> (text: String)
    ensures
        text@ == hex_text(bytes@),
{
    hex::encode(bytes)
}

/// The signature of `params` under `secret_key`.
pub open spec fn signature_of(params: Seq<u8>, secret_key: Seq<u8>) -> Seq<char> {
    hex_text(hmac_sha256_of(secret_key, params))
}

/// The hexadecimal text of a code; what is made of the outcome of the hash.
pub fn signature_text(code: &Vec<u8>) -> (text: String)
    ensures
        text@ == hex_text(code@),
{
    hex_encode(code.as_slice())
}

/// Signs a query string with the secret key of the account.
pub fn sign_params(params: &str, secret_key: &str) -> (signature: String)
    ensures
        signature@ == signature_of(params.spec_bytes(), secret_key.spec_bytes()),
{
    let code = hmac_sha256(secret_key.as_bytes(), params.as_bytes());
    signature_text(&code)
}

/// The address of a request: the endpoint, the query string and its
/// signature.
pub open spec fn request_text(endpoint: Seq<char>, params: Seq<char>, signature: Seq<char>)
    -> Seq<char> {
    endpoint + "?"@ + params + "&signature="@ + signature
}

/// The query string of a limit order.
pub open spec fn limit_order_params(
    side: Seq<char>,
    quantity: Seq<char>,
    price: Seq<char>,
    timestamp: i64,
) -> Seq<char> {
    "symbol=BTCUSDT&side="@ + side + "&type=LIMIT&timeInForce=GTC&quantity="@ + quantity
        + "&price="@ + price + "&timestamp="@ + signed_text(timestamp as int)
}

/// The query string of a market order.
pub open spec fn market_order_params(side: Seq<char>, quantity: Seq<char>, timestamp: i64) -> Seq<
    char,
> {
    "symbol=BTCUSDT&side="@ + side + "&type=MARKET&quantity="@ + quantity + "&timestamp="@
        + signed_text(timestamp as int)
}

/// The query string of the cancellation of an order.
pub open spec fn cancel_order_params(order_id: Seq<char>, timestamp: i64) -> Seq<char> {
    "symbol=BTCUSDT&orderId="@ + order_id + "&timestamp="@ + signed_text(timestamp as int)
}

/// The query string of a request for the open orders in `symbol`.
pub open spec fn open_orders_params(symbol: Seq<char>, timestamp: i64) -> Seq<char> {
    "timestamp="@ + signed_text(timestamp as int) + "&symbol="@ + symbol
}

/// The query string of a request that carries nothing but its time.
pub open spec fn timestamp_params(timestamp: i64) -> Seq<char> {
    "timestamp="@ + signed_text(timestamp as int)
}

/// The endpoint for placing and cancelling orders.
pub open spec fn order_endpoint() -> Seq<char> {
    "https://testnet.binancefuture.com/fapi/v1/order"@
}

/// The endpoint for the open orders.
pub open spec fn open_orders_endpoint() -> Seq<char> {
    "https://testnet.binancefuture.com/fapi/v1/openOrders"@
}

/// The endpoint for the open positions.
pub open spec fn positions_endpoint() -> Seq<char> {
    "https://testnet.binancefuture.com/fapi/v2/positionRisk"@
}

/// The endpoint for the key of the user data stream.
pub open spec fn listen_key_endpoint() -> Seq<char> {
    "https://testnet.binancefuture.com/fapi/v1/listenKey"@
}

/// The address of the user data stream under a key.
pub open spec fn user_stream_text(listen_key: Seq<char>) -> Seq<char> {
    "wss://stream.binancefuture.com/ws/"@ + listen_key
}

/// The address of the request with the given endpoint and query string,
/// signed with `secret_key`.
pub fn signed_request(endpoint: &str, params: &str, secret_key: &str) -> (url: String)
    ensures
        url@ == request_text(
            endpoint@,
            params@,
            signature_of(params.spec_bytes(), secret_key.spec_bytes()),
        ),
{
    let signature = sign_params(params, secret_key);
    let mut url = String::from_str(endpoint);
    url.append("?");
    url.append(params);
    url.append("&signature=");
    url.append(signature.as_str());
    url
}

/// The query string of a limit order made at `timestamp`.
pub fn limit_order_query(side: &str, quantity: &str, price: &str, timestamp: i64) -> (params:
    String)
    ensures
        params@ == limit_order_params(side@, quantity@, price@, timestamp),
{
    let mut params = String::from_str("symbol=BTCUSDT&side=");
    params.append(side);
    params.append("&type=LIMIT&timeInForce=GTC&quantity=");
    params.append(quantity);
    params.append("&price=");
    params.append(price);
    params.append("&timestamp=");
    params.append(signed_string(timestamp).as_str());
    params
}

/// The query string of a market order made at `timestamp`.
pub fn market_order_query(side: &str, quantity: &str, timestamp: i64) -> (params: String)
    ensures
        params@ == market_order_params(side@, quantity@, timestamp),
{
    let mut params = String::from_str("symbol=BTCUSDT&side=");
    params.append(side);
    params.append("&type=MARKET&quantity=");
    params.append(quantity);
    params.append("&timestamp=");
    params.append(signed_string(timestamp).as_str());
    params
}

/// The query string of the cancellation of an order, made at `timestamp`.
pub fn cancel_order_query(order_id: &str, timestamp: i64) -> (params: String)
    ensures
        params@ == cancel_order_params(order_id@, timestamp),
{
    let mut params = String::from_str("symbol=BTCUSDT&orderId=");
    params.append(order_id);
    params.append("&timestamp=");
    params.append(signed_string(timestamp).as_str());
    params
}

/// The query string of a request for the open orders in `symbol`, made at
/// `timestamp`.
pub fn open_orders_query(symbol: &str, timestamp: i64) -> (params: String)
    ensures
        params@ == open_orders_params(symbol@, timestamp),
{
    let mut params = String::from_str("timestamp=");
    params.append(signed_string(timestamp).as_str());
    params.append("&symbol=");
    params.append(symbol);
    params
}

/// The query string of a request that carries nothing but its time.
pub fn timestamp_query(timestamp: i64) -> (params: String)
    ensures
        params@ == timestamp_params(timestamp),
{
    let mut params = String::from_str("timestamp=");
    params.append(signed_string(timestamp).as_str());
    params
}

/// The address of the user data stream under a key.
pub fn user_stream_url(listen_key: &str) -> (url: String)
    ensures
        url@ == user_stream_text(listen_key@),
{
    let mut url = String::from_str("wss://stream.binancefuture.com/ws/");
    url.append(listen_key);
    url
}

/// What a signed request is: its endpoint, its query string and the
/// signature of the query string.
pub open spec fn is_signed(url: Seq<char>, endpoint: Seq<char>, params: Seq<char>, secret_key: Seq<
    u8,
>) -> bool {
    url == request_text(
        endpoint,
        params,
        signature_of(encode_utf8(params), secret_key),
    )
}

/// The signed request for a limit order, made at the time that the system
/// clock shows.
pub fn limit_order_request(side: &str, quantity: &str, price: &str, secret_key: &str) -> (url:
    String)
    ensures
        exists|timestamp: i64|
            is_signed(
                url@,
                order_endpoint(),
                #[trigger] limit_order_params(side@, quantity@, price@, timestamp),
                secret_key.spec_bytes(),
            ),
{
    let timestamp = now_millis();
    let params = limit_order_query(side, quantity, price, timestamp);
    let url = signed_request(
        "https://testnet.binancefuture.com/fapi/v1/order",
        params.as_str(),
        secret_key,
    );
    assert(is_signed(
        url@,
        order_endpoint(),
        limit_order_params(side@, quantity@, price@, timestamp),
        secret_key.spec_bytes(),
    ));
    url
}

/// The signed request for a market order, made at the time that the system
/// clock shows.
pub fn market_order_request(side: &str, quantity: &str, secret_key: &str) -> (url: String)
    ensures
        exists|timestamp: i64|
            is_signed(
                url@,
                order_endpoint(),
                #[trigger] market_order_params(side@, quantity@, timestamp),
                secret_key.spec_bytes(),
            ),
{
    let timestamp = now_millis();
    let params = market_order_query(side, quantity, timestamp);
    let url = signed_request(
        "https://testnet.binancefuture.com/fapi/v1/order",
        params.as_str(),
        secret_key,
    );
    assert(is_signed(
        url@,
        order_endpoint(),
        market_order_params(side@, quantity@, timestamp),
        secret_key.spec_bytes(),
    ));
    url
}

/// The signed request for the cancellation of an order, made at the time
/// that the system clock shows.
pub fn cancel_order_request(order_id: &str, secret_key: &str) -> (url: String)
    ensures
        exists|timestamp: i64|
            is_signed(
                url@,
                order_endpoint(),
                #[trigger] cancel_order_params(order_id@, timestamp),
                secret_key.spec_bytes(),
            ),
{
    let timestamp = now_millis();
    let params = cancel_order_query(order_id, timestamp);
    let url = signed_request(
        "https://testnet.binancefuture.com/fapi/v1/order",
        params.as_str(),
        secret_key,
    );
    assert(is_signed(
        url@,
        order_endpoint(),
        cancel_order_params(order_id@, timestamp),
        secret_key.spec_bytes(),
    ));
    url
}

/// The signed request for the open orders in `symbol`, made at the time that
/// the system clock shows.
pub fn open_orders_request(symbol: &str, secret_key: &str) -> (url: String)
    ensures
        exists|timestamp: i64|
            is_signed(
                url@,
                open_orders_endpoint(),
                #[trigger] open_orders_params(symbol@, timestamp),
                secret_key.spec_bytes(),
            ),
{
    let timestamp = now_millis();
    let params = open_orders_query(symbol, timestamp);
    let url = signed_request(
        "https://testnet.binancefuture.com/fapi/v1/openOrders",
        params.as_str(),
        secret_key,
    );
    assert(is_signed(
        url@,
        open_orders_endpoint(),
        open_orders_params(symbol@, timestamp),
        secret_key.spec_bytes(),
    ));
    url
}

/// The signed request for the open positions, made at the time that the
/// system clock shows.
pub fn open_positions_request(secret_key: &str) -> (url: String)
    ensures
        exists|timestamp: i64|
            is_signed(
                url@,
                positions_endpoint(),
                #[trigger] timestamp_params(timestamp),
                secret_key.spec_bytes(),
            ),
{
    let timestamp = now_millis();
    let params = timestamp_query(timestamp);
    let url = signed_request(
        "https://testnet.binancefuture.com/fapi/v2/positionRisk",
        params.as_str(),
        secret_key,
    );
    assert(is_signed(
        url@,
        positions_endpoint(),
        timestamp_params(timestamp),
        secret_key.spec_bytes(),
    ));
    url
}

/// The signed request for the key of the user data stream, made at the time
/// that the system clock shows.
pub fn listen_key_request(secret_key: &str) -> (url: String)
    ensures
        exists|timestamp: i64|
            is_signed(
                url@,
                listen_key_endpoint(),
                #[trigger] timestamp_params(timestamp),
                secret_key.spec_bytes(),
            ),
{
    let timestamp = now_millis();
    let params = timestamp_query(timestamp);
    let url = signed_request(
        "https://testnet.binancefuture.com/fapi/v1/listenKey",
        params.as_str(),
        secret_key,
    );
    assert(is_signed(
        url@,
        listen_key_endpoint(),
        timestamp_params(timestamp),
        secret_key.spec_bytes(),
    ));
    url
}

} // verus!
