//! The names of the streams and the addresses that a subscription is served
//! from.

use vstd::prelude::*;
use vstd::string::StringExecFns;

use crate::session::Config;
use crate::symbols::{Ticker, Timeframe};
use crate::text::{number_string, number_text};

verus! {

/// The host that serves the streams.
pub open spec fn stream_host() -> Seq<char> {
    "fstream.binance.com"@
}

/// The name of the trade stream of an instrument.
pub open spec fn trade_stream(ticker: Ticker) -> Seq<char> {
    ticker.stream_symbol() + "@trade"@
}

/// The name of the depth stream of an instrument whose diffs are gathered
/// every `interval_millis` milliseconds.
pub open spec fn depth_stream(ticker: Ticker, interval_millis: u32) -> Seq<char> {
    ticker.stream_symbol() + "@depth@"@ + number_text(interval_millis as nat) + "ms"@
}

/// The streams of a subscription: its trade stream and its depth stream.
pub open spec fn market_streams_text(config: Config) -> Seq<char> {
    trade_stream(config.ticker) + "/"@ + depth_stream(config.ticker, config.interval_millis)
}

/// The name of the candle stream of an instrument at a width.
pub open spec fn kline_stream(subscription: (Ticker, Timeframe)) -> Seq<char> {
    let (ticker, timeframe) = subscription;
    ticker.stream_symbol() + "@kline_"@ + timeframe.interval()
}

/// The candle streams of a list of subscriptions, separated by `/`.
pub open spec fn kline_streams_text(subscriptions: Seq<(Ticker, Timeframe)>) -> Seq<char>
    decreases subscriptions.len(),
{
    if subscriptions.len() == 0 {
        Seq::empty()
    } else if subscriptions.len() == 1 {
        kline_stream(subscriptions[0])
    } else {
        kline_streams_text(subscriptions.drop_last()) + "/"@ + kline_stream(subscriptions.last())
    }
}

/// The address at which `host` accepts connections.
pub open spec fn address_text(host: Seq<char>) -> Seq<char> {
    host + ":443"@
}

/// The address of the combined stream of `streams` at `host`.
pub open spec fn stream_url_text(host: Seq<char>, streams: Seq<char>) -> Seq<char> {
    "wss://"@ + address_text(host) + "/stream?streams="@ + streams
}

/// The address from which the snapshot of a subscription is fetched.
pub open spec fn depth_url_text(config: Config) -> Seq<char> {
    "https://fapi.binance.com/fapi/v1/depth?symbol="@ + config.ticker.stream_symbol() + "&limit="@
        + number_text(config.depth_limit as nat)
}

/// The address from which the candles of an instrument at a width are
/// fetched.
pub open spec fn klines_url_text(ticker: Ticker, timeframe: Timeframe) -> Seq<char> {
    "https://fapi.binance.com/fapi/v1/klines?symbol="@ + ticker.stream_symbol() + "&interval="@
        + timeframe.interval() + "&limit=720"@
}

/// The host that serves the streams.
pub fn host() -> (name: &'static str)
    ensures
        name@ == stream_host(),
{
    "fstream.binance.com"
}

/// The streams of a subscription: its trade stream and its depth stream.
pub fn market_streams(config: &Config) -> (streams: String)
    ensures
        streams@ == market_streams_text(*config),
{
    let symbol = config.ticker.stream_name();
    let mut trades = String::from_str(symbol);
    trades.append("@trade");
    let mut depth = String::from_str(symbol);
    depth.append("@depth@");
    depth.append(number_string(config.interval_millis as u64).as_str());
    depth.append("ms");
    trades.append("/");
    trades.append(depth.as_str());
    trades
}

/// The candle streams of a list of subscriptions, separated by `/`.
pub fn kline_streams(subscriptions: &Vec<(Ticker, Timeframe)>) -> (streams: String)
    ensures
        streams@ == kline_streams_text(subscriptions@),
{
    let mut streams = String::new();
    let mut i: usize = 0;
    while i < subscriptions.len()
        invariant
            i <= subscriptions@.len(),
            streams@ == kline_streams_text(subscriptions@.subrange(0, i as int)),
        decreases subscriptions@.len() - i,
    {
        let (ticker, timeframe) = subscriptions[i];
        let mut name = String::from_str(ticker.stream_name());
        name.append("@kline_");
        name.append(timeframe.name());
        proof {
            let next = subscriptions@.subrange(0, i + 1);
            assert(next.drop_last() =~= subscriptions@.subrange(0, i as int));
            assert(next.last() == subscriptions@[i as int]);
            assert(next[0] == subscriptions@[0]);
        }
        if i > 0 {
            streams.append("/");
        } else {
            assert(streams@ + name@ =~= name@);
        }
        streams.append(name.as_str());
        i += 1;
    }
    assert(subscriptions@.subrange(0, i as int) =~= subscriptions@);
    streams
}

/// The address at which `host` accepts connections.
pub fn address(host: &str) -> (address: String)
    ensures
        address@ == address_text(host@),
{
    let mut address = String::from_str(host);
    address.append(":443");
    address
}

/// The address of the combined stream of `streams` at `host`.
pub fn stream_url(host: &str, streams: &str) -> (url: String)
    ensures
        url@ == stream_url_text(host@, streams@),
{
    let mut url = String::from_str("wss://");
    url.append(address(host).as_str());
    url.append("/stream?streams=");
    url.append(streams);
    url
}

/// The address from which the snapshot of a subscription is fetched.
pub fn depth_url(config: &Config) -> (url: String)
    ensures
        url@ == depth_url_text(*config),
{
    let mut url = String::from_str("https://fapi.binance.com/fapi/v1/depth?symbol=");
    url.append(config.ticker.stream_name());
    url.append("&limit=");
    url.append(number_string(config.depth_limit as u64).as_str());
    url
}

/// The address from which the candles of an instrument at a width are
/// fetched.
pub fn klines_url(ticker: Ticker, timeframe: Timeframe) -> (url: String)
    ensures
        url@ == klines_url_text(ticker, timeframe),
{
    let mut url = String::from_str("https://fapi.binance.com/fapi/v1/klines?symbol=");
    url.append(ticker.stream_name());
    url.append("&interval=");
    url.append(timeframe.name());
    url.append("&limit=720");
    url
}

} // verus!
