use market_feed::decimal::Decimal;
use market_feed::decode::{Kline, KlineUpdate, StreamData};
use market_feed::kline_feed::{find_width, FeedPhase, KlineFeed};
use market_feed::latency::Trade;
use market_feed::session::{Command, Connection, ConnectionState, Event, Input, Step};
use market_feed::symbols::{Ticker, Timeframe};

fn candle_frame(symbol: &str, interval: &str) -> Vec<u8> {
    format!(
        r#"{{"stream":"x@kline_{}","data":{{"e":"kline","s":"{}","k":{{"t":60000,"i":"{}","o":"1","h":"3","l":"0.5","c":"2","v":"10","V":"4"}}}}}}"#,
        interval, symbol, interval
    )
    .into_bytes()
}

fn the_candle() -> Kline {
    Kline {
        time: 60_000,
        open: Decimal { units: 100_000_000 },
        high: Decimal { units: 300_000_000 },
        low: Decimal { units: 50_000_000 },
        close: Decimal { units: 200_000_000 },
        volume: Decimal { units: 1_000_000_000 },
        buy_volume: Decimal { units: 400_000_000 },
    }
}

fn streaming_feed() -> KlineFeed {
    let mut feed = KlineFeed::new(
        vec![(Ticker::BTCUSDT, Timeframe::M1), (Ticker::ETHUSDT, Timeframe::M15)],
        750,
    );
    assert_eq!(feed.handle(Input::Tick), Step { event: None, command: Command::Connect });
    assert_eq!(
        feed.handle(Input::Connected),
        Step { event: Some(Event::Connected(Connection)), command: Command::ReadFrame }
    );
    feed
}

#[test]
fn widths_are_found_by_their_name() {
    let subscriptions = vec![
        (Ticker::BTCUSDT, Timeframe::M1),
        (Ticker::ETHUSDT, Timeframe::M15),
        (Ticker::SOLUSDT, Timeframe::M1),
    ];
    assert_eq!(find_width(&subscriptions, "1m"), Some(Timeframe::M1));
    assert_eq!(find_width(&subscriptions, "15m"), Some(Timeframe::M15));
    assert_eq!(find_width(&subscriptions, "5m"), None);
    assert_eq!(find_width(&subscriptions, ""), None);
    assert_eq!(find_width(&vec![], "1m"), None);
}

#[test]
fn candle_feed_connects_and_backs_off() {
    let mut feed = KlineFeed::new(vec![(Ticker::BTCUSDT, Timeframe::M1)], 750);
    assert_eq!(feed.phase, FeedPhase::Disconnected);
    assert_eq!(feed.connection(), ConnectionState::Disconnected);
    assert_eq!(feed.handle(Input::Other), Step { event: None, command: Command::Wait(750) });
    assert_eq!(feed.handle(Input::Tick), Step { event: None, command: Command::Connect });
    assert_eq!(feed.phase, FeedPhase::Connecting);
    assert_eq!(feed.handle(Input::Tick), Step { event: None, command: Command::Connect });
    assert_eq!(
        feed.handle(Input::ConnectFailed),
        Step { event: Some(Event::Disconnected), command: Command::Wait(750) }
    );
    assert_eq!(feed.phase, FeedPhase::Disconnected);
    feed.handle(Input::Tick);
    assert_eq!(
        feed.handle(Input::Connected),
        Step { event: Some(Event::Connected(Connection)), command: Command::ReadFrame }
    );
    assert_eq!(feed.phase, FeedPhase::Streaming);
    assert_eq!(feed.connection(), ConnectionState::Connected);
    assert_eq!(feed.handle(Input::Other), Step { event: None, command: Command::ReadFrame });
    assert_eq!(
        feed.handle(Input::Closed),
        Step { event: Some(Event::Disconnected), command: Command::Wait(750) }
    );
    assert_eq!(feed.phase, FeedPhase::Disconnected);
    let mut feed = streaming_feed();
    assert_eq!(
        feed.handle(Input::ReadFailed),
        Step { event: Some(Event::Disconnected), command: Command::Wait(750) }
    );
}

#[test]
fn candles_of_a_subscribed_width_are_handed_on() {
    let mut feed = streaming_feed();
    assert_eq!(
        feed.handle(Input::Text(candle_frame("ETHUSDT", "15m"))),
        Step {
            event: Some(Event::KlineReceived(Ticker::ETHUSDT, the_candle(), Timeframe::M15)),
            command: Command::ReadFrame,
        }
    );
    assert_eq!(
        feed.handle(Input::Text(candle_frame("SOLUSDT", "1m"))),
        Step {
            event: Some(Event::KlineReceived(Ticker::SOLUSDT, the_candle(), Timeframe::M1)),
            command: Command::ReadFrame,
        }
    );
    assert_eq!(feed.phase, FeedPhase::Streaming);
}

#[test]
fn other_frames_are_dropped_by_a_candle_feed() {
    let mut feed = streaming_feed();
    let quiet = Step { event: None, command: Command::ReadFrame };
    assert_eq!(feed.handle(Input::Text(candle_frame("BTCUSDT", "5m"))), quiet);
    assert_eq!(feed.handle(Input::Text(b"garbage".to_vec())), quiet);
    assert_eq!(
        feed.handle(Input::Text(
            br#"{"stream":"btcusdt@trade","data":{"T":5,"p":"1","q":"1","m":true}}"#.to_vec()
        )),
        quiet
    );
    let trade = Trade {
        time: 1,
        price: Decimal { units: 1 },
        quantity: Decimal { units: 1 },
        is_sell: false,
    };
    assert_eq!(feed.on_message(StreamData::Trade(trade)), None);
    assert_eq!(
        feed.on_message(StreamData::Kline(KlineUpdate {
            ticker: Ticker::LTCUSDT,
            kline: the_candle(),
            interval: "15m".to_string(),
        })),
        Some(Event::KlineReceived(Ticker::LTCUSDT, the_candle(), Timeframe::M15))
    );
    assert_eq!(feed.on_frame(b"{}"), None);
}
