use market_feed::symbols::{Ticker, Timeframe};

#[test]
fn ticker_names() {
    assert_eq!(Ticker::BTCUSDT.name(), "BTCUSDT");
    assert_eq!(Ticker::ETHUSDT.name(), "ETHUSDT");
    assert_eq!(Ticker::SOLUSDT.name(), "SOLUSDT");
    assert_eq!(Ticker::LTCUSDT.name(), "LTCUSDT");
    assert_eq!(Ticker::BTCUSDT.stream_name(), "btcusdt");
    assert_eq!(Ticker::ETHUSDT.stream_name(), "ethusdt");
    assert_eq!(Ticker::SOLUSDT.stream_name(), "solusdt");
    assert_eq!(Ticker::LTCUSDT.stream_name(), "ltcusdt");
}

#[test]
fn ticker_from_symbol() {
    for ticker in Ticker::all() {
        assert_eq!(Ticker::from_symbol(ticker.name()), ticker);
    }
    assert_eq!(Ticker::from_symbol("DOGEUSDT"), Ticker::BTCUSDT);
    assert_eq!(Ticker::from_symbol("ethusdt"), Ticker::BTCUSDT);
    assert_eq!(Ticker::from_symbol(""), Ticker::BTCUSDT);
}

#[test]
fn all_tickers_and_timeframes() {
    assert_eq!(
        Ticker::all(),
        [Ticker::BTCUSDT, Ticker::ETHUSDT, Ticker::SOLUSDT, Ticker::LTCUSDT]
    );
    assert_eq!(
        Timeframe::all(),
        [Timeframe::M1, Timeframe::M3, Timeframe::M5, Timeframe::M15, Timeframe::M30]
    );
}

#[test]
fn timeframe_names_and_minutes() {
    assert_eq!(Timeframe::M1.name(), "1m");
    assert_eq!(Timeframe::M3.name(), "3m");
    assert_eq!(Timeframe::M5.name(), "5m");
    assert_eq!(Timeframe::M15.name(), "15m");
    assert_eq!(Timeframe::M30.name(), "30m");
    assert_eq!(Timeframe::M1.to_minutes(), 1);
    assert_eq!(Timeframe::M3.to_minutes(), 3);
    assert_eq!(Timeframe::M5.to_minutes(), 5);
    assert_eq!(Timeframe::M15.to_minutes(), 15);
    assert_eq!(Timeframe::M30.to_minutes(), 30);
    assert!(Timeframe::M15.is_named("15m"));
    assert!(!Timeframe::M15.is_named("5m"));
    assert!(!Timeframe::M1.is_named("1M"));
}
