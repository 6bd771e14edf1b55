//! The instruments and candle widths that the feed can be asked for.

use vstd::prelude::*;

use crate::text::str_equals;

verus! {

/// An instrument of the exchange.
#[derive(Debug, Clone, Copy, PartialEq, Eq, Structural, Hash)]
pub enum Ticker {
    BTCUSDT,
    ETHUSDT,
    SOLUSDT,
    LTCUSDT,
}

/// The width of a candle.
#[derive(Debug, Clone, Copy, PartialEq, Eq, Structural, Hash)]
pub enum Timeframe {
    M1,
    M3,
    M5,
    M15,
    M30,
}

impl Ticker {
    /// The symbol of the instrument as the exchange writes it.
    pub open spec fn symbol(self) -> Seq<char> {
        match self {
            Ticker::BTCUSDT => "BTCUSDT"@,
            Ticker::ETHUSDT => "ETHUSDT"@,
            Ticker::SOLUSDT => "SOLUSDT"@,
            Ticker::LTCUSDT => "LTCUSDT"@,
        }
    }

    /// The symbol of the instrument in lower case, as stream names carry it.
    pub open spec fn stream_symbol(self) -> Seq<char> {
        match self {
            Ticker::BTCUSDT => "btcusdt"@,
            Ticker::ETHUSDT => "ethusdt"@,
            Ticker::SOLUSDT => "solusdt"@,
            Ticker::LTCUSDT => "ltcusdt"@,
        }
    }

    /// The instrument that a symbol names. A symbol that names none of the
    /// known instruments is read as `BTCUSDT`.
    pub open spec fn of_symbol(symbol: Seq<char>) -> Ticker {
        if symbol == "ETHUSDT"@ {
            Ticker::ETHUSDT
        } else if symbol == "SOLUSDT"@ {
            Ticker::SOLUSDT
        } else if symbol == "LTCUSDT"@ {
            Ticker::LTCUSDT
        } else {
            Ticker::BTCUSDT
        }
    }

    /// Every instrument, in the order of declaration.
    pub fn all() -> (tickers: [Ticker; 4])
        ensures
            tickers@ == seq![Ticker::BTCUSDT, Ticker::ETHUSDT, Ticker::SOLUSDT, Ticker::LTCUSDT],
    {
        let tickers = [Ticker::BTCUSDT, Ticker::ETHUSDT, Ticker::SOLUSDT, Ticker::LTCUSDT];
        assert(tickers@ =~= seq![
            Ticker::BTCUSDT,
            Ticker::ETHUSDT,
            Ticker::SOLUSDT,
            Ticker::LTCUSDT,
        ]);
        tickers
    }

    /// The symbol of the instrument as the exchange writes it.
    pub fn name(&self) -> (name: &'static str)
        ensures
            name@ == self.symbol(),
    {
        match self {
            Ticker::BTCUSDT => "BTCUSDT",
            Ticker::ETHUSDT => "ETHUSDT",
            Ticker::SOLUSDT => "SOLUSDT",
            Ticker::LTCUSDT => "LTCUSDT",
        }
    }

    /// The symbol of the instrument in lower case, as stream names carry it.
    pub fn stream_name(&self) -> (name: &'static str)
        ensures
            name@ == self.stream_symbol(),
    {
        match self {
            Ticker::BTCUSDT => "btcusdt",
            Ticker::ETHUSDT => "ethusdt",
            Ticker::SOLUSDT => "solusdt",
            Ticker::LTCUSDT => "ltcusdt",
        }
    }

    /// The instrument that `symbol` names; `BTCUSDT` where it names none.
    pub fn from_symbol(symbol: &str) -> (ticker: Ticker)
        ensures
            ticker == Ticker::of_symbol(symbol@),
    {
        if str_equals(symbol, "ETHUSDT") {
            Ticker::ETHUSDT
        } else if str_equals(symbol, "SOLUSDT") {
            Ticker::SOLUSDT
        } else if str_equals(symbol, "LTCUSDT") {
            Ticker::LTCUSDT
        } else {
            Ticker::BTCUSDT
        }
    }
}

impl Timeframe {
    /// The name of the width as the exchange writes it.
    pub open spec fn interval(self) -> Seq<char> {
        match self {
            Timeframe::M1 => "1m"@,
            Timeframe::M3 => "3m"@,
            Timeframe::M5 => "5m"@,
            Timeframe::M15 => "15m"@,
            Timeframe::M30 => "30m"@,
        }
    }

    /// The width in minutes.
    pub open spec fn minutes(self) -> u16 {
        match self {
            Timeframe::M1 => 1,
            Timeframe::M3 => 3,
            Timeframe::M5 => 5,
            Timeframe::M15 => 15,
            Timeframe::M30 => 30,
        }
    }

    /// Every width, from the narrowest up.
    pub fn all() -> (timeframes: [Timeframe; 5])
        ensures
            timeframes@ == seq![
                Timeframe::M1,
                Timeframe::M3,
                Timeframe::M5,
                Timeframe::M15,
                Timeframe::M30,
            ],
    {
        let timeframes = [
            Timeframe::M1,
            Timeframe::M3,
            Timeframe::M5,
            Timeframe::M15,
            Timeframe::M30,
        ];
        assert(timeframes@ =~= seq![
            Timeframe::M1,
            Timeframe::M3,
            Timeframe::M5,
            Timeframe::M15,
            Timeframe::M30,
        ]);
        timeframes
    }

    /// The name of the width as the exchange writes it.
    pub fn name(&self) -> (name: &'static str)
        ensures
            name@ == self.interval(),
    {
        match self {
            Timeframe::M1 => "1m",
            Timeframe::M3 => "3m",
            Timeframe::M5 => "5m",
            Timeframe::M15 => "15m",
            Timeframe::M30 => "30m",
        }
    }

    /// The width in minutes.
    pub fn to_minutes(&self) -> (minutes: u16)
        ensures
            minutes == self.minutes(),
    {
        match self {
            Timeframe::M1 => 1,
            Timeframe::M3 => 3,
            Timeframe::M5 => 5,
            Timeframe::M15 => 15,
            Timeframe::M30 => 30,
        }
    }

    /// Whether `interval` is the name of this width.
    pub fn is_named(&self, interval: &str) -> (result: bool)
        ensures
            result == (interval@ == self.interval()),
    {
        str_equals(interval, self.name())
    }
}

} // verus!
