//! Reading what is fetched on demand: snapshots, candles and tick sizes.
//!
//! The exchange sends the numbers of these as text. Unlike the numbers of a
//! stream, they are read strictly: a snapshot with a level that cannot be
//! read is no snapshot.

use vstd::prelude::*;
use vstd::utf8::encode_utf8;

use crate::book::{FetchedDepth, FetchedDepthView, PriceLevel};
use crate::decimal::{parse_spec, Decimal};
use crate::decode::Kline;
use crate::symbols::Ticker;
use crate::text::str_equals;

verus! {

/// Why no snapshot could be had.
#[derive(Debug, Clone, Copy, PartialEq, Eq, Structural)]
pub enum FetchError {
    /// The transport failed.
    Network,
    /// What arrived is not a snapshot.
    Parse,
}

/// What a list of texts holds.
pub open spec fn texts_view(texts: Seq<String>) -> Seq<Seq<char>> {
    Seq::new(texts.len(), |i: int| texts[i]@)
}

/// What a list of lists of texts holds.
pub open spec fn rows_view(rows: Seq<Vec<String>>) -> Seq<Seq<Seq<char>>> {
    Seq::new(rows.len(), |i: int| texts_view(rows[i]@))
}

/// The level that a list of texts holds: its first text is the price, its
/// second the quantity, and both are numerals. Further texts do not count.
pub open spec fn strict_level(texts: Seq<Seq<char>>) -> Option<PriceLevel> {
    if texts.len() >= 2 && parse_spec(encode_utf8(texts[0])) is Some && parse_spec(
        encode_utf8(texts[1]),
    ) is Some {
        Some(
            PriceLevel {
                price: parse_spec(encode_utf8(texts[0]))->0,
                quantity: parse_spec(encode_utf8(texts[1]))->0,
            },
        )
    } else {
        None
    }
}

/// The levels that a list of lists of texts holds: every list has to hold a
/// level.
pub open spec fn strict_levels(rows: Seq<Seq<Seq<char>>>) -> Option<Seq<PriceLevel>> {
    if forall|i: int| 0 <= i < rows.len() ==> strict_level(#[trigger] rows[i]) is Some {
        Some(Seq::new(rows.len(), |i: int| strict_level(rows[i])->0))
    } else {
        None
    }
}

/// The snapshot that the given parts make up: the sequence number must not
/// be negative and both sides must hold levels throughout.
pub open spec fn snapshot_of(
    update_id: i64,
    time: i64,
    bids: Seq<Seq<Seq<char>>>,
    asks: Seq<Seq<Seq<char>>>,
) -> Option<FetchedDepthView> {
    if update_id >= 0 && strict_levels(bids) is Some && strict_levels(asks) is Some {
        Some(
            FetchedDepthView {
                update_id: update_id as u64,
                time,
                bids: strict_levels(bids)->0,
                asks: strict_levels(asks)->0,
            },
        )
    } else {
        None
    }
}

/// Reads a level from its texts.
pub fn read_level(texts: &Vec<String>) -> (level: Option<PriceLevel>)
    ensures
        level == strict_level(texts_view(texts@)),
{
    if texts.len() < 2 {
        return None;
    }
    proof {
        assert(texts_view(texts@)[0] == texts@[0]@);
        assert(texts_view(texts@)[1] == texts@[1]@);
    }
    match (Decimal::parse(texts[0].as_str()), Decimal::parse(texts[1].as_str())) {
        (Some(price), Some(quantity)) => Some(PriceLevel { price, quantity }),
        _ => None,
    }
}

/// Reads the levels of a side from their texts.
pub fn read_levels(rows: &Vec<Vec<String>>) -> (levels: Option<Vec<PriceLevel>>)
    ensures
        match levels {
            Some(levels) => strict_levels(rows_view(rows@)) == Some(levels@),
            None => strict_levels(rows_view(rows@)) is None,
        },
{
    let ghost all = rows_view(rows@);
    let mut levels: Vec<PriceLevel> = Vec::new();
    let mut i: usize = 0;
    while i < rows.len()
        invariant
            i <= rows@.len(),
            all == rows_view(rows@),
            levels@.len() == i,
            forall|j: int| 0 <= j < i ==> strict_level(#[trigger] all[j]) == Some(levels@[j]),
        decreases rows@.len() - i,
    {
        let level = read_level(&rows[i]);
        assert(all[i as int] == texts_view(rows@[i as int]@));
        match level {
            Some(level) => {
                levels.push(level);
            },
            None => {
                return None;
            },
        }
        i += 1;
    }
    proof {
        assert(levels@ =~= strict_levels(all)->0);
    }
    Some(levels)
}

impl FetchedDepth {
    /// Makes a snapshot of its parts as they arrive: the sequence number, the
    /// time, and the levels of both sides as texts.
    ///
    /// Fails with `Parse` where the sequence number is negative or a level
    /// cannot be read; see [`snapshot_of`].
    pub fn from_text(
        update_id: i64,
        time: i64,
        bids: &Vec<Vec<String>>,
        asks: &Vec<Vec<String>>,
    ) -> (result: Result<FetchedDepth, FetchError>)
        ensures
            match result {
                Ok(snapshot) => snapshot_of(update_id, time, rows_view(bids@), rows_view(asks@))
                    == Some(snapshot@),
                Err(error) => error == FetchError::Parse && snapshot_of(
                    update_id,
                    time,
                    rows_view(bids@),
                    rows_view(asks@),
                ) is None,
            },
    {
        if update_id < 0 {
            return Err(FetchError::Parse);
        }
        match (read_levels(bids), read_levels(asks)) {
            (Some(bids), Some(asks)) => Ok(
                FetchedDepth { update_id: update_id as u64, time, bids, asks },
            ),
            _ => Err(FetchError::Parse),
        }
    }
}

/// The decimal that a text holds, read strictly.
pub open spec fn strict_decimal(text: Seq<char>) -> Option<Decimal> {
    parse_spec(encode_utf8(text))
}

/// The candle that the given parts make up: every number has to be a
/// numeral.
pub open spec fn candle_of_text(
    time: u64,
    open: Seq<char>,
    high: Seq<char>,
    low: Seq<char>,
    close: Seq<char>,
    volume: Seq<char>,
    buy_volume: Seq<char>,
) -> Option<Kline> {
    if strict_decimal(open) is Some && strict_decimal(high) is Some && strict_decimal(low) is Some
        && strict_decimal(close) is Some && strict_decimal(volume) is Some && strict_decimal(
        buy_volume,
    ) is Some {
        Some(
            Kline {
                time,
                open: strict_decimal(open)->0,
                high: strict_decimal(high)->0,
                low: strict_decimal(low)->0,
                close: strict_decimal(close)->0,
                volume: strict_decimal(volume)->0,
                buy_volume: strict_decimal(buy_volume)->0,
            },
        )
    } else {
        None
    }
}

impl Kline {
    /// Makes a candle of its parts as they arrive when candles are fetched:
    /// the opening time and, as texts, the four prices, the volume and the
    /// volume bought.
    pub fn from_text(
        time: u64,
        open: &str,
        high: &str,
        low: &str,
        close: &str,
        volume: &str,
        buy_volume: &str,
    ) -> (kline: Option<Kline>)
        ensures
            kline == candle_of_text(time, open@, high@, low@, close@, volume@, buy_volume@),
    {
        match (
            Decimal::parse(open),
            Decimal::parse(high),
            Decimal::parse(low),
            Decimal::parse(close),
            Decimal::parse(volume),
            Decimal::parse(buy_volume),
        ) {
            (Some(open), Some(high), Some(low), Some(close), Some(volume), Some(buy_volume)) => {
                Some(Kline { time, open, high, low, close, volume, buy_volume })
            },
            _ => None,
        }
    }
}

/// A rule that the exchange sets for an instrument: its kind and, where it
/// is a rule on prices, the step between two prices.
#[derive(Debug, Clone, PartialEq, Eq)]
pub struct Filter {
    pub filter_type: String,
    pub tick_size: Option<String>,
}

/// What the exchange tells of an instrument: its symbol and its rules.
#[derive(Debug, Clone, PartialEq, Eq)]
pub struct SymbolInfo {
    pub symbol: String,
    pub filters: Vec<Filter>,
}

/// The step between two prices that the first rule on prices among
/// `filters` sets.
pub open spec fn price_step(filters: Seq<Filter>) -> Option<Decimal>
    decreases filters.len(),
{
    if filters.len() == 0 {
        None
    } else if filters[0].filter_type@ == "PRICE_FILTER"@ {
        match filters[0].tick_size {
            Some(text) => strict_decimal(text@),
            None => None,
        }
    } else {
        price_step(filters.drop_first())
    }
}

/// The step between two prices of the instrument `symbol`: that of the
/// first entry of `symbols` for it.
pub open spec fn tick_size_of(symbols: Seq<SymbolInfo>, symbol: Seq<char>) -> Option<Decimal>
    decreases symbols.len(),
{
    if symbols.len() == 0 {
        None
    } else if symbols[0].symbol@ == symbol {
        price_step(symbols[0].filters@)
    } else {
        tick_size_of(symbols.drop_first(), symbol)
    }
}

/// The step between two prices that the first rule on prices among
/// `filters` sets, if there is such a rule and its step can be read.
pub fn find_price_step(filters: &Vec<Filter>) -> (step: Option<Decimal>)
    ensures
        step == price_step(filters@),
{
    let mut i: usize = 0;
    assert(filters@.subrange(0, filters@.len() as int) =~= filters@);
    while i < filters.len()
        invariant
            i <= filters@.len(),
            price_step(filters@) == price_step(filters@.subrange(i as int, filters@.len() as int)),
        decreases filters@.len() - i,
    {
        let ghost rest = filters@.subrange(i as int, filters@.len() as int);
        proof {
            assert(rest[0] == filters@[i as int]);
            assert(rest.drop_first() =~= filters@.subrange(i + 1, filters@.len() as int));
        }
        if str_equals(filters[i].filter_type.as_str(), "PRICE_FILTER") {
            return match &filters[i].tick_size {
                Some(text) => Decimal::parse(text.as_str()),
                None => None,
            };
        }
        i += 1;
    }
    None
}

/// The step between two prices of `ticker` as `symbols` tell it.
pub fn tick_size(symbols: &Vec<SymbolInfo>, ticker: Ticker) -> (step: Option<Decimal>)
    ensures
        step == tick_size_of(symbols@, ticker.symbol()),
{
    let name = ticker.name();
    let mut i: usize = 0;
    assert(symbols@.subrange(0, symbols@.len() as int) =~= symbols@);
    while i < symbols.len()
        invariant
            i <= symbols@.len(),
            name@ == ticker.symbol(),
            tick_size_of(symbols@, name@) == tick_size_of(
                symbols@.subrange(i as int, symbols@.len() as int),
                name@,
            ),
        decreases symbols@.len() - i,
    {
        let ghost rest = symbols@.subrange(i as int, symbols@.len() as int);
        proof {
            assert(rest[0] == symbols@[i as int]);
            assert(rest.drop_first() =~= symbols@.subrange(i + 1, symbols@.len() as int));
        }
        if str_equals(symbols[i].symbol.as_str(), name) {
            return find_price_step(&symbols[i].filters);
        }
        i += 1;
    }
    None
}

} // verus!
