//! The message decoder: from the bytes of a frame to a trade, a depth diff or
//! a candle.
//!
//! A frame is a JSON object with a member `stream`, which names the kind of
//! message, and a member `data`, which holds the message. Numbers that the
//! exchange sends as text are read leniently: text that is no numeral reads as
//! zero, so a zero in a decoded message may stand for text that could not be
//! read.

use vstd::prelude::*;
use vstd::string::StringSliceAdditionalSpecFns;
use vstd::utf8::encode_utf8;

use crate::book::{DepthDiff, DepthDiffView, PriceLevel};
use crate::decimal::{parse_or_zero_spec, Decimal};
use crate::json::{
    array_elements, elements_view, members_view, object_members, read_array, read_object,
    read_unsigned, unsigned_value, JsonMember, JsonMemberView, JsonValue, JsonValueView,
};
use crate::latency::Trade;
use crate::symbols::Ticker;
use crate::text::{bytes_equal, continues_with, find, find_byte, has_prefix, str_equals};

verus! {

/// The byte `@` that separates the parts of a stream name.
pub const AT: u8 = 64;

/// The kind of message that a stream carries.
#[derive(Debug, Clone, Copy, PartialEq, Eq, Structural)]
pub enum StreamName {
    Depth,
    Trade,
    Kline,
    Unknown,
}

/// Why a frame could not be decoded.
#[derive(Debug, Clone, Copy, PartialEq, Eq, Structural)]
pub enum DecodeError {
    /// The frame is not a JSON object, or breaks off before its message.
    Stream,
    /// The message of a trade stream is not a trade.
    Trade,
    /// The message of a depth stream is not a depth diff.
    Depth,
    /// The message of a candle stream is not a candle.
    Kline,
    /// The frame holds no message of a known kind.
    UnknownData,
}

/// A candle.
#[derive(Debug, Clone, Copy, PartialEq, Eq, Structural)]
pub struct Kline {
    pub time: u64,
    pub open: Decimal,
    pub high: Decimal,
    pub low: Decimal,
    pub close: Decimal,
    pub volume: Decimal,
    pub buy_volume: Decimal,
}

/// A candle as a frame carries it: with its instrument and the name of its
/// width.
#[derive(Debug, Clone, PartialEq, Eq)]
pub struct KlineUpdate {
    pub ticker: Ticker,
    pub kline: Kline,
    pub interval: String,
}

/// What a [`KlineUpdate`] holds.
pub struct KlineUpdateView {
    pub ticker: Ticker,
    pub kline: Kline,
    pub interval: Seq<char>,
}

impl View for KlineUpdate {
    type V = KlineUpdateView;

    open spec fn view(&self) -> KlineUpdateView {
        KlineUpdateView { ticker: self.ticker, kline: self.kline, interval: self.interval@ }
    }
}

/// A decoded message.
#[derive(Debug, Clone, PartialEq, Eq)]
pub enum StreamData {
    Trade(Trade),
    Depth(DepthDiff),
    Kline(KlineUpdate),
}

/// What a [`StreamData`] holds.
pub enum StreamDataView {
    Trade(Trade),
    Depth(DepthDiffView),
    Kline(KlineUpdateView),
}

impl View for StreamData {
    type V = StreamDataView;

    open spec fn view(&self) -> StreamDataView {
        match self {
            StreamData::Trade(trade) => StreamDataView::Trade(*trade),
            StreamData::Depth(diff) => StreamDataView::Depth(diff@),
            StreamData::Kline(update) => StreamDataView::Kline(update@),
        }
    }
}

/// The kind that a stream name stands for, by its bytes: the part that
/// follows the first `@` decides, by its first three letters.
pub open spec fn stream_name_of(name: Seq<u8>) -> StreamName {
    let at = find_byte(name, AT);
    if at >= name.len() {
        StreamName::Unknown
    } else {
        let rest = name.subrange(at + 1, name.len() as int);
        if has_prefix(rest, "dep".spec_bytes()) {
            StreamName::Depth
        } else if has_prefix(rest, "tra".spec_bytes()) {
            StreamName::Trade
        } else if has_prefix(rest, "kli".spec_bytes()) {
            StreamName::Kline
        } else {
            StreamName::Unknown
        }
    }
}

impl StreamName {
    /// The kind of message that the stream named `stream_type` carries.
    pub fn from_stream_type(stream_type: &str) -> (name: StreamName)
        ensures
            name == stream_name_of(stream_type.spec_bytes()),
    {
        let bytes = stream_type.as_bytes();
        let at = find(bytes, AT);
        if at >= bytes.len() {
            StreamName::Unknown
        } else if continues_with(bytes, at + 1, "dep".as_bytes()) {
            StreamName::Depth
        } else if continues_with(bytes, at + 1, "tra".as_bytes()) {
            StreamName::Trade
        } else if continues_with(bytes, at + 1, "kli".as_bytes()) {
            StreamName::Kline
        } else {
            StreamName::Unknown
        }
    }
}

impl DecodeError {
    /// The text of the error.
    pub open spec fn text(self) -> Seq<char> {
        match self {
            DecodeError::Stream => "Error parsing stream"@,
            DecodeError::Trade => "Error parsing trade"@,
            DecodeError::Depth => "Error parsing depth"@,
            DecodeError::Kline => "Error parsing kline"@,
            DecodeError::UnknownData => "Unknown data"@,
        }
    }

    /// The text of the error.
    pub fn message(&self) -> (message: &'static str)
        ensures
            message@ == self.text(),
    {
        match self {
            DecodeError::Stream => "Error parsing stream",
            DecodeError::Trade => "Error parsing trade",
            DecodeError::Depth => "Error parsing depth",
            DecodeError::Kline => "Error parsing kline",
            DecodeError::UnknownData => "Unknown data",
        }
    }
}

/// Whether the parser read `members` to the end without an error.
pub open spec fn complete(members: Seq<Option<JsonMemberView>>) -> bool {
    forall|i: int| 0 <= i < members.len() ==> (#[trigger] members[i]) is Some
}

/// The value of the first member of `members` under `key`.
pub open spec fn field(members: Seq<Option<JsonMemberView>>, key: Seq<char>) -> Option<
    JsonValueView,
>
    decreases members.len(),
{
    if members.len() == 0 {
        None
    } else if members[0] is Some && members[0]->0.key == key {
        Some(members[0]->0.value)
    } else {
        field(members.drop_first(), key)
    }
}

/// What an optional value holds.
pub open spec fn seen(value: Option<&JsonValue>) -> Option<JsonValueView> {
    match value {
        Some(value) => Some(value@),
        None => None,
    }
}

/// The characters of a value that is a string.
pub open spec fn text_of(value: Option<JsonValueView>) -> Option<Seq<char>> {
    match value {
        Some(value) => value.text,
        None => None,
    }
}

/// The decimal that a string value holds, read leniently.
pub open spec fn decimal_of(value: Option<JsonValueView>) -> Option<Decimal> {
    match text_of(value) {
        Some(text) => Some(parse_or_zero_spec(encode_utf8(text))),
        None => None,
    }
}

/// The unsigned number that the parser reads from a value.
pub open spec fn unsigned_of(value: Option<JsonValueView>) -> Option<u64> {
    match value {
        Some(value) => unsigned_value(value.raw),
        None => None,
    }
}

/// A count of milliseconds as a time; counts beyond the range of a time are
/// not times.
pub open spec fn time_of(millis: Option<u64>) -> Option<i64> {
    match millis {
        Some(millis) => if millis <= i64::MAX {
            Some(millis as i64)
        } else {
            None
        },
        None => None,
    }
}

/// The truth value that a value holds: `true` or `false`, written so.
pub open spec fn flag_of(value: Option<JsonValueView>) -> Option<bool> {
    match value {
        Some(value) => if value.raw == "true".spec_bytes() {
            Some(true)
        } else if value.raw == "false".spec_bytes() {
            Some(false)
        } else {
            None
        },
        None => None,
    }
}

/// Whether the parser read every member without an error.
pub fn is_complete(members: &Vec<Option<JsonMember>>) -> (result: bool)
    ensures
        result == complete(members_view(members@)),
{
    let mut i: usize = 0;
    while i < members.len()
        invariant
            i <= members@.len(),
            forall|j: int| 0 <= j < i ==> (#[trigger] members_view(members@)[j]) is Some,
        decreases members@.len() - i,
    {
        if members[i].is_none() {
            assert(members_view(members@)[i as int] is None);
            return false;
        }
        i += 1;
    }
    true
}

/// The value of the first member under `key`, if there is one.
pub fn find_field<'a>(members: &'a Vec<Option<JsonMember>>, key: &str) -> (value: Option<
    &'a JsonValue,
>)
    ensures
        seen(value) == field(members_view(members@), key@),
{
    let ghost all = members_view(members@);
    let mut i: usize = 0;
    assert(all.subrange(0, all.len() as int) =~= all);
    while i < members.len()
        invariant
            i <= members@.len(),
            all == members_view(members@),
            field(all, key@) == field(all.subrange(i as int, all.len() as int), key@),
        decreases members@.len() - i,
    {
        let ghost rest = all.subrange(i as int, all.len() as int);
        proof {
            assert(rest[0] == all[i as int]);
            assert(rest.drop_first() =~= all.subrange(i + 1, all.len() as int));
        }
        match &members[i] {
            Some(member) => {
                if str_equals(member.key.as_str(), key) {
                    return Some(&member.value);
                }
            },
            None => {},
        }
        i += 1;
    }
    None
}

/// The characters of a value that is a string.
pub fn text<'a>(value: Option<&'a JsonValue>) -> (result: Option<&'a String>)
    ensures
        match result {
            Some(text) => text_of(seen(value)) == Some(text@),
            None => text_of(seen(value)) is None,
        },
{
    match value {
        Some(value) => match &value.text {
            Some(text) => Some(text),
            None => None,
        },
        None => None,
    }
}

/// The decimal that a string value holds, read leniently.
pub fn decimal(value: Option<&JsonValue>) -> (result: Option<Decimal>)
    ensures
        result == decimal_of(seen(value)),
{
    match text(value) {
        Some(text) => Some(Decimal::parse_or_zero(text.as_str())),
        None => None,
    }
}

/// The unsigned number that the parser reads from a value.
pub fn unsigned(value: Option<&JsonValue>) -> (result: Option<u64>)
    ensures
        result == unsigned_of(seen(value)),
{
    match value {
        Some(value) => read_unsigned(value.raw.as_slice()),
        None => None,
    }
}

/// A count of milliseconds as a time, where it is in the range of one.
pub fn time(millis: Option<u64>) -> (result: Option<i64>)
    ensures
        result == time_of(millis),
{
    match millis {
        Some(millis) => if millis <= i64::MAX as u64 {
            Some(millis as i64)
        } else {
            None
        },
        None => None,
    }
}

/// The truth value that a value holds.
pub fn flag(value: Option<&JsonValue>) -> (result: Option<bool>)
    ensures
        result == flag_of(seen(value)),
{
    match value {
        Some(value) => if bytes_equal(value.raw.as_slice(), "true".as_bytes()) {
            Some(true)
        } else if bytes_equal(value.raw.as_slice(), "false".as_bytes()) {
            Some(false)
        } else {
            None
        },
        None => None,
    }
}

/// The kind in force after a member `stream` with the given value: the kind
/// that the value names, where it names a known one, else the kind as before.
pub open spec fn next_kind(kind: StreamName, value: JsonValueView) -> StreamName {
    match value.text {
        Some(name) => match stream_name_of(encode_utf8(name)) {
            StreamName::Unknown => kind,
            known => known,
        },
        None => kind,
    }
}

/// The message of a frame, found by reading its members from index `start`
/// on with the kind `kind` in force.
///
/// A member `stream` sets the kind. The first member `data` that is read
/// while a known kind is in force is the message. An error of the parser
/// before that is the error `Stream`; a frame that ends before that holds
/// no message.
pub open spec fn route_from(members: Seq<Option<JsonMemberView>>, start: int, kind: StreamName)
    -> Result<(StreamName, Seq<u8>), DecodeError>
    decreases members.len() - start,
{
    if start < 0 || start >= members.len() {
        Err(DecodeError::UnknownData)
    } else {
        match members[start] {
            None => Err(DecodeError::Stream),
            Some(member) => if member.key == "stream"@ {
                route_from(members, start + 1, next_kind(kind, member.value))
            } else if member.key == "data"@ && kind != StreamName::Unknown {
                Ok((kind, member.value.raw))
            } else {
                route_from(members, start + 1, kind)
            },
        }
    }
}

/// The kind and the message of a frame with the given members.
pub open spec fn route_of(members: Seq<Option<JsonMemberView>>) -> Result<
    (StreamName, Seq<u8>),
    DecodeError,
> {
    route_from(members, 0, StreamName::Unknown)
}

/// What the outcome of [`route`] holds.
pub open spec fn routed(result: Result<(StreamName, &Vec<u8>), DecodeError>) -> Result<
    (StreamName, Seq<u8>),
    DecodeError,
> {
    match result {
        Ok((kind, payload)) => Ok((kind, payload@)),
        Err(error) => Err(error),
    }
}

/// Finds the kind and the message of a frame among its members.
pub fn route<'a>(members: &'a Vec<Option<JsonMember>>) -> (result: Result<
    (StreamName, &'a Vec<u8>),
    DecodeError,
>)
    ensures
        routed(result) == route_of(members_view(members@)),
        match result {
            Ok((kind, _)) => kind != StreamName::Unknown,
            Err(_) => true,
        },
{
    let ghost all = members_view(members@);
    let mut kind = StreamName::Unknown;
    let mut i: usize = 0;
    while i < members.len()
        invariant
            i <= members@.len(),
            all == members_view(members@),
            route_of(all) == route_from(all, i as int, kind),
        decreases members@.len() - i,
    {
        match &members[i] {
            None => {
                return Err(DecodeError::Stream);
            },
            Some(member) => {
                assert(all[i as int] == Some(member@));
                if str_equals(member.key.as_str(), "stream") {
                    match &member.value.text {
                        Some(name) => {
                            match StreamName::from_stream_type(name.as_str()) {
                                StreamName::Unknown => {},
                                known => {
                                    kind = known;
                                },
                            }
                        },
                        None => {},
                    }
                } else if str_equals(member.key.as_str(), "data") {
                    match kind {
                        StreamName::Unknown => {},
                        _ => {
                            return Ok((kind, &member.value.raw));
                        },
                    }
                }
            },
        }
        i += 1;
    }
    Err(DecodeError::UnknownData)
}

/// The trade that the given fields make up: all four are needed.
pub open spec fn assemble_trade(
    time: Option<i64>,
    price: Option<Decimal>,
    quantity: Option<Decimal>,
    is_sell: Option<bool>,
) -> Option<Trade> {
    if time is Some && price is Some && quantity is Some && is_sell is Some {
        Some(Trade { time: time->0, price: price->0, quantity: quantity->0, is_sell: is_sell->0 })
    } else {
        None
    }
}

/// The trade that a message with the given members holds: its time under
/// `T`, its price under `p`, its quantity under `q` and its side under `m`.
pub open spec fn trade_of(members: Seq<Option<JsonMemberView>>) -> Option<Trade> {
    if complete(members) {
        assemble_trade(
            time_of(unsigned_of(field(members, "T"@))),
            decimal_of(field(members, "p"@)),
            decimal_of(field(members, "q"@)),
            flag_of(field(members, "m"@)),
        )
    } else {
        None
    }
}

/// Makes a trade of its four fields, where none is missing.
pub fn trade_from_fields(
    time: Option<i64>,
    price: Option<Decimal>,
    quantity: Option<Decimal>,
    is_sell: Option<bool>,
) -> (trade: Option<Trade>)
    ensures
        trade == assemble_trade(time, price, quantity, is_sell),
{
    match (time, price, quantity, is_sell) {
        (Some(time), Some(price), Some(quantity), Some(is_sell)) => Some(
            Trade { time, price, quantity, is_sell },
        ),
        _ => None,
    }
}

/// Reads a trade from the members of its message.
pub fn trade_from(members: &Vec<Option<JsonMember>>) -> (trade: Option<Trade>)
    ensures
        trade == trade_of(members_view(members@)),
{
    if !is_complete(members) {
        return None;
    }
    trade_from_fields(
        time(unsigned(find_field(members, "T"))),
        decimal(find_field(members, "p")),
        decimal(find_field(members, "q")),
        flag(find_field(members, "m")),
    )
}

/// The level that an array with the given elements holds: exactly two
/// strings, the price and the quantity.
pub open spec fn level_of(elements: Seq<Option<JsonValueView>>) -> Option<PriceLevel> {
    if elements.len() == 2 && decimal_of(elements[0]) is Some && decimal_of(elements[1]) is Some {
        Some(
            PriceLevel { price: decimal_of(elements[0])->0, quantity: decimal_of(elements[1])->0 },
        )
    } else {
        None
    }
}

/// The level that the element `element` of an array of levels holds.
pub open spec fn level_at(element: Option<JsonValueView>) -> Option<PriceLevel> {
    match element {
        Some(value) => level_of(array_elements(value.raw)),
        None => None,
    }
}

/// The levels that an array with the given elements holds: every element has
/// to hold a level.
pub open spec fn levels_of(elements: Seq<Option<JsonValueView>>) -> Option<Seq<PriceLevel>> {
    if forall|i: int| 0 <= i < elements.len() ==> level_at(#[trigger] elements[i]) is Some {
        Some(Seq::new(elements.len(), |i: int| level_at(elements[i])->0))
    } else {
        None
    }
}

/// The levels that a value holds which is an array of levels.
pub open spec fn side_of(value: Option<JsonValueView>) -> Option<Seq<PriceLevel>> {
    match value {
        Some(value) => levels_of(array_elements(value.raw)),
        None => None,
    }
}

/// What optional levels hold.
pub open spec fn levels_view(levels: Option<Vec<PriceLevel>>) -> Option<Seq<PriceLevel>> {
    match levels {
        Some(levels) => Some(levels@),
        None => None,
    }
}

/// What an optional element holds.
pub open spec fn element_view(element: Option<JsonValue>) -> Option<JsonValueView> {
    match element {
        Some(value) => Some(value@),
        None => None,
    }
}

/// The element as an optional reference.
pub fn borrowed(element: &Option<JsonValue>) -> (value: Option<&JsonValue>)
    ensures
        seen(value) == element_view(*element),
{
    match element {
        Some(value) => Some(value),
        None => None,
    }
}

/// Reads a level from the elements of its array.
pub fn level_from(elements: &Vec<Option<JsonValue>>) -> (level: Option<PriceLevel>)
    ensures
        level == level_of(elements_view(elements@)),
{
    if elements.len() != 2 {
        return None;
    }
    let price = decimal(borrowed(&elements[0]));
    let quantity = decimal(borrowed(&elements[1]));
    proof {
        assert(element_view(elements@[0]) == elements_view(elements@)[0]);
        assert(element_view(elements@[1]) == elements_view(elements@)[1]);
    }
    match (price, quantity) {
        (Some(price), Some(quantity)) => Some(PriceLevel { price, quantity }),
        _ => None,
    }
}

/// Reads the levels of a side from the elements of its array.
pub fn levels_from(elements: &Vec<Option<JsonValue>>) -> (levels: Option<Vec<PriceLevel>>)
    ensures
        levels_view(levels) == levels_of(elements_view(elements@)),
{
    let ghost all = elements_view(elements@);
    let mut levels: Vec<PriceLevel> = Vec::new();
    let mut i: usize = 0;
    while i < elements.len()
        invariant
            i <= elements@.len(),
            all == elements_view(elements@),
            levels@.len() == i,
            forall|j: int| 0 <= j < i ==> level_at(#[trigger] all[j]) == Some(levels@[j]),
        decreases elements@.len() - i,
    {
        let level = match &elements[i] {
            Some(value) => {
                let inner = read_array(value.raw.as_slice());
                level_from(&inner)
            },
            None => None,
        };
        assert(level == level_at(all[i as int]));
        match level {
            Some(level) => {
                levels.push(level);
            },
            None => {
                return None;
            },
        }
        i += 1;
    }
    proof {
        assert(levels@ =~= levels_of(all)->0);
    }
    Some(levels)
}

/// Reads the levels of a side from the value that holds them.
pub fn side_from(value: Option<&JsonValue>) -> (levels: Option<Vec<PriceLevel>>)
    ensures
        levels_view(levels) == side_of(seen(value)),
{
    match value {
        Some(value) => {
            let elements = read_array(value.raw.as_slice());
            levels_from(&elements)
        },
        None => None,
    }
}

/// The depth diff that the given fields make up: all six are needed.
pub open spec fn assemble_depth(
    time: Option<i64>,
    first_id: Option<u64>,
    final_id: Option<u64>,
    prev_final_id: Option<u64>,
    bids: Option<Seq<PriceLevel>>,
    asks: Option<Seq<PriceLevel>>,
) -> Option<DepthDiffView> {
    if time is Some && first_id is Some && final_id is Some && prev_final_id is Some && bids is Some
        && asks is Some {
        Some(
            DepthDiffView {
                time: time->0,
                first_id: first_id->0,
                final_id: final_id->0,
                prev_final_id: prev_final_id->0,
                bids: bids->0,
                asks: asks->0,
            },
        )
    } else {
        None
    }
}

/// The depth diff that a message with the given members holds: its time
/// under `T`, its sequence numbers under `U`, `u` and `pu`, its bid levels
/// under `b` and its ask levels under `a`.
pub open spec fn depth_of(members: Seq<Option<JsonMemberView>>) -> Option<DepthDiffView> {
    if complete(members) {
        assemble_depth(
            time_of(unsigned_of(field(members, "T"@))),
            unsigned_of(field(members, "U"@)),
            unsigned_of(field(members, "u"@)),
            unsigned_of(field(members, "pu"@)),
            side_of(field(members, "b"@)),
            side_of(field(members, "a"@)),
        )
    } else {
        None
    }
}

/// What an optional depth diff holds.
pub open spec fn diff_view(diff: Option<DepthDiff>) -> Option<DepthDiffView> {
    match diff {
        Some(diff) => Some(diff@),
        None => None,
    }
}

/// Makes a depth diff of its six fields, where none is missing.
pub fn depth_from_fields(
    time: Option<i64>,
    first_id: Option<u64>,
    final_id: Option<u64>,
    prev_final_id: Option<u64>,
    bids: Option<Vec<PriceLevel>>,
    asks: Option<Vec<PriceLevel>>,
) -> (diff: Option<DepthDiff>)
    ensures
        diff_view(diff) == assemble_depth(
            time,
            first_id,
            final_id,
            prev_final_id,
            levels_view(bids),
            levels_view(asks),
        ),
{
    match (time, first_id, final_id, prev_final_id, bids, asks) {
        (Some(time), Some(first_id), Some(final_id), Some(prev_final_id), Some(bids), Some(asks)) => {
            Some(DepthDiff { time, first_id, final_id, prev_final_id, bids, asks })
        },
        _ => None,
    }
}

/// Reads a depth diff from the members of its message.
pub fn depth_from(members: &Vec<Option<JsonMember>>) -> (diff: Option<DepthDiff>)
    ensures
        diff_view(diff) == depth_of(members_view(members@)),
{
    if !is_complete(members) {
        return None;
    }
    depth_from_fields(
        time(unsigned(find_field(members, "T"))),
        unsigned(find_field(members, "U")),
        unsigned(find_field(members, "u")),
        unsigned(find_field(members, "pu")),
        side_from(find_field(members, "b")),
        side_from(find_field(members, "a")),
    )
}

/// The candle that an object with the given members holds, with the name of
/// its width: the opening time under `t`, the prices under `o`, `h`, `l` and
/// `c`, the volume under `v`, the volume bought under `V` and the width under
/// `i`.
pub open spec fn candle_of(members: Seq<Option<JsonMemberView>>) -> Option<(Kline, Seq<char>)> {
    let time = unsigned_of(field(members, "t"@));
    let open = decimal_of(field(members, "o"@));
    let high = decimal_of(field(members, "h"@));
    let low = decimal_of(field(members, "l"@));
    let close = decimal_of(field(members, "c"@));
    let volume = decimal_of(field(members, "v"@));
    let buy_volume = decimal_of(field(members, "V"@));
    let interval = text_of(field(members, "i"@));
    if complete(members) && time is Some && open is Some && high is Some && low is Some
        && close is Some && volume is Some && buy_volume is Some && interval is Some {
        Some(
            (
                Kline {
                    time: time->0,
                    open: open->0,
                    high: high->0,
                    low: low->0,
                    close: close->0,
                    volume: volume->0,
                    buy_volume: buy_volume->0,
                },
                interval->0,
            ),
        )
    } else {
        None
    }
}

/// The candle that a value holds which is such an object.
pub open spec fn candle_at(value: Option<JsonValueView>) -> Option<(Kline, Seq<char>)> {
    match value {
        Some(value) => candle_of(object_members(value.raw)),
        None => None,
    }
}

/// The candle update that a message with the given members holds: the symbol
/// of its instrument under `s` and the candle under `k`.
pub open spec fn kline_of(members: Seq<Option<JsonMemberView>>) -> Option<KlineUpdateView> {
    if complete(members) {
        match (text_of(field(members, "s"@)), candle_at(field(members, "k"@))) {
            (Some(symbol), Some((kline, interval))) => Some(
                KlineUpdateView { ticker: Ticker::of_symbol(symbol), kline, interval },
            ),
            _ => None,
        }
    } else {
        None
    }
}

/// What an optional candle with the name of its width holds.
pub open spec fn candle_view(candle: Option<(Kline, String)>) -> Option<(Kline, Seq<char>)> {
    match candle {
        Some((kline, interval)) => Some((kline, interval@)),
        None => None,
    }
}

/// What an optional candle update holds.
pub open spec fn update_view(update: Option<KlineUpdate>) -> Option<KlineUpdateView> {
    match update {
        Some(update) => Some(update@),
        None => None,
    }
}

/// Reads a candle and the name of its width from the members of its object.
pub fn candle_from(members: &Vec<Option<JsonMember>>) -> (candle: Option<(Kline, String)>)
    ensures
        candle_view(candle) == candle_of(members_view(members@)),
{
    if !is_complete(members) {
        return None;
    }
    let time = unsigned(find_field(members, "t"));
    let open = decimal(find_field(members, "o"));
    let high = decimal(find_field(members, "h"));
    let low = decimal(find_field(members, "l"));
    let close = decimal(find_field(members, "c"));
    let volume = decimal(find_field(members, "v"));
    let buy_volume = decimal(find_field(members, "V"));
    let interval = text(find_field(members, "i"));
    match (time, open, high, low, close, volume, buy_volume, interval) {
        (
            Some(time),
            Some(open),
            Some(high),
            Some(low),
            Some(close),
            Some(volume),
            Some(buy_volume),
            Some(interval),
        ) => Some(
            (Kline { time, open, high, low, close, volume, buy_volume }, interval.clone()),
        ),
        _ => None,
    }
}

/// Reads a candle update from the members of its message.
pub fn kline_from(members: &Vec<Option<JsonMember>>) -> (update: Option<KlineUpdate>)
    ensures
        update_view(update) == kline_of(members_view(members@)),
{
    if !is_complete(members) {
        return None;
    }
    let symbol = text(find_field(members, "s"));
    let candle = match find_field(members, "k") {
        Some(value) => {
            let inner = read_object(value.raw.as_slice());
            candle_from(&inner)
        },
        None => None,
    };
    match (symbol, candle) {
        (Some(symbol), Some((kline, interval))) => Some(
            KlineUpdate { ticker: Ticker::from_symbol(symbol.as_str()), kline, interval },
        ),
        _ => None,
    }
}

/// The message that a frame of the given kind holds in `payload`.
pub open spec fn message_of(kind: StreamName, payload: Seq<u8>) -> Result<
    StreamDataView,
    DecodeError,
> {
    let members = object_members(payload);
    match kind {
        StreamName::Trade => match trade_of(members) {
            Some(trade) => Ok(StreamDataView::Trade(trade)),
            None => Err(DecodeError::Trade),
        },
        StreamName::Depth => match depth_of(members) {
            Some(diff) => Ok(StreamDataView::Depth(diff)),
            None => Err(DecodeError::Depth),
        },
        StreamName::Kline => match kline_of(members) {
            Some(update) => Ok(StreamDataView::Kline(update)),
            None => Err(DecodeError::Kline),
        },
        StreamName::Unknown => Err(DecodeError::UnknownData),
    }
}

/// The message that the frame `frame` holds.
pub open spec fn frame_of(frame: Seq<u8>) -> Result<StreamDataView, DecodeError> {
    match route_of(object_members(frame)) {
        Ok((kind, payload)) => message_of(kind, payload),
        Err(error) => Err(error),
    }
}

/// What the outcome of decoding holds.
pub open spec fn decoded(result: Result<StreamData, DecodeError>) -> Result<
    StreamDataView,
    DecodeError,
> {
    match result {
        Ok(data) => Ok(data@),
        Err(error) => Err(error),
    }
}

/// Decodes the message of a frame of the given kind from the members of the
/// message.
pub fn message_from(kind: StreamName, members: &Vec<Option<JsonMember>>) -> (result: Result<
    StreamData,
    DecodeError,
>)
    ensures
        decoded(result) == match kind {
            StreamName::Trade => match trade_of(members_view(members@)) {
                Some(trade) => Ok(StreamDataView::Trade(trade)),
                None => Err(DecodeError::Trade),
            },
            StreamName::Depth => match depth_of(members_view(members@)) {
                Some(diff) => Ok(StreamDataView::Depth(diff)),
                None => Err(DecodeError::Depth),
            },
            StreamName::Kline => match kline_of(members_view(members@)) {
                Some(update) => Ok(StreamDataView::Kline(update)),
                None => Err(DecodeError::Kline),
            },
            StreamName::Unknown => Err(DecodeError::UnknownData),
        },
{
    match kind {
        StreamName::Trade => match trade_from(members) {
            Some(trade) => Ok(StreamData::Trade(trade)),
            None => Err(DecodeError::Trade),
        },
        StreamName::Depth => match depth_from(members) {
            Some(diff) => Ok(StreamData::Depth(diff)),
            None => Err(DecodeError::Depth),
        },
        StreamName::Kline => match kline_from(members) {
            Some(update) => Ok(StreamData::Kline(update)),
            None => Err(DecodeError::Kline),
        },
        StreamName::Unknown => Err(DecodeError::UnknownData),
    }
}

/// Decodes a frame.
///
/// The outcome is the message that the frame holds, or the reason why none
/// could be read from it: see [`frame_of`].
pub fn feed_de(bytes: &[u8]) -> (result: Result<StreamData, DecodeError>)
    ensures
        decoded(result) == frame_of(bytes@),
{
    let members = read_object(bytes);
    match route(&members) {
        Ok((kind, payload)) => {
            let inner = read_object(payload.as_slice());
            message_from(kind, &inner)
        },
        Err(error) => Err(error),
    }
}

} // verus!
