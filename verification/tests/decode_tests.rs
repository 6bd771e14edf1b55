use market_feed::book::{DepthDiff, PriceLevel};
use market_feed::decimal::Decimal;
use market_feed::decode::{
    borrowed, candle_from, decimal, depth_from, depth_from_fields, feed_de, find_field, flag,
    is_complete, kline_from, level_from, levels_from, message_from, route, side_from, text, time,
    trade_from, trade_from_fields, unsigned, DecodeError, Kline, KlineUpdate, StreamData,
    StreamName,
};
use market_feed::json::{JsonMember, JsonValue};
use market_feed::latency::Trade;
use market_feed::symbols::Ticker;

fn wire_level(price: u64, quantity: u64) -> PriceLevel {
    PriceLevel { price: Decimal { units: price }, quantity: Decimal { units: quantity } }
}

fn json_string(raw: &str, text: &str) -> JsonValue {
    JsonValue { raw: raw.as_bytes().to_vec(), text: Some(text.to_string()) }
}

fn json_other(raw: &str) -> JsonValue {
    JsonValue { raw: raw.as_bytes().to_vec(), text: None }
}

fn json_member(key: &str, value: JsonValue) -> Option<JsonMember> {
    Some(JsonMember { key: key.to_string(), value })
}

const TRADE_FRAME: &str = r#"{"stream":"btcusdt@trade","data":{"e":"trade","E":1700000000005,"T":1700000000000,"s":"BTCUSDT","t":7,"p":"100.25","q":"0.5","X":"MARKET","m":true}}"#;

const DEPTH_FRAME: &str = r#"{"stream":"btcusdt@depth@100ms","data":{"e":"depthUpdate","E":1700000000105,"T":1700000000100,"s":"BTCUSDT","U":1001,"u":1005,"pu":1000,"b":[["100.5","2"],["99.0","0"]],"a":[["101.0","1.5"]]}}"#;

const KLINE_FRAME: &str = r#"{"stream":"ethusdt@kline_5m","data":{"e":"kline","E":1700000000000,"s":"ETHUSDT","k":{"t":1699999800000,"T":1700000099999,"s":"ETHUSDT","i":"5m","f":1,"L":2,"o":"2000.1","c":"2001","h":"2002.5","l":"1999","v":"12.5","n":3,"x":false,"q":"25000","V":"6.25","Q":"12500","B":"0"}}}"#;

#[test]
fn stream_names() {
    assert_eq!(StreamName::from_stream_type("btcusdt@depth@100ms"), StreamName::Depth);
    assert_eq!(StreamName::from_stream_type("btcusdt@trade"), StreamName::Trade);
    assert_eq!(StreamName::from_stream_type("btcusdt@kline_1m"), StreamName::Kline);
    assert_eq!(StreamName::from_stream_type("btcusdt@ticker"), StreamName::Unknown);
    assert_eq!(StreamName::from_stream_type("btcusdt"), StreamName::Unknown);
    assert_eq!(StreamName::from_stream_type(""), StreamName::Unknown);
    assert_eq!(StreamName::from_stream_type("@"), StreamName::Unknown);
    assert_eq!(StreamName::from_stream_type("@dep"), StreamName::Depth);
    assert_eq!(StreamName::from_stream_type("x@de"), StreamName::Unknown);
    assert_eq!(StreamName::from_stream_type("x@de@p"), StreamName::Unknown);
    assert_eq!(StreamName::from_stream_type("x@y@depth"), StreamName::Unknown);
    assert_eq!(StreamName::from_stream_type("depth"), StreamName::Unknown);
    assert_eq!(StreamName::from_stream_type("x@Depth"), StreamName::Unknown);
    assert_eq!(StreamName::from_stream_type("é@trade"), StreamName::Trade);
}

#[test]
fn error_messages() {
    assert_eq!(DecodeError::Stream.message(), "Error parsing stream");
    assert_eq!(DecodeError::Trade.message(), "Error parsing trade");
    assert_eq!(DecodeError::Depth.message(), "Error parsing depth");
    assert_eq!(DecodeError::Kline.message(), "Error parsing kline");
    assert_eq!(DecodeError::UnknownData.message(), "Unknown data");
}

#[test]
fn decodes_a_trade_frame() {
    assert_eq!(
        feed_de(TRADE_FRAME.as_bytes()),
        Ok(StreamData::Trade(Trade {
            time: 1_700_000_000_000,
            price: Decimal { units: 10_025_000_000 },
            quantity: Decimal { units: 50_000_000 },
            is_sell: true,
        }))
    );
}

#[test]
fn decodes_a_depth_frame() {
    assert_eq!(
        feed_de(DEPTH_FRAME.as_bytes()),
        Ok(StreamData::Depth(DepthDiff {
            time: 1_700_000_000_100,
            first_id: 1001,
            final_id: 1005,
            prev_final_id: 1000,
            bids: vec![wire_level(10_050_000_000, 200_000_000), wire_level(9_900_000_000, 0)],
            asks: vec![wire_level(10_100_000_000, 150_000_000)],
        }))
    );
}

#[test]
fn decodes_a_kline_frame() {
    assert_eq!(
        feed_de(KLINE_FRAME.as_bytes()),
        Ok(StreamData::Kline(KlineUpdate {
            ticker: Ticker::ETHUSDT,
            kline: Kline {
                time: 1_699_999_800_000,
                open: Decimal { units: 200_010_000_000 },
                high: Decimal { units: 200_250_000_000 },
                low: Decimal { units: 199_900_000_000 },
                close: Decimal { units: 200_100_000_000 },
                volume: Decimal { units: 1_250_000_000 },
                buy_volume: Decimal { units: 625_000_000 },
            },
            interval: "5m".to_string(),
        }))
    );
}

#[test]
fn unknown_symbol_of_a_kline_reads_as_btcusdt() {
    let frame = r#"{"stream":"x@kline_1m","data":{"s":"DOGEUSDT","k":{"t":1,"i":"1m","o":"1","c":"1","h":"1","l":"1","v":"1","V":"1"}}}"#;
    match feed_de(frame.as_bytes()) {
        Ok(StreamData::Kline(update)) => assert_eq!(update.ticker, Ticker::BTCUSDT),
        other => panic!("{:?}", other),
    }
}

#[test]
fn text_that_is_no_numeral_reads_as_zero() {
    let frame = r#"{"stream":"btcusdt@trade","data":{"T":5,"p":"abc","q":"","m":false}}"#;
    assert_eq!(
        feed_de(frame.as_bytes()),
        Ok(StreamData::Trade(Trade {
            time: 5,
            price: Decimal { units: 0 },
            quantity: Decimal { units: 0 },
            is_sell: false,
        }))
    );
    let frame = r#"{"stream":"btcusdt@depth","data":{"T":5,"U":1,"u":2,"pu":0,"b":[["x","1"]],"a":[["1","-3"]]}}"#;
    assert_eq!(
        feed_de(frame.as_bytes()),
        Ok(StreamData::Depth(DepthDiff {
            time: 5,
            first_id: 1,
            final_id: 2,
            prev_final_id: 0,
            bids: vec![wire_level(0, 100_000_000)],
            asks: vec![wire_level(100_000_000, 0)],
        }))
    );
}

#[test]
fn escaped_strings_are_unescaped() {
    let frame = r#"{"\u0073tream":"btcusdt\u0040trade","d\u0061ta":{"T":5,"p":"1\u002e5","\u0071":"2","m":false}}"#;
    assert_eq!(
        feed_de(frame.as_bytes()),
        Ok(StreamData::Trade(Trade {
            time: 5,
            price: Decimal { units: 150_000_000 },
            quantity: Decimal { units: 200_000_000 },
            is_sell: false,
        }))
    );
}

#[test]
fn frames_without_a_message_of_a_known_kind() {
    let unknown = r#"{"stream":"btcusdt@ticker","data":{"T":5}}"#;
    assert_eq!(feed_de(unknown.as_bytes()), Err(DecodeError::UnknownData));
    let data_first = r#"{"data":{"T":5,"p":"1","q":"1","m":true},"stream":"btcusdt@trade"}"#;
    assert_eq!(feed_de(data_first.as_bytes()), Err(DecodeError::UnknownData));
    let no_data = r#"{"stream":"btcusdt@trade"}"#;
    assert_eq!(feed_de(no_data.as_bytes()), Err(DecodeError::UnknownData));
    let stream_is_number = r#"{"stream":5,"data":{"T":5,"p":"1","q":"1","m":true}}"#;
    assert_eq!(feed_de(stream_is_number.as_bytes()), Err(DecodeError::UnknownData));
    assert_eq!(feed_de(b"{}"), Err(DecodeError::UnknownData));
    let result = r#"{"result":null,"id":1}"#;
    assert_eq!(feed_de(result.as_bytes()), Err(DecodeError::UnknownData));
}

#[test]
fn frames_that_are_no_object() {
    assert_eq!(feed_de(b""), Err(DecodeError::Stream));
    assert_eq!(feed_de(b"[1,2]"), Err(DecodeError::Stream));
    assert_eq!(feed_de(b"not json"), Err(DecodeError::Stream));
    assert_eq!(feed_de(br#"{"stream":"btcusdt@trade","data""#), Err(DecodeError::Stream));
    assert_eq!(feed_de(br#"{"stream":"btcusdt@trade""#), Err(DecodeError::Stream));
    assert_eq!(feed_de(&[b'{', b'"', 0xff, b'"', b':', b'1', b'}']), Err(DecodeError::Stream));
}

#[test]
fn the_message_is_taken_as_soon_as_it_is_read() {
    let cut_after_data = r#"{"stream":"btcusdt@trade","data":{"T":5,"p":"1","q":"1","m":true}"#;
    assert_eq!(
        feed_de(cut_after_data.as_bytes()),
        Ok(StreamData::Trade(Trade {
            time: 5,
            price: Decimal { units: 100_000_000 },
            quantity: Decimal { units: 100_000_000 },
            is_sell: true,
        }))
    );
}

#[test]
fn the_last_known_stream_name_before_the_message_decides() {
    let frame = r#"{"stream":"btcusdt@depth","stream":"btcusdt@trade","stream":"btcusdt@other","data":{"T":5,"p":"1","q":"1","m":true}}"#;
    assert!(matches!(feed_de(frame.as_bytes()), Ok(StreamData::Trade(_))));
}

#[test]
fn malformed_messages() {
    let missing = r#"{"stream":"btcusdt@trade","data":{"T":5,"p":"1","q":"1"}}"#;
    assert_eq!(feed_de(missing.as_bytes()), Err(DecodeError::Trade));
    let wrong_type = r#"{"stream":"btcusdt@trade","data":{"T":"5","p":"1","q":"1","m":true}}"#;
    assert_eq!(feed_de(wrong_type.as_bytes()), Err(DecodeError::Trade));
    let price_is_number = r#"{"stream":"btcusdt@trade","data":{"T":5,"p":1,"q":"1","m":true}}"#;
    assert_eq!(feed_de(price_is_number.as_bytes()), Err(DecodeError::Trade));
    let flag_is_text = r#"{"stream":"btcusdt@trade","data":{"T":5,"p":"1","q":"1","m":"true"}}"#;
    assert_eq!(feed_de(flag_is_text.as_bytes()), Err(DecodeError::Trade));
    let negative_time = r#"{"stream":"btcusdt@trade","data":{"T":-5,"p":"1","q":"1","m":true}}"#;
    assert_eq!(feed_de(negative_time.as_bytes()), Err(DecodeError::Trade));
    let time_out_of_range =
        r#"{"stream":"btcusdt@trade","data":{"T":9223372036854775808,"p":"1","q":"1","m":true}}"#;
    assert_eq!(feed_de(time_out_of_range.as_bytes()), Err(DecodeError::Trade));
    let not_an_object = r#"{"stream":"btcusdt@trade","data":[1,2,3]}"#;
    assert_eq!(feed_de(not_an_object.as_bytes()), Err(DecodeError::Trade));
    let level_of_three = r#"{"stream":"btcusdt@depth","data":{"T":5,"U":1,"u":2,"pu":0,"b":[["1","1","1"]],"a":[]}}"#;
    assert_eq!(feed_de(level_of_three.as_bytes()), Err(DecodeError::Depth));
    let level_of_one = r#"{"stream":"btcusdt@depth","data":{"T":5,"U":1,"u":2,"pu":0,"b":[["1"]],"a":[]}}"#;
    assert_eq!(feed_de(level_of_one.as_bytes()), Err(DecodeError::Depth));
    let level_of_numbers = r#"{"stream":"btcusdt@depth","data":{"T":5,"U":1,"u":2,"pu":0,"b":[[1,1]],"a":[]}}"#;
    assert_eq!(feed_de(level_of_numbers.as_bytes()), Err(DecodeError::Depth));
    let side_missing = r#"{"stream":"btcusdt@depth","data":{"T":5,"U":1,"u":2,"pu":0,"b":[]}}"#;
    assert_eq!(feed_de(side_missing.as_bytes()), Err(DecodeError::Depth));
    let side_is_object = r#"{"stream":"btcusdt@depth","data":{"T":5,"U":1,"u":2,"pu":0,"b":{},"a":[]}}"#;
    assert_eq!(feed_de(side_is_object.as_bytes()), Err(DecodeError::Depth));
    let no_candle = r#"{"stream":"btcusdt@kline_1m","data":{"s":"BTCUSDT"}}"#;
    assert_eq!(feed_de(no_candle.as_bytes()), Err(DecodeError::Kline));
    let candle_incomplete = r#"{"stream":"btcusdt@kline_1m","data":{"s":"BTCUSDT","k":{"t":1,"i":"1m"}}}"#;
    assert_eq!(feed_de(candle_incomplete.as_bytes()), Err(DecodeError::Kline));
}

#[test]
fn empty_sides_are_allowed() {
    let frame = r#"{"stream":"btcusdt@depth","data":{"T":5,"U":1,"u":2,"pu":0,"b":[],"a":[]}}"#;
    assert_eq!(
        feed_de(frame.as_bytes()),
        Ok(StreamData::Depth(DepthDiff {
            time: 5,
            first_id: 1,
            final_id: 2,
            prev_final_id: 0,
            bids: vec![],
            asks: vec![],
        }))
    );
}

#[test]
fn route_follows_the_members_in_order() {
    let members = vec![
        json_member("id", json_other("1")),
        json_member("stream", json_string("\"a@trade\"", "a@trade")),
        json_member("data", json_other("{}")),
        None,
    ];
    assert_eq!(route(&members), Ok((StreamName::Trade, &b"{}".to_vec())));
    let error_first = vec![None, json_member("stream", json_string("\"a@trade\"", "a@trade"))];
    assert_eq!(route(&error_first), Err(DecodeError::Stream));
    let error_before_data = vec![
        json_member("stream", json_string("\"a@trade\"", "a@trade")),
        None,
        json_member("data", json_other("{}")),
    ];
    assert_eq!(route(&error_before_data), Err(DecodeError::Stream));
    let unknown_does_not_reset = vec![
        json_member("stream", json_string("\"a@kline_1m\"", "a@kline_1m")),
        json_member("stream", json_string("\"a@zzz\"", "a@zzz")),
        json_member("stream", json_other("17")),
        json_member("data", json_other("[]")),
    ];
    assert_eq!(route(&unknown_does_not_reset), Ok((StreamName::Kline, &b"[]".to_vec())));
    let data_twice = vec![
        json_member("data", json_other("1")),
        json_member("stream", json_string("\"a@depth\"", "a@depth")),
        json_member("data", json_other("2")),
        json_member("data", json_other("3")),
    ];
    assert_eq!(route(&data_twice), Ok((StreamName::Depth, &b"2".to_vec())));
    assert_eq!(route(&vec![]), Err(DecodeError::UnknownData));
}

#[test]
fn fields_are_found_by_their_first_occurrence() {
    let members = vec![
        json_member("a", json_other("1")),
        None,
        json_member("b", json_other("2")),
        json_member("a", json_other("3")),
    ];
    assert_eq!(find_field(&members, "a"), Some(&json_other("1")));
    assert_eq!(find_field(&members, "b"), Some(&json_other("2")));
    assert_eq!(find_field(&members, "c"), None);
    assert!(!is_complete(&members));
    assert!(is_complete(&vec![json_member("a", json_other("1"))]));
    assert!(is_complete(&vec![]));
}

#[test]
fn values_are_read_by_their_kind() {
    let string = json_string("\"1.5\"", "1.5");
    let number = json_other("17");
    let truth = json_other("true");
    let falsehood = json_other("false");
    assert_eq!(text(Some(&string)), Some(&"1.5".to_string()));
    assert_eq!(text(Some(&number)), None);
    assert_eq!(text(None), None);
    assert_eq!(decimal(Some(&string)), Some(Decimal { units: 150_000_000 }));
    assert_eq!(decimal(Some(&json_string("\"x\"", "x"))), Some(Decimal { units: 0 }));
    assert_eq!(decimal(Some(&number)), None);
    assert_eq!(decimal(None), None);
    assert_eq!(unsigned(Some(&number)), Some(17));
    assert_eq!(unsigned(Some(&string)), None);
    assert_eq!(unsigned(Some(&json_other("-1"))), None);
    assert_eq!(unsigned(Some(&json_other("1.5"))), None);
    assert_eq!(unsigned(Some(&json_other("18446744073709551615"))), Some(u64::MAX));
    assert_eq!(unsigned(Some(&json_other("18446744073709551616"))), None);
    assert_eq!(unsigned(None), None);
    assert_eq!(flag(Some(&truth)), Some(true));
    assert_eq!(flag(Some(&falsehood)), Some(false));
    assert_eq!(flag(Some(&number)), None);
    assert_eq!(flag(Some(&json_string("\"true\"", "true"))), None);
    assert_eq!(flag(None), None);
    assert_eq!(time(Some(0)), Some(0));
    assert_eq!(time(Some(i64::MAX as u64)), Some(i64::MAX));
    assert_eq!(time(Some(i64::MAX as u64 + 1)), None);
    assert_eq!(time(None), None);
    assert_eq!(borrowed(&Some(number.clone())), Some(&number));
    assert_eq!(borrowed(&None), None);
}

#[test]
fn trades_need_all_their_fields() {
    let price = Decimal { units: 1 };
    let quantity = Decimal { units: 2 };
    assert_eq!(
        trade_from_fields(Some(3), Some(price), Some(quantity), Some(true)),
        Some(Trade { time: 3, price, quantity, is_sell: true })
    );
    assert_eq!(trade_from_fields(None, Some(price), Some(quantity), Some(true)), None);
    assert_eq!(trade_from_fields(Some(3), None, Some(quantity), Some(true)), None);
    assert_eq!(trade_from_fields(Some(3), Some(price), None, Some(true)), None);
    assert_eq!(trade_from_fields(Some(3), Some(price), Some(quantity), None), None);
    let members = vec![
        json_member("T", json_other("3")),
        json_member("p", json_string("\"1\"", "1")),
        json_member("q", json_string("\"2\"", "2")),
        json_member("m", json_other("false")),
    ];
    assert_eq!(
        trade_from(&members),
        Some(Trade {
            time: 3,
            price: Decimal { units: 100_000_000 },
            quantity: Decimal { units: 200_000_000 },
            is_sell: false,
        })
    );
    let mut broken = members.clone();
    broken.push(None);
    assert_eq!(trade_from(&broken), None);
    assert_eq!(
        message_from(StreamName::Trade, &broken),
        Err(DecodeError::Trade)
    );
    assert_eq!(message_from(StreamName::Depth, &members), Err(DecodeError::Depth));
    assert_eq!(message_from(StreamName::Kline, &members), Err(DecodeError::Kline));
    assert_eq!(message_from(StreamName::Unknown, &members), Err(DecodeError::UnknownData));
    assert!(matches!(message_from(StreamName::Trade, &members), Ok(StreamData::Trade(_))));
}

#[test]
fn levels_are_pairs_of_strings() {
    let pair = vec![Some(json_string("\"1\"", "1")), Some(json_string("\"2\"", "2"))];
    assert_eq!(level_from(&pair), Some(wire_level(100_000_000, 200_000_000)));
    assert_eq!(level_from(&vec![Some(json_string("\"1\"", "1"))]), None);
    assert_eq!(level_from(&vec![Some(json_string("\"1\"", "1")), None]), None);
    assert_eq!(level_from(&vec![Some(json_string("\"1\"", "1")), Some(json_other("2"))]), None);
    let mut three = pair.clone();
    three.push(Some(json_string("\"3\"", "3")));
    assert_eq!(level_from(&three), None);
    let elements = vec![Some(json_other(r#"["1","2"]"#)), Some(json_other(r#"["3","0"]"#))];
    assert_eq!(
        levels_from(&elements),
        Some(vec![wire_level(100_000_000, 200_000_000), wire_level(300_000_000, 0)])
    );
    assert_eq!(levels_from(&vec![Some(json_other(r#"["1","2"]"#)), None]), None);
    assert_eq!(levels_from(&vec![Some(json_other(r#"["1"]"#))]), None);
    assert_eq!(levels_from(&vec![]), Some(vec![]));
    assert_eq!(
        side_from(Some(&json_other(r#"[["1","2"]]"#))),
        Some(vec![wire_level(100_000_000, 200_000_000)])
    );
    assert_eq!(side_from(Some(&json_other(r#"[["1","2"]"#))), None);
    assert_eq!(side_from(Some(&json_other("7"))), None);
    assert_eq!(side_from(None), None);
}

#[test]
fn depth_diffs_need_all_their_fields() {
    assert_eq!(
        depth_from_fields(Some(1), Some(2), Some(3), Some(4), Some(vec![]), Some(vec![])),
        Some(DepthDiff { time: 1, first_id: 2, final_id: 3, prev_final_id: 4, bids: vec![], asks: vec![] })
    );
    assert_eq!(depth_from_fields(None, Some(2), Some(3), Some(4), Some(vec![]), Some(vec![])), None);
    assert_eq!(depth_from_fields(Some(1), None, Some(3), Some(4), Some(vec![]), Some(vec![])), None);
    assert_eq!(depth_from_fields(Some(1), Some(2), None, Some(4), Some(vec![]), Some(vec![])), None);
    assert_eq!(depth_from_fields(Some(1), Some(2), Some(3), None, Some(vec![]), Some(vec![])), None);
    assert_eq!(depth_from_fields(Some(1), Some(2), Some(3), Some(4), None, Some(vec![])), None);
    assert_eq!(depth_from_fields(Some(1), Some(2), Some(3), Some(4), Some(vec![]), None), None);
    let members = vec![
        json_member("T", json_other("1")),
        json_member("U", json_other("2")),
        json_member("u", json_other("3")),
        json_member("pu", json_other("4")),
        json_member("b", json_other(r#"[["1","1"]]"#)),
        json_member("a", json_other("[]")),
    ];
    assert_eq!(
        depth_from(&members),
        Some(DepthDiff {
            time: 1,
            first_id: 2,
            final_id: 3,
            prev_final_id: 4,
            bids: vec![wire_level(100_000_000, 100_000_000)],
            asks: vec![],
        })
    );
}

#[test]
fn candles_need_all_their_fields() {
    let members = vec![
        json_member("t", json_other("9")),
        json_member("o", json_string("\"1\"", "1")),
        json_member("h", json_string("\"2\"", "2")),
        json_member("l", json_string("\"3\"", "3")),
        json_member("c", json_string("\"4\"", "4")),
        json_member("v", json_string("\"5\"", "5")),
        json_member("V", json_string("\"6\"", "6")),
        json_member("i", json_string("\"3m\"", "3m")),
    ];
    let kline = Kline {
        time: 9,
        open: Decimal { units: 100_000_000 },
        high: Decimal { units: 200_000_000 },
        low: Decimal { units: 300_000_000 },
        close: Decimal { units: 400_000_000 },
        volume: Decimal { units: 500_000_000 },
        buy_volume: Decimal { units: 600_000_000 },
    };
    assert_eq!(candle_from(&members), Some((kline, "3m".to_string())));
    for skipped in 0..members.len() {
        let mut fewer = members.clone();
        fewer.remove(skipped);
        assert_eq!(candle_from(&fewer), None);
    }
    let outer = vec![
        json_member("s", json_string("\"SOLUSDT\"", "SOLUSDT")),
        json_member(
            "k",
            json_other(r#"{"t":9,"o":"1","h":"2","l":"3","c":"4","v":"5","V":"6","i":"3m"}"#),
        ),
    ];
    assert_eq!(
        kline_from(&outer),
        Some(KlineUpdate { ticker: Ticker::SOLUSDT, kline, interval: "3m".to_string() })
    );
    assert_eq!(kline_from(&outer[..1].to_vec()), None);
    assert_eq!(kline_from(&outer[1..].to_vec()), None);
}
