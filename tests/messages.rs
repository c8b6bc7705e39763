use mexc_rs::deals::{
    channel_message_to_spot_deals_message, ChannelMessageToSpotDealsMessageError, SpotDealTradeType,
};
use mexc_rs::json::Json;
use mexc_rs::message::{ConversionError, Message, MessageError};
use mexc_rs::numeric::DecimalValue;
use mexc_rs::raw::{
    classify_event, decode_text, match_kline_data, BookTicker, DecodeError, RawChannelMessageData,
    RawEventChannelMessageData, RawMessage,
};
use rust_decimal::prelude::FromPrimitive;
use rust_decimal::Decimal;

const KLINE: &str = r#"
    {"d":{"e":"spot@public.kline.v3.api","k":{"t":1695680400,"o":"26288.47","c":"26289.11","h":"26289.12","l":"26288.46","v":"1.579991","a":"41535.11","T":1695680460,"i":"Min1"}},"c":"spot@public.kline.v3.api@BTCUSDT@Min1","t":1695680458622,"s":"BTCUSDT"}
"#;

const BOOK_TICKER: &str = r#"
    {"c":"spot@public.bookTicker.v3.api@SOLUSDT","d":{"A":"357.32","B":"691.97","a":"145.74","b":"145.72"},"s":"SOLUSDT","t":1749154079602}
"#;

fn dec(x: f64) -> DecimalValue {
    let d = Decimal::from_f64(x).unwrap();
    DecimalValue::new(d.mantissa(), d.scale())
}

#[test]
fn raw_message_kline() {
    let result = decode_text(KLINE);
    println!("{:?}", result);
    assert!(result.is_ok());
}

#[test]
fn raw_channel_message_kline() {
    let result = decode_text(KLINE);
    println!("{:?}", result);
    assert!(matches!(result, Ok(RawMessage::ChannelMessage(_))));
}

#[test]
fn raw_kline_data() {
    let json = r#"
        {"t":1695680400,"o":"26288.47","c":"26289.11","h":"26289.12","l":"26288.46","v":"1.579991","a":"41535.11","T":1695680460,"i":"Min1"}
    "#;
    let doc = Json::parse(json).unwrap();
    let result = match_kline_data(&doc);
    println!("{:?}", result);
    assert!(result.is_some());
}

#[test]
fn raw_event_data() {
    let json = r#"
        {"e":"spot@public.kline.v3.api","k":{"t":1695680400,"o":"26288.47","c":"26289.11","h":"26289.12","l":"26288.46","v":"1.579991","a":"41535.11","T":1695680460,"i":"Min1"}}
    "#;
    let doc = Json::parse(json).unwrap();
    let result = match &doc {
        Json::Object(fields) => classify_event(fields),
        _ => None,
    };
    println!("{:?}", result);
    assert!(result.is_some());
}

#[test]
fn raw_orders_update_data() {
    let json = r#"
        { "d":{ "r":"3407459756", "e":"spot@public.increase.depth.v3.api", "asks":[{ "p":"20290.89", "v":"0.000000"}]}, "c": "spot@public.increase.depth.v3.api@BTCUSDT", "s":"BTCUSDT", "t":1661932660144}
    "#;
    let result = decode_text(json);
    println!("{:?}", result);
    assert!(result.is_ok());
}

#[test]
fn raw_obook_ticker_data() {
    let result = decode_text(BOOK_TICKER);
    println!("{:?}", result);
    assert!(result.is_ok());

    let book_ticker = BookTicker {
        bid_price: dec(145.72),
        bid_quantity: dec(691.97),
        ask_price: dec(145.74),
        ask_quantity: dec(357.32),
    };

    let data = match result.unwrap() {
        RawMessage::ChannelMessage(m) => m.data,
        RawMessage::IdCodeMessage(_) => panic!("Expected BookTicker data"),
    };
    assert!(matches!(
        data,
        RawChannelMessageData::Event(RawEventChannelMessageData::BookTicker(_))
    ));

    if let RawChannelMessageData::Event(RawEventChannelMessageData::BookTicker(book_ticker_data)) = data {
        assert_eq!(book_ticker_data, book_ticker);
    } else {
        panic!("Expected BookTicker data");
    }
}

#[test]
fn kline_push_gives_kline_message() {
    match mexc_rs::message::message_from_text(KLINE) {
        Ok(Message::Kline(k)) => {
            assert_eq!(k.open, DecimalValue::new(2628847, 2));
            assert_eq!(k.close, DecimalValue::new(2628911, 2));
            assert_eq!(k.high, DecimalValue::new(2628912, 2));
            assert_eq!(k.low, DecimalValue::new(2628846, 2));
            assert_eq!(k.volume, DecimalValue::new(1579991, 6));
            assert_eq!(k.quote_volume, DecimalValue::new(4153511, 2));
            assert_eq!(k.interval, "Min1");
            assert_eq!(k.open_time, 1695680400);
            assert_eq!(k.close_time, 1695680460);
        }
        other => panic!("unexpected {:?}", other),
    }
}

#[test]
fn book_ticker_push_gives_exact_decimals() {
    match mexc_rs::message::message_from_text(BOOK_TICKER) {
        Ok(Message::BookTicker(b)) => {
            assert_eq!(b.bid_price, DecimalValue::new(14572, 2));
            assert_eq!(b.bid_quantity, DecimalValue::new(69197, 2));
            assert_eq!(b.ask_price, DecimalValue::new(14574, 2));
            assert_eq!(b.ask_quantity, DecimalValue::new(35732, 2));
        }
        other => panic!("unexpected {:?}", other),
    }
}

const DEALS_NO_SYMBOL: &str = r#"{"c":"spot@public.deals.v3.api@BTCUSDT","d":{"deals":[{"S":1,"p":"26000.5","t":1695680458622,"v":"0.01"}],"e":"spot@public.deals.v3.api"},"t":1695680458622}"#;

#[test]
fn deals_without_symbol_is_missing_symbol() {
    let raw = decode_text(DEALS_NO_SYMBOL).unwrap();
    let m = match &raw {
        RawMessage::ChannelMessage(m) => m,
        _ => panic!("expected a channel push"),
    };
    let r = channel_message_to_spot_deals_message(m);
    assert!(matches!(r, Err(ChannelMessageToSpotDealsMessageError::MissingSymbol)));
    assert_eq!(
        ChannelMessageToSpotDealsMessageError::MissingSymbol.message(),
        "Missing symbol"
    );
    assert!(matches!(
        mexc_rs::message::message_from_text(DEALS_NO_SYMBOL),
        Err(MessageError::Conversion(ConversionError::MissingSymbol))
    ));
}

#[test]
fn deals_carry_symbol_and_trade_type() {
    let text = r#"{"c":"spot@public.deals.v3.api@BTCUSDT","d":{"deals":[{"S":1,"p":"26000.5","t":1695680458622,"v":"0.01"},{"S":2,"p":"26000.4","t":1695680458623,"v":"0.02"},{"S":9,"p":"26000.3","t":1695680458624,"v":"0.03"}],"e":"spot@public.deals.v3.api"},"s":"BTCUSDT","t":1695680458000}"#;
    match mexc_rs::message::message_from_text(text) {
        Ok(Message::Deals(d)) => {
            assert_eq!(d.deals.len(), 3);
            assert!(d.deals.iter().all(|x| x.symbol == "BTCUSDT"));
            assert_eq!(d.deals[0].trade_type, SpotDealTradeType::Buy);
            assert_eq!(d.deals[1].trade_type, SpotDealTradeType::Sell);
            assert_eq!(d.deals[2].trade_type, SpotDealTradeType::Unknown(9));
            assert_eq!(d.deals[0].price, DecimalValue::new(260005, 1));
            assert_eq!(d.deals[1].quantity, DecimalValue::new(2, 2));
            assert_eq!(d.deals[2].timestamp, 1695680458624);
        }
        other => panic!("unexpected {:?}", other),
    }
}

#[test]
fn trade_type_codes() {
    assert_eq!(SpotDealTradeType::from(1), SpotDealTradeType::Buy);
    assert_eq!(SpotDealTradeType::from(2), SpotDealTradeType::Sell);
    assert_eq!(SpotDealTradeType::from(9), SpotDealTradeType::Unknown(9));
    assert_eq!(SpotDealTradeType::from(0), SpotDealTradeType::Unknown(0));
}

#[test]
fn orders_update_keeps_levels() {
    let text = r#"{"d":{"r":"3407459756","e":"spot@public.increase.depth.v3.api","asks":[{"p":"20290.89","v":"0.000000"}]},"c":"spot@public.increase.depth.v3.api@BTCUSDT","s":"BTCUSDT","t":1661932660144}"#;
    match mexc_rs::message::message_from_text(text) {
        Ok(Message::OrderbookUpdate(u)) => {
            assert_eq!(u.version, "3407459756");
            assert!(u.bids.is_none());
            let asks = u.asks.unwrap();
            assert_eq!(asks.len(), 1);
            assert_eq!(asks[0].price, DecimalValue::new(2029089, 2));
            assert_eq!(asks[0].quantity, DecimalValue::new(0, 6));
        }
        other => panic!("unexpected {:?}", other),
    }
}

#[test]
fn account_deals_push() {
    let text = r#"{"c":"spot@private.deals.v3.api","d":{"S":1,"T":1678670940695,"a":"0.72","c":"","i":"7c3a","m":0,"p":"1.8","st":0,"t":"5e31","v":"0.4"},"s":"MXUSDT","t":1678670940700}"#;
    match mexc_rs::message::message_from_text(text) {
        Ok(Message::AccountDeals(d)) => {
            assert_eq!(d.symbol, "MXUSDT");
            assert_eq!(d.price, DecimalValue::new(18, 1));
            assert_eq!(d.quantity, DecimalValue::new(4, 1));
            assert_eq!(d.amount, DecimalValue::new(72, 2));
            assert_eq!(d.trade_type, SpotDealTradeType::Buy);
            assert_eq!(d.time, 1678670940695);
            assert_eq!(d.trade_id, "5e31");
            assert_eq!(d.order_id, "7c3a");
        }
        other => panic!("unexpected {:?}", other),
    }
}

#[test]
fn account_update_push() {
    let text = r#"{"c":"spot@private.account.v3.api","d":{"a":"USDT","c":1678185928428,"f":"302.18","fd":"-4.99","l":"4.99","ld":"4.99","o":"ENTRUST_PLACE"},"t":1678185928435}"#;
    match mexc_rs::message::message_from_text(text) {
        Ok(Message::AccountUpdate(u)) => {
            assert_eq!(u.asset, "USDT");
            assert_eq!(u.change_time, 1678185928428);
            assert_eq!(u.free, DecimalValue::new(30218, 2));
            assert_eq!(u.locked, DecimalValue::new(499, 2));
            assert_eq!(u.change_type, "ENTRUST_PLACE");
        }
        other => panic!("unexpected {:?}", other),
    }
}

#[test]
fn account_orders_push_needs_symbol() {
    let with = r#"{"c":"spot@private.orders.v3.api","d":{"i":"e03a","p":"0.8","v":"10","S":2,"s":1,"O":1661938138000},"s":"MXUSDT","t":1661938138193}"#;
    match mexc_rs::message::message_from_text(with) {
        Ok(Message::AccountOrders(o)) => {
            assert_eq!(o.symbol, "MXUSDT");
            assert_eq!(o.order_id, "e03a");
            assert_eq!(o.price, DecimalValue::new(8, 1));
            assert_eq!(o.quantity, DecimalValue::new(10, 0));
            assert_eq!(o.trade_type, SpotDealTradeType::Sell);
            assert_eq!(o.status, 1);
            assert_eq!(o.create_time, 1661938138000);
        }
        other => panic!("unexpected {:?}", other),
    }
    let without = r#"{"c":"spot@private.orders.v3.api","d":{"i":"e03a","p":"0.8","v":"10","S":2,"s":1,"O":1661938138000},"t":1661938138193}"#;
    assert!(matches!(
        mexc_rs::message::message_from_text(without),
        Err(MessageError::Conversion(ConversionError::MissingSymbol))
    ));
}

#[test]
fn acknowledgement_is_status_not_event() {
    let text = r#"{"id":0,"code":0,"msg":"spot@public.deals.v3.api@BTCUSDT"}"#;
    match decode_text(text) {
        Ok(RawMessage::IdCodeMessage(a)) => {
            assert_eq!(a.id, 0);
            assert_eq!(a.code, 0);
            assert_eq!(a.message, "spot@public.deals.v3.api@BTCUSDT");
        }
        other => panic!("unexpected {:?}", other),
    }
    assert!(matches!(
        mexc_rs::message::message_from_text(text),
        Err(MessageError::Conversion(ConversionError::StatusMessage))
    ));
}

#[test]
fn malformed_text_is_kept_in_error() {
    match decode_text("{not json") {
        Err(DecodeError::Malformed(s)) => assert_eq!(s, "{not json"),
        other => panic!("unexpected {:?}", other),
    }
}

#[test]
fn unknown_shape_is_unrecognized() {
    assert!(matches!(decode_text(r#"{"x":1}"#), Err(DecodeError::Unrecognized(_))));
    assert!(matches!(decode_text("[1,2]"), Err(DecodeError::Unrecognized(_))));
}

#[test]
fn unknown_payload_is_unclassified() {
    let text = r#"{"c":"spot@public.other.v3.api@BTCUSDT","d":{"z":"1"},"s":"BTCUSDT","t":1661932660144}"#;
    assert!(matches!(decode_text(text), Err(DecodeError::UnclassifiedPayload(_))));
}

#[test]
fn bad_decimal_fails_shape() {
    let text = r#"{"c":"spot@public.bookTicker.v3.api@SOLUSDT","d":{"A":"x","B":"691.97","a":"145.74","b":"145.72"},"s":"SOLUSDT","t":1749154079602}"#;
    assert!(matches!(decode_text(text), Err(DecodeError::UnclassifiedPayload(_))));
}

#[test]
fn out_of_range_timestamp_is_rejected() {
    let text = r#"{"c":"spot@public.bookTicker.v3.api@SOLUSDT","d":{"A":"357.32","B":"691.97","a":"145.74","b":"145.72"},"s":"SOLUSDT","t":9223372036854775807}"#;
    assert!(matches!(decode_text(text), Err(DecodeError::Unrecognized(_))));
}

#[test]
fn parse_keeps_large_numbers_as_text() {
    match Json::parse("18446744073709551615") {
        Some(Json::Number(t)) => assert_eq!(t, "18446744073709551615"),
        other => panic!("unexpected {:?}", other),
    }
    assert!(matches!(Json::parse("-7"), Some(Json::Int(-7))));
}
