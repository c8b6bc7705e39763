use vstd::prelude::*;
use vstd::string::*;
use crate::json::{
    decimal_at, decimal_field, field_of, get_field, i32_at, i32_field, i64_at, i64_field, millis_at,
    millis_field, opt_str_at, opt_str_field, str_at, str_field, json_document, parse_json, Json,
    JsonField,
};
use crate::numeric::DecimalValue;

verus! {

/// Acknowledgement of a request: never carries market data.
#[derive(Debug)]
pub struct RawIdCodeMessage {
    pub id: i32,
    pub code: i32,
    pub message: String,
}

/// A push on a channel.
#[derive(Debug)]
pub struct RawChannelMessage {
    pub channel: String,
    pub data: RawChannelMessageData,
    pub symbol: Option<String>,
    /// Milliseconds since the epoch.
    pub timestamp: i64,
}

/// The two top-level envelope shapes.
#[derive(Debug)]
pub enum RawMessage {
    IdCodeMessage(RawIdCodeMessage),
    ChannelMessage(RawChannelMessage),
}

/// What a channel push carries, told apart by its fields.
#[derive(Debug)]
pub enum RawChannelMessageData {
    AccountDeals(RawAccountDealsData),
    AccountUpdate(RawAccountUpdateData),
    AccountOrders(RawAccountOrdersChannelMessageData),
    Event(RawEventChannelMessageData),
}

/// Public market data, told apart by its fields.
#[derive(Debug)]
pub enum RawEventChannelMessageData {
    Deals { deals: Vec<RawSpotDealData>, event_type: String },
    Kline { k: RawKlineData, event_type: String },
    OrdersUpdate {
        asks: Option<Vec<OrderbookLevel>>,
        bids: Option<Vec<OrderbookLevel>>,
        version: String,
        event_type: String,
    },
    BookTicker(BookTicker),
}

/// One trade of a deals push.
#[derive(Debug, Clone, Copy, PartialEq, Eq, Structural)]
pub struct RawSpotDealData {
    pub price: DecimalValue,
    pub quantity: DecimalValue,
    /// Milliseconds since the epoch.
    pub timestamp: i64,
    pub trade_type: i32,
}

/// One price level of a depth delta; a zero quantity removes the level.
#[derive(Debug, Clone, Copy, PartialEq, Eq, Structural)]
pub struct OrderbookLevel {
    pub price: DecimalValue,
    pub quantity: DecimalValue,
}

/// One candle.
#[derive(Debug, Clone, PartialEq, Eq)]
pub struct RawKlineData {
    pub open_time: i64,
    pub open: DecimalValue,
    pub close: DecimalValue,
    pub high: DecimalValue,
    pub low: DecimalValue,
    pub volume: DecimalValue,
    pub quote_volume: DecimalValue,
    pub close_time: i64,
    pub interval: String,
}

/// Best bid and ask.
#[derive(Debug, Clone, Copy, PartialEq, Eq, Structural)]
pub struct BookTicker {
    pub bid_price: DecimalValue,
    pub bid_quantity: DecimalValue,
    pub ask_price: DecimalValue,
    pub ask_quantity: DecimalValue,
}

/// A fill of one of the account's orders.
#[derive(Debug, Clone, PartialEq, Eq)]
pub struct RawAccountDealsData {
    pub price: DecimalValue,
    pub quantity: DecimalValue,
    pub amount: DecimalValue,
    pub trade_type: i32,
    /// Milliseconds since the epoch.
    pub time: i64,
    pub trade_id: String,
    pub order_id: String,
}

/// A change of one of the account's balances.
#[derive(Debug, Clone, PartialEq, Eq)]
pub struct RawAccountUpdateData {
    pub asset: String,
    /// Milliseconds since the epoch.
    pub change_time: i64,
    pub free: DecimalValue,
    pub locked: DecimalValue,
    pub change_type: String,
}

/// A change of one of the account's orders.
#[derive(Debug, Clone, PartialEq, Eq)]
pub struct RawAccountOrdersChannelMessageData {
    pub order_id: String,
    pub price: DecimalValue,
    pub quantity: DecimalValue,
    pub trade_type: i32,
    pub status: i32,
    /// Milliseconds since the epoch.
    pub create_time: i64,
}

// ---------------------------------------------------------------- shapes

pub open spec fn deal_data_of(v: Json) -> Option<RawSpotDealData> {
    match v {
        Json::Object(fs) => {
            let p = decimal_at(fs@, "p"@);
            let q = decimal_at(fs@, "v"@);
            let t = millis_at(fs@, "t"@);
            let s = i32_at(fs@, "S"@);
            if p is Some && q is Some && t is Some && s is Some {
                Some(RawSpotDealData { price: p->0, quantity: q->0, timestamp: t->0, trade_type: s->0 })
            } else {
                None
            }
        },
        _ => None,
    }
}

pub open spec fn level_of(v: Json) -> Option<OrderbookLevel> {
    match v {
        Json::Object(fs) => {
            let p = decimal_at(fs@, "p"@);
            let q = decimal_at(fs@, "v"@);
            if p is Some && q is Some {
                Some(OrderbookLevel { price: p->0, quantity: q->0 })
            } else {
                None
            }
        },
        _ => None,
    }
}

pub open spec fn kline_data_of(v: Json) -> Option<RawKlineData> {
    match v {
        Json::Object(fs) => {
            let t = i64_at(fs@, "t"@);
            let o = decimal_at(fs@, "o"@);
            let c = decimal_at(fs@, "c"@);
            let h = decimal_at(fs@, "h"@);
            let l = decimal_at(fs@, "l"@);
            let vol = decimal_at(fs@, "v"@);
            let a = decimal_at(fs@, "a"@);
            let ct = i64_at(fs@, "T"@);
            let i = str_at(fs@, "i"@);
            if t is Some && o is Some && c is Some && h is Some && l is Some && vol is Some
                && a is Some && ct is Some && i is Some {
                Some(
                    RawKlineData {
                        open_time: t->0,
                        open: o->0,
                        close: c->0,
                        high: h->0,
                        low: l->0,
                        volume: vol->0,
                        quote_volume: a->0,
                        close_time: ct->0,
                        interval: i->0,
                    },
                )
            } else {
                None
            }
        },
        _ => None,
    }
}

pub open spec fn book_ticker_of(fs: Seq<JsonField>) -> Option<BookTicker> {
    let b = decimal_at(fs, "b"@);
    let bq = decimal_at(fs, "B"@);
    let a = decimal_at(fs, "a"@);
    let aq = decimal_at(fs, "A"@);
    if b is Some && bq is Some && a is Some && aq is Some {
        Some(BookTicker { bid_price: b->0, bid_quantity: bq->0, ask_price: a->0, ask_quantity: aq->0 })
    } else {
        None
    }
}

pub open spec fn account_deals_of(fs: Seq<JsonField>) -> Option<RawAccountDealsData> {
    let p = decimal_at(fs, "p"@);
    let q = decimal_at(fs, "v"@);
    let a = decimal_at(fs, "a"@);
    let s = i32_at(fs, "S"@);
    let t = millis_at(fs, "T"@);
    let tid = str_at(fs, "t"@);
    let oid = str_at(fs, "i"@);
    if p is Some && q is Some && a is Some && s is Some && t is Some && tid is Some && oid is Some {
        Some(
            RawAccountDealsData {
                price: p->0,
                quantity: q->0,
                amount: a->0,
                trade_type: s->0,
                time: t->0,
                trade_id: tid->0,
                order_id: oid->0,
            },
        )
    } else {
        None
    }
}

pub open spec fn account_update_of(fs: Seq<JsonField>) -> Option<RawAccountUpdateData> {
    let asset = str_at(fs, "a"@);
    let c = millis_at(fs, "c"@);
    let f = decimal_at(fs, "f"@);
    let l = decimal_at(fs, "l"@);
    let o = str_at(fs, "o"@);
    if asset is Some && c is Some && f is Some && l is Some && o is Some {
        Some(
            RawAccountUpdateData {
                asset: asset->0,
                change_time: c->0,
                free: f->0,
                locked: l->0,
                change_type: o->0,
            },
        )
    } else {
        None
    }
}

pub open spec fn account_orders_of(fs: Seq<JsonField>) -> Option<RawAccountOrdersChannelMessageData> {
    let i = str_at(fs, "i"@);
    let p = decimal_at(fs, "p"@);
    let q = decimal_at(fs, "v"@);
    let s = i32_at(fs, "S"@);
    let st = i32_at(fs, "s"@);
    let o = millis_at(fs, "O"@);
    if i is Some && p is Some && q is Some && s is Some && st is Some && o is Some {
        Some(
            RawAccountOrdersChannelMessageData {
                order_id: i->0,
                price: p->0,
                quantity: q->0,
                trade_type: s->0,
                status: st->0,
                create_time: o->0,
            },
        )
    } else {
        None
    }
}

pub open spec fn deal_list_of(items: Seq<Json>) -> Option<Seq<RawSpotDealData>> {
    if forall|j: int| 0 <= j < items.len() ==> (#[trigger] deal_data_of(items[j])) is Some {
        Some(Seq::new(items.len(), |j: int| deal_data_of(items[j])->0))
    } else {
        None
    }
}

pub open spec fn level_list_of(items: Seq<Json>) -> Option<Seq<OrderbookLevel>> {
    if forall|j: int| 0 <= j < items.len() ==> (#[trigger] level_of(items[j])) is Some {
        Some(Seq::new(items.len(), |j: int| level_of(items[j])->0))
    } else {
        None
    }
}

/// An optional list of price levels: absent or `null` gives `Some(None)`.
pub open spec fn opt_levels_at(fs: Seq<JsonField>, key: Seq<char>) -> Option<Option<Seq<OrderbookLevel>>> {
    match field_of(fs, key) {
        None => Some(None),
        Some(Json::Null) => Some(None),
        Some(Json::Array(a)) => match level_list_of(a@) {
            Some(l) => Some(Some(l)),
            None => None,
        },
        _ => None,
    }
}

pub open spec fn deals_list_at(fs: Seq<JsonField>) -> Option<Seq<RawSpotDealData>> {
    match field_of(fs, "deals"@) {
        Some(Json::Array(a)) => deal_list_of(a@),
        _ => None,
    }
}

pub open spec fn kline_at(fs: Seq<JsonField>) -> Option<RawKlineData> {
    match field_of(fs, "k"@) {
        Some(k) => kline_data_of(k),
        None => None,
    }
}

pub open spec fn is_deals_shape(fs: Seq<JsonField>) -> bool {
    deals_list_at(fs) is Some && str_at(fs, "e"@) is Some
}

pub open spec fn is_kline_shape(fs: Seq<JsonField>) -> bool {
    kline_at(fs) is Some && str_at(fs, "e"@) is Some
}

pub open spec fn is_orders_update_shape(fs: Seq<JsonField>) -> bool {
    opt_levels_at(fs, "asks"@) is Some && opt_levels_at(fs, "bids"@) is Some && str_at(fs, "r"@) is Some
        && str_at(fs, "e"@) is Some
}

/// Whether an object has one of the public market-data shapes.
pub open spec fn is_event_shape(fs: Seq<JsonField>) -> bool {
    is_deals_shape(fs) || is_kline_shape(fs) || is_orders_update_shape(fs) || book_ticker_of(fs) is Some
}

pub open spec fn opt_view(o: Option<Vec<OrderbookLevel>>) -> Option<Seq<OrderbookLevel>> {
    match o {
        Some(v) => Some(v@),
        None => None,
    }
}

/// `r` is what an object reads as under the market-data shapes, tried in the
/// order deals, kline, depth delta, book ticker.
pub open spec fn event_read_as(fs: Seq<JsonField>, r: RawEventChannelMessageData) -> bool {
    if is_deals_shape(fs) {
        match r {
            RawEventChannelMessageData::Deals { deals, event_type } => deals@ == deals_list_at(fs)->0
                && event_type == str_at(fs, "e"@)->0,
            _ => false,
        }
    } else if is_kline_shape(fs) {
        r == (RawEventChannelMessageData::Kline { k: kline_at(fs)->0, event_type: str_at(fs, "e"@)->0 })
    } else if is_orders_update_shape(fs) {
        match r {
            RawEventChannelMessageData::OrdersUpdate { asks, bids, version, event_type } => opt_view(asks)
                == opt_levels_at(fs, "asks"@)->0 && opt_view(bids) == opt_levels_at(fs, "bids"@)->0
                && version == str_at(fs, "r"@)->0 && event_type == str_at(fs, "e"@)->0,
            _ => false,
        }
    } else if book_ticker_of(fs) is Some {
        r == RawEventChannelMessageData::BookTicker(book_ticker_of(fs)->0)
    } else {
        false
    }
}

/// Whether an object has one of the shapes a channel push may carry.
pub open spec fn is_payload_shape(fs: Seq<JsonField>) -> bool {
    account_deals_of(fs) is Some || account_update_of(fs) is Some || account_orders_of(fs) is Some
        || is_event_shape(fs)
}

/// `r` is what an object reads as under the payload shapes, tried in the
/// order account deals, account update, account orders, market data.
pub open spec fn payload_read_as(fs: Seq<JsonField>, r: RawChannelMessageData) -> bool {
    if account_deals_of(fs) is Some {
        r == RawChannelMessageData::AccountDeals(account_deals_of(fs)->0)
    } else if account_update_of(fs) is Some {
        r == RawChannelMessageData::AccountUpdate(account_update_of(fs)->0)
    } else if account_orders_of(fs) is Some {
        r == RawChannelMessageData::AccountOrders(account_orders_of(fs)->0)
    } else {
        match r {
            RawChannelMessageData::Event(e) => event_read_as(fs, e),
            _ => false,
        }
    }
}

/// The acknowledgement shape: `id`, `code` and `msg`.
pub open spec fn status_of(fs: Seq<JsonField>) -> Option<RawIdCodeMessage> {
    let id = i32_at(fs, "id"@);
    let code = i32_at(fs, "code"@);
    let msg = str_at(fs, "msg"@);
    if id is Some && code is Some && msg is Some {
        Some(RawIdCodeMessage { id: id->0, code: code->0, message: msg->0 })
    } else {
        None
    }
}

/// The members of a channel push but its payload: `c`, `s`, `t`, and some `d`.
pub open spec fn is_channel_head(fs: Seq<JsonField>) -> bool {
    str_at(fs, "c"@) is Some && opt_str_at(fs, "s"@) is Some && millis_at(fs, "t"@) is Some
        && field_of(fs, "d"@) is Some
}

pub open spec fn payload_fields(fs: Seq<JsonField>) -> Option<Seq<JsonField>> {
    match field_of(fs, "d"@) {
        Some(Json::Object(d)) => Some(d@),
        _ => None,
    }
}

/// The channel-push shape, payload included.
pub open spec fn is_channel_shape(fs: Seq<JsonField>) -> bool {
    is_channel_head(fs) && payload_fields(fs) is Some && is_payload_shape(payload_fields(fs)->0)
}

pub open spec fn channel_read_as(fs: Seq<JsonField>, m: RawChannelMessage) -> bool {
    m.channel == str_at(fs, "c"@)->0 && m.symbol == opt_str_at(fs, "s"@)->0 && m.timestamp == millis_at(
        fs,
        "t"@,
    )->0 && payload_read_as(payload_fields(fs)->0, m.data)
}

// ---------------------------------------------------------------- matchers

pub fn match_deal_data(v: &Json) -> (r: Option<RawSpotDealData>)
    ensures
        r == deal_data_of(*v),
{
    match v {
        Json::Object(fs) => {
            let p = decimal_field(fs, "p");
            let q = decimal_field(fs, "v");
            let t = millis_field(fs, "t");
            let s = i32_field(fs, "S");
            if p.is_some() && q.is_some() && t.is_some() && s.is_some() {
                Some(
                    RawSpotDealData {
                        price: p.unwrap(),
                        quantity: q.unwrap(),
                        timestamp: t.unwrap(),
                        trade_type: s.unwrap(),
                    },
                )
            } else {
                None
            }
        },
        _ => None,
    }
}

pub fn match_level(v: &Json) -> (r: Option<OrderbookLevel>)
    ensures
        r == level_of(*v),
{
    match v {
        Json::Object(fs) => {
            let p = decimal_field(fs, "p");
            let q = decimal_field(fs, "v");
            if p.is_some() && q.is_some() {
                Some(OrderbookLevel { price: p.unwrap(), quantity: q.unwrap() })
            } else {
                None
            }
        },
        _ => None,
    }
}

pub fn match_kline_data(v: &Json) -> (r: Option<RawKlineData>)
    ensures
        r == kline_data_of(*v),
{
    match v {
        Json::Object(fs) => {
            let t = i64_field(fs, "t");
            let o = decimal_field(fs, "o");
            let c = decimal_field(fs, "c");
            let h = decimal_field(fs, "h");
            let l = decimal_field(fs, "l");
            let vol = decimal_field(fs, "v");
            let a = decimal_field(fs, "a");
            let ct = i64_field(fs, "T");
            let i = str_field(fs, "i");
            if t.is_some() && o.is_some() && c.is_some() && h.is_some() && l.is_some()
                && vol.is_some() && a.is_some() && ct.is_some() && i.is_some() {
                Some(
                    RawKlineData {
                        open_time: t.unwrap(),
                        open: o.unwrap(),
                        close: c.unwrap(),
                        high: h.unwrap(),
                        low: l.unwrap(),
                        volume: vol.unwrap(),
                        quote_volume: a.unwrap(),
                        close_time: ct.unwrap(),
                        interval: i.unwrap(),
                    },
                )
            } else {
                None
            }
        },
        _ => None,
    }
}

pub fn match_book_ticker(fs: &Vec<JsonField>) -> (r: Option<BookTicker>)
    ensures
        r == book_ticker_of(fs@),
{
    let b = decimal_field(fs, "b");
    let bq = decimal_field(fs, "B");
    let a = decimal_field(fs, "a");
    let aq = decimal_field(fs, "A");
    if b.is_some() && bq.is_some() && a.is_some() && aq.is_some() {
        Some(
            BookTicker {
                bid_price: b.unwrap(),
                bid_quantity: bq.unwrap(),
                ask_price: a.unwrap(),
                ask_quantity: aq.unwrap(),
            },
        )
    } else {
        None
    }
}

pub fn match_account_deals(fs: &Vec<JsonField>) -> (r: Option<RawAccountDealsData>)
    ensures
        r == account_deals_of(fs@),
{
    let p = decimal_field(fs, "p");
    let q = decimal_field(fs, "v");
    let a = decimal_field(fs, "a");
    let s = i32_field(fs, "S");
    let t = millis_field(fs, "T");
    let tid = str_field(fs, "t");
    let oid = str_field(fs, "i");
    if p.is_some() && q.is_some() && a.is_some() && s.is_some() && t.is_some() && tid.is_some()
        && oid.is_some() {
        Some(
            RawAccountDealsData {
                price: p.unwrap(),
                quantity: q.unwrap(),
                amount: a.unwrap(),
                trade_type: s.unwrap(),
                time: t.unwrap(),
                trade_id: tid.unwrap(),
                order_id: oid.unwrap(),
            },
        )
    } else {
        None
    }
}

pub fn match_account_update(fs: &Vec<JsonField>) -> (r: Option<RawAccountUpdateData>)
    ensures
        r == account_update_of(fs@),
{
    let asset = str_field(fs, "a");
    let c = millis_field(fs, "c");
    let f = decimal_field(fs, "f");
    let l = decimal_field(fs, "l");
    let o = str_field(fs, "o");
    if asset.is_some() && c.is_some() && f.is_some() && l.is_some() && o.is_some() {
        Some(
            RawAccountUpdateData {
                asset: asset.unwrap(),
                change_time: c.unwrap(),
                free: f.unwrap(),
                locked: l.unwrap(),
                change_type: o.unwrap(),
            },
        )
    } else {
        None
    }
}

pub fn match_account_orders(fs: &Vec<JsonField>) -> (r: Option<RawAccountOrdersChannelMessageData>)
    ensures
        r == account_orders_of(fs@),
{
    let i = str_field(fs, "i");
    let p = decimal_field(fs, "p");
    let q = decimal_field(fs, "v");
    let s = i32_field(fs, "S");
    let st = i32_field(fs, "s");
    let o = millis_field(fs, "O");
    if i.is_some() && p.is_some() && q.is_some() && s.is_some() && st.is_some() && o.is_some() {
        Some(
            RawAccountOrdersChannelMessageData {
                order_id: i.unwrap(),
                price: p.unwrap(),
                quantity: q.unwrap(),
                trade_type: s.unwrap(),
                status: st.unwrap(),
                create_time: o.unwrap(),
            },
        )
    } else {
        None
    }
}

pub fn match_deal_list(items: &Vec<Json>) -> (r: Option<Vec<RawSpotDealData>>)
    ensures
        match r {
            Some(out) => deal_list_of(items@) == Some(out@),
            None => deal_list_of(items@) is None,
        },
{
    let mut out: Vec<RawSpotDealData> = Vec::new();
    let mut i: usize = 0;
    while i < items.len()
        invariant
            i <= items.len(),
            out@.len() == i,
            forall|j: int| 0 <= j < i ==> deal_data_of(#[trigger] items@[j]) == Some(out@[j]),
        decreases items.len() - i,
    {
        match match_deal_data(&items[i]) {
            Some(d) => out.push(d),
            None => {
                return None;
            },
        }
        i += 1;
    }
    assert(out@ =~= Seq::new(items@.len(), |j: int| deal_data_of(items@[j])->0));
    Some(out)
}

pub fn match_level_list(items: &Vec<Json>) -> (r: Option<Vec<OrderbookLevel>>)
    ensures
        match r {
            Some(out) => level_list_of(items@) == Some(out@),
            None => level_list_of(items@) is None,
        },
{
    let mut out: Vec<OrderbookLevel> = Vec::new();
    let mut i: usize = 0;
    while i < items.len()
        invariant
            i <= items.len(),
            out@.len() == i,
            forall|j: int| 0 <= j < i ==> level_of(#[trigger] items@[j]) == Some(out@[j]),
        decreases items.len() - i,
    {
        match match_level(&items[i]) {
            Some(d) => out.push(d),
            None => {
                return None;
            },
        }
        i += 1;
    }
    assert(out@ =~= Seq::new(items@.len(), |j: int| level_of(items@[j])->0));
    Some(out)
}

fn match_opt_levels(fs: &Vec<JsonField>, name: &str) -> (r: Option<Option<Vec<OrderbookLevel>>>)
    ensures
        match r {
            None => opt_levels_at(fs@, name@) is None,
            Some(o) => opt_levels_at(fs@, name@) == Some(opt_view(o)),
        },
{
    match get_field(fs, name) {
        None => Some(None),
        Some(Json::Null) => Some(None),
        Some(Json::Array(a)) => match match_level_list(a) {
            Some(l) => Some(Some(l)),
            None => None,
        },
        _ => None,
    }
}

/// Reads an object as public market data, trying the shapes in the order
/// deals, kline, depth delta, book ticker.
pub fn classify_event(fs: &Vec<JsonField>) -> (r: Option<RawEventChannelMessageData>)
    ensures
        match r {
            Some(e) => event_read_as(fs@, e),
            None => !is_event_shape(fs@),
        },
{
    let e = str_field(fs, "e");
    if let Some(Json::Array(a)) = get_field(fs, "deals") {
        if let Some(deals) = match_deal_list(a) {
            if let Some(t) = e {
                return Some(RawEventChannelMessageData::Deals { deals, event_type: t });
            }
        }
    }
    if let Some(k) = get_field(fs, "k") {
        if let Some(k) = match_kline_data(k) {
            if let Some(t) = str_field(fs, "e") {
                return Some(RawEventChannelMessageData::Kline { k, event_type: t });
            }
        }
    }
    let asks = match_opt_levels(fs, "asks");
    let bids = match_opt_levels(fs, "bids");
    let version = str_field(fs, "r");
    let e = str_field(fs, "e");
    if asks.is_some() && bids.is_some() && version.is_some() && e.is_some() {
        return Some(
            RawEventChannelMessageData::OrdersUpdate {
                asks: asks.unwrap(),
                bids: bids.unwrap(),
                version: version.unwrap(),
                event_type: e.unwrap(),
            },
        );
    }
    match match_book_ticker(fs) {
        Some(b) => Some(RawEventChannelMessageData::BookTicker(b)),
        None => None,
    }
}

/// Reads an object as a channel payload, trying the shapes in the order
/// account deals, account update, account orders, market data.
pub fn classify_payload(fs: &Vec<JsonField>) -> (r: Option<RawChannelMessageData>)
    ensures
        match r {
            Some(d) => payload_read_as(fs@, d),
            None => !is_payload_shape(fs@),
        },
{
    if let Some(d) = match_account_deals(fs) {
        return Some(RawChannelMessageData::AccountDeals(d));
    }
    if let Some(u) = match_account_update(fs) {
        return Some(RawChannelMessageData::AccountUpdate(u));
    }
    if let Some(o) = match_account_orders(fs) {
        return Some(RawChannelMessageData::AccountOrders(o));
    }
    match classify_event(fs) {
        Some(e) => Some(RawChannelMessageData::Event(e)),
        None => None,
    }
}

/// Why a document was not read as an envelope.
#[derive(Debug)]
pub enum DecodeError {
    /// The document has neither envelope shape.
    Unrecognized(Json),
    /// The document has the channel-push members, but its payload has none of
    /// the known shapes.
    UnclassifiedPayload(Json),
    /// The text is not a JSON document.
    Malformed(String),
}

/// `r` is what reading `v` as an envelope gives: the acknowledgement shape is
/// tried first, then the channel-push shape.
pub open spec fn decoded_as(v: Json, r: Result<RawMessage, DecodeError>) -> bool {
    match v {
        Json::Object(fs) => if status_of(fs@) is Some {
            r == Ok::<RawMessage, DecodeError>(RawMessage::IdCodeMessage(status_of(fs@)->0))
        } else if is_channel_shape(fs@) {
            r matches Ok(RawMessage::ChannelMessage(m)) && channel_read_as(fs@, m)
        } else if is_channel_head(fs@) {
            r == Err::<RawMessage, DecodeError>(DecodeError::UnclassifiedPayload(v))
        } else {
            r == Err::<RawMessage, DecodeError>(DecodeError::Unrecognized(v))
        },
        _ => r == Err::<RawMessage, DecodeError>(DecodeError::Unrecognized(v)),
    }
}

/// Reads a document as an envelope, or says whether it has at least the
/// members of a channel push around its payload.
fn decode_ref(v: &Json) -> (r: Result<RawMessage, bool>)
    ensures
        match *v {
            Json::Object(fs) => if status_of(fs@) is Some {
                r == Ok::<RawMessage, bool>(RawMessage::IdCodeMessage(status_of(fs@)->0))
            } else if is_channel_shape(fs@) {
                r matches Ok(RawMessage::ChannelMessage(m)) && channel_read_as(fs@, m)
            } else {
                r == Err::<RawMessage, bool>(is_channel_head(fs@))
            },
            _ => r == Err::<RawMessage, bool>(false),
        },
{
    match v {
        Json::Object(fs) => {
            let id = i32_field(fs, "id");
            let code = i32_field(fs, "code");
            let msg = str_field(fs, "msg");
            if id.is_some() && code.is_some() && msg.is_some() {
                return Ok(
                    RawMessage::IdCodeMessage(
                        RawIdCodeMessage { id: id.unwrap(), code: code.unwrap(), message: msg.unwrap() },
                    ),
                );
            }
            let channel = str_field(fs, "c");
            let symbol = opt_str_field(fs, "s");
            let timestamp = millis_field(fs, "t");
            let data = get_field(fs, "d");
            if channel.is_none() || symbol.is_none() || timestamp.is_none() || data.is_none() {
                return Err(false);
            }
            let data = match data {
                Some(Json::Object(d)) => classify_payload(d),
                _ => None,
            };
            match data {
                Some(data) => Ok(
                    RawMessage::ChannelMessage(
                        RawChannelMessage {
                            channel: channel.unwrap(),
                            data,
                            symbol: symbol.unwrap(),
                            timestamp: timestamp.unwrap(),
                        },
                    ),
                ),
                None => Err(true),
            }
        },
        _ => Err(false),
    }
}

/// Reads a document as an envelope: the acknowledgement shape is tried first,
/// then the channel-push shape. A document that matches neither is handed back
/// inside the error.
pub fn decode(v: Json) -> (r: Result<RawMessage, DecodeError>)
    ensures
        decoded_as(v, r),
{
    match decode_ref(&v) {
        Ok(m) => Ok(m),
        Err(true) => Err(DecodeError::UnclassifiedPayload(v)),
        Err(false) => Err(DecodeError::Unrecognized(v)),
    }
}

/// Reads a text as an envelope.
pub fn decode_text(text: &str) -> (r: Result<RawMessage, DecodeError>)
    ensures
        match json_document(text@) {
            Some(v) => decoded_as(v, r),
            None => r matches Err(DecodeError::Malformed(s)) && s@ == text@,
        },
{
    match parse_json(text) {
        Some(v) => decode(v),
        None => Err(DecodeError::Malformed(String::from_str(text))),
    }
}

} // verus!
