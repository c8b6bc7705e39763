use vstd::prelude::*;
use crate::deals::{
    channel_message_to_spot_deals_message, spot_deal_of, trade_type_of,
    ChannelMessageToSpotDealsMessageError, SpotDealTradeType, SpotDealsMessage,
};
use crate::numeric::DecimalValue;
use crate::raw::{
    opt_view, BookTicker, OrderbookLevel, RawAccountDealsData, RawAccountOrdersChannelMessageData,
    RawAccountUpdateData, RawChannelMessage, RawChannelMessageData, RawEventChannelMessageData,
    RawKlineData, RawMessage, RawSpotDealData, decode_text, decoded_as, DecodeError,
};
use crate::json::json_document;

verus! {

/// A validated domain event.
#[derive(Debug)]
pub enum Message {
    AccountDeals(AccountDealsMessage),
    AccountUpdate(AccountUpdateMessage),
    AccountOrders(AccountOrdersMessage),
    Deals(SpotDealsMessage),
    Kline(SpotKlineMessage),
    OrderbookUpdate(OrderbookUpdateMessage),
    BookTicker(BookTicker),
}

/// Why a decoded envelope gave no domain event.
#[derive(Debug, Clone, Copy, PartialEq, Eq, Structural)]
pub enum ConversionError {
    /// An acknowledgement carries no event.
    StatusMessage,
    /// The event needs the push's symbol, and the push names none.
    MissingSymbol,
    /// The payload is not of the kind asked for.
    WrongPayload,
}

/// A fill of one of the account's orders.
#[derive(Debug, Clone, PartialEq, Eq)]
pub struct AccountDealsMessage {
    pub symbol: String,
    pub price: DecimalValue,
    pub quantity: DecimalValue,
    pub amount: DecimalValue,
    pub trade_type: SpotDealTradeType,
    /// Milliseconds since the epoch.
    pub time: i64,
    pub trade_id: String,
    pub order_id: String,
}

/// A change of one of the account's balances.
#[derive(Debug, Clone, PartialEq, Eq)]
pub struct AccountUpdateMessage {
    pub asset: String,
    /// Milliseconds since the epoch.
    pub change_time: i64,
    pub free: DecimalValue,
    pub locked: DecimalValue,
    pub change_type: String,
}

/// A change of one of the account's orders.
#[derive(Debug, Clone, PartialEq, Eq)]
pub struct AccountOrdersMessage {
    pub symbol: String,
    pub order_id: String,
    pub price: DecimalValue,
    pub quantity: DecimalValue,
    pub trade_type: SpotDealTradeType,
    pub status: i32,
    /// Milliseconds since the epoch.
    pub create_time: i64,
}

/// One candle.
#[derive(Debug, Clone, PartialEq, Eq)]
pub struct SpotKlineMessage {
    pub interval: String,
    pub open_time: i64,
    pub close_time: i64,
    pub open: DecimalValue,
    pub high: DecimalValue,
    pub low: DecimalValue,
    pub close: DecimalValue,
    pub volume: DecimalValue,
    pub quote_volume: DecimalValue,
}

/// A depth delta; a level with zero quantity is removed from the book.
#[derive(Debug)]
pub struct OrderbookUpdateMessage {
    pub asks: Option<Vec<OrderbookLevel>>,
    pub bids: Option<Vec<OrderbookLevel>>,
    pub version: String,
}

pub open spec fn account_deals_message_of(symbol: String, d: RawAccountDealsData) -> AccountDealsMessage {
    AccountDealsMessage {
        symbol,
        price: d.price,
        quantity: d.quantity,
        amount: d.amount,
        trade_type: trade_type_of(d.trade_type),
        time: d.time,
        trade_id: d.trade_id,
        order_id: d.order_id,
    }
}

pub open spec fn account_update_message_of(u: RawAccountUpdateData) -> AccountUpdateMessage {
    AccountUpdateMessage {
        asset: u.asset,
        change_time: u.change_time,
        free: u.free,
        locked: u.locked,
        change_type: u.change_type,
    }
}

pub open spec fn account_orders_message_of(
    symbol: String,
    o: RawAccountOrdersChannelMessageData,
) -> AccountOrdersMessage {
    AccountOrdersMessage {
        symbol,
        order_id: o.order_id,
        price: o.price,
        quantity: o.quantity,
        trade_type: trade_type_of(o.trade_type),
        status: o.status,
        create_time: o.create_time,
    }
}

pub open spec fn kline_message_of(k: RawKlineData) -> SpotKlineMessage {
    SpotKlineMessage {
        interval: k.interval,
        open_time: k.open_time,
        close_time: k.close_time,
        open: k.open,
        high: k.high,
        low: k.low,
        close: k.close,
        volume: k.volume,
        quote_volume: k.quote_volume,
    }
}

pub fn channel_message_to_account_deals_message(m: &RawChannelMessage) -> (r: Result<
    AccountDealsMessage,
    ConversionError,
>)
    ensures
        match m.data {
            RawChannelMessageData::AccountDeals(d) => match m.symbol {
                Some(s) => r == Ok::<AccountDealsMessage, ConversionError>(
                    account_deals_message_of(s, d),
                ),
                None => r == Err::<AccountDealsMessage, ConversionError>(ConversionError::MissingSymbol),
            },
            _ => r == Err::<AccountDealsMessage, ConversionError>(ConversionError::WrongPayload),
        },
{
    match &m.data {
        RawChannelMessageData::AccountDeals(d) => match &m.symbol {
            Some(s) => Ok(
                AccountDealsMessage {
                    symbol: s.clone(),
                    price: d.price,
                    quantity: d.quantity,
                    amount: d.amount,
                    trade_type: SpotDealTradeType::from(d.trade_type),
                    time: d.time,
                    trade_id: d.trade_id.clone(),
                    order_id: d.order_id.clone(),
                },
            ),
            None => Err(ConversionError::MissingSymbol),
        },
        _ => Err(ConversionError::WrongPayload),
    }
}

pub fn channel_message_to_account_update_message(m: &RawChannelMessage) -> (r: Result<
    AccountUpdateMessage,
    ConversionError,
>)
    ensures
        match m.data {
            RawChannelMessageData::AccountUpdate(u) => r == Ok::<
                AccountUpdateMessage,
                ConversionError,
            >(account_update_message_of(u)),
            _ => r == Err::<AccountUpdateMessage, ConversionError>(ConversionError::WrongPayload),
        },
{
    match &m.data {
        RawChannelMessageData::AccountUpdate(u) => Ok(
            AccountUpdateMessage {
                asset: u.asset.clone(),
                change_time: u.change_time,
                free: u.free,
                locked: u.locked,
                change_type: u.change_type.clone(),
            },
        ),
        _ => Err(ConversionError::WrongPayload),
    }
}

pub fn channel_message_to_account_orders_message(m: &RawChannelMessage) -> (r: Result<
    AccountOrdersMessage,
    ConversionError,
>)
    ensures
        match m.data {
            RawChannelMessageData::AccountOrders(o) => match m.symbol {
                Some(s) => r == Ok::<AccountOrdersMessage, ConversionError>(
                    account_orders_message_of(s, o),
                ),
                None => r == Err::<AccountOrdersMessage, ConversionError>(
                    ConversionError::MissingSymbol,
                ),
            },
            _ => r == Err::<AccountOrdersMessage, ConversionError>(ConversionError::WrongPayload),
        },
{
    match &m.data {
        RawChannelMessageData::AccountOrders(o) => match &m.symbol {
            Some(s) => Ok(
                AccountOrdersMessage {
                    symbol: s.clone(),
                    order_id: o.order_id.clone(),
                    price: o.price,
                    quantity: o.quantity,
                    trade_type: SpotDealTradeType::from(o.trade_type),
                    status: o.status,
                    create_time: o.create_time,
                },
            ),
            None => Err(ConversionError::MissingSymbol),
        },
        _ => Err(ConversionError::WrongPayload),
    }
}

pub fn channel_message_to_spot_kline_message(m: &RawChannelMessage) -> (r: Result<
    SpotKlineMessage,
    ConversionError,
>)
    ensures
        match m.data {
            RawChannelMessageData::Event(RawEventChannelMessageData::Kline { k, .. }) => r == Ok::<
                SpotKlineMessage,
                ConversionError,
            >(kline_message_of(k)),
            _ => r == Err::<SpotKlineMessage, ConversionError>(ConversionError::WrongPayload),
        },
{
    match &m.data {
        RawChannelMessageData::Event(RawEventChannelMessageData::Kline { k, .. }) => Ok(
            SpotKlineMessage {
                interval: k.interval.clone(),
                open_time: k.open_time,
                close_time: k.close_time,
                open: k.open,
                high: k.high,
                low: k.low,
                close: k.close,
                volume: k.volume,
                quote_volume: k.quote_volume,
            },
        ),
        _ => Err(ConversionError::WrongPayload),
    }
}

fn copy_levels(levels: &Vec<OrderbookLevel>) -> (r: Vec<OrderbookLevel>)
    ensures
        r@ == levels@,
{
    let mut out: Vec<OrderbookLevel> = Vec::new();
    let mut i: usize = 0;
    while i < levels.len()
        invariant
            i <= levels.len(),
            out@ == levels@.subrange(0, i as int),
        decreases levels.len() - i,
    {
        out.push(levels[i]);
        i += 1;
        assert(out@ =~= levels@.subrange(0, i as int));
    }
    assert(out@ =~= levels@);
    out
}

fn copy_opt_levels(levels: &Option<Vec<OrderbookLevel>>) -> (r: Option<Vec<OrderbookLevel>>)
    ensures
        opt_view(r) == opt_view(*levels),
{
    match levels {
        Some(l) => Some(copy_levels(l)),
        None => None,
    }
}

pub fn channel_message_to_spot_orderbook_update_message(m: &RawChannelMessage) -> (r: Result<
    OrderbookUpdateMessage,
    ConversionError,
>)
    ensures
        match m.data {
            RawChannelMessageData::Event(
                RawEventChannelMessageData::OrdersUpdate { asks, bids, version, .. },
            ) => r matches Ok(u) && opt_view(u.asks) == opt_view(asks) && opt_view(u.bids) == opt_view(
                bids,
            ) && u.version == version,
            _ => r matches Err(ConversionError::WrongPayload),
        },
{
    match &m.data {
        RawChannelMessageData::Event(
            RawEventChannelMessageData::OrdersUpdate { asks, bids, version, .. },
        ) => Ok(
            OrderbookUpdateMessage {
                asks: copy_opt_levels(asks),
                bids: copy_opt_levels(bids),
                version: version.clone(),
            },
        ),
        _ => Err(ConversionError::WrongPayload),
    }
}

/// What an envelope converts to: `r` is the outcome that the payload's kind
/// and the push's symbol call for.
pub open spec fn message_read_as(raw: RawMessage, r: Result<Message, ConversionError>) -> bool {
    match raw {
        RawMessage::IdCodeMessage(_) => r == Err::<Message, ConversionError>(ConversionError::StatusMessage),
        RawMessage::ChannelMessage(m) => match m.data {
            RawChannelMessageData::AccountDeals(d) => match m.symbol {
                Some(s) => r == Ok::<Message, ConversionError>(
                    Message::AccountDeals(account_deals_message_of(s, d)),
                ),
                None => r == Err::<Message, ConversionError>(ConversionError::MissingSymbol),
            },
            RawChannelMessageData::AccountUpdate(u) => r == Ok::<Message, ConversionError>(
                Message::AccountUpdate(account_update_message_of(u)),
            ),
            RawChannelMessageData::AccountOrders(o) => match m.symbol {
                Some(s) => r == Ok::<Message, ConversionError>(
                    Message::AccountOrders(account_orders_message_of(s, o)),
                ),
                None => r == Err::<Message, ConversionError>(ConversionError::MissingSymbol),
            },
            RawChannelMessageData::Event(e) => match e {
                RawEventChannelMessageData::Deals { deals, .. } => match m.symbol {
                    Some(s) => r matches Ok(Message::Deals(dm)) && dm.deals@ == deals@.map_values(
                        |d: RawSpotDealData| spot_deal_of(s, d),
                    ),
                    None => r == Err::<Message, ConversionError>(ConversionError::MissingSymbol),
                },
                RawEventChannelMessageData::Kline { k, .. } => r == Ok::<Message, ConversionError>(
                    Message::Kline(kline_message_of(k)),
                ),
                RawEventChannelMessageData::OrdersUpdate { asks, bids, version, .. } => r matches Ok(
                    Message::OrderbookUpdate(u),
                ) && opt_view(u.asks) == opt_view(asks) && opt_view(u.bids) == opt_view(bids)
                    && u.version == version,
                RawEventChannelMessageData::BookTicker(b) => r == Ok::<Message, ConversionError>(
                    Message::BookTicker(b),
                ),
            },
        },
    }
}

impl Message {
    /// Converts a decoded envelope into a domain event.
    pub fn from_raw(value: &RawMessage) -> (r: Result<Message, ConversionError>)
        ensures
            message_read_as(*value, r),
    {
        match value {
            RawMessage::IdCodeMessage(_) => Err(ConversionError::StatusMessage),
            RawMessage::ChannelMessage(m) => match &m.data {
                RawChannelMessageData::AccountDeals(_) => match channel_message_to_account_deals_message(m) {
                    Ok(d) => Ok(Message::AccountDeals(d)),
                    Err(e) => Err(e),
                },
                RawChannelMessageData::AccountUpdate(_) => match channel_message_to_account_update_message(m) {
                    Ok(u) => Ok(Message::AccountUpdate(u)),
                    Err(e) => Err(e),
                },
                RawChannelMessageData::AccountOrders(_) => match channel_message_to_account_orders_message(m) {
                    Ok(o) => Ok(Message::AccountOrders(o)),
                    Err(e) => Err(e),
                },
                RawChannelMessageData::Event(event) => match event {
                    RawEventChannelMessageData::Deals { .. } => match channel_message_to_spot_deals_message(m) {
                        Ok(d) => Ok(Message::Deals(d)),
                        Err(ChannelMessageToSpotDealsMessageError::MissingSymbol) => Err(
                            ConversionError::MissingSymbol,
                        ),
                        Err(ChannelMessageToSpotDealsMessageError::NoDealsMessage) => Err(
                            ConversionError::WrongPayload,
                        ),
                    },
                    RawEventChannelMessageData::Kline { .. } => match channel_message_to_spot_kline_message(m) {
                        Ok(k) => Ok(Message::Kline(k)),
                        Err(e) => Err(e),
                    },
                    RawEventChannelMessageData::OrdersUpdate { .. } => match channel_message_to_spot_orderbook_update_message(m) {
                        Ok(u) => Ok(Message::OrderbookUpdate(u)),
                        Err(e) => Err(e),
                    },
                    RawEventChannelMessageData::BookTicker(b) => Ok(Message::BookTicker(*b)),
                },
            },
        }
    }
}

/// Why a text gave no domain event.
#[derive(Debug)]
pub enum MessageError {
    Decode(DecodeError),
    Conversion(ConversionError),
}

/// A conversion's outcome, as the outcome of reading a text.
pub open spec fn conversion_outcome(c: Result<Message, ConversionError>) -> Result<Message, MessageError> {
    match c {
        Ok(m) => Ok(m),
        Err(e) => Err(MessageError::Conversion(e)),
    }
}

/// Reads one server push end to end: text, envelope, payload shape, domain
/// event. A failure concerns this text alone.
pub fn message_from_text(text: &str) -> (r: Result<Message, MessageError>)
    ensures
        match json_document(text@) {
            None => r matches Err(MessageError::Decode(DecodeError::Malformed(s))) && s@ == text@,
            Some(v) => (exists|raw: RawMessage, c: Result<Message, ConversionError>| #[trigger]
                decoded_as(v, Ok(raw)) && #[trigger] message_read_as(raw, c) && r
                == conversion_outcome(c)) || (exists|e: DecodeError|
                #[trigger] decoded_as(v, Err(e)) && r == Err::<Message, MessageError>(
                MessageError::Decode(e),
            )),
        },
{
    match decode_text(text) {
        Ok(raw) => {
            let c = Message::from_raw(&raw);
            match c {
                Ok(m) => Ok(m),
                Err(e) => Err(MessageError::Conversion(e)),
            }
        },
        Err(e) => Err(MessageError::Decode(e)),
    }
}

} // verus!
