use vstd::prelude::*;
use crate::numeric::DecimalValue;
use crate::raw::{RawChannelMessage, RawChannelMessageData, RawEventChannelMessageData, RawSpotDealData};

verus! {

/// Side of a trade. Codes other than 1 and 2 are kept as they came.
#[derive(Debug, Clone, Copy, PartialEq, Eq, Structural)]
pub enum SpotDealTradeType {
    Buy,
    Sell,
    Unknown(i32),
}

/// The side that a trade-type code stands for.
pub open spec fn trade_type_of(code: i32) -> SpotDealTradeType {
    if code == 1 {
        SpotDealTradeType::Buy
    } else if code == 2 {
        SpotDealTradeType::Sell
    } else {
        SpotDealTradeType::Unknown(code)
    }
}

impl From<i32> for SpotDealTradeType {
    fn from(value: i32) -> (r: Self) {
        match value {
            1 => SpotDealTradeType::Buy,
            2 => SpotDealTradeType::Sell,
            _ => SpotDealTradeType::Unknown(value),
        }
    }
}

impl vstd::std_specs::convert::FromSpecImpl<i32> for SpotDealTradeType {
    open spec fn obeys_from_spec() -> bool {
        true
    }

    open spec fn from_spec(v: i32) -> Self {
        trade_type_of(v)
    }
}

/// A batch of public trades on one symbol.
#[derive(Debug)]
pub struct SpotDealsMessage {
    pub deals: Vec<SpotDeal>,
}

/// One public trade.
#[derive(Debug, Clone, PartialEq, Eq)]
pub struct SpotDeal {
    pub symbol: String,
    pub price: DecimalValue,
    pub quantity: DecimalValue,
    /// Milliseconds since the epoch.
    pub timestamp: i64,
    pub trade_type: SpotDealTradeType,
}

#[derive(Debug, Clone, Copy, PartialEq, Eq, Structural)]
pub enum ChannelMessageToSpotDealsMessageError {
    /// The push names no symbol.
    MissingSymbol,
    /// The push carries no trades.
    NoDealsMessage,
}

impl ChannelMessageToSpotDealsMessageError {
    pub fn message(&self) -> (r: &'static str)
        ensures
            *self is MissingSymbol ==> r@ == "Missing symbol"@,
            *self is NoDealsMessage ==> r@ == "No deals message"@,
    {
        match self {
            ChannelMessageToSpotDealsMessageError::MissingSymbol => "Missing symbol",
            ChannelMessageToSpotDealsMessageError::NoDealsMessage => "No deals message",
        }
    }
}

/// A trade of the wire form, attached to a symbol.
pub open spec fn spot_deal_of(symbol: String, d: RawSpotDealData) -> SpotDeal {
    SpotDeal {
        symbol,
        price: d.price,
        quantity: d.quantity,
        timestamp: d.timestamp,
        trade_type: trade_type_of(d.trade_type),
    }
}

/// Normalises a deals push: each trade gets the push's symbol, its side
/// decoded, and keeps its own price, quantity and timestamp.
pub fn channel_message_to_spot_deals_message(channel_message: &RawChannelMessage) -> (r: Result<
    SpotDealsMessage,
    ChannelMessageToSpotDealsMessageError,
>)
    ensures
        channel_message.symbol is None ==> r matches Err(
            ChannelMessageToSpotDealsMessageError::MissingSymbol,
        ),
        channel_message.symbol is Some && !(channel_message.data matches RawChannelMessageData::Event(
            RawEventChannelMessageData::Deals { .. },
        )) ==> r matches Err(ChannelMessageToSpotDealsMessageError::NoDealsMessage),
        channel_message.symbol matches Some(s) ==> (channel_message.data matches RawChannelMessageData::Event(
            RawEventChannelMessageData::Deals { deals, .. },
        ) ==> r matches Ok(m) && m.deals@ == deals@.map_values(|d: RawSpotDealData| spot_deal_of(s, d))),
{
    let symbol = match &channel_message.symbol {
        Some(s) => s,
        None => {
            return Err(ChannelMessageToSpotDealsMessageError::MissingSymbol);
        },
    };
    let deals = match &channel_message.data {
        RawChannelMessageData::Event(RawEventChannelMessageData::Deals { deals, .. }) => deals,
        _ => {
            return Err(ChannelMessageToSpotDealsMessageError::NoDealsMessage);
        },
    };
    let mut out: Vec<SpotDeal> = Vec::new();
    let mut i: usize = 0;
    while i < deals.len()
        invariant
            i <= deals.len(),
            out@.len() == i,
            forall|j: int| 0 <= j < i ==> #[trigger] out@[j] == spot_deal_of(*symbol, deals@[j]),
        decreases deals.len() - i,
    {
        let d = deals[i];
        out.push(
            SpotDeal {
                symbol: symbol.clone(),
                price: d.price,
                quantity: d.quantity,
                timestamp: d.timestamp,
                trade_type: SpotDealTradeType::from(d.trade_type),
            },
        );
        i += 1;
    }
    assert(out@ =~= deals@.map_values(|d: RawSpotDealData| spot_deal_of(*symbol, d)));
    Ok(SpotDealsMessage { deals: out })
}

} // verus!
