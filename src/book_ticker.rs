use vstd::prelude::*;
use crate::numeric::DecimalValue;

verus! {

/// Query of the best bid and ask of one symbol.
#[derive(Debug, Clone, Copy)]
pub struct BookTickerParams<'a> {
    /// Symbol
    pub symbol: &'a str,
}

impl<'a> BookTickerParams<'a> {
    pub fn new(symbol: &'a str) -> (r: Self)
        ensures
            r.symbol == symbol,
    {
        BookTickerParams { symbol }
    }
}

/// Best bid and ask of one symbol, as the REST endpoint reports them.
#[derive(Debug, Clone, PartialEq, Eq)]
pub struct BookTickerOutput {
    pub symbol: String,
    pub bid_price: DecimalValue,
    pub bid_qty: DecimalValue,
    pub ask_price: DecimalValue,
    pub ask_qty: DecimalValue,
}

} // verus!
