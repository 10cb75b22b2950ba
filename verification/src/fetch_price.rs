//! The two shapes of sample that the pipeline carries.

use crate::decimal::Decimal;
use vstd::prelude::*;
use vstd::string::*;

verus! {

/// A spot quote of one symbol at one instant.
#[derive(Clone, Debug)]
pub struct StockPrice {
    pub symbol: String,
    pub last_done: Decimal,
    pub prev_close: Decimal,
    pub open: Decimal,
    pub high: Decimal,
    pub low: Decimal,
    /// Seconds since the Unix epoch.
    pub timestamp: i64,
    pub volume: i64,
    pub turnover: Decimal,
}

/// A candlestick of one symbol over one period.
#[derive(Clone, Debug)]
pub struct Kline {
    pub symbol: String,
    pub open: Decimal,
    pub high: Decimal,
    pub low: Decimal,
    pub close: Decimal,
    pub volume: i64,
    pub turnover: Decimal,
    /// Seconds since the Unix epoch.
    pub timestamp: i64,
}

/// A candlestick as the history of one symbol lists it: without the symbol.
#[derive(Clone, Copy, Debug)]
pub struct Candle {
    pub open: Decimal,
    pub high: Decimal,
    pub low: Decimal,
    pub close: Decimal,
    pub volume: i64,
    pub turnover: Decimal,
    /// Seconds since the Unix epoch.
    pub timestamp: i64,
}

/// Whether `kline` is the candlestick `candle` under `symbol`.
pub open spec fn is_kline_of(symbol: Seq<char>, candle: Candle, kline: Kline) -> bool {
    &&& kline.symbol@ == symbol
    &&& kline.open == candle.open
    &&& kline.high == candle.high
    &&& kline.low == candle.low
    &&& kline.close == candle.close
    &&& kline.volume == candle.volume
    &&& kline.turnover == candle.turnover
    &&& kline.timestamp == candle.timestamp
}

/// The history of one symbol as samples: each candlestick under the
/// symbol, in the order of the history.
pub fn klines(symbol: &str, candles: &[Candle]) -> (batch: Vec<Kline>)
    ensures
        batch@.len() == candles@.len(),
        forall|i: int| 0 <= i < candles@.len() ==> is_kline_of(symbol@, candles@[i], #[trigger] batch@[i]),
{
    let mut batch: Vec<Kline> = Vec::new();
    let mut i: usize = 0;
    while i < candles.len()
        invariant
            i <= candles@.len(),
            batch@.len() == i,
            forall|j: int| 0 <= j < i ==> is_kline_of(symbol@, candles@[j], #[trigger] batch@[j]),
        decreases candles@.len() - i,
    {
        let candle = candles[i];
        batch.push(
            Kline {
                symbol: String::from_str(symbol),
                open: candle.open,
                high: candle.high,
                low: candle.low,
                close: candle.close,
                volume: candle.volume,
                turnover: candle.turnover,
                timestamp: candle.timestamp,
            },
        );
        i = i + 1;
    }
    batch
}

} // verus!
