//! The line encoder: one sample becomes one line of the sink's line protocol,
//! `<measurement>,symbol=<symbol> <field>=<value>,... <timestamp>`.

use crate::decimal::{append_int, int_text};
use crate::fetch_price::{Kline, StockPrice};
use vstd::prelude::*;
use vstd::string::*;

verus! {

/// A sample that has a line in the sink's protocol.
pub trait Encodable {
    /// The line of this sample.
    spec fn line(&self) -> Seq<char>;

    /// Encodes this sample. Never fails.
    fn encode(&self) -> (out: String)
        ensures
            out@ == self.line(),
    ;
}

/// The line of a spot quote: measurement `stock_price`, then the fields in
/// the order of the sink's schema.
pub open spec fn stock_price_line(p: StockPrice) -> Seq<char> {
    "stock_price,symbol="@ + p.symbol@ + " last_done="@ + p.last_done.text() + ",prev_close="@
        + p.prev_close.text() + ",open="@ + p.open.text() + ",high="@ + p.high.text() + ",low="@
        + p.low.text() + ",volume="@ + int_text(p.volume as int) + ",turnover="@
        + p.turnover.text() + " "@ + int_text(p.timestamp as int)
}

/// The line of a candlestick: measurement `kline`, then the fields in the
/// order of the sink's schema.
pub open spec fn kline_line(k: Kline) -> Seq<char> {
    "kline,symbol="@ + k.symbol@ + " open="@ + k.open.text() + ",high="@ + k.high.text()
        + ",low="@ + k.low.text() + ",close="@ + k.close.text() + ",volume="@ + int_text(
        k.volume as int,
    ) + ",turnover="@ + k.turnover.text() + " "@ + int_text(k.timestamp as int)
}

impl Encodable for StockPrice {
    open spec fn line(&self) -> Seq<char> {
        stock_price_line(*self)
    }

    fn encode(&self) -> (out: String) {
        let mut out = String::new();
        out.append("stock_price,symbol=");
        out.append(self.symbol.as_str());
        out.append(" last_done=");
        self.last_done.append_to(&mut out);
        out.append(",prev_close=");
        self.prev_close.append_to(&mut out);
        out.append(",open=");
        self.open.append_to(&mut out);
        out.append(",high=");
        self.high.append_to(&mut out);
        out.append(",low=");
        self.low.append_to(&mut out);
        out.append(",volume=");
        append_int(&mut out, self.volume);
        out.append(",turnover=");
        self.turnover.append_to(&mut out);
        out.append(" ");
        append_int(&mut out, self.timestamp);
        out
    }
}

impl Encodable for Kline {
    open spec fn line(&self) -> Seq<char> {
        kline_line(*self)
    }

    fn encode(&self) -> (out: String) {
        let mut out = String::new();
        out.append("kline,symbol=");
        out.append(self.symbol.as_str());
        out.append(" open=");
        self.open.append_to(&mut out);
        out.append(",high=");
        self.high.append_to(&mut out);
        out.append(",low=");
        self.low.append_to(&mut out);
        out.append(",close=");
        self.close.append_to(&mut out);
        out.append(",volume=");
        append_int(&mut out, self.volume);
        out.append(",turnover=");
        self.turnover.append_to(&mut out);
        out.append(" ");
        append_int(&mut out, self.timestamp);
        out
    }
}

/// The lines of a batch of samples, in the order of the batch.
pub open spec fn batch_lines<S: Encodable>(batch: Seq<S>) -> Seq<Seq<char>> {
    Seq::new(batch.len(), |i: int| batch[i].line())
}

/// The texts that a vector of strings holds.
pub open spec fn texts(lines: Seq<String>) -> Seq<Seq<char>> {
    Seq::new(lines.len(), |i: int| lines[i]@)
}

/// Encodes every sample of a batch, keeping the order.
pub fn encode_batch<S: Encodable>(batch: &[S]) -> (lines: Vec<String>)
    ensures
        texts(lines@) == batch_lines(batch@),
{
    let mut lines: Vec<String> = Vec::new();
    let mut i: usize = 0;
    while i < batch.len()
        invariant
            i <= batch.len(),
            lines.len() == i,
            forall|j: int| 0 <= j < i ==> (#[trigger] lines[j])@ == batch[j].line(),
        decreases batch.len() - i,
    {
        lines.push(batch[i].encode());
        i = i + 1;
    }
    lines
}

} // verus!
