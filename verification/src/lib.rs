//! The ingestion pipeline for market-data samples.
//!
//! Producers fetch samples of the symbols they track and push them, batch
//! by batch, onto a bounded channel. One writer takes the batches off,
//! encodes each sample as a line of the sink's line protocol, buffers the
//! lines, and flushes the buffer to the sink over HTTP: when it has grown to
//! a limit, when it has waited for an interval, and once more when the
//! channel closes. A flush that fails is retried with growing delays, and
//! lines leave the buffer only when the sink has taken them.
//!
//! Nothing in this crate performs I/O. The writer, the producers and the
//! supervisor are state machines: a driver reports what happened and carries
//! out what they ask for. What they decide is stated in their contracts and
//! proved.
//!
//! - [`decimal`]: fixed-point numbers and their text.
//! - [`fetch_price`]: the samples.
//! - [`line`]: the line encoder.
//! - [`buffer`]: the batch buffer.
//! - [`storage`]: the sink client: request, classification of outcomes, retry policy.
//! - [`model`], [`writer`], [`laws`]: the writer, as mathematics, as code, and
//!   what holds of it.
//! - [`producer`], [`supervisor`]: the tasks around the writer.
//! - [`watchlist`]: the symbols to track.

pub mod buffer;
pub mod decimal;
pub mod fetch_price;
pub mod laws;
pub mod line;
pub mod model;
pub mod producer;
pub mod storage;
pub mod supervisor;
pub mod watchlist;
pub mod writer;

pub use buffer::BatchBuffer;
pub use decimal::Decimal;
pub use fetch_price::{Candle, Kline, StockPrice};
pub use line::Encodable;
pub use model::{Phase, WriterState};
pub use producer::{Producer, Schedule, Task};
pub use storage::{AttemptOutcome, InfluxDBStorage, Retry, RetryStep, WriteError, WriteRequest};
pub use supervisor::{Directive, Supervisor};
pub use watchlist::{parse_watchlist, WatchlistError};
pub use writer::{Action, Writer};
