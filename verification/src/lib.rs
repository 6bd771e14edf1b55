//! Reconstruction of an exchange order book from a streamed feed.
//!
//! The crate decodes the frames of a combined trade and depth stream,
//! reconciles depth diffs against a fetched snapshot, merges accepted diffs
//! into a local order book, and accounts for the latency of the feed. The
//! transport is left to a driver, which feeds a state machine and does what
//! it is told.
//!
//! * [`decimal`]: prices and quantities as fixed-point decimals, and reading
//!   them from text.
//! * [`book`]: the order book and the merge of price levels into it.
//! * [`decode`]: from the bytes of a frame to a trade, a depth diff or a
//!   candle; [`json`] is its boundary to the JSON parser.
//! * [`sync`]: the verdict on a depth diff.
//! * [`latency`]: the trade buffer and the latency of the feed.
//! * [`session`]: the life of a depth subscription as a state machine;
//!   [`kline_feed`]: that of a candle subscription.
//! * [`laws`]: what holds of the book and of a session over any inputs.
//! * [`fetched`]: reading snapshots, candles and tick sizes that were
//!   fetched on demand.
//! * [`endpoints`], [`symbols`]: instruments, stream names and addresses.
//! * [`user_data`], [`signing`], [`table`]: the reports of the user data
//!   stream, signed requests to the order API, and the rows of the order and
//!   position tables.

pub mod text;
pub mod decimal;
pub mod symbols;
pub mod book;
pub mod fetched;
pub mod json;
pub mod latency;
pub mod decode;
pub mod clock;
pub mod sync;
pub mod session;
pub mod laws;
pub mod kline_feed;
pub mod signing;
pub mod endpoints;
pub mod user_data;
pub mod table;
