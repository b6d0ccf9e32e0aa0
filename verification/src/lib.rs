//! A client-side model of the CoinGecko market-data API: what a request for
//! the market listing holds, how it is written as the query part of a URI,
//! and how one call of the service ends.
//!
//! Everything here is plain computation, verified with Verus. Sending a
//! request and reading wire formats into typed records is left to the code
//! around this library, which hands it plain values and gets plain values
//! back.

pub mod call;
pub mod market;
pub mod outside;
pub mod text;

pub use call::{ClientError, GetRequest};
pub use market::{MarketRequest, Order, PriceChangePercentage};
