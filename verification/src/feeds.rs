//! Market data of other venues.
pub mod binance_futures;
pub mod binance_spot;
pub mod coinbase;
pub mod deribit;
pub mod stream;
