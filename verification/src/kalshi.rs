//! The exchange: its messages, its order book, its requests.
pub mod auth;
pub mod client;
pub mod error;
pub mod orderbook;
pub mod price;
pub mod session;
pub mod trade_tape;
pub mod types;
pub mod websocket;
