//! Decision core of an algorithmic trading bot for Kalshi prediction markets.
#![allow(unused_imports)]

pub mod clock;
pub mod config;
pub mod contract_discovery;
pub mod crypto_asset;
pub mod crypto_evaluator;
pub mod crypto_fv;
pub mod crypto_state;
pub mod crypto_state_registry;
pub mod dash;
pub mod dashboard;
pub mod dead_letter;
pub mod decision_log;
pub mod execution;
pub mod feed_health;
pub mod feeds;
pub mod float;
pub mod health;
pub mod json;
pub mod kalshi;
pub mod kill_switch;
pub mod metrics_registry;
pub mod order_manager;
pub mod orderbook_feed;
pub mod reconnect;
pub mod risk;
pub mod signal;
pub mod supervisor;
pub mod table;
pub mod text;
pub mod time;
pub mod types;
pub mod ui;
