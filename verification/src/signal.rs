//! Signals from outside.
pub mod consumer;
