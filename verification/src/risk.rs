//! Guards that stop trading altogether.
pub mod circuit_breaker;
pub mod kill_switch;
pub mod manager;
