//! Acting on signals.
pub mod position;
