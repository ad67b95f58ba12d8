//! What the dashboard shows.
pub mod state;
