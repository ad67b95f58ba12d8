//! State shared by the dashboard's handlers.
use vstd::prelude::*;

verus! {

/// State shared by the dashboard's handlers.
#[derive(Clone, Copy, Debug, PartialEq, Eq, Structural)]
pub struct AppState {}

impl AppState {
    pub fn new() -> (r: Self)
        ensures
            r == (AppState {}),
    {
        AppState {}
    }
}

} // verus!
