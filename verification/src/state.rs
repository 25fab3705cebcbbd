//! Process-wide lifecycle flag of the host application.

use vstd::prelude::*;

verus! {

/// Lifecycle state shared by the whole process.
///
/// The flag tells whether start-up has completed; until then neither the
/// plugin manager nor the bridge should be used.
#[derive(Debug)]
pub struct AppState {
    pub initialized: bool,
}

impl AppState {
    /// The state at process start: nothing is initialized yet.
    pub fn new() -> (state: Self)
        ensures
            !state.initialized,
    {
        AppState { initialized: false }
    }
}

impl Default for AppState {
    fn default() -> (state: Self)
        ensures
            !state.initialized,
    {
        AppState::new()
    }
}

} // verus!
