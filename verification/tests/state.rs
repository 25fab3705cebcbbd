use clipshot::state::AppState;

#[test]
fn app_state_starts_uninitialized() {
    let state = AppState::new();
    assert!(!state.initialized);
    assert!(!AppState::default().initialized);
}
