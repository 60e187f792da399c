//! The renderer's list-highlight state.
//!
//! The editor owns a `ratatui` `ListState` so the renderer can highlight the
//! selected line, but never reads it back: the value is opaque here and only
//! kept in step with the cursor's line index.

use vstd::prelude::*;

verus! {

#[verifier::external_type_specification]
#[verifier::external_body]
pub struct ExListState(ratatui::widgets::ListState);

/// Relies on `ratatui::widgets::ListState::default`: a fresh highlight state.
#[verifier::external_body]
pub(crate) fn list_state_new() -> ratatui::widgets::ListState {
    ratatui::widgets::ListState::default()
}

/// Relies on `ratatui::widgets::ListState::with_selected`: the state with the
/// given line selected.
#[verifier::external_body]
pub(crate) fn list_state_with_selected(
    state: ratatui::widgets::ListState,
    index: usize,
) -> ratatui::widgets::ListState {
    state.with_selected(Some(index))
}

/// Relies on `ratatui::widgets::ListState::select`: marks the given line as
/// the selected one.
#[verifier::external_body]
pub(crate) fn list_state_select(state: &mut ratatui::widgets::ListState, index: usize) {
    state.select(Some(index));
}

} // verus!
