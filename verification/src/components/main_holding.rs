//! The status text sink: a short human-readable line about the current
//! refresh (in progress, loaded, or the most recent error message), together
//! with a busy flag and the distinct error-display mode.

use vstd::prelude::*;

verus! {

/// The status component; the display state lives in [`MainHoldingState`].
pub struct MainHolding;

/// Display state owned by the status sink. `error` marks the distinct
/// error-display mode entered when a refresh fails; `value` is the status
/// text shown.
#[derive(Debug, Clone, PartialEq, Eq)]
pub struct MainHoldingState {
    pub is_loading: bool,
    pub error: bool,
    pub value: String,
}

/// The update message the dispatcher sends to the status sink.
#[derive(Debug, Clone, PartialEq, Eq)]
pub struct MainHoldingMessage {
    pub is_loading: bool,
    pub error: bool,
    pub value: String,
}

/// Mathematical model of the status sink's state.
pub struct MainHoldingStateView {
    pub is_loading: bool,
    pub error: bool,
    pub value: Seq<char>,
}

impl View for MainHoldingState {
    type V = MainHoldingStateView;

    open spec fn view(&self) -> MainHoldingStateView {
        MainHoldingStateView { is_loading: self.is_loading, error: self.error, value: self.value@ }
    }
}

impl MainHoldingState {
    pub fn new() -> (s: Self)
        ensures
            !s.is_loading,
            !s.error,
            s.value@ == Seq::<char>::empty(),
    {
        MainHoldingState { is_loading: false, error: false, value: String::new() }
    }
}

impl MainHolding {
    pub fn new() -> (c: Self) {
        MainHolding
    }

    /// The dispatcher's entry point: adopt the flags and the status text.
    pub fn message(&mut self, message: MainHoldingMessage, state: &mut MainHoldingState)
        ensures
            final(state).is_loading == message.is_loading,
            final(state).error == message.error,
            final(state).value == message.value,
    {
        state.is_loading = message.is_loading;
        state.error = message.error;
        state.value = message.value;
    }
}

} // verus!
