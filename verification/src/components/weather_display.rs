//! The overall loading banner sink: whether the display as a whole is still
//! waiting for its first (or next) forecast, and whether the last attempt
//! ended in an error.

use vstd::prelude::*;

verus! {

/// The loading banner component; the display state lives in
/// [`WeatherDisplayState`].
pub struct WeatherDisplay;

/// Display state owned by the loading banner sink. `error` marks the
/// distinct error-display mode entered when a refresh fails.
#[derive(Debug, Clone, Copy, PartialEq, Eq)]
pub struct WeatherDisplayState {
    pub is_loading: bool,
    pub error: bool,
}

/// The update message the dispatcher sends to the loading banner sink.
#[derive(Debug, Clone, Copy, PartialEq, Eq)]
pub struct WeatherDisplayMessage {
    pub is_loading: bool,
    pub error: bool,
}

impl WeatherDisplayState {
    /// A fresh banner shows the loading placeholder until the first outcome
    /// arrives.
    pub fn new() -> (s: Self)
        ensures
            s.is_loading,
            !s.error,
    {
        WeatherDisplayState { is_loading: true, error: false }
    }
}

impl WeatherDisplay {
    pub fn new() -> (c: Self) {
        WeatherDisplay
    }

    /// The dispatcher's entry point: adopt the loading and error flags.
    pub fn message(&mut self, message: WeatherDisplayMessage, state: &mut WeatherDisplayState)
        ensures
            final(state).is_loading == message.is_loading,
            final(state).error == message.error,
    {
        state.is_loading = message.is_loading;
        state.error = message.error;
    }
}

} // verus!
