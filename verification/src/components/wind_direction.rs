//! The wind direction sink: the compass abbreviation reported by the
//! forecast, shown as-is.

use vstd::prelude::*;

verus! {

/// The wind direction component; the display state lives in
/// [`WindDirectionState`].
#[derive(Default)]
pub struct WindDirectionComponent;

/// Display state owned by the wind direction sink: a compass abbreviation
/// such as `"SW"`, or empty before the first forecast arrives.
#[derive(Debug, Clone, PartialEq, Eq)]
pub struct WindDirectionState {
    pub direction: String,
}

/// The update message the dispatcher sends to the wind direction sink.
#[derive(Debug, Clone, PartialEq, Eq)]
pub struct WindDirectionMessage {
    pub direction: String,
}

/// Mathematical model of the wind direction sink's state.
pub struct WindDirectionStateView {
    pub direction: Seq<char>,
}

impl View for WindDirectionState {
    type V = WindDirectionStateView;

    open spec fn view(&self) -> WindDirectionStateView {
        WindDirectionStateView { direction: self.direction@ }
    }
}

impl WindDirectionState {
    pub fn new() -> (s: Self)
        ensures
            s.direction@ == Seq::<char>::empty(),
    {
        WindDirectionState { direction: String::new() }
    }
}

impl WindDirectionMessage {
    pub fn new(direction: String) -> (m: Self)
        ensures
            m.direction == direction,
    {
        WindDirectionMessage { direction }
    }
}

impl WindDirectionComponent {
    pub fn new() -> (c: Self) {
        WindDirectionComponent
    }

    /// The dispatcher's entry point: adopt the new direction text.
    pub fn message(&mut self, message: WindDirectionMessage, state: &mut WindDirectionState)
        ensures
            final(state).direction == message.direction,
    {
        state.direction = message.direction;
    }
}

} // verus!
