//! The busy indicator sink: a four-frame spinner that animates while a
//! refresh is in flight, and can be put into a distinct error-display mode.

use vstd::prelude::*;

verus! {

/// Number of animation frames the spinner cycles through.
pub const SPINNER_FRAME_COUNT: u8 = 4;

/// The spinner component. It carries no state of its own; the display state
/// lives in [`SpinnerState`].
pub struct Spinner;

/// Display state owned by the spinner sink.
///
/// `status` is the index of the current animation frame and is always below
/// [`SPINNER_FRAME_COUNT`]; `value` is the character currently shown.
/// `animating` marks the sink active (a refresh is in flight); `error` marks
/// the distinct error-display mode entered when a refresh fails.
#[derive(Debug, Clone, PartialEq, Eq)]
pub struct SpinnerState {
    pub animating: bool,
    pub error: bool,
    pub status: u8,
    pub value: char,
}

/// The update message the dispatcher sends to the spinner sink.
#[derive(Debug, Clone, PartialEq, Eq)]
pub struct SpinnerMessage {
    pub animating: bool,
    pub error: bool,
}

/// The character shown for a given animation frame.
pub open spec fn spinner_frame(status: u8) -> char {
    if status == 0 {
        '|'
    } else if status == 1 {
        '/'
    } else if status == 2 {
        '-'
    } else {
        '\\'
    }
}

impl SpinnerState {
    /// The frame index never leaves the frame table.
    pub open spec fn wf(&self) -> bool {
        self.status < SPINNER_FRAME_COUNT
    }

    pub fn new() -> (s: Self)
        ensures
            s.wf(),
            !s.animating,
            !s.error,
            s.status == 0,
            s.value == ' ',
    {
        SpinnerState { animating: false, error: false, status: 0, value: ' ' }
    }
}

impl SpinnerMessage {
    pub fn new(animating: bool, error: bool) -> (m: Self)
        ensures
            m.animating == animating,
            m.error == error,
    {
        SpinnerMessage { animating, error }
    }
}

impl Spinner {
    pub fn new() -> (s: Self) {
        Spinner
    }

    /// One animation step: while the sink is active the frame advances
    /// cyclically and the shown character follows the frame table; while it
    /// is inactive a blank is shown and the frame index stays put.
    pub fn tick(&mut self, state: &mut SpinnerState)
        requires
            old(state).wf(),
        ensures
            final(state).wf(),
            final(state).animating == old(state).animating,
            final(state).error == old(state).error,
            old(state).animating ==> {
                &&& final(state).status == if old(state).status == SPINNER_FRAME_COUNT - 1 {
                    0u8
                } else {
                    (old(state).status + 1) as u8
                }
                &&& final(state).value == spinner_frame(final(state).status)
            },
            !old(state).animating ==> final(state).status == old(state).status
                && final(state).value == ' ',
    {
        if state.animating {
            let status = state.status;
            let result: u8 = if status == SPINNER_FRAME_COUNT - 1 {
                0
            } else {
                status + 1
            };
            state.status = result;
            state.value = if result == 0 {
                '|'
            } else if result == 1 {
                '/'
            } else if result == 2 {
                '-'
            } else {
                '\\'
            };
        } else {
            state.value = ' ';
        }
    }

    /// The dispatcher's entry point: adopt the activity and error flags and
    /// restart the animation from the first frame.
    pub fn message(&mut self, message: SpinnerMessage, state: &mut SpinnerState)
        ensures
            final(state).wf(),
            final(state).animating == message.animating,
            final(state).error == message.error,
            final(state).status == 0,
            final(state).value == old(state).value,
    {
        state.animating = message.animating;
        state.error = message.error;
        state.status = 0;
    }
}

} // verus!
