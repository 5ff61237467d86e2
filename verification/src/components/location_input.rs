//! The location text-entry field: an edit buffer for a place name, committed
//! to the poll loop when the user confirms with Enter.
//!
//! The surrounding terminal runtime turns raw key events into [`InputKey`]
//! values and forwards a committed location over a channel; all editing
//! decisions are made and verified here.

use vstd::prelude::*;

verus! {

/// A key press, reduced to what the edit buffer reacts to.
#[derive(Debug, Clone, Copy, PartialEq, Eq)]
pub enum InputKey {
    /// Commit the current buffer as a new location.
    Enter,
    /// Append one character to the buffer.
    Char(char),
    /// Remove the last character of the buffer.
    Backspace,
    /// Any key press the field ignores.
    Other,
}

/// The text-entry component itself; the display state lives in
/// [`LocationInputState`].
pub struct LocationInputComponent;

/// Display state owned by the text-entry field.
#[derive(Debug, Clone, PartialEq, Eq)]
pub struct LocationInputState {
    pub location: String,
    pub has_focus: bool,
}

/// Relies on std's `String::push`: appends one character to the end of the
/// string.
#[verifier::external_body]
fn push_char(s: &mut String, c: char)
    ensures
        final(s)@ == old(s)@.push(c),
{
    s.push(c);
}

/// Relies on std's `String::pop`: removes the last character of the string
/// and returns it, or returns `None` and leaves the string alone when it is
/// empty.
#[verifier::external_body]
fn pop_char(s: &mut String) -> (r: Option<char>)
    ensures
        old(s)@.len() == 0 ==> r is None && final(s)@ == old(s)@,
        old(s)@.len() > 0 ==> r == Some(old(s)@.last()) && final(s)@ == old(s)@.drop_last(),
{
    s.pop()
}

impl LocationInputState {
    /// A fresh field holding a startup location (possibly empty), not yet
    /// focused.
    pub fn new(location: String) -> (s: Self)
        ensures
            s.location == location,
            !s.has_focus,
    {
        LocationInputState { location, has_focus: false }
    }
}

impl LocationInputComponent {
    pub fn new() -> (c: Self) {
        LocationInputComponent
    }

    pub fn on_blur(&mut self, state: &mut LocationInputState)
        ensures
            !final(state).has_focus,
            final(state).location == old(state).location,
    {
        state.has_focus = false;
    }

    pub fn on_focus(&mut self, state: &mut LocationInputState)
        ensures
            final(state).has_focus,
            final(state).location == old(state).location,
    {
        state.has_focus = true;
    }

    /// React to one key press. Enter commits the buffer unchanged and hands
    /// back a copy for the caller to submit to the poll loop; characters are
    /// appended; backspace removes the last character (and does nothing on an
    /// empty buffer); everything else is ignored.
    pub fn on_key(&mut self, key: InputKey, state: &mut LocationInputState) -> (submit: Option<
        String,
    >)
        ensures
            final(state).has_focus == old(state).has_focus,
            match key {
                InputKey::Enter => submit == Some(old(state).location) && final(state).location
                    == old(state).location,
                InputKey::Char(c) => submit is None && final(state).location@ == old(
                    state,
                ).location@.push(c),
                InputKey::Backspace => submit is None && final(state).location@ == (if old(
                    state,
                ).location@.len() == 0 {
                    old(state).location@
                } else {
                    old(state).location@.drop_last()
                }),
                InputKey::Other => submit is None && final(state).location == old(state).location,
            },
    {
        match key {
            InputKey::Enter => {
                let location = state.location.clone();
                Some(location)
            },
            InputKey::Char(c) => {
                push_char(&mut state.location, c);
                None
            },
            InputKey::Backspace => {
                let _ = pop_char(&mut state.location);
                None
            },
            InputKey::Other => None,
        }
    }
}

} // verus!
