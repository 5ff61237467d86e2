//! The temperature range sink: today's minimum and maximum temperature.
//!
//! Temperatures are carried in tenths of a degree Celsius, so one decimal
//! place of the source data survives without floating point; the rendering
//! collaborator divides by ten for display.

use vstd::prelude::*;

verus! {

/// The temperature range component; the display state lives in
/// [`TemperatureRangeState`].
pub struct TemperatureRange;

/// Display state owned by the temperature range sink, in tenths of a degree
/// Celsius.
#[derive(Debug, Clone, Copy, PartialEq, Eq)]
pub struct TemperatureRangeState {
    pub min_temperature_deci_c: i64,
    pub max_temperature_deci_c: i64,
}

/// The update message the dispatcher sends to the temperature range sink,
/// in tenths of a degree Celsius.
#[derive(Debug, Clone, Copy, PartialEq, Eq)]
pub struct TemperatureRangeMessage {
    pub min_temperature_deci_c: i64,
    pub max_temperature_deci_c: i64,
}

impl TemperatureRangeState {
    pub fn new() -> (s: Self)
        ensures
            s.min_temperature_deci_c == 0,
            s.max_temperature_deci_c == 0,
    {
        TemperatureRangeState { min_temperature_deci_c: 0, max_temperature_deci_c: 0 }
    }
}

impl TemperatureRangeMessage {
    /// Build the update from a `(min, max)` pair.
    pub fn new(temperature_range: (i64, i64)) -> (m: Self)
        ensures
            m.min_temperature_deci_c == temperature_range.0,
            m.max_temperature_deci_c == temperature_range.1,
    {
        TemperatureRangeMessage {
            min_temperature_deci_c: temperature_range.0,
            max_temperature_deci_c: temperature_range.1,
        }
    }
}

impl TemperatureRange {
    pub fn new() -> (c: Self) {
        TemperatureRange
    }

    /// The dispatcher's entry point: adopt the new bounds.
    pub fn message(&mut self, message: TemperatureRangeMessage, state: &mut TemperatureRangeState)
        ensures
            final(state).min_temperature_deci_c == message.min_temperature_deci_c,
            final(state).max_temperature_deci_c == message.max_temperature_deci_c,
    {
        state.min_temperature_deci_c = message.min_temperature_deci_c;
        state.max_temperature_deci_c = message.max_temperature_deci_c;
    }
}

} // verus!
