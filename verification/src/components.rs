//! The display sinks: each owns an independent piece of derived display
//! state and a narrow update entry point, and is only ever written to by the
//! update dispatcher (or, for the input field, by the key handler).

pub mod graph_component;
pub mod location_input;
pub mod main_holding;
pub mod spinner;
pub mod temperature_range;
pub mod weather_display;
pub mod weather_image;
pub mod wind_direction;
