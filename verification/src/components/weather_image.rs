//! The condition icon sink: buckets the forecast's numeric condition code
//! into a small closed set of coarse categories and remembers which category
//! to draw.
//!
//! The bucketing is a deliberately lossy simplification of a larger external
//! code space and must be kept exactly as it is for compatibility with the
//! existing icon assets (snow codes other than exactly 20, for example, are
//! knowingly unhandled and fall through to `Unknown`).

use vstd::prelude::*;

verus! {

/// The coarse display categories the icon assets exist for.
#[derive(Debug, Clone, Copy, PartialEq, Eq)]
pub enum WeatherType {
    Unknown,
    Sunny,
    PartlyCloudy,
    Cloudy,
    Rainy,
    Snowy,
    Stormy,
}

/// The condition-code bucketing: a closed, ordered table of inclusive
/// ranges, total over all codes.
pub open spec fn category_of(code: int) -> WeatherType {
    if 0 <= code <= 1 {
        WeatherType::Sunny
    } else if 2 <= code <= 4 {
        WeatherType::PartlyCloudy
    } else if 5 <= code <= 8 {
        WeatherType::Cloudy
    } else if 9 <= code <= 12 {
        WeatherType::Rainy
    } else if code == 20 {
        WeatherType::Snowy
    } else {
        WeatherType::Unknown
    }
}

/// Bucket a numeric condition code into its display category. Total and
/// deterministic: every code maps to exactly [`category_of`] of it.
pub fn weather_type_category(weather_type: u8) -> (c: WeatherType)
    ensures
        c == category_of(weather_type as int),
{
    if weather_type <= 1 {
        WeatherType::Sunny
    } else if weather_type <= 4 {
        WeatherType::PartlyCloudy
    } else if weather_type <= 8 {
        WeatherType::Cloudy
    } else if weather_type <= 12 {
        WeatherType::Rainy
    } else if weather_type == 20 {
        WeatherType::Snowy
    } else {
        WeatherType::Unknown
    }
}

/// The asset path the icon for a category is loaded from. Reading the file
/// is the rendering collaborator's job.
pub open spec fn image_path_spec(t: WeatherType) -> Seq<char> {
    match t {
        WeatherType::Sunny => "src/images/sunny.txt"@,
        WeatherType::PartlyCloudy => "src/images/partly-cloudy.txt"@,
        WeatherType::Cloudy => "src/images/cloudy.txt"@,
        WeatherType::Rainy => "src/images/rainy.txt"@,
        WeatherType::Snowy => "src/images/snowy.txt"@,
        WeatherType::Stormy => "src/images/stormy.txt"@,
        WeatherType::Unknown => "src/images/unknown.txt"@,
    }
}

/// Pick the icon asset for a category.
pub fn image_path(t: WeatherType) -> (p: &'static str)
    ensures
        p@ == image_path_spec(t),
{
    match t {
        WeatherType::Sunny => "src/images/sunny.txt",
        WeatherType::PartlyCloudy => "src/images/partly-cloudy.txt",
        WeatherType::Cloudy => "src/images/cloudy.txt",
        WeatherType::Rainy => "src/images/rainy.txt",
        WeatherType::Snowy => "src/images/snowy.txt",
        WeatherType::Stormy => "src/images/stormy.txt",
        WeatherType::Unknown => "src/images/unknown.txt",
    }
}

/// The condition icon component; the display state lives in
/// [`WeatherImageState`].
pub struct WeatherImage;

/// Display state owned by the condition icon sink: the category currently
/// drawn.
#[derive(Debug, Clone, Copy, PartialEq, Eq)]
pub struct WeatherImageState {
    pub weather_image: WeatherType,
}

/// The update message the dispatcher sends to the condition icon sink.
#[derive(Debug, Clone, Copy, PartialEq, Eq)]
pub struct WeatherImageMessage {
    pub weather_type: WeatherType,
}

impl WeatherImageState {
    pub fn new() -> (s: Self)
        ensures
            s.weather_image == WeatherType::Unknown,
    {
        WeatherImageState { weather_image: WeatherType::Unknown }
    }
}

impl WeatherImageMessage {
    pub fn new(weather_type: WeatherType) -> (m: Self)
        ensures
            m.weather_type == weather_type,
    {
        WeatherImageMessage { weather_type }
    }
}

impl WeatherImage {
    pub fn new() -> (c: Self) {
        WeatherImage
    }

    /// The dispatcher's entry point: adopt the category to draw.
    pub fn message(&mut self, message: WeatherImageMessage, state: &mut WeatherImageState)
        ensures
            final(state).weather_image == message.weather_type,
    {
        state.weather_image = message.weather_type;
    }
}

} // verus!
