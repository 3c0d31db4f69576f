//! What the weather service reports, held as plain values: conditions,
//! compass points, air-quality bands, unit systems, and the daily, hourly
//! and current readings with every measurement already rounded or rendered
//! as the applet shows it. Also the message ids under which the applet's
//! translations name each of them.
use vstd::prelude::*;

verus! {

/// WMO weather condition.
#[derive(Debug, Clone, Copy, PartialEq, Eq, Structural)]
pub enum WeatherCondition {
    ClearSky,
    MainlyClear,
    PartlyCloudy,
    Overcast,
    Foggy,
    Drizzle,
    FreezingDrizzle,
    Rain,
    FreezingRain,
    Snow,
    SnowGrains,
    RainShowers,
    SnowShowers,
    Thunderstorm,
    ThunderstormHail,
    Unknown,
}

/// Cardinal/intercardinal compass direction of the wind.
#[derive(Debug, Clone, Copy, PartialEq, Eq, Structural)]
pub enum CompassDirection {
    N,
    NE,
    E,
    SE,
    S,
    SW,
    W,
    NW,
}

/// The short compass label ("N", "NE", ...).
pub open spec fn compass_text(d: CompassDirection) -> Seq<char> {
    match d {
        CompassDirection::N => "N"@,
        CompassDirection::NE => "NE"@,
        CompassDirection::E => "E"@,
        CompassDirection::SE => "SE"@,
        CompassDirection::S => "S"@,
        CompassDirection::SW => "SW"@,
        CompassDirection::W => "W"@,
        CompassDirection::NW => "NW"@,
    }
}

impl CompassDirection {
    /// Returns the short compass label (e.g. "NE", "SW").
    pub fn as_str(&self) -> (r: &'static str)
        ensures
            r@ == compass_text(*self),
    {
        match self {
            CompassDirection::N => "N",
            CompassDirection::NE => "NE",
            CompassDirection::E => "E",
            CompassDirection::SE => "SE",
            CompassDirection::S => "S",
            CompassDirection::SW => "SW",
            CompassDirection::W => "W",
            CompassDirection::NW => "NW",
        }
    }
}

/// US EPA air-quality band.
#[derive(Debug, Clone, Copy, PartialEq, Eq, Structural)]
pub enum UsAqiCategory {
    Good,
    Moderate,
    UnhealthySensitive,
    Unhealthy,
    VeryUnhealthy,
    Hazardous,
}

/// European air-quality band.
#[derive(Debug, Clone, Copy, PartialEq, Eq, Structural)]
pub enum EuAqiCategory {
    Good,
    Fair,
    Moderate,
    Poor,
    VeryPoor,
    ExtremelyPoor,
}

/// Air-quality band on the scale the source reports.
#[derive(Debug, Clone, Copy, PartialEq, Eq, Structural)]
pub enum AqiCategory {
    Us(UsAqiCategory),
    Eu(EuAqiCategory),
}

/// Unit system for wind speed and the like.
#[derive(Debug, Clone, Copy, PartialEq, Eq, Structural)]
pub enum MeasurementSystem {
    Imperial,
    Metric,
}

/// Temperature scale.
#[derive(Debug, Clone, Copy, PartialEq, Eq, Structural)]
pub enum TemperatureUnit {
    Fahrenheit,
    Celsius,
}

impl MeasurementSystem {
    /// Returns the wind speed unit label.
    pub fn wind_speed_unit(&self) -> (r: &'static str)
        ensures
            r@ == (if *self == MeasurementSystem::Imperial { "mph"@ } else { "km/h"@ }),
    {
        match self {
            MeasurementSystem::Imperial => "mph",
            MeasurementSystem::Metric => "km/h",
        }
    }
}

/// Day of the week.
#[derive(Debug, Clone, Copy, PartialEq, Eq, Structural)]
pub enum Weekday {
    Mon,
    Tue,
    Wed,
    Thu,
    Fri,
    Sat,
    Sun,
}

/// The weekday numbered from Monday = 0.
pub open spec fn weekday_from_index(i: nat) -> Weekday {
    if i == 0 { Weekday::Mon }
    else if i == 1 { Weekday::Tue }
    else if i == 2 { Weekday::Wed }
    else if i == 3 { Weekday::Thu }
    else if i == 4 { Weekday::Fri }
    else if i == 5 { Weekday::Sat }
    else { Weekday::Sun }
}

impl Weekday {
    /// The weekday numbered from Monday = 0 (6 and above give Sunday).
    pub fn from_monday_index(i: u32) -> (r: Weekday)
        ensures
            r == weekday_from_index(i as nat),
    {
        if i == 0 { Weekday::Mon }
        else if i == 1 { Weekday::Tue }
        else if i == 2 { Weekday::Wed }
        else if i == 3 { Weekday::Thu }
        else if i == 4 { Weekday::Fri }
        else if i == 5 { Weekday::Sat }
        else { Weekday::Sun }
    }
}

/// The day after a weekday.
pub open spec fn day_after(w: Weekday) -> Weekday {
    match w {
        Weekday::Mon => Weekday::Tue,
        Weekday::Tue => Weekday::Wed,
        Weekday::Wed => Weekday::Thu,
        Weekday::Thu => Weekday::Fri,
        Weekday::Fri => Weekday::Sat,
        Weekday::Sat => Weekday::Sun,
        Weekday::Sun => Weekday::Mon,
    }
}

/// The numbering from Monday = 0 follows the calendar: index 0 is Monday,
/// each next index is the next day, and the seven indices name the seven
/// weekdays once each, ending on Sunday.
pub proof fn lemma_weekday_numbering_follows_the_calendar(i: nat, j: nat)
    ensures
        weekday_from_index(0) == Weekday::Mon,
        i < 6 ==> weekday_from_index(i + 1) == day_after(weekday_from_index(i)),
        weekday_from_index(6) == Weekday::Sun,
        day_after(weekday_from_index(6)) == weekday_from_index(0),
        i < 7 && j < 7 && i != j ==> weekday_from_index(i) != weekday_from_index(j),
{
}

/// Daily forecast values as the applet shows them.
#[derive(Debug, Clone)]
pub struct DailyForecast {
    /// ISO date string (e.g. "2025-11-25").
    pub date: String,
    /// High temperature for the day, rounded to a whole degree.
    pub temp_max: i32,
    /// Low temperature for the day, rounded to a whole degree.
    pub temp_min: i32,
    pub condition: WeatherCondition,
    /// Maximum wind speed, rendered as a whole number (e.g. "12").
    pub windspeed_max: String,
    pub compass_direction: CompassDirection,
    /// Peak chance of precipitation in percent, when the source gives one.
    pub precipitation_probability_max: Option<i32>,
    /// Sunrise as an ISO timestamp in the location's local time.
    pub sunrise: String,
    /// Sunset as an ISO timestamp in the location's local time.
    pub sunset: String,
}

/// Hourly forecast values as the applet shows them.
#[derive(Debug, Clone)]
pub struct HourlyForecast {
    /// ISO timestamp for this hour, in the location's local time.
    pub time: String,
    /// Temperature rounded to a whole degree.
    pub temperature: i32,
    pub condition: WeatherCondition,
    /// Chance of precipitation in percent.
    pub precipitation_probability: i32,
    /// Wind speed rendered as a whole number.
    pub windspeed: String,
}

/// Current conditions as the applet shows them.
#[derive(Debug, Clone)]
pub struct CurrentWeather {
    /// Temperature rounded to a whole degree.
    pub temperature: i32,
    pub condition: WeatherCondition,
    /// Wind speed rendered as a whole number.
    pub windspeed: String,
    /// Relative humidity in percent.
    pub humidity: i32,
    /// Apparent temperature rounded to a whole degree.
    pub feels_like: i32,
    pub compass_direction: CompassDirection,
    /// Wind gust speed rendered as a whole number.
    pub wind_gusts: String,
    /// Cloud cover in percent.
    pub cloud_cover: i32,
    /// Dew point rounded to a whole degree.
    pub dew_point: i32,
}

/// One fetch of weather data.
#[derive(Debug, Clone)]
pub struct WeatherData {
    pub current: CurrentWeather,
    pub hourly: Vec<HourlyForecast>,
    pub forecast: Vec<DailyForecast>,
    /// Seconds east of UTC at the location.
    pub utc_offset_seconds: i32,
}

// --- Message ids ---

/// The message id of a condition's label.
pub open spec fn condition_key(c: WeatherCondition) -> Seq<char> {
    match c {
        WeatherCondition::ClearSky => "condition-clear-sky"@,
        WeatherCondition::MainlyClear => "condition-mainly-clear"@,
        WeatherCondition::PartlyCloudy => "condition-partly-cloudy"@,
        WeatherCondition::Overcast => "condition-overcast"@,
        WeatherCondition::Foggy => "condition-fog"@,
        WeatherCondition::Drizzle => "condition-drizzle"@,
        WeatherCondition::FreezingDrizzle => "condition-freezing-drizzle"@,
        WeatherCondition::Rain => "condition-rain"@,
        WeatherCondition::FreezingRain => "condition-freezing-rain"@,
        WeatherCondition::Snow => "condition-snow"@,
        WeatherCondition::SnowGrains => "condition-snow-grains"@,
        WeatherCondition::RainShowers => "condition-rain-showers"@,
        WeatherCondition::SnowShowers => "condition-snow-showers"@,
        WeatherCondition::Thunderstorm => "condition-thunderstorm"@,
        WeatherCondition::ThunderstormHail => "condition-thunderstorm-hail"@,
        WeatherCondition::Unknown => "condition-unknown"@,
    }
}

/// The message id of the human-readable label for a condition. The labels
/// are kept keyword-compatible with `types::condition_icon` ("rain", "snow",
/// "storm", "fog", "cloud", "clear" ...), so the icon mapping resolves them;
/// day and night are told apart downstream, not in the label.
pub fn condition_label(c: &WeatherCondition) -> (r: &'static str)
    ensures
        r@ == condition_key(*c),
{
    match c {
        WeatherCondition::ClearSky => "condition-clear-sky",
        WeatherCondition::MainlyClear => "condition-mainly-clear",
        WeatherCondition::PartlyCloudy => "condition-partly-cloudy",
        WeatherCondition::Overcast => "condition-overcast",
        WeatherCondition::Foggy => "condition-fog",
        WeatherCondition::Drizzle => "condition-drizzle",
        WeatherCondition::FreezingDrizzle => "condition-freezing-drizzle",
        WeatherCondition::Rain => "condition-rain",
        WeatherCondition::FreezingRain => "condition-freezing-rain",
        WeatherCondition::Snow => "condition-snow",
        WeatherCondition::SnowGrains => "condition-snow-grains",
        WeatherCondition::RainShowers => "condition-rain-showers",
        WeatherCondition::SnowShowers => "condition-snow-showers",
        WeatherCondition::Thunderstorm => "condition-thunderstorm",
        WeatherCondition::ThunderstormHail => "condition-thunderstorm-hail",
        WeatherCondition::Unknown => "condition-unknown",
    }
}

/// Severity band of an air-quality category, 0 (best) to 5 (worst), each
/// scale ranked in its own order: US Good, Moderate, Unhealthy for
/// Sensitive Groups, Unhealthy, Very Unhealthy, Hazardous; European Good
/// (AQI 0-20), Fair (21-40), Moderate (41-60), Poor, Very Poor, Extremely
/// Poor.
pub open spec fn aqi_band(c: AqiCategory) -> u8 {
    match c {
        AqiCategory::Us(UsAqiCategory::Good) | AqiCategory::Eu(EuAqiCategory::Good) => 0,
        AqiCategory::Us(UsAqiCategory::Moderate) | AqiCategory::Eu(EuAqiCategory::Fair) => 1,
        AqiCategory::Us(UsAqiCategory::UnhealthySensitive) | AqiCategory::Eu(EuAqiCategory::Moderate) => 2,
        AqiCategory::Us(UsAqiCategory::Unhealthy) | AqiCategory::Eu(EuAqiCategory::Poor) => 3,
        AqiCategory::Us(UsAqiCategory::VeryUnhealthy) | AqiCategory::Eu(EuAqiCategory::VeryPoor) => 4,
        AqiCategory::Us(UsAqiCategory::Hazardous) | AqiCategory::Eu(EuAqiCategory::ExtremelyPoor) => 5,
    }
}

/// The 0..=5 best-to-worst band of an air-quality category, which drives the
/// tint of the air-quality chip.
pub fn aqi_severity_index(c: &AqiCategory) -> (r: u8)
    ensures
        r == aqi_band(*c),
        r <= 5,
{
    match c {
        AqiCategory::Us(UsAqiCategory::Good) | AqiCategory::Eu(EuAqiCategory::Good) => 0,
        AqiCategory::Us(UsAqiCategory::Moderate) | AqiCategory::Eu(EuAqiCategory::Fair) => 1,
        AqiCategory::Us(UsAqiCategory::UnhealthySensitive) | AqiCategory::Eu(EuAqiCategory::Moderate) => 2,
        AqiCategory::Us(UsAqiCategory::Unhealthy) | AqiCategory::Eu(EuAqiCategory::Poor) => 3,
        AqiCategory::Us(UsAqiCategory::VeryUnhealthy) | AqiCategory::Eu(EuAqiCategory::VeryPoor) => 4,
        AqiCategory::Us(UsAqiCategory::Hazardous) | AqiCategory::Eu(EuAqiCategory::ExtremelyPoor) => 5,
    }
}

} // verus!
