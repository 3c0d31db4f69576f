//! What the applet's panel and popup show, decided apart from drawing it:
//! the panel icon and temperature, row and column labels, the hourly
//! strip's window, detail lines, and the message ids of translated labels.
use vstd::prelude::*;
use crate::backend::{day_key, naive_date_weekday, DayName};
use crate::text::{
    ascii_upper,    char_to_uppercase, char_uppercase, chars_of, concat2, contains_chars, decimal, decimal_pad2,
    has_sub, owned, push_i32, push_str, push_u32, push_u32_pad2, signed_decimal,
    str_eq, str_lowercase,
};
use crate::types::{
    condition_icon, icon_for_condition_text, iso_hour, iso_hour_spec, opt_chars,
    AlertSeverity, CurrentObservation, DailySun, DaySummary, FetchState, Forecast,
    ForecastPeriod, WeatherAlert,
};
use crate::weather::{
    weekday_from_index, AqiCategory, CompassDirection, EuAqiCategory, UsAqiCategory, Weekday,
};

verus! {

// --- Alerts ---

/// The alerts for the active location: local alerts, a national feed that
/// could not be narrowed to the location, or none because the source could
/// not be reached (with the reason).
#[derive(Debug, Clone)]
pub enum Alerts {
    Local(Vec<WeatherAlert>),
    National(Vec<WeatherAlert>),
    Unavailable(String),
}

impl Alerts {
    /// The alerts held, local or national; none when unavailable.
    pub fn list(&self) -> (r: &[WeatherAlert])
        ensures
            match self {
                Alerts::Local(a) => r@ == a@,
                Alerts::National(a) => r@ == a@,
                Alerts::Unavailable(_) => r@.len() == 0,
            },
    {
        match self {
            Alerts::Local(a) => a.as_slice(),
            Alerts::National(a) => a.as_slice(),
            Alerts::Unavailable(_) => &[],
        }
    }
}

/// How an alert glyph is tinted: with the theme's destructive colour, its
/// warning colour, or the surface's text colour.
#[derive(Debug, Clone, Copy, PartialEq, Eq, Structural)]
pub enum Tint {
    Destructive,
    Warning,
    Text,
}

/// The tint of a severity's glyph.
pub open spec fn tint_for(severity: AlertSeverity) -> Tint {
    match severity {
        AlertSeverity::Extreme | AlertSeverity::Severe => Tint::Destructive,
        AlertSeverity::Moderate => Tint::Warning,
        AlertSeverity::Minor | AlertSeverity::Unknown => Tint::Text,
    }
}

/// Glyph tint by CAP severity. Minor and Unknown stay at the surface's text
/// color so only the rows that matter draw the eye.
pub fn severity_tint(severity: &AlertSeverity) -> (r: Tint)
    ensures
        r == tint_for(*severity),
{
    match severity {
        AlertSeverity::Extreme | AlertSeverity::Severe => Tint::Destructive,
        AlertSeverity::Moderate => Tint::Warning,
        AlertSeverity::Minor | AlertSeverity::Unknown => Tint::Text,
    }
}

/// What the alert banner above the forecast shows.
#[derive(Debug, Clone, Copy, PartialEq, Eq, Structural)]
pub enum Banner {
    /// No banner: there are no alerts.
    Hidden,
    /// Only the muted note that alerts could not be fetched.
    Unavailable,
    /// The muted caption that these are national alerts, with their count,
    /// over the alerts grouped by event.
    National(usize),
    /// One row per local alert.
    Local,
}

/// The banner for the alerts held: the note when the source was
/// unreachable, nothing when there are no alerts, else the national caption
/// with the count or the local rows.
pub fn alert_banner(alerts: &Alerts) -> (r: Banner)
    ensures
        r == match alerts {
            Alerts::Unavailable(_) => Banner::Unavailable,
            Alerts::National(a) => if a@.len() == 0 {
                Banner::Hidden
            } else {
                Banner::National(a@.len() as usize)
            },
            Alerts::Local(a) => if a@.len() == 0 {
                Banner::Hidden
            } else {
                Banner::Local
            },
        },
{
    match alerts {
        Alerts::Unavailable(_) => Banner::Unavailable,
        Alerts::National(a) => if a.len() == 0 {
            Banner::Hidden
        } else {
            Banner::National(a.len())
        },
        Alerts::Local(a) => if a.len() == 0 {
            Banner::Hidden
        } else {
            Banner::Local
        },
    }
}

/// One row of the local alert banner.
#[derive(Debug, Clone)]
pub struct AlertRow {
    /// The event, first letter uppercased.
    pub title: String,
    /// Whether the title is set in bold (extreme alerts).
    pub bold: bool,
    /// The tint of the row's glyph.
    pub tint: Tint,
    /// The headline, shown only while the row is expanded.
    pub headline: Option<String>,
}

/// The row of a local alert: its event with the first letter lifted, bold
/// when the alert is extreme, the glyph tinted by severity, and the headline
/// under it while the row is expanded.
pub fn alert_row(alert: &WeatherAlert, expanded: bool) -> (r: AlertRow)
    ensures
        r.title@ == capitalized(alert.event@),
        r.bold == (alert.severity is Extreme),
        r.tint == tint_for(alert.severity),
        opt_chars(r.headline) == (if expanded { Some(alert.headline@) } else { None }),
{
    let bold = match alert.severity {
        AlertSeverity::Extreme => true,
        _ => false,
    };
    AlertRow {
        title: capitalize_first(alert.event.as_str()),
        bold,
        tint: severity_tint(&alert.severity),
        headline: if expanded { Some(alert.headline.clone()) } else { None },
    }
}

// --- Icons ---

/// The icon of a forecast period, from its short forecast text.
pub fn weather_icon_for_period(period: &ForecastPeriod) -> (r: &'static str)
    ensures
        r@ == icon_for_condition_text(str_lowercase(period.short_forecast@), period.is_daytime),
{
    condition_icon(period.short_forecast.as_str(), period.is_daytime)
}

/// The icon of a daily row, from its short forecast text.
pub fn forecast_icon_for_summary(day: &DaySummary) -> (r: &'static str)
    ensures
        r@ == icon_for_condition_text(str_lowercase(day.short_forecast@), day.is_daytime),
{
    condition_icon(day.short_forecast.as_str(), day.is_daytime)
}

/// The panel icon: the alert glyph while local alerts are active, else the
/// observed condition, else the first forecast period's, else a clear sky.
pub open spec fn panel_icon(alerts: Alerts, observation: Option<CurrentObservation>, forecast: Option<Forecast>) -> Seq<char> {
    if alerts matches Alerts::Local(a) && a@.len() > 0 {
        "weather-severe-alert-symbolic"@
    } else if observation matches Some(o) && o.condition is Some {
        icon_for_condition_text(str_lowercase(observation->0.condition->0@), observation->0.is_daytime)
    } else if forecast matches Some(f) && f.periods@.len() > 0 {
        icon_for_condition_text(
            str_lowercase(forecast->0.periods@[0].short_forecast@),
            forecast->0.periods@[0].is_daytime,
        )
    } else {
        "weather-clear-symbolic"@
    }
}

/// The optional value behind an optional reference.
pub open spec fn deref_opt<T>(o: Option<&T>) -> Option<T> {
    match o {
        Some(x) => Some(*x),
        None => None,
    }
}

/// The icon shown in the panel.
pub fn weather_icon_name(
    alerts: &Alerts,
    observation: Option<&CurrentObservation>,
    forecast: Option<&Forecast>,
) -> (r: &'static str)
    ensures
        r@ == panel_icon(*alerts, deref_opt(observation), deref_opt(forecast)),
{
    if let Alerts::Local(a) = alerts {
        if a.len() > 0 {
            return "weather-severe-alert-symbolic";
        }
    }
    // The observed condition is preferred for the panel icon.
    if let Some(obs) = observation {
        if let Some(cond) = &obs.condition {
            return condition_icon(cond.as_str(), obs.is_daytime);
        }
    }
    if let Some(f) = forecast {
        if f.periods.len() > 0 {
            return weather_icon_for_period(&f.periods[0]);
        }
    }
    "weather-clear-symbolic"
}

/// The icon names that the applet ships its own artwork for; any other name
/// is looked up in the icon theme.
pub open spec fn bundled_icon(name: Seq<char>) -> bool {
    name == "weather-clear-symbolic"@ || name == "weather-clear-night-symbolic"@ || name
        == "weather-few-clouds-symbolic"@ || name == "weather-few-clouds-night-symbolic"@ || name
        == "weather-overcast-symbolic"@ || name == "weather-showers-symbolic"@ || name
        == "weather-showers-scattered-symbolic"@ || name == "weather-snow-symbolic"@ || name
        == "weather-storm-symbolic"@ || name == "weather-fog-symbolic"@ || name
        == "weather-severe-alert-symbolic"@
}

/// Whether the applet ships its own artwork for an icon name.
pub fn is_bundled_icon(name: &str) -> (r: bool)
    ensures
        r == bundled_icon(name@),
{
    str_eq(name, "weather-clear-symbolic") || str_eq(name, "weather-clear-night-symbolic")
        || str_eq(name, "weather-few-clouds-symbolic") || str_eq(
        name,
        "weather-few-clouds-night-symbolic",
    ) || str_eq(name, "weather-overcast-symbolic") || str_eq(name, "weather-showers-symbolic")
        || str_eq(name, "weather-showers-scattered-symbolic") || str_eq(
        name,
        "weather-snow-symbolic",
    ) || str_eq(name, "weather-storm-symbolic") || str_eq(name, "weather-fog-symbolic")
        || str_eq(name, "weather-severe-alert-symbolic")
}

/// Every icon the condition mapping picks is one the applet ships, so the
/// icon theme is never consulted for a forecast icon.
pub proof fn lemma_condition_icons_are_bundled(s: Seq<char>, is_daytime: bool)
    ensures
        bundled_icon(icon_for_condition_text(s, is_daytime)),
{
}

/// The panel icon is always one the applet ships.
pub proof fn lemma_panel_icon_is_bundled(
    alerts: Alerts,
    observation: Option<CurrentObservation>,
    forecast: Option<Forecast>,
)
    ensures
        bundled_icon(panel_icon(alerts, observation, forecast)),
{
}

// --- Panel temperature ---

/// The panel temperature: the observed temperature with the observation's
/// unit, else the first forecast period's with "F" or "C".
pub open spec fn panel_temperature(observation: Option<CurrentObservation>, forecast: Option<Forecast>) -> Option<Seq<char>> {
    if observation matches Some(o) && o.temperature is Some {
        Some(
            signed_decimal(observation->0.temperature->0 as int) + "°"@
                + observation->0.temperature_unit@,
        )
    } else if forecast matches Some(f) && f.periods@.len() > 0 {
        let p = forecast->0.periods@[0];
        Some(
            signed_decimal(p.temperature as int) + "°"@ + (if p.temperature_unit@ == "F"@ {
                "F"@
            } else {
                "C"@
            }),
        )
    } else {
        None
    }
}

/// The temperature shown in the panel, e.g. "72°F".
pub fn current_temp_text(observation: Option<&CurrentObservation>, forecast: Option<&Forecast>) -> (r: Option<String>)
    ensures
        opt_chars(r) == panel_temperature(deref_opt(observation), deref_opt(forecast)),
{
    // The observation temperature is preferred; the first forecast period is
    // the fallback.
    if let Some(obs) = observation {
        if let Some(temp) = obs.temperature {
            let mut s = String::new();
            push_i32(&mut s, temp);
            push_str(&mut s, "°");
            push_str(&mut s, obs.temperature_unit.as_str());
            return Some(s);
        }
    }
    match forecast {
        Some(f) => {
            if f.periods.len() > 0 {
                let p = &f.periods[0];
                let unit = if str_eq(p.temperature_unit.as_str(), "F") { "F" } else { "C" };
                let mut s = String::new();
                push_i32(&mut s, p.temperature);
                push_str(&mut s, "°");
                push_str(&mut s, unit);
                Some(s)
            } else {
                None
            }
        }
        None => None,
    }
}

// --- Text helpers ---

/// The text with its first character uppercased.
pub open spec fn capitalized(s: Seq<char>) -> Seq<char> {
    if s.len() == 0 {
        Seq::empty()
    } else {
        char_uppercase(s[0]) + s.drop_first()
    }
}

/// Alert events arrive as the feed wrote them ("wind gusts") or
/// title-cased; lifting the first letter makes both read alike.
pub fn capitalize_first(s: &str) -> (r: String)
    ensures
        r@ == capitalized(s@),
        s@.len() > 0 && (s@[0] as u32) < 128 ==> r@ == seq![ascii_upper(s@[0])] + s@.drop_first(),
{
    let cs = chars_of(s);
    if cs.len() == 0 {
        return String::new();
    }
    let mut r = char_to_uppercase(cs[0]);
    let mut i: usize = 1;
    let ghost start = r@;
    while i < cs.len()
        invariant
            cs@ == s@,
            1 <= i <= cs.len(),
            r@ == start + cs@.subrange(1, i as int),
        decreases cs.len() - i,
    {
        crate::text::push_char(&mut r, cs[i]);
        assert(cs@.subrange(1, i + 1) =~= cs@.subrange(1, i as int).push(cs@[i as int]));
        i += 1;
    }
    assert(cs@.subrange(1, cs.len() as int) =~= s@.drop_first());
    r
}

// --- Message ids of labels ---

/// The message id of a compass point's label.
pub open spec fn compass_key(d: CompassDirection) -> Seq<char> {
    match d {
        CompassDirection::N => "compass-n"@,
        CompassDirection::NE => "compass-ne"@,
        CompassDirection::E => "compass-e"@,
        CompassDirection::SE => "compass-se"@,
        CompassDirection::S => "compass-s"@,
        CompassDirection::SW => "compass-sw"@,
        CompassDirection::W => "compass-w"@,
        CompassDirection::NW => "compass-nw"@,
    }
}

/// The message id of a compass point's label.
pub fn compass_label(d: CompassDirection) -> (r: &'static str)
    ensures
        r@ == compass_key(d),
{
    match d {
        CompassDirection::N => "compass-n",
        CompassDirection::NE => "compass-ne",
        CompassDirection::E => "compass-e",
        CompassDirection::SE => "compass-se",
        CompassDirection::S => "compass-s",
        CompassDirection::SW => "compass-sw",
        CompassDirection::W => "compass-w",
        CompassDirection::NW => "compass-nw",
    }
}

/// The message id of a weekday's label.
pub open spec fn weekday_key(w: Weekday) -> Seq<char> {
    match w {
        Weekday::Sun => "weekday-sunday"@,
        Weekday::Mon => "weekday-monday"@,
        Weekday::Tue => "weekday-tuesday"@,
        Weekday::Wed => "weekday-wednesday"@,
        Weekday::Thu => "weekday-thursday"@,
        Weekday::Fri => "weekday-friday"@,
        Weekday::Sat => "weekday-saturday"@,
    }
}

/// The message id of a weekday's label.
pub fn weekday_label(w: Weekday) -> (r: &'static str)
    ensures
        r@ == weekday_key(w),
{
    match w {
        Weekday::Sun => "weekday-sunday",
        Weekday::Mon => "weekday-monday",
        Weekday::Tue => "weekday-tuesday",
        Weekday::Wed => "weekday-wednesday",
        Weekday::Thu => "weekday-thursday",
        Weekday::Fri => "weekday-friday",
        Weekday::Sat => "weekday-saturday",
    }
}

/// A weekday's label in the daily rows and its name in the daily periods
/// name the same day: "weekday-x" is "day-x" with "week" before it, and the
/// seven weekdays have seven different names.
pub proof fn lemma_weekday_labels_name_the_same_day(w: Weekday, v: Weekday)
    ensures
        weekday_key(w) == "week"@ + day_key(w),
        w != v ==> day_key(w) != day_key(v),
{
    reveal_strlit("week");
    reveal_strlit("weekday-monday");
    reveal_strlit("weekday-tuesday");
    reveal_strlit("weekday-wednesday");
    reveal_strlit("weekday-thursday");
    reveal_strlit("weekday-friday");
    reveal_strlit("weekday-saturday");
    reveal_strlit("weekday-sunday");
    reveal_strlit("day-monday");
    reveal_strlit("day-tuesday");
    reveal_strlit("day-wednesday");
    reveal_strlit("day-thursday");
    reveal_strlit("day-friday");
    reveal_strlit("day-saturday");
    reveal_strlit("day-sunday");
    assert(weekday_key(w) =~= "week"@ + day_key(w));
    if w != v {
        assert(day_key(w)[4] != day_key(v)[4] || day_key(w)[5] != day_key(v)[5] || day_key(w).len()
            != day_key(v).len());
    }
}

/// The message id of an air-quality category's label.
pub open spec fn aqi_category_key(c: AqiCategory) -> Seq<char> {
    match c {
        AqiCategory::Us(UsAqiCategory::Good) | AqiCategory::Eu(EuAqiCategory::Good) => "aqi-cat-good"@,
        AqiCategory::Us(UsAqiCategory::Moderate) | AqiCategory::Eu(EuAqiCategory::Moderate) => "aqi-cat-moderate"@,
        AqiCategory::Us(UsAqiCategory::UnhealthySensitive) => "aqi-cat-unhealthy-sensitive"@,
        AqiCategory::Us(UsAqiCategory::Unhealthy) => "aqi-cat-unhealthy"@,
        AqiCategory::Us(UsAqiCategory::VeryUnhealthy) => "aqi-cat-very-unhealthy"@,
        AqiCategory::Us(UsAqiCategory::Hazardous) => "aqi-cat-hazardous"@,
        AqiCategory::Eu(EuAqiCategory::Fair) => "aqi-cat-fair"@,
        AqiCategory::Eu(EuAqiCategory::Poor) => "aqi-cat-poor"@,
        AqiCategory::Eu(EuAqiCategory::VeryPoor) => "aqi-cat-very-poor"@,
        AqiCategory::Eu(EuAqiCategory::ExtremelyPoor) => "aqi-cat-extremely-poor"@,
    }
}

/// The message id of an air-quality category's label.
pub fn aqi_category_label(c: AqiCategory) -> (r: &'static str)
    ensures
        r@ == aqi_category_key(c),
{
    match c {
        AqiCategory::Us(UsAqiCategory::Good) | AqiCategory::Eu(EuAqiCategory::Good) => "aqi-cat-good",
        AqiCategory::Us(UsAqiCategory::Moderate) | AqiCategory::Eu(EuAqiCategory::Moderate) => "aqi-cat-moderate",
        AqiCategory::Us(UsAqiCategory::UnhealthySensitive) => "aqi-cat-unhealthy-sensitive",
        AqiCategory::Us(UsAqiCategory::Unhealthy) => "aqi-cat-unhealthy",
        AqiCategory::Us(UsAqiCategory::VeryUnhealthy) => "aqi-cat-very-unhealthy",
        AqiCategory::Us(UsAqiCategory::Hazardous) => "aqi-cat-hazardous",
        AqiCategory::Eu(EuAqiCategory::Fair) => "aqi-cat-fair",
        AqiCategory::Eu(EuAqiCategory::Poor) => "aqi-cat-poor",
        AqiCategory::Eu(EuAqiCategory::VeryPoor) => "aqi-cat-very-poor",
        AqiCategory::Eu(EuAqiCategory::ExtremelyPoor) => "aqi-cat-extremely-poor",
    }
}

/// Which of the three loud air-quality fills a severity band takes: bands
/// 3, 4 and 5 (and anything above, as 5) take fills 0, 1 and 2; the quiet
/// bands 0..=2 take none and blend into the card.
pub fn aqi_fill_index(severity: u8) -> (r: Option<usize>)
    ensures
        severity < 3 ==> r is None,
        severity >= 3 ==> r == Some(if severity - 3 < 2 { (severity - 3) as usize } else { 2usize }),
{
    if severity >= 3 {
        let i = (severity - 3) as usize;
        Some(if i < 2 { i } else { 2 })
    } else {
        None
    }
}

// --- Daily rows ---

/// `weathervane::ParsedDate::from_iso`: parses an ISO date ("2025-11-25")
/// and returns its weekday numbered from Monday = 0. Its source parses with
/// `chrono::NaiveDate::parse_from_str(date, "%Y-%m-%d")` and takes
/// `weekday()`, the very computation that `naive_date_weekday` names, so its
/// result is stated with that name; chrono documents the numbering as 0..=6.
#[verifier::external_body]
fn iso_weekday(date: &str) -> (r: Option<u32>)
    ensures
        r == naive_date_weekday(date@),
        r matches Some(w) ==> w < 7,
{
    match weathervane::ParsedDate::from_iso(date) {
        Some(d) => Some(d.weekday.num_days_from_monday()),
        None => None,
    }
}

/// The name of the first row, by the four-band rule over day/night and the
/// period's start hour (6 for a day period and 18 for a night period when
/// the hour is unknown).
pub open spec fn first_row_key(is_daytime: bool, hour: Option<u32>) -> Seq<char> {
    let h = match hour {
        Some(h) => h,
        None => if is_daytime { 6u32 } else { 18u32 },
    };
    if is_daytime {
        if h < 12 { "day-today"@ } else { "day-this-afternoon"@ }
    } else {
        if h >= 6 { "day-tonight"@ } else { "day-overnight"@ }
    }
}

/// Row label for a daily forecast row.
///
/// Row 0 uses the four-band rule over `is_daytime` and the period's start
/// hour (`start_hour`); rows 1+ resolve the weekday from the ISO date so the
/// name is localized, falling back to the raw date string (empty when the
/// row has no date) if it is missing or unparseable.
pub fn day_label(day: &DaySummary, index: usize, start_hour: Option<u32>) -> (r: DayName)
    ensures
        index == 0 ==> (r matches DayName::Message(k) && k@ == first_row_key(day.is_daytime, start_hour)),
        index != 0 ==> match opt_chars(day.date) {
            Some(d) => match naive_date_weekday(d) {
                Some(w) => r matches DayName::Message(k) && k@ == weekday_key(weekday_from_index(w as nat)),
                None => r matches DayName::Date(s) && s@ == d,
            },
            None => r matches DayName::Date(s) && s@.len() == 0,
        },
{
    if index == 0 {
        let hour = match start_hour {
            Some(h) => h,
            None => if day.is_daytime { 6 } else { 18 },
        };
        let key = if day.is_daytime {
            if hour < 12 { "day-today" } else { "day-this-afternoon" }
        } else {
            if hour >= 6 { "day-tonight" } else { "day-overnight" }
        };
        return DayName::Message(key);
    }
    match &day.date {
        Some(d) => match iso_weekday(d.as_str()) {
            Some(w) => DayName::Message(weekday_label(Weekday::from_monday_index(w))),
            None => DayName::Date(d.clone()),
        },
        None => DayName::Date(String::new()),
    }
}

/// The temperature column of a daily row: "high° / low°", "high°",
/// "— / low°", or "—".
pub open spec fn temp_range(high: Option<i32>, low: Option<i32>) -> Seq<char> {
    match (high, low) {
        (Some(h), Some(l)) => signed_decimal(h as int) + "° / "@ + signed_decimal(l as int) + "°"@,
        (Some(h), None) => signed_decimal(h as int) + "°"@,
        (None, Some(l)) => "— / "@ + signed_decimal(l as int) + "°"@,
        (None, None) => "—"@,
    }
}

/// The temperature column of a daily row.
pub fn temp_range_text(high: Option<i32>, low: Option<i32>) -> (r: String)
    ensures
        r@ == temp_range(high, low),
{
    match (high, low) {
        (Some(h), Some(l)) => {
            let mut s = String::new();
            push_i32(&mut s, h);
            push_str(&mut s, "° / ");
            push_i32(&mut s, l);
            push_str(&mut s, "°");
            s
        }
        (Some(h), None) => {
            let mut s = String::new();
            push_i32(&mut s, h);
            push_str(&mut s, "°");
            s
        }
        (None, Some(l)) => {
            let mut s = owned("— / ");
            push_i32(&mut s, l);
            push_str(&mut s, "°");
            s
        }
        (None, None) => owned("—"),
    }
}

/// Whether a row carries a prose forecast (NWS), which then leads its
/// details in place of the structured wind and precipitation lines: a
/// non-empty detailed forecast that differs from the short one.
pub fn has_prose(day: &DaySummary) -> (r: bool)
    ensures
        r == (day.detailed_forecast@.len() > 0 && day.detailed_forecast@ != day.short_forecast@),
{
    let detailed = chars_of(day.detailed_forecast.as_str());
    detailed.len() > 0 && !str_eq(day.detailed_forecast.as_str(), day.short_forecast.as_str())
}

// --- Detail lines ---

/// One run of text in a detail line, muted (labels, separators) or at full
/// strength (values).
#[derive(Debug, Clone)]
pub struct Span {
    pub text: String,
    pub muted: bool,
}

/// The contents of (label, value) pairs.
pub open spec fn pair_views(pairs: Seq<(String, String)>) -> Seq<(Seq<char>, Seq<char>)> {
    pairs.map_values(|p: (String, String)| (p.0@, p.1@))
}

/// The contents of spans.
pub open spec fn span_views(spans: Seq<Span>) -> Seq<(Seq<char>, bool)> {
    spans.map_values(|s: Span| (s.text@, s.muted))
}

/// The spans of one pair at position `i` of a line: a muted "  ·  "
/// separator before every pair but the first, the label with two trailing
/// spaces (muted, left out when empty), then the value.
pub open spec fn pair_spans(i: int, label: Seq<char>, value: Seq<char>) -> Seq<(Seq<char>, bool)> {
    (if i > 0 { seq![("  ·  "@, true)] } else { seq![] }) + (if label.len() > 0 {
        seq![(label + "  "@, true)]
    } else {
        seq![]
    }) + seq![(value, false)]
}

/// The spans of a whole detail line.
pub open spec fn line_spans(pairs: Seq<(Seq<char>, Seq<char>)>) -> Seq<(Seq<char>, bool)>
    decreases pairs.len(),
{
    if pairs.len() == 0 {
        seq![]
    } else {
        let i = pairs.len() - 1;
        line_spans(pairs.drop_last()) + pair_spans(i, pairs[i].0, pairs[i].1)
    }
}

fn push_span(spans: &mut Vec<Span>, text: String, muted: bool)
    ensures
        span_views(final(spans)@) == span_views(old(spans)@).push((text@, muted)),
{
    let ghost before = spans@;
    spans.push(Span { text, muted });
    assert(span_views(spans@) =~= span_views(before).push((text@, muted)));
}

/// One detail line from (label, value) pairs: muted labels and full-strength
/// values, with a muted "  ·  " separator between pairs. An empty label emits
/// the value alone (e.g. the weather condition).
pub fn stat_line(pairs: &Vec<(String, String)>) -> (r: Vec<Span>)
    ensures
        span_views(r@) == line_spans(pair_views(pairs@)),
{
    let ghost pv = pair_views(pairs@);
    let mut spans: Vec<Span> = Vec::new();
    let mut i: usize = 0;
    assert(pv.take(0) =~= Seq::<(Seq<char>, Seq<char>)>::empty());
    assert(span_views(spans@) =~= line_spans(pv.take(0)));
    while i < pairs.len()
        invariant
            pv == pair_views(pairs@),
            i <= pairs.len(),
            span_views(spans@) == line_spans(pv.take(i as int)),
        decreases pairs.len() - i,
    {
        let ghost before = span_views(spans@);
        let label = &pairs[i].0;
        let value = &pairs[i].1;
        if i > 0 {
            push_span(&mut spans, owned("  ·  "), true);
        }
        let label_chars = chars_of(label.as_str());
        if label_chars.len() > 0 {
            push_span(&mut spans, concat2(label.as_str(), "  "), true);
        }
        push_span(&mut spans, value.clone(), false);
        proof {
            let t = pv.take(i + 1);
            assert(t.drop_last() =~= pv.take(i as int));
            assert(t[i as int] == (label@, value@));
            assert(span_views(spans@) =~= before + pair_spans(i as int, label@, value@));
        }
        i += 1;
    }
    assert(pv.take(pairs.len() as int) =~= pv);
    spans
}

// --- Hourly strip ---

/// The hours on screen in the hourly strip, and whether it can page back or
/// forward.
#[derive(Debug, Clone, Copy)]
pub struct HourlyWindow {
    pub start: usize,
    pub end: usize,
    pub can_prev: bool,
    pub can_next: bool,
}

/// The first hour on screen: the requested offset, held back to the last
/// offset at which a page is still full (0 when all hours fit on one page).
pub open spec fn window_start(offset: int, total: int, page_size: int) -> int {
    let last_start = if total >= page_size { total - page_size } else { 0 };
    if offset < last_start { offset } else { last_start }
}

/// The page of the hourly strip at `offset`: the offset is held back so
/// the page stays full when it can, the page ends at `page_size` hours or at
/// the last hour, and paging back or forward is offered when hours lie
/// before or after it.
pub fn hourly_window(offset: usize, total: usize, page_size: usize) -> (r: HourlyWindow)
    ensures
        r.start == window_start(offset as int, total as int, page_size as int),
        r.end == (if r.start + page_size < total { r.start + page_size } else { total as int }),
        r.start <= r.end <= total,
        r.end - r.start <= page_size,
        total >= page_size ==> r.end - r.start == page_size,
        total > 0 && page_size > 0 ==> r.start < r.end,
        r.can_prev == (r.start > 0),
        r.can_next == (r.end < total),
{
    let last_start = if total >= page_size { total - page_size } else { 0 };
    let start = if offset < last_start { offset } else { last_start };
    let end = if page_size < total - start { start + page_size } else { total };
    HourlyWindow { start, end, can_prev: start > 0, can_next: end < total }
}

/// The precipitation caption under an hour: the chance in whole percent
/// (negative chances read as 0), shown when the hour's icon already shows
/// showers, storms or snow, or when the chance reaches 20%.
pub open spec fn hourly_precip(icon: Seq<char>, precip: Option<i32>) -> Option<Seq<char>> {
    match precip {
        Some(p) => {
            let pct: nat = if p < 0 { 0 } else { p as nat };
            if has_sub(icon, "showers"@) || has_sub(icon, "storm"@) || has_sub(icon, "snow"@) || pct >= 20 {
                Some(decimal(pct) + "%"@)
            } else {
                None
            }
        }
        None => None,
    }
}

/// The precipitation caption under an hour of the hourly strip.
pub fn hourly_precip_label(icon_name: &str, precip: Option<i32>) -> (r: Option<String>)
    ensures
        opt_chars(r) == hourly_precip(icon_name@, precip),
{
    let icon = chars_of(icon_name);
    let has_precip_icon = contains_chars(&icon, "showers") || contains_chars(&icon, "storm")
        || contains_chars(&icon, "snow");
    match precip {
        Some(p) => {
            let pct: u32 = if p < 0 { 0 } else { p as u32 };
            if has_precip_icon || pct >= 20 {
                let mut s = String::new();
                push_u32(&mut s, pct);
                push_str(&mut s, "%");
                Some(s)
            } else {
                None
            }
        }
        None => None,
    }
}

/// The column head of an hour: "15:00" on a 24-hour clock, otherwise the
/// 12-hour number and the AM or PM marker; the timestamp itself when it has
/// no hour field.
pub open spec fn column_hour(s: Seq<char>, military_time: bool, am: Seq<char>, pm: Seq<char>) -> Seq<char> {
    match iso_hour_spec(s) {
        Some(h) => if military_time {
            decimal_pad2(h) + ":00"@
        } else if h == 0 {
            decimal(12) + " "@ + am
        } else if h <= 11 {
            decimal(h) + " "@ + am
        } else if h == 12 {
            decimal(12) + " "@ + pm
        } else {
            decimal((h - 12) as nat) + " "@ + pm
        },
        None => s,
    }
}

/// The hour of the 12-hour clock for an hour of the day: 12 for midnight
/// and noon, the hour itself in the morning, the hour less 12 afterwards.
pub open spec fn clock12(h: nat) -> nat {
    if h % 12 == 0 { 12 } else { h % 12 }
}

/// How a column head tells the hour. On the 24-hour clock it is the hour in
/// two digits and ":00". On the 12-hour clock an hour of the day (0..=23)
/// shows as its 12-hour number, always between 1 and 12, followed by the AM
/// marker before noon (hours 0 to 11) and the PM marker from noon on (12 to
/// 23). A timestamp without an hour field is shown as it is.
pub proof fn lemma_column_hour_tells_the_time(s: Seq<char>, military_time: bool, am: Seq<char>, pm: Seq<char>)
    ensures
        iso_hour_spec(s) matches Some(h) ==> column_hour(s, true, am, pm) == decimal_pad2(h) + ":00"@,
        iso_hour_spec(s) matches Some(h) ==> h < 12 ==> column_hour(s, false, am, pm) == decimal(
            clock12(h),
        ) + " "@ + am,
        iso_hour_spec(s) matches Some(h) ==> 12 <= h < 24 ==> column_hour(s, false, am, pm)
            == decimal(clock12(h)) + " "@ + pm,
        iso_hour_spec(s) matches Some(h) ==> 1 <= clock12(h) <= 12,
        iso_hour_spec(s) is None ==> column_hour(s, military_time, am, pm) == s,
{
}

/// Display hour for an hourly column head, e.g. "3 PM" or "15:00".
///
/// Input format: "2026-02-28T14:00:00-08:00". Minutes are always :00 by
/// construction, so the 24-hour clock shows `{hour:02}:00` rather than a
/// full clock time. `am` and `pm` are the locale's markers.
pub fn format_hour(start_time: &str, military_time: bool, am: &str, pm: &str) -> (r: String)
    ensures
        r@ == column_hour(start_time@, military_time, am@, pm@),
{
    let hour = match iso_hour(start_time) {
        Some(h) => h,
        None => return owned(start_time),
    };
    let mut s = String::new();
    if military_time {
        push_u32_pad2(&mut s, hour);
        push_str(&mut s, ":00");
        return s;
    }
    let (display, marker) = if hour == 0 {
        (12, am)
    } else if hour <= 11 {
        (hour, am)
    } else if hour == 12 {
        (12, pm)
    } else {
        (hour - 12, pm)
    };
    push_u32(&mut s, display);
    push_str(&mut s, " ");
    push_str(&mut s, marker);
    s
}

/// The head of a column of the hourly strip.
#[derive(Debug, Clone)]
pub enum ColumnHead {
    /// The "now" label of the first hour.
    Now,
    /// The hour of the column.
    Hour(String),
}

/// The head of the column of hour `index`: "now" for the first hour, else
/// its start time as `format_hour` shows it, empty when it has none.
pub fn column_head(index: usize, start_time: &Option<String>, military_time: bool, am: &str, pm: &str) -> (r: ColumnHead)
    ensures
        index == 0 ==> r is Now,
        index != 0 ==> (r matches ColumnHead::Hour(h) && h@ == match opt_chars(*start_time) {
            Some(s) => column_hour(s, military_time, am@, pm@),
            None => Seq::empty(),
        }),
{
    if index == 0 {
        return ColumnHead::Now;
    }
    match start_time {
        Some(s) => ColumnHead::Hour(format_hour(s.as_str(), military_time, am, pm)),
        None => ColumnHead::Hour(String::new()),
    }
}

// --- Footer ---

/// The "updated" caption: the message id and the whole minutes since the
/// last update ("updated-now" under a minute, "updated-ago" otherwise).
pub fn updated_label(elapsed_secs: u64) -> (r: (&'static str, u64))
    ensures
        r.1 == elapsed_secs / 60,
        r.0@ == (if elapsed_secs / 60 == 0 { "updated-now"@ } else { "updated-ago"@ }),
{
    let minutes = elapsed_secs / 60;
    if minutes == 0 { ("updated-now", minutes) } else { ("updated-ago", minutes) }
}

// --- Current conditions card ---

/// What the current-conditions card leads with.
#[derive(Debug, Clone)]
pub struct Hero {
    pub temperature: i32,
    pub unit: String,
    pub condition: String,
    pub icon: &'static str,
    /// Wind as "{speed} {direction}", when both are known.
    pub wind: Option<String>,
    pub humidity: Option<i32>,
    pub feels_like: Option<i32>,
}

/// "{speed} {direction}".
pub open spec fn wind_text(speed: Seq<char>, direction: Seq<char>) -> Seq<char> {
    speed + " "@ + direction
}

/// The card prefers the observation and falls back to the first forecast
/// period, field by field: temperature, unit, condition and icon from the
/// observation when it has them; wind only when the observation has both
/// speed and direction; humidity and feels-like only from an observation.
/// Without an observation everything comes from the period, wind included.
pub fn hero_summary(observation: Option<&CurrentObservation>, current: &ForecastPeriod) -> (r: Hero)
    ensures
        match observation {
            Some(o) => {
                &&& r.temperature == (match o.temperature { Some(t) => t, None => current.temperature })
                &&& r.unit@ == o.temperature_unit@
                &&& r.condition@ == (match o.condition { Some(c) => c@, None => current.short_forecast@ })
                &&& r.icon@ == (match o.condition {
                    Some(c) => icon_for_condition_text(str_lowercase(c@), o.is_daytime),
                    None => icon_for_condition_text(str_lowercase(current.short_forecast@), current.is_daytime),
                })
                &&& opt_chars(r.wind) == (match (o.wind_speed, o.wind_direction) {
                    (Some(s), Some(d)) => Some(wind_text(s@, d@)),
                    _ => None,
                })
                &&& r.humidity == o.humidity
                &&& r.feels_like == o.feels_like
            },
            None => {
                &&& r.temperature == current.temperature
                &&& r.unit@ == current.temperature_unit@
                &&& r.condition@ == current.short_forecast@
                &&& r.icon@ == icon_for_condition_text(str_lowercase(current.short_forecast@), current.is_daytime)
                &&& opt_chars(r.wind) == Some(wind_text(current.wind_speed@, current.wind_direction@))
                &&& r.humidity is None
                &&& r.feels_like is None
            },
        },
{
    match observation {
        Some(obs) => {
            let temperature = match obs.temperature {
                Some(t) => t,
                None => current.temperature,
            };
            let (condition, icon) = match &obs.condition {
                Some(c) => (c.clone(), condition_icon(c.as_str(), obs.is_daytime)),
                None => (current.short_forecast.clone(), weather_icon_for_period(current)),
            };
            let wind = match (&obs.wind_speed, &obs.wind_direction) {
                (Some(speed), Some(dir)) => Some(crate::text::concat3(speed.as_str(), " ", dir.as_str())),
                _ => None,
            };
            Hero {
                temperature,
                unit: obs.temperature_unit.clone(),
                condition,
                icon,
                wind,
                humidity: obs.humidity,
                feels_like: obs.feels_like,
            }
        }
        None => Hero {
            temperature: current.temperature,
            unit: current.temperature_unit.clone(),
            condition: current.short_forecast.clone(),
            icon: weather_icon_for_period(current),
            wind: Some(crate::text::concat3(current.wind_speed.as_str(), " ", current.wind_direction.as_str())),
            humidity: None,
            feels_like: None,
        },
    }
}

/// The wind line of the current-conditions card.
#[derive(Debug, Clone)]
pub struct WindLine {
    /// "{speed} {direction}".
    pub value: String,
    /// The gust speed, told after the value ("gusting to ..."), when the
    /// observation has one.
    pub gust: Option<String>,
}

/// The card's wind line: from the observation's speed and direction, with
/// its gusts, when it has both; otherwise from the forecast period when
/// there is no observation at all; none when an observation lacks either.
pub fn wind_line(observation: Option<&CurrentObservation>, current: &ForecastPeriod) -> (r: Option<WindLine>)
    ensures
        match observation {
            Some(o) => match (o.wind_speed, o.wind_direction) {
                (Some(sp), Some(d)) => (r matches Some(w) && w.value@ == wind_text(sp@, d@) && opt_chars(w.gust)
                    == opt_chars(o.wind_gusts)),
                _ => r is None,
            },
            None => (r matches Some(w) && w.value@ == wind_text(current.wind_speed@, current.wind_direction@)
                && w.gust is None),
        },
{
    match observation {
        Some(obs) => match (&obs.wind_speed, &obs.wind_direction) {
            (Some(speed), Some(dir)) => Some(
                WindLine {
                    value: crate::text::concat3(speed.as_str(), " ", dir.as_str()),
                    gust: obs.wind_gusts.clone(),
                },
            ),
            _ => None,
        },
        None => Some(
            WindLine {
                value: crate::text::concat3(current.wind_speed.as_str(), " ", current.wind_direction.as_str()),
                gust: None,
            },
        ),
    }
}

/// The "more" toggle under the card: its icon and the message id of its
/// word, "less" while expanded and "more" while folded.
pub fn more_toggle(expanded: bool) -> (r: (&'static str, &'static str))
    ensures
        r.0@ == (if expanded { "pan-up-symbolic"@ } else { "pan-down-symbolic"@ }),
        r.1@ == (if expanded { "label-less"@ } else { "label-more"@ }),
{
    if expanded { ("pan-up-symbolic", "label-less") } else { ("pan-down-symbolic", "label-more") }
}

/// "{temperature}°{unit}", as the card and the feels-like note show it.
pub open spec fn degrees(t: i32, unit: Seq<char>) -> Seq<char> {
    signed_decimal(t as int) + "°"@ + unit
}

/// "{temperature}°{unit}".
pub fn degrees_text(t: i32, unit: &str) -> (r: String)
    ensures
        r@ == degrees(t, unit@),
{
    let mut s = String::new();
    push_i32(&mut s, t);
    push_str(&mut s, "°");
    push_str(&mut s, unit);
    s
}

/// The dew-point pair of the card's "more" line: the label's message id and
/// "{dew point}°{unit}", when the observation has a dew point.
pub fn dew_point_pair(dew_point: Option<i32>, unit: &str) -> (r: Option<(&'static str, String)>)
    ensures
        match dew_point {
            Some(d) => (r matches Some(p) && p.0@ == "label-dew-point"@ && p.1@ == degrees(d, unit@)),
            None => r is None,
        },
{
    match dew_point {
        Some(d) => Some(("label-dew-point", degrees_text(d, unit))),
        None => None,
    }
}

/// "{n}%".
pub open spec fn percent(n: int) -> Seq<char> {
    signed_decimal(n) + "%"@
}

/// The precipitation · humidity line of the card, as (label message id,
/// value) pairs: the period's chance of precipitation (0 when the period
/// has a precipitation record without a value), then the humidity, each
/// only when known.
pub open spec fn precip_humidity(current: ForecastPeriod, humidity: Option<i32>) -> Seq<(Seq<char>, Seq<char>)> {
    (match current.probability_of_precipitation {
        Some(p) => seq![("label-precipitation"@, percent(match p.value { Some(v) => v as int, None => 0 }))],
        None => seq![],
    }) + (match humidity {
        Some(h) => seq![("label-humidity"@, percent(h as int))],
        None => seq![],
    })
}

/// The contents of (message id, value) pairs.
pub open spec fn keyed_views(pairs: Seq<(&'static str, String)>) -> Seq<(Seq<char>, Seq<char>)> {
    pairs.map_values(|p: (&'static str, String)| (p.0@, p.1@))
}

fn percent_text(n: i32) -> (r: String)
    ensures
        r@ == percent(n as int),
{
    let mut s = String::new();
    push_i32(&mut s, n);
    push_str(&mut s, "%");
    s
}

/// The precipitation · humidity line of the current-conditions card.
pub fn precip_humidity_line(current: &ForecastPeriod, humidity: Option<i32>) -> (r: Vec<(&'static str, String)>)
    ensures
        keyed_views(r@) == precip_humidity(*current, humidity),
{
    let mut line: Vec<(&'static str, String)> = Vec::new();
    if let Some(p) = &current.probability_of_precipitation {
        let chance = match p.value {
            Some(v) => v,
            None => 0,
        };
        line.push(("label-precipitation", percent_text(chance)));
    }
    if let Some(h) = humidity {
        line.push(("label-humidity", percent_text(h)));
    }
    assert(keyed_views(line@) =~= precip_humidity(*current, humidity));
    line
}

// --- Daily row details ---

/// The expanded part of a daily row.
#[derive(Debug, Clone)]
pub struct DayDetails {
    /// The lead text: the prose forecast when there is one, else the short
    /// forecast; left out when empty.
    pub summary: Option<String>,
    /// "{speed} {direction}", only without prose (prose narrates the wind).
    pub wind: Option<String>,
    /// "{chance}%", only without prose and when the chance is known.
    pub precip: Option<String>,
}

/// What an expanded daily row shows besides the sun times.
pub fn day_details(day: &DaySummary) -> (r: DayDetails)
    ensures
        ({
            let prose = day.detailed_forecast@.len() > 0 && day.detailed_forecast@ != day.short_forecast@;
            let lead = if prose { day.detailed_forecast@ } else { day.short_forecast@ };
            &&& opt_chars(r.summary) == (if lead.len() > 0 { Some(lead) } else { None })
            &&& opt_chars(r.wind) == (if prose { None } else { Some(wind_text(day.wind_speed@, day.wind_direction@)) })
            &&& opt_chars(r.precip) == (if prose { None } else {
                match day.precip_chance {
                    Some(c) => Some(percent(c as int)),
                    None => None,
                }
            })
        }),
{
    let prose = has_prose(day);
    let lead = if prose { day.detailed_forecast.clone() } else { day.short_forecast.clone() };
    let summary = if chars_of(lead.as_str()).len() > 0 { Some(lead) } else { None };
    let wind = if prose {
        None
    } else {
        Some(crate::text::concat3(day.wind_speed.as_str(), " ", day.wind_direction.as_str()))
    };
    let precip = if prose {
        None
    } else {
        match day.precip_chance {
            Some(c) => Some(percent_text(c)),
            None => None,
        }
    };
    DayDetails { summary, wind, precip }
}

/// The position of the first sun record of a date.
pub fn sun_for_date(sun_times: &[DailySun], date: &Option<String>) -> (r: Option<usize>)
    ensures
        match opt_chars(*date) {
            None => r is None,
            Some(d) => match r {
                Some(i) => i < sun_times@.len() && sun_times@[i as int].date@ == d && forall|j: int|
                    0 <= j < i ==> sun_times@[j].date@ != d,
                None => forall|j: int| 0 <= j < sun_times@.len() ==> sun_times@[j].date@ != d,
            },
        },
{
    let d = match date {
        Some(d) => d,
        None => return None,
    };
    let mut i: usize = 0;
    while i < sun_times.len()
        invariant
            opt_chars(*date) == Some(d@),
            i <= sun_times.len(),
            forall|j: int| 0 <= j < i ==> sun_times@[j].date@ != d@,
        decreases sun_times.len() - i,
    {
        if str_eq(sun_times[i].date.as_str(), d.as_str()) {
            return Some(i);
        }
        i += 1;
    }
    None
}

/// The clock time of a timestamp as `weathervane::format_time` renders it
/// ("05:32" on a 24-hour clock, "5:32 AM" otherwise).
pub uninterp spec fn clock_time(time: Seq<char>, military_time: bool) -> Seq<char>;

/// `weathervane::format_time`: the clock time of an ISO timestamp, "14:30"
/// or "2:30 PM", or the text itself when it holds no time. It depends on its
/// two arguments alone; the result is named by `clock_time`.
#[verifier::external_body]
fn format_time(time: &str, military_time: bool) -> (r: String)
    ensures
        r@ == clock_time(time@, military_time),
{
    weathervane::format_time(time, military_time)
}

/// The sunrise and sunset of an expanded daily row: the clock times of the
/// first sun record of the row's date, when the row has a date and there is
/// such a record.
pub fn sun_line(sun_times: &[DailySun], date: &Option<String>, military_time: bool) -> (r: Option<(String, String)>)
    ensures
        match opt_chars(*date) {
            None => r is None,
            Some(d) => match r {
                None => forall|j: int| 0 <= j < sun_times@.len() ==> sun_times@[j].date@ != d,
                Some(times) => exists|i: int|
                    #![trigger sun_times@[i]]
                    0 <= i < sun_times@.len() && sun_times@[i].date@ == d && (forall|j: int|
                        0 <= j < i ==> sun_times@[j].date@ != d) && times.0@ == clock_time(
                        sun_times@[i].sunrise@,
                        military_time,
                    ) && times.1@ == clock_time(sun_times@[i].sunset@, military_time),
            },
        },
{
    match sun_for_date(sun_times, date) {
        Some(i) => {
            let sun = &sun_times[i];
            Some((format_time(sun.sunrise.as_str(), military_time), format_time(sun.sunset.as_str(), military_time)))
        }
        None => None,
    }
}

// --- Location search ---

/// What the location search shows under its input.
#[derive(Debug, Clone, PartialEq, Eq)]
pub enum SearchStatus {
    /// The "searching" note: a search is under way.
    Searching,
    /// The search failed, with the reason.
    Failed(String),
    /// One button per result.
    Results,
    /// The "no results" note: a finished search found nothing.
    NoResults,
    /// Nothing: no search has been made.
    Blank,
}

/// The search status: a search under way first, then a failure, then the
/// results, then the note that a finished search found nothing.
pub fn search_status(searching: bool, error: &Option<String>, result_count: usize, search_done: bool) -> (r: SearchStatus)
    ensures
        searching ==> r is Searching,
        !searching && error is Some ==> (r matches SearchStatus::Failed(e) && e@ == error->0@),
        !searching && error is None && result_count > 0 ==> r is Results,
        !searching && error is None && result_count == 0 && search_done ==> r is NoResults,
        !searching && error is None && result_count == 0 && !search_done ==> r is Blank,
{
    if searching {
        SearchStatus::Searching
    } else if let Some(e) = error {
        SearchStatus::Failed(e.clone())
    } else if result_count > 0 {
        SearchStatus::Results
    } else if search_done {
        SearchStatus::NoResults
    } else {
        SearchStatus::Blank
    }
}

/// Whether the search button is enabled: only with something typed.
pub fn can_search(input: &str) -> (r: bool)
    ensures
        r == (input@.len() > 0),
{
    chars_of(input).len() > 0
}

// --- Main body ---

/// What the popup's main body shows, top to bottom (the alert banner and
/// the footer aside).
#[derive(Debug, Clone, Copy, PartialEq, Eq, Structural)]
pub struct BodyPlan {
    /// Only the loading note: a first fetch is under way.
    pub loading_only: bool,
    /// The fetch error note.
    pub error: bool,
    /// The note that the data shown is from an earlier fetch.
    pub stale: bool,
    /// The forecast (current card, hourly strip, daily rows).
    pub forecast: bool,
    /// The note that no location is set up.
    pub no_location: bool,
}

/// The main body for a fetch state: while the first fetch loads, only a
/// loading note; after a failed fetch, the error, marked stale over an older
/// forecast; the forecast whenever there is one; and, idle without one, the
/// note that no location is set up.
pub fn main_body_plan(state: &FetchState, has_forecast: bool) -> (r: BodyPlan)
    ensures
        r.loading_only == (state is Loading && !has_forecast),
        r.error == (!r.loading_only && state is Error),
        r.stale == (r.error && has_forecast),
        r.forecast == (!r.loading_only && has_forecast),
        r.no_location == (!r.loading_only && !has_forecast && state is Idle),
{
    match state {
        FetchState::Loading => {
            if !has_forecast {
                return BodyPlan { loading_only: true, error: false, stale: false, forecast: false, no_location: false };
            }
            BodyPlan { loading_only: false, error: false, stale: false, forecast: true, no_location: false }
        }
        FetchState::Error(_) => BodyPlan {
            loading_only: false,
            error: true,
            stale: has_forecast,
            forecast: has_forecast,
            no_location: false,
        },
        FetchState::Idle => BodyPlan {
            loading_only: false,
            error: false,
            stale: false,
            forecast: has_forecast,
            no_location: !has_forecast,
        },
        FetchState::Loaded => BodyPlan {
            loading_only: false,
            error: false,
            stale: false,
            forecast: has_forecast,
            no_location: false,
        },
    }
}

} // verus!
