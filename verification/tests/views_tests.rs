use whether::backend::DayName;
use whether::types::{AlertSeverity, CurrentObservation, DaySummary, Forecast, ForecastPeriod, WeatherAlert};
use whether::views::{
    aqi_category_label, aqi_fill_index, capitalize_first, compass_label, current_temp_text,
    day_label, forecast_icon_for_summary, format_hour, has_prose, hourly_precip_label,
    hourly_window, is_bundled_icon, severity_tint, stat_line, temp_range_text, updated_label,
    weather_icon_for_period, weather_icon_name, weekday_label, Alerts, Tint,
};
use whether::weather::{AqiCategory, CompassDirection, EuAqiCategory, UsAqiCategory, Weekday};

fn obs(temp: Option<i32>, unit: &str, condition: Option<&str>, day: bool) -> CurrentObservation {
    CurrentObservation {
        temperature: temp,
        temperature_unit: unit.to_string(),
        condition: condition.map(str::to_string),
        wind_speed: None,
        wind_direction: None,
        humidity: None,
        is_daytime: day,
        feels_like: None,
        dew_point: None,
        cloud_cover: None,
        wind_gusts: None,
    }
}

fn period(temp: i32, unit: &str, short: &str, day: bool) -> ForecastPeriod {
    ForecastPeriod {
        name: "Today".to_string(),
        temperature: temp,
        temperature_unit: unit.to_string(),
        wind_speed: "5 mph".to_string(),
        wind_direction: "N".to_string(),
        short_forecast: short.to_string(),
        detailed_forecast: short.to_string(),
        is_daytime: day,
        probability_of_precipitation: None,
        start_time: None,
    }
}

fn forecast(periods: Vec<ForecastPeriod>) -> Forecast {
    Forecast { location_name: "Here".to_string(), periods, hourly_periods: vec![], sun_times: vec![] }
}

fn summary(date: Option<&str>, day: bool, short: &str, detailed: &str) -> DaySummary {
    DaySummary {
        name: "Row".to_string(),
        date: date.map(str::to_string),
        high: Some(70),
        low: Some(50),
        short_forecast: short.to_string(),
        is_daytime: day,
        wind_speed: "5 mph".to_string(),
        wind_direction: "N".to_string(),
        precip_chance: None,
        detailed_forecast: detailed.to_string(),
    }
}

fn alert() -> WeatherAlert {
    WeatherAlert {
        event: "Heat Advisory".to_string(),
        headline: "Hot".to_string(),
        severity: AlertSeverity::Moderate,
    }
}

#[test]
fn panel_temperature_prefers_the_observation() {
    let o = obs(Some(72), "F", None, true);
    let f = forecast(vec![period(60, "F", "Sunny", true)]);
    assert_eq!(current_temp_text(Some(&o), Some(&f)).as_deref(), Some("72°F"));
    let o = obs(Some(-3), "C", None, true);
    assert_eq!(current_temp_text(Some(&o), None).as_deref(), Some("-3°C"));
}

#[test]
fn panel_temperature_falls_back_to_the_forecast() {
    let o = obs(None, "F", None, true);
    let f = forecast(vec![period(60, "F", "Sunny", true)]);
    assert_eq!(current_temp_text(Some(&o), Some(&f)).as_deref(), Some("60°F"));
    let f = forecast(vec![period(15, "celsius", "Sunny", true)]);
    assert_eq!(current_temp_text(None, Some(&f)).as_deref(), Some("15°C"));
    assert_eq!(current_temp_text(None, Some(&forecast(vec![]))), None);
    assert_eq!(current_temp_text(None, None), None);
}

#[test]
fn panel_icon_shows_local_alerts_first() {
    let o = obs(Some(72), "F", Some("Sunny"), true);
    assert_eq!(
        weather_icon_name(&Alerts::Local(vec![alert()]), Some(&o), None),
        "weather-severe-alert-symbolic"
    );
    // National alerts and empty local lists do not take over the panel.
    assert_eq!(weather_icon_name(&Alerts::National(vec![alert()]), Some(&o), None), "weather-clear-symbolic");
    assert_eq!(weather_icon_name(&Alerts::Local(vec![]), Some(&o), None), "weather-clear-symbolic");
}

#[test]
fn panel_icon_falls_back_in_order() {
    let none = Alerts::Unavailable("offline".to_string());
    let o = obs(Some(72), "F", Some("Light Rain"), false);
    assert_eq!(weather_icon_name(&none, Some(&o), None), "weather-showers-symbolic");
    let o = obs(Some(72), "F", None, false);
    let f = forecast(vec![period(60, "F", "Partly Cloudy", false)]);
    assert_eq!(weather_icon_name(&none, Some(&o), Some(&f)), "weather-few-clouds-night-symbolic");
    assert_eq!(weather_icon_name(&none, None, None), "weather-clear-symbolic");
    assert!(none.list().is_empty());
    assert_eq!(Alerts::Local(vec![alert()]).list().len(), 1);
}

#[test]
fn icons_of_periods_and_rows() {
    assert_eq!(weather_icon_for_period(&period(60, "F", "Snow", true)), "weather-snow-symbolic");
    assert_eq!(
        forecast_icon_for_summary(&summary(None, false, "Clear", "Clear")),
        "weather-clear-night-symbolic"
    );
}

#[test]
fn bundled_icons() {
    assert!(is_bundled_icon("weather-storm-symbolic"));
    assert!(is_bundled_icon("weather-severe-alert-symbolic"));
    assert!(!is_bundled_icon("weather-tornado-symbolic"));
    for c in ["Thunder", "Snow", "Rain", "Fog", "Overcast", "Partly Cloudy", "Sunny", "Cloudy", "???"] {
        assert!(is_bundled_icon(whether::types::condition_icon(c, true)), "{c}");
        assert!(is_bundled_icon(whether::types::condition_icon(c, false)), "{c}");
    }
}

#[test]
fn capitalize_first_lifts_the_first_letter() {
    assert_eq!(capitalize_first("wind gusts"), "Wind gusts");
    assert_eq!(capitalize_first("Heat Advisory"), "Heat Advisory");
    assert_eq!(capitalize_first("éclair"), "Éclair");
    assert_eq!(capitalize_first("ß"), "SS");
    assert_eq!(capitalize_first(""), "");
}

#[test]
fn label_message_ids() {
    assert_eq!(compass_label(CompassDirection::SW), "compass-sw");
    assert_eq!(weekday_label(Weekday::Sun), "weekday-sunday");
    assert_eq!(weekday_label(Weekday::Wed), "weekday-wednesday");
    assert_eq!(aqi_category_label(AqiCategory::Us(UsAqiCategory::UnhealthySensitive)), "aqi-cat-unhealthy-sensitive");
    assert_eq!(aqi_category_label(AqiCategory::Eu(EuAqiCategory::Good)), "aqi-cat-good");
    assert_eq!(aqi_category_label(AqiCategory::Eu(EuAqiCategory::ExtremelyPoor)), "aqi-cat-extremely-poor");
}

#[test]
fn loud_aqi_fills() {
    assert_eq!(aqi_fill_index(0), None);
    assert_eq!(aqi_fill_index(2), None);
    assert_eq!(aqi_fill_index(3), Some(0));
    assert_eq!(aqi_fill_index(4), Some(1));
    assert_eq!(aqi_fill_index(5), Some(2));
    assert_eq!(aqi_fill_index(9), Some(2));
}

#[test]
fn alert_tints() {
    assert_eq!(severity_tint(&AlertSeverity::Extreme), Tint::Destructive);
    assert_eq!(severity_tint(&AlertSeverity::Severe), Tint::Destructive);
    assert_eq!(severity_tint(&AlertSeverity::Moderate), Tint::Warning);
    assert_eq!(severity_tint(&AlertSeverity::Minor), Tint::Text);
    assert_eq!(severity_tint(&AlertSeverity::Unknown), Tint::Text);
}

#[test]
fn first_row_uses_the_four_bands() {
    let d = summary(None, true, "", "");
    assert!(matches!(day_label(&d, 0, Some(9)), DayName::Message("day-today")));
    assert!(matches!(day_label(&d, 0, Some(13)), DayName::Message("day-this-afternoon")));
    assert!(matches!(day_label(&d, 0, None), DayName::Message("day-today")));
    let n = summary(None, false, "", "");
    assert!(matches!(day_label(&n, 0, Some(18)), DayName::Message("day-tonight")));
    assert!(matches!(day_label(&n, 0, Some(2)), DayName::Message("day-overnight")));
    assert!(matches!(day_label(&n, 0, None), DayName::Message("day-tonight")));
}

#[test]
fn later_rows_use_the_weekday_or_the_date() {
    let d = summary(Some("2025-11-25"), true, "", "");
    assert!(matches!(day_label(&d, 1, None), DayName::Message("weekday-tuesday")));
    let d = summary(Some("soon"), true, "", "");
    match day_label(&d, 2, None) {
        DayName::Date(s) => assert_eq!(s, "soon"),
        other => panic!("{other:?}"),
    }
    let d = summary(None, true, "", "");
    match day_label(&d, 2, None) {
        DayName::Date(s) => assert_eq!(s, ""),
        other => panic!("{other:?}"),
    }
}

#[test]
fn temperature_column_text() {
    assert_eq!(temp_range_text(Some(70), Some(50)), "70° / 50°");
    assert_eq!(temp_range_text(Some(-2), None), "-2°");
    assert_eq!(temp_range_text(None, Some(-12)), "— / -12°");
    assert_eq!(temp_range_text(None, None), "—");
}

#[test]
fn prose_is_a_distinct_detailed_forecast() {
    assert!(has_prose(&summary(None, true, "Sunny", "Sunny, with a high near 70.")));
    assert!(!has_prose(&summary(None, true, "Sunny", "Sunny")));
    assert!(!has_prose(&summary(None, true, "Sunny", "")));
}

#[test]
fn stat_line_spans() {
    let pairs = vec![
        (String::new(), "Overcast".to_string()),
        ("Feels like".to_string(), "63°F".to_string()),
    ];
    let spans = stat_line(&pairs);
    let got: Vec<(&str, bool)> = spans.iter().map(|s| (s.text.as_str(), s.muted)).collect();
    assert_eq!(
        got,
        vec![("Overcast", false), ("  ·  ", true), ("Feels like  ", true), ("63°F", false)]
    );
    assert!(stat_line(&vec![]).is_empty());
}

#[test]
fn hourly_window_pages() {
    let w = hourly_window(0, 24, 6);
    assert_eq!((w.start, w.end, w.can_prev, w.can_next), (0, 6, false, true));
    let w = hourly_window(6, 24, 6);
    assert_eq!((w.start, w.end, w.can_prev, w.can_next), (6, 12, true, true));
    // An offset past the last full page is held back to it.
    let w = hourly_window(30, 24, 6);
    assert_eq!((w.start, w.end, w.can_prev, w.can_next), (18, 24, true, false));
    // Fewer hours than a page: one short page.
    let w = hourly_window(3, 4, 6);
    assert_eq!((w.start, w.end, w.can_prev, w.can_next), (0, 4, false, false));
    let w = hourly_window(0, 0, 6);
    assert_eq!((w.start, w.end, w.can_prev, w.can_next), (0, 0, false, false));
}

#[test]
fn hourly_precip_caption() {
    assert_eq!(hourly_precip_label("weather-clear-symbolic", Some(10)), None);
    assert_eq!(hourly_precip_label("weather-clear-symbolic", Some(20)).as_deref(), Some("20%"));
    assert_eq!(hourly_precip_label("weather-showers-symbolic", Some(5)).as_deref(), Some("5%"));
    assert_eq!(hourly_precip_label("weather-storm-symbolic", Some(0)).as_deref(), Some("0%"));
    assert_eq!(hourly_precip_label("weather-snow-symbolic", Some(-4)).as_deref(), Some("0%"));
    assert_eq!(hourly_precip_label("weather-snow-symbolic", None), None);
}

#[test]
fn column_hours() {
    assert_eq!(format_hour("2026-02-28T14:00:00-08:00", false, "AM", "PM"), "2 PM");
    assert_eq!(format_hour("2026-02-28T00:00:00-08:00", false, "AM", "PM"), "12 AM");
    assert_eq!(format_hour("2026-02-28T12:00:00-08:00", false, "a.m.", "p.m."), "12 p.m.");
    assert_eq!(format_hour("2026-02-28T05:00:00-08:00", true, "AM", "PM"), "05:00");
    assert_eq!(format_hour("2026-02-28T17:00:00-08:00", true, "AM", "PM"), "17:00");
    assert_eq!(format_hour("2026-02-28", true, "AM", "PM"), "2026-02-28");
    // A cut that would fall inside a character is no hour.
    assert_eq!(format_hour("T1é", true, "AM", "PM"), "T1é");
}

#[test]
fn updated_caption() {
    assert_eq!(updated_label(59), ("updated-now", 0));
    assert_eq!(updated_label(60), ("updated-ago", 1));
    assert_eq!(updated_label(3600), ("updated-ago", 60));
}

use whether::types::{DailySun, FetchState, PrecipValue};
use whether::views::{day_details, degrees_text, hero_summary, main_body_plan, precip_humidity_line, sun_for_date};

#[test]
fn hero_prefers_observation_fields() {
    let mut o = obs(Some(72), "F", Some("Light Rain"), true);
    o.wind_speed = Some("8 mph".to_string());
    o.wind_direction = Some("NE".to_string());
    o.humidity = Some(80);
    o.feels_like = Some(70);
    let p = period(60, "F", "Sunny", true);
    let h = hero_summary(Some(&o), &p);
    assert_eq!(h.temperature, 72);
    assert_eq!(h.unit, "F");
    assert_eq!(h.condition, "Light Rain");
    assert_eq!(h.icon, "weather-showers-symbolic");
    assert_eq!(h.wind.as_deref(), Some("8 mph NE"));
    assert_eq!(h.humidity, Some(80));
    assert_eq!(h.feels_like, Some(70));
}

#[test]
fn hero_falls_back_to_the_period() {
    let o = obs(None, "C", None, true);
    let p = period(60, "F", "Sunny", true);
    let h = hero_summary(Some(&o), &p);
    assert_eq!(h.temperature, 60);
    assert_eq!(h.unit, "C");
    assert_eq!(h.condition, "Sunny");
    assert_eq!(h.icon, "weather-clear-symbolic");
    assert_eq!(h.wind, None);
    let h = hero_summary(None, &p);
    assert_eq!(h.wind.as_deref(), Some("5 mph N"));
    assert_eq!(h.humidity, None);
    assert_eq!(degrees_text(-4, "C"), "-4°C");
}

#[test]
fn precipitation_and_humidity_line() {
    let mut p = period(60, "F", "Sunny", true);
    p.probability_of_precipitation = Some(PrecipValue { value: Some(30) });
    let line = precip_humidity_line(&p, Some(55));
    assert_eq!(line, vec![("label-precipitation", "30%".to_string()), ("label-humidity", "55%".to_string())]);
    p.probability_of_precipitation = Some(PrecipValue { value: None });
    assert_eq!(precip_humidity_line(&p, None), vec![("label-precipitation", "0%".to_string())]);
    p.probability_of_precipitation = None;
    assert!(precip_humidity_line(&p, None).is_empty());
}

#[test]
fn daily_details_with_and_without_prose() {
    let mut d = summary(Some("2026-07-04"), true, "Sunny", "Sunny, with a high near 70.");
    d.precip_chance = Some(10);
    let x = day_details(&d);
    assert_eq!(x.summary.as_deref(), Some("Sunny, with a high near 70."));
    assert_eq!(x.wind, None);
    assert_eq!(x.precip, None);
    let mut d = summary(Some("2026-07-04"), true, "Rain", "Rain");
    d.precip_chance = Some(80);
    let x = day_details(&d);
    assert_eq!(x.summary.as_deref(), Some("Rain"));
    assert_eq!(x.wind.as_deref(), Some("5 mph N"));
    assert_eq!(x.precip.as_deref(), Some("80%"));
    let x = day_details(&summary(None, true, "", ""));
    assert_eq!(x.summary, None);
}

#[test]
fn sun_record_of_a_date() {
    let sun = vec![
        DailySun { date: "2026-07-04".to_string(), sunrise: "a".to_string(), sunset: "b".to_string() },
        DailySun { date: "2026-07-05".to_string(), sunrise: "c".to_string(), sunset: "d".to_string() },
    ];
    assert_eq!(sun_for_date(&sun, &Some("2026-07-05".to_string())), Some(1));
    assert_eq!(sun_for_date(&sun, &Some("2026-07-09".to_string())), None);
    assert_eq!(sun_for_date(&sun, &None), None);
}

#[test]
fn main_body_by_fetch_state() {
    let p = main_body_plan(&FetchState::Loading, false);
    assert!(p.loading_only && !p.forecast && !p.error);
    let p = main_body_plan(&FetchState::Loading, true);
    assert!(!p.loading_only && p.forecast);
    let p = main_body_plan(&FetchState::Error("x".to_string()), true);
    assert!(p.error && p.stale && p.forecast);
    let p = main_body_plan(&FetchState::Error("x".to_string()), false);
    assert!(p.error && !p.stale && !p.forecast && !p.no_location);
    let p = main_body_plan(&FetchState::Idle, false);
    assert!(p.no_location && !p.forecast);
    let p = main_body_plan(&FetchState::Loaded, true);
    assert!(p.forecast && !p.no_location && !p.error);
}
