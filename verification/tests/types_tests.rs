use whether::types::{
    condition_icon, format_hour, icon_for_lowercased, iso_hour, pair_daily_periods,
    short_location_name, DaySummary, ForecastPeriod, PrecipValue,
};

fn row_key(d: &DaySummary) -> (String, Option<String>, Option<i32>, Option<i32>, bool) {
    (d.name.clone(), d.date.clone(), d.high, d.low, d.is_daytime)
}

fn period(name: &str, temp: i32, day: bool, start: Option<&str>, precip: Option<i32>) -> ForecastPeriod {
    ForecastPeriod {
        name: name.to_string(),
        temperature: temp,
        temperature_unit: "F".to_string(),
        wind_speed: "5 mph".to_string(),
        wind_direction: "NW".to_string(),
        short_forecast: format!("{name} short"),
        detailed_forecast: format!("{name} detailed"),
        is_daytime: day,
        probability_of_precipitation: Some(PrecipValue { value: precip }),
        start_time: start.map(str::to_string),
    }
}

#[test]
fn day_and_night_pair_into_one_row() {
    let periods = vec![
        period("Today", 70, true, Some("2026-07-04T06:00:00-07:00"), Some(20)),
        period("Tonight", 50, false, Some("2026-07-04T18:00:00-07:00"), Some(10)),
        period("Sunday", 72, true, Some("2026-07-05T06:00:00-07:00"), None),
        period("Sunday Night", 52, false, Some("2026-07-05T18:00:00-07:00"), None),
    ];
    let rows = pair_daily_periods(&periods);
    assert_eq!(rows.len(), 2);
    assert_eq!(rows[0].name, "Today");
    assert_eq!(rows[0].high, Some(70));
    assert_eq!(rows[0].low, Some(50));
    assert_eq!(rows[0].date.as_deref(), Some("2026-07-04"));
    assert_eq!(rows[0].precip_chance, Some(20));
    assert!(rows[0].is_daytime);
    assert_eq!(rows[0].short_forecast, "Today short");
    assert_eq!(rows[0].detailed_forecast, "Today detailed");
    assert_eq!(rows[1].high, Some(72));
    assert_eq!(rows[1].low, Some(52));
    assert_eq!(rows[1].precip_chance, None);
}

#[test]
fn list_opening_with_tonight_gives_a_night_only_row() {
    let periods = vec![
        period("Tonight", 48, false, Some("2026-07-04T18:00:00-07:00"), None),
        period("Sunday", 72, true, None, None),
        period("Sunday Night", 52, false, None, None),
        period("Monday", 75, true, None, None),
    ];
    let rows = pair_daily_periods(&periods);
    assert_eq!(rows.len(), 3);
    assert_eq!(rows[0].high, None);
    assert_eq!(rows[0].low, Some(48));
    assert!(!rows[0].is_daytime);
    assert_eq!(rows[1].high, Some(72));
    assert_eq!(rows[1].low, Some(52));
    assert_eq!(rows[1].date, None);
    // A trailing day with no night keeps an unknown low.
    assert_eq!(rows[2].high, Some(75));
    assert_eq!(rows[2].low, None);
}

#[test]
fn two_days_in_a_row_are_not_paired() {
    let periods = vec![period("A", 1, true, None, None), period("B", 2, true, None, None)];
    let rows = pair_daily_periods(&periods);
    assert_eq!(rows.len(), 2);
    assert_eq!(rows[0].low, None);
    assert_eq!(rows[1].low, None);
}

#[test]
fn every_period_is_in_exactly_one_row() {
    let periods = vec![
        period("N", 1, false, None, None),
        period("D", 2, true, None, None),
        period("N", 3, false, None, None),
        period("D", 4, true, None, None),
        period("D", 5, true, None, None),
        period("N", 6, false, None, None),
        period("N", 7, false, None, None),
    ];
    let rows = pair_daily_periods(&periods);
    let covered: usize = rows
        .iter()
        .map(|r| if r.is_daytime && r.low.is_some() { 2 } else { 1 })
        .sum();
    assert_eq!(covered, periods.len());
    assert_eq!(rows.len(), 5);
}

#[test]
fn empty_period_list_gives_no_rows() {
    assert!(pair_daily_periods(&[]).is_empty());
}

#[test]
fn short_start_time_has_no_date() {
    let periods = vec![period("Today", 70, true, Some("2026-07"), None)];
    let rows = pair_daily_periods(&periods);
    assert_eq!(rows[0].date, None);
}

#[test]
fn format_hour_twelve_hour_clock() {
    assert_eq!(format_hour("2026-02-28T14:00:00-08:00", false), "2 PM");
    assert_eq!(format_hour("2026-02-28T00:00:00-08:00", false), "12 AM");
    assert_eq!(format_hour("2026-02-28T09:00:00-08:00", false), "9 AM");
    assert_eq!(format_hour("2026-02-28T11:00:00-08:00", false), "11 AM");
    assert_eq!(format_hour("2026-02-28T12:00:00-08:00", false), "12 PM");
    assert_eq!(format_hour("2026-02-28T23:00:00-08:00", false), "11 PM");
}

#[test]
fn format_hour_twenty_four_hour_clock() {
    assert_eq!(format_hour("2026-02-28T14:00:00-08:00", true), "14h");
    assert_eq!(format_hour("2026-02-28T07:00:00-08:00", true), "7h");
}

#[test]
fn format_hour_keeps_text_without_an_hour() {
    assert_eq!(format_hour("2026-02-28", false), "2026-02-28");
    assert_eq!(format_hour("2026-02-28Txx:00", false), "2026-02-28Txx:00");
}

#[test]
fn iso_hour_reads_the_two_bytes_after_t() {
    assert_eq!(iso_hour("2026-02-28T14:00:00-08:00"), Some(14));
    assert_eq!(iso_hour("T+5"), Some(5));
    assert_eq!(iso_hour("2026-02-28T1"), None);
    assert_eq!(iso_hour("no hour here"), None);
}

#[test]
fn condition_icon_precedence() {
    assert_eq!(condition_icon("Thunderstorms and Rain", true), "weather-storm-symbolic");
    assert_eq!(condition_icon("Snow Showers", true), "weather-snow-symbolic");
    assert_eq!(condition_icon("Scattered Showers", true), "weather-showers-scattered-symbolic");
    assert_eq!(condition_icon("Light Rain", false), "weather-showers-symbolic");
    assert_eq!(condition_icon("Patchy Fog", true), "weather-fog-symbolic");
    assert_eq!(condition_icon("Haze", true), "weather-fog-symbolic");
    assert_eq!(condition_icon("Mostly Cloudy", true), "weather-overcast-symbolic");
    assert_eq!(condition_icon("Partly Cloudy", true), "weather-few-clouds-symbolic");
    assert_eq!(condition_icon("Partly Cloudy", false), "weather-few-clouds-night-symbolic");
    assert_eq!(condition_icon("Mostly Sunny", true), "weather-few-clouds-symbolic");
    assert_eq!(condition_icon("Mostly Clear", false), "weather-few-clouds-night-symbolic");
    assert_eq!(condition_icon("Sunny", true), "weather-clear-symbolic");
    assert_eq!(condition_icon("Clear", false), "weather-clear-night-symbolic");
    assert_eq!(condition_icon("Cloudy", true), "weather-overcast-symbolic");
    assert_eq!(condition_icon("Windy", true), "weather-clear-symbolic");
    assert_eq!(condition_icon("", false), "weather-clear-night-symbolic");
}

#[test]
fn condition_icon_ignores_case() {
    assert_eq!(condition_icon("THUNDER", true), "weather-storm-symbolic");
    assert_eq!(condition_icon("ClEaR", true), "weather-clear-symbolic");
}

#[test]
fn short_location_name_takes_city_and_state() {
    assert_eq!(
        short_location_name("Denver, City and County of Denver, Colorado, United States"),
        "Denver, Colorado"
    );
    assert_eq!(
        short_location_name("Chicago, Cook County, Illinois, United States"),
        "Chicago, Illinois"
    );
    assert_eq!(short_location_name("Paris, Île-de-France, France"), "Paris, Île-de-France");
}

#[test]
fn short_location_name_keeps_unexpected_formats() {
    assert_eq!(short_location_name("Tokyo, Japan"), "Tokyo, Japan");
    assert_eq!(short_location_name("Nowhere"), "Nowhere");
    assert_eq!(short_location_name(""), "");
    // Separators are ", " exactly.
    assert_eq!(short_location_name("a,b,c"), "a,b,c");
    assert_eq!(short_location_name(", , "), ", ");
}

#[test]
fn pairing_two_lists_joined_pairs_each_list() {
    let a = vec![
        period("Tonight", 50, false, Some("2026-07-04T18:00:00-07:00"), None),
        period("Monday", 72, true, Some("2026-07-05T06:00:00-07:00"), None),
        period("Monday Night", 52, false, Some("2026-07-05T18:00:00-07:00"), None),
    ];
    let b = vec![
        period("Tuesday", 75, true, Some("2026-07-06T06:00:00-07:00"), None),
        period("Tuesday Night", 55, false, Some("2026-07-06T18:00:00-07:00"), None),
    ];
    let joined: Vec<ForecastPeriod> = a.iter().chain(b.iter()).cloned().collect();
    let whole: Vec<_> = pair_daily_periods(&joined).iter().map(row_key).collect();
    let parts: Vec<_> = pair_daily_periods(&a)
        .iter()
        .chain(pair_daily_periods(&b).iter())
        .map(row_key)
        .collect();
    assert_eq!(whole, parts);
    assert_eq!(whole.len(), 3);
}

#[test]
fn short_location_name_is_idempotent() {
    for name in [
        "Denver, City and County of Denver, Colorado, United States",
        "Chicago, Cook County, Illinois, United States",
        "Paris, France",
        "Springfield",
    ] {
        let once = short_location_name(name);
        assert_eq!(short_location_name(&once), once);
    }
}

#[test]
fn icon_rule_on_lowercased_text() {
    assert_eq!(icon_for_lowercased("light rain", true), "weather-showers-symbolic");
    assert_eq!(icon_for_lowercased("partly cloudy", false), "weather-few-clouds-night-symbolic");
    assert_eq!(icon_for_lowercased("", true), "weather-clear-symbolic");
}
