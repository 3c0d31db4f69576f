use whether::types::{AlertSeverity, CurrentObservation, DailySun, ForecastPeriod, WeatherAlert};
use whether::views::{
    alert_banner, alert_row, can_search, dew_point_pair, column_head, more_toggle, search_status, sun_line,
    wind_line, Alerts, Banner, ColumnHead, SearchStatus, Tint,
};

fn alert(event: &str, severity: AlertSeverity) -> WeatherAlert {
    WeatherAlert { event: event.to_string(), headline: format!("{event} until noon"), severity }
}

fn period() -> ForecastPeriod {
    ForecastPeriod {
        name: "Today".to_string(),
        temperature: 70,
        temperature_unit: "F".to_string(),
        wind_speed: "5 mph".to_string(),
        wind_direction: "NW".to_string(),
        short_forecast: "Sunny".to_string(),
        detailed_forecast: "Sunny".to_string(),
        is_daytime: true,
        probability_of_precipitation: None,
        start_time: None,
    }
}

fn observation(speed: Option<&str>, dir: Option<&str>, gusts: Option<&str>) -> CurrentObservation {
    CurrentObservation {
        temperature: Some(68),
        temperature_unit: "F".to_string(),
        condition: None,
        wind_speed: speed.map(str::to_string),
        wind_direction: dir.map(str::to_string),
        humidity: None,
        is_daytime: true,
        feels_like: None,
        dew_point: None,
        cloud_cover: None,
        wind_gusts: gusts.map(str::to_string),
    }
}

fn sun(date: &str, rise: &str, set: &str) -> DailySun {
    DailySun { date: date.to_string(), sunrise: rise.to_string(), sunset: set.to_string() }
}

#[test]
fn banner_reports_unreachable_alerts() {
    assert_eq!(alert_banner(&Alerts::Unavailable("timeout".to_string())), Banner::Unavailable);
}

#[test]
fn banner_hides_without_alerts() {
    assert_eq!(alert_banner(&Alerts::Local(vec![])), Banner::Hidden);
    assert_eq!(alert_banner(&Alerts::National(vec![])), Banner::Hidden);
}

#[test]
fn banner_counts_national_alerts() {
    let list = vec![alert("Flood Watch", AlertSeverity::Moderate), alert("Wind", AlertSeverity::Minor)];
    assert_eq!(alert_banner(&Alerts::National(list)), Banner::National(2));
}

#[test]
fn banner_lists_local_alerts() {
    let list = vec![alert("Heat Advisory", AlertSeverity::Moderate)];
    assert_eq!(alert_banner(&Alerts::Local(list)), Banner::Local);
}

#[test]
fn extreme_alert_row_is_bold_and_destructive() {
    let row = alert_row(&alert("tornado warning", AlertSeverity::Extreme), false);
    assert_eq!(row.title, "Tornado warning");
    assert!(row.bold);
    assert_eq!(row.tint, Tint::Destructive);
    assert_eq!(row.headline, None);
}

#[test]
fn expanded_alert_row_shows_its_headline() {
    let row = alert_row(&alert("wind gusts", AlertSeverity::Moderate), true);
    assert_eq!(row.title, "Wind gusts");
    assert!(!row.bold);
    assert_eq!(row.tint, Tint::Warning);
    assert_eq!(row.headline.as_deref(), Some("wind gusts until noon"));
}

#[test]
fn search_status_precedence() {
    let err = Some("offline".to_string());
    assert_eq!(search_status(true, &err, 3, true), SearchStatus::Searching);
    assert_eq!(search_status(false, &err, 3, true), SearchStatus::Failed("offline".to_string()));
    assert_eq!(search_status(false, &None, 3, true), SearchStatus::Results);
    assert_eq!(search_status(false, &None, 0, true), SearchStatus::NoResults);
    assert_eq!(search_status(false, &None, 0, false), SearchStatus::Blank);
}

#[test]
fn search_needs_input() {
    assert!(!can_search(""));
    assert!(can_search("Denver"));
}

#[test]
fn wind_line_takes_observed_wind_and_gusts() {
    let o = observation(Some("8 mph"), Some("NE"), Some("15 mph"));
    let w = wind_line(Some(&o), &period()).unwrap();
    assert_eq!(w.value, "8 mph NE");
    assert_eq!(w.gust.as_deref(), Some("15 mph"));
}

#[test]
fn wind_line_is_absent_when_observation_lacks_direction() {
    let o = observation(Some("8 mph"), None, Some("15 mph"));
    assert!(wind_line(Some(&o), &period()).is_none());
}

#[test]
fn wind_line_falls_back_to_the_period() {
    let w = wind_line(None, &period()).unwrap();
    assert_eq!(w.value, "5 mph NW");
    assert_eq!(w.gust, None);
}

#[test]
fn more_toggle_flips_with_expansion() {
    assert_eq!(more_toggle(true), ("pan-up-symbolic", "label-less"));
    assert_eq!(more_toggle(false), ("pan-down-symbolic", "label-more"));
}

#[test]
fn first_column_is_now() {
    assert!(matches!(column_head(0, &Some("2026-02-28T14:00:00-08:00".to_string()), false, "AM", "PM"), ColumnHead::Now));
}

#[test]
fn later_columns_show_their_hour() {
    let t = Some("2026-02-28T14:00:00-08:00".to_string());
    match column_head(3, &t, false, "AM", "PM") {
        ColumnHead::Hour(h) => assert_eq!(h, "2 PM"),
        ColumnHead::Now => panic!("expected an hour"),
    }
    match column_head(3, &None, true, "AM", "PM") {
        ColumnHead::Hour(h) => assert_eq!(h, ""),
        ColumnHead::Now => panic!("expected an hour"),
    }
}

#[test]
fn sun_line_formats_the_first_record_of_the_date() {
    let times = vec![
        sun("2026-07-03", "2026-07-03T05:31", "2026-07-03T20:40"),
        sun("2026-07-04", "2026-07-04T05:32", "2026-07-04T20:41"),
        sun("2026-07-04", "2026-07-04T09:00", "2026-07-04T10:00"),
    ];
    let date = Some("2026-07-04".to_string());
    assert_eq!(
        sun_line(&times, &date, false),
        Some(("5:32 AM".to_string(), "8:41 PM".to_string()))
    );
    assert_eq!(
        sun_line(&times, &date, true),
        Some(("05:32".to_string(), "20:41".to_string()))
    );
}

#[test]
fn sun_line_is_absent_without_a_record() {
    let times = vec![sun("2026-07-03", "2026-07-03T05:31", "2026-07-03T20:40")];
    assert_eq!(sun_line(&times, &Some("2026-07-09".to_string()), false), None);
    assert_eq!(sun_line(&times, &None, false), None);
}

#[test]
fn dew_point_pair_shows_degrees() {
    assert_eq!(dew_point_pair(Some(-3), "C"), Some(("label-dew-point", "-3°C".to_string())));
    assert_eq!(dew_point_pair(None, "F"), None);
}
