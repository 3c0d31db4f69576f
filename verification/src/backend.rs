//! Turning one fetch of weather data into the applet's forecast: daily
//! periods (or the NWS prose forecast when the US shim delivered one),
//! hourly periods with their day/night flag, sun times and the current
//! observation.
use vstd::prelude::*;
use vstd::utf8::*;
use crate::config::opt_str;
use crate::text::{bytes_lt, concat3, get_range, owned, push_str, str_eq, str_get, str_lt};
use crate::types::{
    opt_chars, paired_rows, period_views, summary_of, DaySummaryView, CurrentObservation, DailySun, Forecast, ForecastPeriod,
    ForecastPeriodView, GridInfo, PrecipValue,
};
use crate::weather::{
    compass_text, weekday_from_index, DailyForecast, HourlyForecast, MeasurementSystem,
    TemperatureUnit, WeatherData, Weekday,
};

verus! {

broadcast use vstd::utf8::encode_utf8_valid_utf8;

// --- Units ---

/// The temperature scale to request.
pub fn temperature_unit_for(use_fahrenheit: bool) -> (r: TemperatureUnit)
    ensures
        r == (if use_fahrenheit { TemperatureUnit::Fahrenheit } else { TemperatureUnit::Celsius }),
{
    if use_fahrenheit { TemperatureUnit::Fahrenheit } else { TemperatureUnit::Celsius }
}

/// The unit system to request: imperial along with Fahrenheit, metric
/// along with Celsius.
pub fn measurement_for(use_fahrenheit: bool) -> (r: MeasurementSystem)
    ensures
        r == (if use_fahrenheit { MeasurementSystem::Imperial } else { MeasurementSystem::Metric }),
{
    if use_fahrenheit { MeasurementSystem::Imperial } else { MeasurementSystem::Metric }
}

/// The temperature unit letter shown after a degree sign.
pub fn unit_letter(use_fahrenheit: bool) -> (r: &'static str)
    ensures
        r@ == (if use_fahrenheit { "F"@ } else { "C"@ }),
{
    if use_fahrenheit { "F" } else { "C" }
}

/// The NWS prose forecast is fetched only for locations in the US
/// (country code "us").
pub fn shim_applies(country_code: Option<&str>) -> (r: bool)
    ensures
        r == (opt_str(country_code) == Some("us"@)),
{
    match country_code {
        Some(c) => str_eq(c, "us"),
        None => false,
    }
}

// --- The US prose forecast ---

/// A step of fetching the NWS prose forecast, which stands in for the daily
/// periods of US locations. It is best-effort: any failure gives it up, and
/// the daily periods are then built from the weather data.
#[derive(Debug, Clone)]
pub enum ShimStep {
    /// Look up the NWS grid of the location's coordinates.
    LookUpGrid,
    /// Fetch the prose forecast of a grid.
    FetchForecast(GridInfo),
    /// Done: the grid and its prose periods.
    Deliver(GridInfo, Vec<ForecastPeriod>),
    /// Done without a prose forecast.
    GiveUp,
}

/// What performing a step gave.
#[derive(Debug, Clone)]
pub enum ShimEvent {
    /// The grid lookup found the grid.
    GridFound(GridInfo),
    /// The grid lookup failed.
    GridFailed,
    /// The forecast request gave these periods.
    ForecastFetched(Vec<ForecastPeriod>),
    /// The forecast request failed.
    ForecastFailed,
}

/// The first step: nothing outside the US; else the forecast of the cached
/// grid when there is one, or a grid lookup first.
pub open spec fn shim_start(is_us: bool, cached_grid: Option<GridInfo>) -> ShimStep {
    if !is_us {
        ShimStep::GiveUp
    } else {
        match cached_grid {
            Some(g) => ShimStep::FetchForecast(g),
            None => ShimStep::LookUpGrid,
        }
    }
}

/// The first step of fetching the prose forecast for a location with this
/// country code and cached grid.
pub fn first_shim_step(country_code: Option<&str>, cached_grid: Option<GridInfo>) -> (r: ShimStep)
    ensures
        r == shim_start(opt_str(country_code) == Some("us"@), cached_grid),
{
    if !shim_applies(country_code) {
        return ShimStep::GiveUp;
    }
    match cached_grid {
        Some(g) => ShimStep::FetchForecast(g),
        None => ShimStep::LookUpGrid,
    }
}

/// The step after `step` gave `event`: a found grid has its forecast
/// fetched, fetched periods are delivered with their grid, and a failure
/// gives up. An answer to another request than the one the step makes
/// counts as a failure; finished steps stay finished.
pub open spec fn shim_step_spec(step: ShimStep, event: ShimEvent) -> ShimStep {
    match step {
        ShimStep::LookUpGrid => match event {
            ShimEvent::GridFound(g) => ShimStep::FetchForecast(g),
            _ => ShimStep::GiveUp,
        },
        ShimStep::FetchForecast(g) => match event {
            ShimEvent::ForecastFetched(ps) => ShimStep::Deliver(g, ps),
            _ => ShimStep::GiveUp,
        },
        _ => step,
    }
}

/// The step after `step` gave `event` (see [`shim_step_spec`]).
pub fn next_shim_step(step: ShimStep, event: ShimEvent) -> (r: ShimStep)
    ensures
        r == shim_step_spec(step, event),
{
    match step {
        ShimStep::LookUpGrid => match event {
            ShimEvent::GridFound(g) => ShimStep::FetchForecast(g),
            _ => ShimStep::GiveUp,
        },
        ShimStep::FetchForecast(g) => match event {
            ShimEvent::ForecastFetched(ps) => ShimStep::Deliver(g, ps),
            _ => ShimStep::GiveUp,
        },
        _ => step,
    }
}

/// Whether a step ends the fetch.
pub open spec fn shim_finished(step: ShimStep) -> bool {
    step is Deliver || step is GiveUp
}

/// The requests still to come at most.
pub open spec fn shim_requests_left(step: ShimStep) -> nat {
    match step {
        ShimStep::LookUpGrid => 2,
        ShimStep::FetchForecast(_) => 1,
        _ => 0,
    }
}

/// The prose forecast makes at most two requests: every unfinished step
/// brings the end closer, whatever the requests give.
pub proof fn lemma_shim_finishes(step: ShimStep, event: ShimEvent)
    requires
        !shim_finished(step),
    ensures
        shim_requests_left(shim_step_spec(step, event)) < shim_requests_left(step),
{
}

/// A cached grid is reused: its forecast is fetched without a lookup, and
/// whatever is delivered is delivered with that grid.
pub proof fn lemma_cached_grid_is_reused(g: GridInfo, event: ShimEvent)
    ensures
        shim_start(true, Some(g)) == ShimStep::FetchForecast(g),
        shim_step_spec(shim_start(true, Some(g)), event) matches ShimStep::Deliver(h, _) ==> h == g,
{
}

/// What a finished fetch delivers: the grid and its periods, or nothing.
pub fn shim_result(step: ShimStep) -> (r: Option<(GridInfo, Vec<ForecastPeriod>)>)
    ensures
        match step {
            ShimStep::Deliver(g, ps) => r == Some((g, ps)),
            _ => r is None,
        },
{
    match step {
        ShimStep::Deliver(g, ps) => Some((g, ps)),
        _ => None,
    }
}

// --- Day names ---

/// The weekday (Monday = 0) of a date string, as parsing it with
/// `chrono::NaiveDate::parse_from_str(date, "%Y-%m-%d")` and asking
/// `Datelike::weekday` gives it; `None` when the string does not parse.
pub uninterp spec fn naive_date_weekday(date: Seq<char>) -> Option<u32>;

/// Parses an ISO date with chrono (`NaiveDate::parse_from_str` with
/// `"%Y-%m-%d"`) and returns its weekday numbered from Monday = 0. The
/// result is named by `naive_date_weekday`; chrono documents the numbering
/// as 0..=6.
#[verifier::external_body]
fn parse_date_weekday(date: &str) -> (r: Option<u32>)
    ensures
        r == naive_date_weekday(date@),
        r matches Some(w) ==> w < 7,
{
    match chrono::NaiveDate::parse_from_str(date, "%Y-%m-%d") {
        Ok(d) => Some(chrono::Datelike::weekday(&d).num_days_from_monday()),
        Err(_) => None,
    }
}

/// A period name before translation: a message id, or a date shown as is.
#[derive(Debug, Clone)]
pub enum DayName {
    Message(&'static str),
    Date(String),
}

/// The message id naming a weekday in the daily forecast.
pub open spec fn day_key(w: Weekday) -> Seq<char> {
    match w {
        Weekday::Mon => "day-monday"@,
        Weekday::Tue => "day-tuesday"@,
        Weekday::Wed => "day-wednesday"@,
        Weekday::Thu => "day-thursday"@,
        Weekday::Fri => "day-friday"@,
        Weekday::Sat => "day-saturday"@,
        Weekday::Sun => "day-sunday"@,
    }
}

fn day_message(w: Weekday) -> (r: &'static str)
    ensures
        r@ == day_key(w),
{
    match w {
        Weekday::Mon => "day-monday",
        Weekday::Tue => "day-tuesday",
        Weekday::Wed => "day-wednesday",
        Weekday::Thu => "day-thursday",
        Weekday::Fri => "day-friday",
        Weekday::Sat => "day-saturday",
        Weekday::Sun => "day-sunday",
    }
}

/// ISO date ("2026-03-01") to day name ("Sunday"); "Today" for the first
/// day; the date itself when it does not parse.
pub fn date_to_day_name(date_str: &str, is_first: bool) -> (r: DayName)
    ensures
        is_first ==> (r matches DayName::Message(k) && k@ == "day-today"@),
        !is_first ==> match naive_date_weekday(date_str@) {
            Some(w) => r matches DayName::Message(k) && k@ == day_key(weekday_from_index(w as nat)),
            None => r matches DayName::Date(s) && s@ == date_str@,
        },
{
    if is_first {
        return DayName::Message("day-today");
    }
    match parse_date_weekday(date_str) {
        Some(w) => DayName::Message(day_message(Weekday::from_monday_index(w))),
        None => DayName::Date(owned(date_str)),
    }
}

/// The message id naming the night after a day: "Tonight" after the first
/// day; later nights are "{day} Night" with the day's name as argument.
pub fn night_label(is_first: bool) -> (r: &'static str)
    ensures
        r@ == (if is_first { "night-tonight"@ } else { "night-day"@ }),
{
    if is_first { "night-tonight" } else { "night-day" }
}

// --- Daily periods ---

/// The translated texts of one day's two periods.
#[derive(Debug, Clone)]
pub struct PeriodLabels {
    /// Name of the day period ("Today", "Monday", ...).
    pub day: String,
    /// Name of the night period ("Tonight", "Monday Night", ...).
    pub night: String,
    /// Label of the day's condition.
    pub description: String,
}

/// The daytime period of a day: its high, its condition, its wind and the
/// chance of precipitation, starting at noon.
pub open spec fn day_period_view(d: DailyForecast, l: PeriodLabels, unit: Seq<char>, speed_unit: Seq<char>) -> ForecastPeriodView {
    ForecastPeriodView {
        name: l.day@,
        temperature: d.temp_max,
        temperature_unit: unit,
        wind_speed: d.windspeed_max@ + " "@ + speed_unit,
        wind_direction: compass_text(d.compass_direction),
        short_forecast: l.description@,
        detailed_forecast: l.description@,
        is_daytime: true,
        probability_of_precipitation: Some(d.precipitation_probability_max),
        start_time: Some(d.date@ + "T12:00:00"@),
    }
}

/// The night period of a day: its low, starting at midnight.
pub open spec fn night_period_view(d: DailyForecast, l: PeriodLabels, unit: Seq<char>, speed_unit: Seq<char>) -> ForecastPeriodView {
    ForecastPeriodView {
        name: l.night@,
        temperature: d.temp_min,
        temperature_unit: unit,
        wind_speed: d.windspeed_max@ + " "@ + speed_unit,
        wind_direction: compass_text(d.compass_direction),
        short_forecast: l.description@,
        detailed_forecast: l.description@,
        is_daytime: false,
        probability_of_precipitation: Some(d.precipitation_probability_max),
        start_time: Some(d.date@ + "T00:00:00"@),
    }
}

/// Two periods per day, the day's period then its night's.
pub open spec fn built_daily_periods(
    daily: Seq<DailyForecast>,
    labels: Seq<PeriodLabels>,
    unit: Seq<char>,
    speed_unit: Seq<char>,
) -> Seq<ForecastPeriodView> {
    Seq::new(
        2 * daily.len(),
        |k: int|
            if k % 2 == 0 {
                day_period_view(daily[k / 2], labels[k / 2], unit, speed_unit)
            } else {
                night_period_view(daily[k / 2], labels[k / 2], unit, speed_unit)
            },
    )
}

fn daily_period(d: &DailyForecast, l: &PeriodLabels, unit: &str, speed_unit: &str, day: bool) -> (r: ForecastPeriod)
    ensures
        day ==> r@ == day_period_view(*d, *l, unit@, speed_unit@),
        !day ==> r@ == night_period_view(*d, *l, unit@, speed_unit@),
{
    let wind_speed = concat3(d.windspeed_max.as_str(), " ", speed_unit);
    let wind_dir = owned(d.compass_direction.as_str());
    let mut start = owned(d.date.as_str());
    push_str(&mut start, if day { "T12:00:00" } else { "T00:00:00" });
    ForecastPeriod {
        name: if day { l.day.clone() } else { l.night.clone() },
        temperature: if day { d.temp_max } else { d.temp_min },
        temperature_unit: owned(unit),
        wind_speed,
        wind_direction: wind_dir,
        short_forecast: l.description.clone(),
        detailed_forecast: l.description.clone(),
        is_daytime: day,
        probability_of_precipitation: Some(PrecipValue { value: d.precipitation_probability_max }),
        start_time: Some(start),
    }
}

/// Daily forecast as forecast periods: for each day a day period (named by
/// `labels[i].day`, carrying the high) followed by a night period (named by
/// `labels[i].night`, carrying the low).
pub fn build_daily_periods(
    daily: &[DailyForecast],
    labels: &[PeriodLabels],
    unit: &str,
    speed_unit: &str,
) -> (r: Vec<ForecastPeriod>)
    requires
        labels@.len() == daily@.len(),
        2 * daily@.len() <= usize::MAX,
    ensures
        period_views(r@) == built_daily_periods(daily@, labels@, unit@, speed_unit@),
{
    let ghost want = built_daily_periods(daily@, labels@, unit@, speed_unit@);
    let mut periods: Vec<ForecastPeriod> = Vec::new();
    let mut i: usize = 0;
    while i < daily.len()
        invariant
            labels@.len() == daily@.len(),
            2 * daily@.len() <= usize::MAX,
            want == built_daily_periods(daily@, labels@, unit@, speed_unit@),
            i <= daily.len(),
            periods@.len() == 2 * i,
            forall|k: int| 0 <= k < 2 * i ==> #[trigger] periods@[k]@ == want[k],
        decreases daily.len() - i,
    {
        let day = daily_period(&daily[i], &labels[i], unit, speed_unit, true);
        periods.push(day);
        let night = daily_period(&daily[i], &labels[i], unit, speed_unit, false);
        periods.push(night);
        proof {
            assert((2 * i) / 2 == i && (2 * i) % 2 == 0);
            assert((2 * i + 1) / 2 == i && (2 * i + 1) % 2 == 1);
        }
        i += 1;
    }
    assert(period_views(periods@) =~= want);
    periods
}

/// The row a day's two periods make together: the day period's texts with
/// the day's high and the night's low.
pub open spec fn day_row(d: DailyForecast, l: PeriodLabels, unit: Seq<char>, speed_unit: Seq<char>) -> DaySummaryView {
    summary_of(day_period_view(d, l, unit, speed_unit), Some(d.temp_min))
}

/// Pairing the periods built for a list of days gives back one row per day,
/// in order, each carrying that day's high and low: the day/night folding of
/// `pair_daily_periods` undoes the unfolding of `build_daily_periods`.
pub proof fn lemma_daily_periods_pair_by_day(
    daily: Seq<DailyForecast>,
    labels: Seq<PeriodLabels>,
    unit: Seq<char>,
    speed_unit: Seq<char>,
)
    requires
        labels.len() == daily.len(),
    ensures
        paired_rows(built_daily_periods(daily, labels, unit, speed_unit)) == Seq::new(
            daily.len(),
            |i: int| day_row(daily[i], labels[i], unit, speed_unit),
        ),
    decreases daily.len(),
{
    let b = built_daily_periods(daily, labels, unit, speed_unit);
    let want = Seq::new(daily.len(), |i: int| day_row(daily[i], labels[i], unit, speed_unit));
    if daily.len() == 0 {
        assert(paired_rows(b) =~= want);
    } else {
        let tail = built_daily_periods(daily.skip(1), labels.skip(1), unit, speed_unit);
        assert forall|k: int| 0 <= k < tail.len() implies b.skip(2)[k] == tail[k] by {
            assert((k + 2) % 2 == k % 2);
            assert((k + 2) / 2 == k / 2 + 1);
        }
        assert(b.skip(2) =~= tail);
        lemma_daily_periods_pair_by_day(daily.skip(1), labels.skip(1), unit, speed_unit);
        assert(b[0] == day_period_view(daily[0], labels[0], unit, speed_unit));
        assert(b[1] == night_period_view(daily[0], labels[0], unit, speed_unit));
        assert(paired_rows(b) == seq![summary_of(b[0], Some(b[1].temperature))] + paired_rows(b.skip(2)));
        assert(paired_rows(b) =~= want);
    }
}

/// The UTF-8 bytes of two texts one after the other are their bytes one
/// after the other.
proof fn lemma_encode_concat(a: Seq<char>, b: Seq<char>)
    ensures
        encode_utf8(a + b) == encode_utf8(a) + encode_utf8(b),
    decreases a.len(),
{
    if a.len() == 0 {
        assert(a + b =~= b);
        assert(encode_utf8(a) + encode_utf8(b) =~= encode_utf8(b));
    } else {
        assert((a + b).drop_first() =~= a.drop_first() + b);
        assert((a + b)[0] == a[0]);
        lemma_encode_concat(a.drop_first(), b);
        assert(encode_utf8(a + b) =~= encode_utf8(a) + encode_utf8(b));
    }
}

/// The first ten bytes of "{date}T12:00:00" are the date, when the date
/// takes ten bytes.
proof fn lemma_noon_start_date(d: Seq<char>)
    requires
        encode_utf8(d).len() == 10,
    ensures
        str_get(encode_utf8(d + "T12:00:00"@), 0, 10) == Some(d),
{
    reveal_strlit("T12:00:00");
    let t = "T12:00:00"@;
    lemma_encode_concat(d, t);
    let b = encode_utf8(d + t);
    assert(is_ascii_chars(t));
    is_ascii_chars_encode_utf8(t);
    assert(b[10] == encode_utf8(t)[0]);
    assert(b[10] == 84u8);
    is_char_boundary_iff_not_is_continuation_byte(b, 10);
    is_char_boundary_start_end_of_seq(b);
    assert(is_char_boundary(b, 10));
    assert(b.subrange(0, 10) =~= encode_utf8(d));
    encode_utf8_decode_utf8(d);
    assert(decode_utf8(b.subrange(0, 10)) == d);
}

/// Built and then paired, day `i` of the forecast gives a daytime row with
/// the day's high and low and, when its date is a ten-byte ISO date such as
/// "2026-03-01", that date.
pub proof fn lemma_daily_rows_carry_the_day(
    daily: Seq<DailyForecast>,
    labels: Seq<PeriodLabels>,
    unit: Seq<char>,
    speed_unit: Seq<char>,
    i: int,
)
    requires
        labels.len() == daily.len(),
        0 <= i < daily.len(),
    ensures
        paired_rows(built_daily_periods(daily, labels, unit, speed_unit)).len() == daily.len(),
        paired_rows(built_daily_periods(daily, labels, unit, speed_unit))[i].is_daytime,
        paired_rows(built_daily_periods(daily, labels, unit, speed_unit))[i].high == Some(daily[i].temp_max),
        paired_rows(built_daily_periods(daily, labels, unit, speed_unit))[i].low == Some(daily[i].temp_min),
        encode_utf8(daily[i].date@).len() == 10 ==> paired_rows(
            built_daily_periods(daily, labels, unit, speed_unit),
        )[i].date == Some(daily[i].date@),
{
    lemma_daily_periods_pair_by_day(daily, labels, unit, speed_unit);
    if encode_utf8(daily[i].date@).len() == 10 {
        lemma_noon_start_date(daily[i].date@);
    }
}

// --- Hourly periods ---

/// The date part of a local timestamp: its first ten bytes when they form a
/// slice, the whole timestamp otherwise.
pub open spec fn date_key(t: Seq<char>) -> Seq<char> {
    match str_get(encode_utf8(t), 0, 10) {
        Some(d) => d,
        None => t,
    }
}

/// `i` is the first day of `daily` with the given date.
pub open spec fn is_first_day_with(daily: Seq<DailyForecast>, date: Seq<char>, i: int) -> bool {
    0 <= i < daily.len() && daily[i].date@ == date && forall|j: int|
        0 <= j < i ==> daily[j].date@ != date
}

/// The first day of `daily` with the given date, if any.
pub open spec fn day_with_date(daily: Seq<DailyForecast>, date: Seq<char>) -> Option<int> {
    if exists|i: int| is_first_day_with(daily, date, i) {
        Some(choose|i: int| is_first_day_with(daily, date, i))
    } else {
        None
    }
}

/// Whether a local timestamp falls in daylight: between the sunrise
/// (inclusive) and the sunset (exclusive) of the day it belongs to, the
/// timestamps compared as strings (all are local-frame ISO strings); a
/// timestamp whose day is not in the forecast counts as daylight.
pub open spec fn daytime_at(t: Seq<char>, daily: Seq<DailyForecast>) -> bool {
    match day_with_date(daily, date_key(t)) {
        Some(i) => !bytes_lt(encode_utf8(t), encode_utf8(daily[i].sunrise@)) && bytes_lt(
            encode_utf8(t),
            encode_utf8(daily[i].sunset@),
        ),
        None => true,
    }
}

/// Which day's sunrise/sunset brackets this hour. All times are local-frame
/// ISO strings, so a lexicographic compare is valid.
pub fn hour_is_daytime(time: &str, daily: &[DailyForecast]) -> (r: bool)
    ensures
        r == daytime_at(time@, daily@),
{
    let date = match get_range(time, 0, 10) {
        Some(d) => d,
        None => time,
    };
    assert(date@ == date_key(time@));
    let mut i: usize = 0;
    while i < daily.len()
        invariant
            date@ == date_key(time@),
            i <= daily.len(),
            forall|j: int| 0 <= j < i ==> daily@[j].date@ != date@,
        decreases daily.len() - i,
    {
        if str_eq(daily[i].date.as_str(), date) {
            proof {
                assert(is_first_day_with(daily@, date@, i as int));
                let c = choose|k: int| is_first_day_with(daily@, date@, k);
                if c < i {
                } else if c > i {
                    assert(daily@[i as int].date@ == date@);
                }
            }
            let d = &daily[i];
            return !str_lt(time, d.sunrise.as_str()) && str_lt(time, d.sunset.as_str());
        }
        i += 1;
    }
    assert(!exists|k: int| is_first_day_with(daily@, date@, k));
    true
}

/// The period of one hour: unnamed, its temperature, wind speed and chance
/// of precipitation, no wind direction, its condition label, whether it
/// falls in daylight, and its timestamp as start time.
pub open spec fn hourly_period_view(
    h: HourlyForecast,
    description: Seq<char>,
    daily: Seq<DailyForecast>,
    unit: Seq<char>,
    speed_unit: Seq<char>,
) -> ForecastPeriodView {
    ForecastPeriodView {
        name: Seq::empty(),
        temperature: h.temperature,
        temperature_unit: unit,
        wind_speed: h.windspeed@ + " "@ + speed_unit,
        wind_direction: Seq::empty(),
        short_forecast: description,
        detailed_forecast: description,
        is_daytime: daytime_at(h.time@, daily),
        probability_of_precipitation: Some(Some(h.precipitation_probability)),
        start_time: Some(h.time@),
    }
}

/// One period per hour, in order.
pub open spec fn built_hourly_periods(
    hourly: Seq<HourlyForecast>,
    descriptions: Seq<String>,
    daily: Seq<DailyForecast>,
    unit: Seq<char>,
    speed_unit: Seq<char>,
) -> Seq<ForecastPeriodView> {
    Seq::new(
        hourly.len(),
        |k: int| hourly_period_view(hourly[k], descriptions[k]@, daily, unit, speed_unit),
    )
}

/// Hourly forecast as forecast periods (`descriptions[i]` labels the
/// condition of hour `i`).
pub fn build_hourly_periods(
    hourly: &[HourlyForecast],
    descriptions: &[String],
    daily: &[DailyForecast],
    unit: &str,
    speed_unit: &str,
) -> (r: Vec<ForecastPeriod>)
    requires
        descriptions@.len() == hourly@.len(),
    ensures
        period_views(r@) == built_hourly_periods(hourly@, descriptions@, daily@, unit@, speed_unit@),
{
    let ghost want = built_hourly_periods(hourly@, descriptions@, daily@, unit@, speed_unit@);
    let mut periods: Vec<ForecastPeriod> = Vec::new();
    let mut i: usize = 0;
    while i < hourly.len()
        invariant
            descriptions@.len() == hourly@.len(),
            want == built_hourly_periods(hourly@, descriptions@, daily@, unit@, speed_unit@),
            i <= hourly.len(),
            periods@.len() == i,
            forall|k: int| 0 <= k < i ==> #[trigger] periods@[k]@ == want[k],
        decreases hourly.len() - i,
    {
        let h = &hourly[i];
        let p = ForecastPeriod {
            name: String::new(),
            temperature: h.temperature,
            temperature_unit: owned(unit),
            wind_speed: concat3(h.windspeed.as_str(), " ", speed_unit),
            wind_direction: String::new(),
            short_forecast: descriptions[i].clone(),
            detailed_forecast: descriptions[i].clone(),
            is_daytime: hour_is_daytime(h.time.as_str(), daily),
            probability_of_precipitation: Some(PrecipValue { value: Some(h.precipitation_probability) }),
            start_time: Some(h.time.clone()),
        };
        periods.push(p);
        i += 1;
    }
    assert(period_views(periods@) =~= want);
    periods
}

// --- Current observation ---

/// `weathervane::is_night_time`: whether it is night now at the location,
/// judged by a day's sunrise and sunset and the location's offset from UTC.
/// The answer depends on the current time; nothing is stated of it.
#[verifier::external_body]
fn is_night_now(sunrise: &str, sunset: &str, utc_offset_seconds: i32) -> bool {
    weathervane::is_night_time(sunrise, sunset, utc_offset_seconds)
}

/// The current observation built from the current readings: every reading
/// present, speeds followed by the speed unit, `condition` as the condition
/// label, and daylight unless the first day says it is night now
/// (`first_day_is_night`).
pub fn observation_from(
    w: &WeatherData,
    condition: &str,
    unit: &str,
    speed_unit: &str,
    first_day_is_night: Option<bool>,
) -> (r: CurrentObservation)
    ensures
        r.temperature == Some(w.current.temperature),
        r.temperature_unit@ == unit@,
        opt_chars(r.condition) == Some(condition@),
        opt_chars(r.wind_speed) == Some(w.current.windspeed@ + " "@ + speed_unit@),
        opt_chars(r.wind_direction) == Some(compass_text(w.current.compass_direction)),
        r.humidity == Some(w.current.humidity),
        r.is_daytime == match first_day_is_night {
            Some(night) => !night,
            None => true,
        },
        r.feels_like == Some(w.current.feels_like),
        r.dew_point == Some(w.current.dew_point),
        r.cloud_cover == Some(w.current.cloud_cover),
        opt_chars(r.wind_gusts) == Some(w.current.wind_gusts@ + " "@ + speed_unit@),
{
    let cur = &w.current;
    let is_daytime = match first_day_is_night {
        Some(night) => !night,
        None => true,
    };
    CurrentObservation {
        temperature: Some(cur.temperature),
        temperature_unit: owned(unit),
        condition: Some(owned(condition)),
        wind_speed: Some(concat3(cur.windspeed.as_str(), " ", speed_unit)),
        wind_direction: Some(owned(cur.compass_direction.as_str())),
        humidity: Some(cur.humidity),
        is_daytime,
        feels_like: Some(cur.feels_like),
        dew_point: Some(cur.dew_point),
        cloud_cover: Some(cur.cloud_cover),
        wind_gusts: Some(concat3(cur.wind_gusts.as_str(), " ", speed_unit)),
    }
}

/// The current observation of a fetch. Day or night is judged now, at the
/// location, from what [`night_inputs`] picks (the first forecast day's
/// sunrise and sunset); without a forecast day it is daylight. All other fields are as `observation_from`
/// states.
pub fn build_observation(w: &WeatherData, condition: &str, unit: &str, speed_unit: &str) -> (r: CurrentObservation)
    ensures
        r.temperature == Some(w.current.temperature),
        r.temperature_unit@ == unit@,
        opt_chars(r.condition) == Some(condition@),
        opt_chars(r.wind_speed) == Some(w.current.windspeed@ + " "@ + speed_unit@),
        opt_chars(r.wind_direction) == Some(compass_text(w.current.compass_direction)),
        r.humidity == Some(w.current.humidity),
        w.forecast@.len() == 0 ==> r.is_daytime,
        r.feels_like == Some(w.current.feels_like),
        r.dew_point == Some(w.current.dew_point),
        r.cloud_cover == Some(w.current.cloud_cover),
        opt_chars(r.wind_gusts) == Some(w.current.wind_gusts@ + " "@ + speed_unit@),
{
    let night = match night_inputs(w) {
        Some((sunrise, sunset, offset)) => Some(is_night_now(sunrise, sunset, offset)),
        None => None,
    };
    observation_from(w, condition, unit, speed_unit, night)
}

/// What day or night is judged from: the first forecast day's sunrise and
/// sunset and the location's offset from UTC; nothing without a forecast day.
pub fn night_inputs(w: &WeatherData) -> (r: Option<(&str, &str, i32)>)
    ensures
        w.forecast@.len() == 0 ==> r is None,
        w.forecast@.len() > 0 ==> (r matches Some(t) && t.0@ == w.forecast@[0].sunrise@ && t.1@
            == w.forecast@[0].sunset@ && t.2 == w.utc_offset_seconds),
{
    if w.forecast.len() > 0 {
        let d = &w.forecast[0];
        Some((d.sunrise.as_str(), d.sunset.as_str(), w.utc_offset_seconds))
    } else {
        None
    }
}

// --- Assembling the forecast ---

/// `sun` holds the date, sunrise and sunset of each day of `daily`, in order.
pub open spec fn sun_times_of(sun: Seq<DailySun>, daily: Seq<DailyForecast>) -> bool {
    &&& sun.len() == daily.len()
    &&& forall|i: int|
        0 <= i < daily.len() ==> #[trigger] sun[i].date@ == daily[i].date@ && sun[i].sunrise@
            == daily[i].sunrise@ && sun[i].sunset@ == daily[i].sunset@
}

/// The sunrise and sunset of each forecast day.
#[verifier::spinoff_prover]
pub fn sun_times(daily: &[DailyForecast]) -> (r: Vec<DailySun>)
    ensures
        sun_times_of(r@, daily@),
{
    let mut out: Vec<DailySun> = Vec::new();
    let mut i: usize = 0;
    while i < daily.len()
        invariant
            i <= daily.len(),
            out@.len() == i,
            forall|k: int|
                0 <= k < i ==> #[trigger] out@[k].date@ == daily@[k].date@ && out@[k].sunrise@
                    == daily@[k].sunrise@ && out@[k].sunset@ == daily@[k].sunset@,
        decreases daily.len() - i,
    {
        let d = &daily[i];
        out.push(DailySun { date: d.date.clone(), sunrise: d.sunrise.clone(), sunset: d.sunset.clone() });
        i += 1;
    }
    out
}

/// The forecast of a fetch, and the NWS grid to cache. Only the daily
/// periods and the cached grid depend on the US shim: when it delivered a
/// grid and its prose periods, those are the daily periods and the grid is
/// cached; otherwise the daily periods are built from the weather data and
/// no grid is cached. Sun times and hourly periods always come from the
/// weather data.
pub fn assemble_forecast(
    location_name: String,
    shim: Option<(GridInfo, Vec<ForecastPeriod>)>,
    weather: &WeatherData,
    day_labels: &[PeriodLabels],
    hour_descriptions: &[String],
    unit: &str,
    speed_unit: &str,
) -> (r: (Forecast, Option<GridInfo>))
    requires
        day_labels@.len() == weather.forecast@.len(),
        hour_descriptions@.len() == weather.hourly@.len(),
        2 * weather.forecast@.len() <= usize::MAX,
    ensures
        r.0.location_name == location_name,
        match shim {
            Some(s) => r.0.periods == s.1 && r.1 == Some(s.0),
            None => period_views(r.0.periods@) == built_daily_periods(
                weather.forecast@,
                day_labels@,
                unit@,
                speed_unit@,
            ) && r.1 is None,
        },
        period_views(r.0.hourly_periods@) == built_hourly_periods(
            weather.hourly@,
            hour_descriptions@,
            weather.forecast@,
            unit@,
            speed_unit@,
        ),
        sun_times_of(r.0.sun_times@, weather.forecast@),
{
    let (periods, cached_grid) = match shim {
        Some((grid, periods)) => (periods, Some(grid)),
        None => (build_daily_periods(weather.forecast.as_slice(), day_labels, unit, speed_unit), None),
    };
    let sun = sun_times(weather.forecast.as_slice());
    let hourly_periods = build_hourly_periods(
        weather.hourly.as_slice(),
        hour_descriptions,
        weather.forecast.as_slice(),
        unit,
        speed_unit,
    );
    (Forecast { location_name, periods, hourly_periods, sun_times: sun }, cached_grid)
}

} // verus!
