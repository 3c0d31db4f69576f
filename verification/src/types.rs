//! Domain types of the applet and the rules that read them: pairing forecast
//! periods into day rows, hour labels, condition icons and short place names.
use vstd::prelude::*;
use vstd::utf8::*;
use crate::text::{
    occurs_at,    all_ascii, lemma_split_joined_pair, lemma_split_pieces_hold_no_separator, ascii_lower, chars_of, contains_chars, decimal, first_index, find_byte, get_range, has_sub, owned,
    parse_u32, parse_u32_spec, push_chars, push_str, split_chars, split_spec, str_get,
    str_lowercase, string_of, to_lowercase, u32_text,
};

verus! {

broadcast use vstd::utf8::encode_utf8_valid_utf8;

// --- Weather alert types ---

#[derive(Debug, Clone, PartialEq, Eq, Structural)]
pub enum AlertSeverity {
    Extreme,
    Severe,
    Moderate,
    Minor,
    Unknown,
}

#[derive(Debug, Clone)]
pub struct WeatherAlert {
    pub event: String,
    pub headline: String,
    pub severity: AlertSeverity,
}

/// Real-time observation data from the nearest station (NWS) or the current
/// block (Open-Meteo): the whole-number and text readings. Readings that are
/// fractional measurements (UV index, pressure, visibility) are carried
/// beside it by the caller.
#[derive(Debug, Clone)]
pub struct CurrentObservation {
    pub temperature: Option<i32>,
    pub temperature_unit: String,
    pub condition: Option<String>,
    pub wind_speed: Option<String>,
    pub wind_direction: Option<String>,
    pub humidity: Option<i32>,
    pub is_daytime: bool,
    pub feels_like: Option<i32>,
    pub dew_point: Option<i32>,
    pub cloud_cover: Option<i32>,
    pub wind_gusts: Option<String>,
}

// --- NWS API response types ---

#[derive(Debug, Clone)]
pub struct PointsResponse {
    pub properties: PointsProperties,
}

#[derive(Debug, Clone)]
pub struct PointsProperties {
    pub grid_id: String,
    pub grid_x: u32,
    pub grid_y: u32,
    pub relative_location: Option<RelativeLocation>,
}

#[derive(Debug, Clone)]
pub struct RelativeLocation {
    pub properties: RelativeLocationProperties,
}

#[derive(Debug, Clone)]
pub struct RelativeLocationProperties {
    pub city: String,
    pub state: String,
}

#[derive(Debug, Clone)]
pub struct ForecastResponse {
    pub properties: ForecastProperties,
}

#[derive(Debug, Clone)]
pub struct ForecastProperties {
    pub periods: Vec<ForecastPeriod>,
}

#[derive(Debug, Clone)]
pub struct ForecastPeriod {
    pub name: String,
    pub temperature: i32,
    pub temperature_unit: String,
    pub wind_speed: String,
    pub wind_direction: String,
    pub short_forecast: String,
    pub detailed_forecast: String,
    pub is_daytime: bool,
    pub probability_of_precipitation: Option<PrecipValue>,
    pub start_time: Option<String>,
}

/// Chance of precipitation, in whole percent.
#[derive(Debug, Clone, Copy)]
pub struct PrecipValue {
    pub value: Option<i32>,
}

// --- App domain types ---

#[derive(Debug, Clone, PartialEq, Eq)]
pub struct SavedLocation {
    pub name: String,
    pub lat: String,
    pub lon: String,
    pub cached_grid: Option<GridInfo>,
    pub country_code: Option<String>,
}

#[derive(Debug, Clone, PartialEq, Eq)]
pub struct GridInfo {
    pub office: String,
    pub grid_x: u32,
    pub grid_y: u32,
    pub nearest_station: Option<String>,
}

#[derive(Debug, Clone)]
pub struct DailySun {
    pub date: String,
    pub sunrise: String,
    pub sunset: String,
}

#[derive(Debug, Clone)]
pub struct Forecast {
    pub location_name: String,
    pub periods: Vec<ForecastPeriod>,
    pub hourly_periods: Vec<ForecastPeriod>,
    pub sun_times: Vec<DailySun>,
}

#[derive(Debug, Clone)]
pub enum FetchState {
    Idle,
    Loading,
    Loaded,
    Error(String),
}

// --- View helper types ---

#[derive(Debug, Clone)]
pub struct DaySummary {
    pub name: String,
    pub date: Option<String>,
    pub high: Option<i32>,
    pub low: Option<i32>,
    pub short_forecast: String,
    pub is_daytime: bool,
    pub wind_speed: String,
    pub wind_direction: String,
    pub precip_chance: Option<i32>,
    pub detailed_forecast: String,
}

/// The abstract content of a [`DaySummary`].
pub ghost struct DaySummaryView {
    pub name: Seq<char>,
    pub date: Option<Seq<char>>,
    pub high: Option<i32>,
    pub low: Option<i32>,
    pub short_forecast: Seq<char>,
    pub is_daytime: bool,
    pub wind_speed: Seq<char>,
    pub wind_direction: Seq<char>,
    pub precip_chance: Option<i32>,
    pub detailed_forecast: Seq<char>,
}

/// The characters of an optional string.
pub open spec fn opt_chars(o: Option<String>) -> Option<Seq<char>> {
    match o {
        Some(s) => Some(s@),
        None => None,
    }
}

impl View for DaySummary {
    type V = DaySummaryView;

    open spec fn view(&self) -> DaySummaryView {
        DaySummaryView {
            name: self.name@,
            date: opt_chars(self.date),
            high: self.high,
            low: self.low,
            short_forecast: self.short_forecast@,
            is_daytime: self.is_daytime,
            wind_speed: self.wind_speed@,
            wind_direction: self.wind_direction@,
            precip_chance: self.precip_chance,
            detailed_forecast: self.detailed_forecast@,
        }
    }
}

/// The abstract contents of a list of day rows.
pub open spec fn summary_views(s: Seq<DaySummary>) -> Seq<DaySummaryView> {
    s.map_values(|d: DaySummary| d@)
}

/// The abstract content of a [`ForecastPeriod`].
pub ghost struct ForecastPeriodView {
    pub name: Seq<char>,
    pub temperature: i32,
    pub temperature_unit: Seq<char>,
    pub wind_speed: Seq<char>,
    pub wind_direction: Seq<char>,
    pub short_forecast: Seq<char>,
    pub detailed_forecast: Seq<char>,
    pub is_daytime: bool,
    pub probability_of_precipitation: Option<Option<i32>>,
    pub start_time: Option<Seq<char>>,
}

/// The reported chance of an optional precipitation record.
pub open spec fn precip_view(p: Option<PrecipValue>) -> Option<Option<i32>> {
    match p {
        Some(v) => Some(v.value),
        None => None,
    }
}

impl View for ForecastPeriod {
    type V = ForecastPeriodView;

    open spec fn view(&self) -> ForecastPeriodView {
        ForecastPeriodView {
            name: self.name@,
            temperature: self.temperature,
            temperature_unit: self.temperature_unit@,
            wind_speed: self.wind_speed@,
            wind_direction: self.wind_direction@,
            short_forecast: self.short_forecast@,
            detailed_forecast: self.detailed_forecast@,
            is_daytime: self.is_daytime,
            probability_of_precipitation: precip_view(self.probability_of_precipitation),
            start_time: opt_chars(self.start_time),
        }
    }
}

/// The abstract contents of a list of periods.
pub open spec fn period_views(s: Seq<ForecastPeriod>) -> Seq<ForecastPeriodView> {
    s.map_values(|p: ForecastPeriod| p@)
}

/// The calendar date of a period: the first ten bytes of its start time
/// (`"2026-07-04"` of `"2026-07-04T06:00:00-07:00"`), when they form a slice.
pub open spec fn period_date(p: ForecastPeriodView) -> Option<Seq<char>> {
    match p.start_time {
        Some(s) => str_get(encode_utf8(s), 0, 10),
        None => None,
    }
}

/// The chance of precipitation a period reports, if any.
pub open spec fn period_precip(p: ForecastPeriodView) -> Option<i32> {
    match p.probability_of_precipitation {
        Some(v) => v,
        None => None,
    }
}

/// The row for period `p`: a day row (`high` its temperature, `low` the one
/// given) when `p` is a daytime period, a night-only row otherwise.
pub open spec fn summary_of(p: ForecastPeriodView, low: Option<i32>) -> DaySummaryView {
    DaySummaryView {
        name: p.name,
        date: period_date(p),
        high: if p.is_daytime { Some(p.temperature) } else { None },
        low: if p.is_daytime { low } else { Some(p.temperature) },
        short_forecast: p.short_forecast,
        is_daytime: p.is_daytime,
        wind_speed: p.wind_speed,
        wind_direction: p.wind_direction,
        precip_chance: period_precip(p),
        detailed_forecast: p.detailed_forecast,
    }
}

/// Day rows of a period list: a daytime period absorbs the night period right
/// after it as its low; any other period stands alone.
pub open spec fn paired_rows(ps: Seq<ForecastPeriodView>) -> Seq<DaySummaryView>
    decreases ps.len(),
{
    if ps.len() == 0 {
        seq![]
    } else if ps[0].is_daytime && ps.len() > 1 && !ps[1].is_daytime {
        seq![summary_of(ps[0], Some(ps[1].temperature))] + paired_rows(ps.skip(2))
    } else {
        seq![summary_of(ps[0], None)] + paired_rows(ps.skip(1))
    }
}

/// How many periods a row stands for: two for a day row with its night's
/// low, one otherwise.
pub open spec fn periods_in_row(d: DaySummaryView) -> nat {
    if d.is_daytime && d.low is Some { 2 } else { 1 }
}

/// Total number of periods that a list of rows stands for.
pub open spec fn periods_in_rows(rows: Seq<DaySummaryView>) -> nat
    decreases rows.len(),
{
    if rows.len() == 0 {
        0
    } else {
        periods_in_row(rows[0]) + periods_in_rows(rows.skip(1))
    }
}

fn clone_opt_string(o: &Option<String>) -> (r: Option<String>)
    ensures
        opt_chars(r) == opt_chars(*o),
{
    match o {
        Some(s) => Some(s.clone()),
        None => None,
    }
}

fn date_of(p: &ForecastPeriod) -> (r: Option<String>)
    ensures
        opt_chars(r) == period_date(p@),
{
    match &p.start_time {
        Some(s) => match get_range(s.as_str(), 0, 10) {
            Some(t) => Some(owned(t)),
            None => None,
        },
        None => None,
    }
}

fn precip_of(p: &ForecastPeriod) -> (r: Option<i32>)
    ensures
        r == period_precip(p@),
{
    match &p.probability_of_precipitation {
        Some(v) => v.value,
        None => None,
    }
}

fn summarize(p: &ForecastPeriod, low: Option<i32>) -> (r: DaySummary)
    ensures
        r@ == summary_of(p@, low),
{
    DaySummary {
        name: p.name.clone(),
        date: date_of(p),
        high: if p.is_daytime { Some(p.temperature) } else { None },
        low: if p.is_daytime { low } else { Some(p.temperature) },
        short_forecast: p.short_forecast.clone(),
        is_daytime: p.is_daytime,
        wind_speed: p.wind_speed.clone(),
        wind_direction: p.wind_direction.clone(),
        precip_chance: precip_of(p),
        detailed_forecast: p.detailed_forecast.clone(),
    }
}

/// Folds a forecast period list into day rows: a daytime period followed by a
/// night period becomes one row carrying both temperatures; a daytime period
/// without a following night, and a night period on its own (such as a list
/// that opens with "Tonight"), each become a row of their own.
pub fn pair_daily_periods(periods: &[ForecastPeriod]) -> (r: Vec<DaySummary>)
    ensures
        summary_views(r@) == paired_rows(period_views(periods@)),
        periods_in_rows(summary_views(r@)) == periods@.len(),
{
    let mut summaries: Vec<DaySummary> = Vec::new();
    let mut i: usize = 0;
    let ghost pv = period_views(periods@);
    assert(pv.skip(0) =~= pv);
    assert(summary_views(summaries@) + paired_rows(pv) =~= paired_rows(pv));
    while i < periods.len()
        invariant
            i <= periods.len(),
            pv == period_views(periods@),
            paired_rows(pv) == summary_views(summaries@) + paired_rows(pv.skip(i as int)),
        decreases periods.len() - i,
    {
        let ghost rest = pv.skip(i as int);
        let period = &periods[i];
        assert(rest[0] == period@);
        let low: Option<i32> = if period.is_daytime && i + 1 < periods.len() && !periods[i + 1].is_daytime {
            Some(periods[i + 1].temperature)
        } else {
            None
        };
        summaries.push(summarize(period, low));
        if low.is_some() {
            assert(rest[1] == periods@[i + 1]@);
            assert(rest.skip(2) =~= pv.skip(i + 2));
            i += 2;
        } else {
            assert(rest.skip(1) =~= pv.skip(i + 1));
            i += 1;
        }
        assert(summary_views(summaries@) =~= summary_views(summaries@.drop_last()).push(summaries@.last()@));
    }
    assert(pv.skip(i as int) =~= Seq::<ForecastPeriodView>::empty());
    assert(summary_views(summaries@) + Seq::<DaySummaryView>::empty() =~= summary_views(summaries@));
    proof {
        lemma_rows_cover_periods(pv);
    }
    summaries
}

/// Every period of the list is accounted for by exactly one row.
pub proof fn lemma_rows_cover_periods(ps: Seq<ForecastPeriodView>)
    ensures
        periods_in_rows(paired_rows(ps)) == ps.len(),
    decreases ps.len(),
{
    if ps.len() == 0 {
    } else if ps[0].is_daytime && ps.len() > 1 && !ps[1].is_daytime {
        lemma_rows_cover_periods(ps.skip(2));
        let rows = paired_rows(ps);
        assert(rows.skip(1) =~= paired_rows(ps.skip(2)));
    } else {
        lemma_rows_cover_periods(ps.skip(1));
        let rows = paired_rows(ps);
        assert(rows.skip(1) =~= paired_rows(ps.skip(1)));
    }
}

/// Pairing two period lists one after the other gives their pairings one
/// after the other, unless the first list ends in a daytime period and the
/// second opens with a night period, which then join into one row.
pub proof fn lemma_pairing_splits_at_a_boundary(a: Seq<ForecastPeriodView>, b: Seq<ForecastPeriodView>)
    requires
        !(a.len() > 0 && b.len() > 0 && a.last().is_daytime && !b[0].is_daytime),
    ensures
        paired_rows(a + b) == paired_rows(a) + paired_rows(b),
    decreases a.len(),
{
    let ab = a + b;
    if a.len() == 0 {
        assert(ab =~= b);
        assert(paired_rows(a) + paired_rows(b) =~= paired_rows(b));
    } else if a[0].is_daytime && a.len() > 1 && !a[1].is_daytime {
        assert(ab[0] == a[0] && ab[1] == a[1]);
        assert(ab.skip(2) =~= a.skip(2) + b);
        if a.len() > 2 {
            assert(a.skip(2).last() == a.last());
        }
        lemma_pairing_splits_at_a_boundary(a.skip(2), b);
        assert(paired_rows(ab) =~= paired_rows(a) + paired_rows(b));
    } else {
        assert(ab[0] == a[0]);
        if a.len() > 1 {
            assert(ab[1] == a[1]);
            assert(a.skip(1).last() == a.last());
        }
        assert(ab.skip(1) =~= a.skip(1) + b);
        lemma_pairing_splits_at_a_boundary(a.skip(1), b);
        assert(paired_rows(ab) =~= paired_rows(a) + paired_rows(b));
    }
}

/// Period `j` starts a row of its own: every period does, except a night
/// period right after a daytime period, whose low it becomes.
pub open spec fn starts_row(ps: Seq<ForecastPeriodView>, j: int) -> bool {
    ps[j].is_daytime || j == 0 || !ps[j - 1].is_daytime
}

/// Row `r` reads period `j` of `ps`: its name, date (the first ten bytes of
/// the start time), texts, day/night flag, wind and chance of precipitation
/// are the period's; a daytime row has the period's temperature as its high
/// and the next period's as its low when that is a night period; a
/// night-only row has no high and the period's temperature as its low.
pub open spec fn row_reads(r: DaySummaryView, ps: Seq<ForecastPeriodView>, j: int) -> bool {
    let p = ps[j];
    &&& r.name == p.name
    &&& r.date == (match p.start_time {
        Some(t) => str_get(encode_utf8(t), 0, 10),
        None => None,
    })
    &&& r.short_forecast == p.short_forecast
    &&& r.detailed_forecast == p.detailed_forecast
    &&& r.is_daytime == p.is_daytime
    &&& r.wind_speed == p.wind_speed
    &&& r.wind_direction == p.wind_direction
    &&& r.precip_chance == (match p.probability_of_precipitation {
        Some(v) => v,
        None => None,
    })
    &&& r.high == (if p.is_daytime { Some(p.temperature) } else { None })
    &&& r.low == (if !p.is_daytime {
        Some(p.temperature)
    } else if j + 1 < ps.len() && !ps[j + 1].is_daytime {
        Some(ps[j + 1].temperature)
    } else {
        None
    })
}

/// Every period that starts a row has a row that reads it: nothing of the
/// period is lost in the folding, its chance of precipitation included,
/// whether it is a day or a night-only row.
pub proof fn lemma_rows_read_their_periods(ps: Seq<ForecastPeriodView>, j: int)
    requires
        0 <= j < ps.len(),
        starts_row(ps, j),
    ensures
        exists|k: int| 0 <= k < paired_rows(ps).len() && row_reads(#[trigger] paired_rows(ps)[k], ps, j),
    decreases ps.len(),
{
    let rows = paired_rows(ps);
    if ps[0].is_daytime && ps.len() > 1 && !ps[1].is_daytime {
        if j == 0 {
            assert(row_reads(rows[0], ps, 0));
        } else {
            let rest = ps.skip(2);
            assert(rest[j - 2] == ps[j]);
            if j > 2 {
                assert(rest[j - 3] == ps[j - 1]);
            }
            lemma_rows_read_their_periods(rest, j - 2);
            let k = choose|k: int|
                0 <= k < paired_rows(rest).len() && row_reads(#[trigger] paired_rows(rest)[k], rest, j - 2);
            assert(rows[k + 1] == paired_rows(rest)[k]);
            if j + 1 < ps.len() {
                assert(rest[j - 1] == ps[j + 1]);
            }
            assert(row_reads(rows[k + 1], ps, j));
        }
    } else {
        if j == 0 {
            assert(row_reads(rows[0], ps, 0));
        } else {
            let rest = ps.skip(1);
            assert(rest[j - 1] == ps[j]);
            if j > 1 {
                assert(rest[j - 2] == ps[j - 1]);
            }
            lemma_rows_read_their_periods(rest, j - 1);
            let k = choose|k: int|
                0 <= k < paired_rows(rest).len() && row_reads(#[trigger] paired_rows(rest)[k], rest, j - 1);
            assert(rows[k + 1] == paired_rows(rest)[k]);
            if j + 1 < ps.len() {
                assert(rest[j] == ps[j + 1]);
            }
            assert(row_reads(rows[k + 1], ps, j));
        }
    }
}

// --- Hour labels ---

/// The hour field of an ISO 8601 timestamp: the two bytes after the first
/// 'T', read as `str::parse::<u32>` reads them.
pub open spec fn iso_hour_spec(s: Seq<char>) -> Option<nat> {
    let b = encode_utf8(s);
    match first_index(b, 'T' as u8) {
        Some(p) => match str_get(b, p + 1, p + 3) {
            Some(field) => parse_u32_spec(field),
            None => None,
        },
        None => None,
    }
}

/// The two bytes after the first 'T' of `s` lie on character boundaries, so
/// that slicing them out does not panic.
pub open spec fn hour_field_sliceable(s: Seq<char>) -> bool {
    let b = encode_utf8(s);
    first_index(b, 'T' as u8) matches Some(p) ==> str_get(b, p + 1, p + 3) is Some
}

/// The hour of an ISO 8601 timestamp such as `"2026-02-28T14:00:00-08:00"`:
/// the two bytes after the first 'T', parsed as a decimal number.
pub fn iso_hour(start_time: &str) -> (r: Option<u32>)
    ensures
        r matches Some(h) ==> iso_hour_spec(start_time@) == Some(h as nat),
        r is None ==> iso_hour_spec(start_time@) is None,
{
    match find_byte(start_time, 'T' as u8) {
        Some(p) => {
            if p > usize::MAX - 3 {
                proof {
                    let b = encode_utf8(start_time@);
                    assert(str_get(b, p + 1, p + 3) is None);
                }
                return None;
            }
            match get_range(start_time, p + 1, p + 3) {
                Some(field) => parse_u32(field),
                None => None,
            }
        }
        None => None,
    }
}

/// The 12-hour label of hour `h`: "12 AM", "1 AM" .. "11 AM", "12 PM", then
/// `h - 12` with "PM".
pub open spec fn twelve_hour_label(h: nat) -> Seq<char> {
    if h == 0 {
        "12 AM"@
    } else if h <= 11 {
        decimal(h) + " AM"@
    } else if h == 12 {
        "12 PM"@
    } else {
        decimal((h - 12) as nat) + " PM"@
    }
}

/// The display hour for a timestamp: `"{hour}h"` on a 24-hour clock, the
/// AM/PM label otherwise, and the timestamp itself when it has no hour field.
pub open spec fn format_hour_spec(s: Seq<char>, clock_24h: bool) -> Seq<char> {
    match iso_hour_spec(s) {
        Some(h) => if clock_24h { decimal(h) + "h"@ } else { twelve_hour_label(h) },
        None => s,
    }
}

/// How an hour label tells the hour. On a 24-hour clock it is the hour and
/// "h". On the 12-hour clock an hour of the day (0..=23) shows as 12 for
/// midnight and noon and otherwise as the hour modulo 12, followed by " AM"
/// before noon (hours 0 to 11) and " PM" from noon on (12 to 23). A
/// timestamp without an hour field is shown as it is.
pub proof fn lemma_hour_label_tells_the_time(s: Seq<char>, clock_24h: bool)
    ensures
        iso_hour_spec(s) matches Some(h) ==> format_hour_spec(s, true) == decimal(h) + "h"@,
        iso_hour_spec(s) matches Some(h) ==> h < 12 ==> format_hour_spec(s, false) == decimal(
            if h == 0 { 12 } else { h },
        ) + " AM"@,
        iso_hour_spec(s) matches Some(h) ==> 12 <= h < 24 ==> format_hour_spec(s, false) == decimal(
            if h == 12 { 12 } else { (h - 12) as nat },
        ) + " PM"@,
        iso_hour_spec(s) is None ==> format_hour_spec(s, clock_24h) == s,
{
    reveal_strlit("12 AM");
    reveal_strlit("12 PM");
    reveal_strlit(" AM");
    reveal_strlit(" PM");
    assert(decimal(12) =~= seq!['1', '2']) by {
        reveal_with_fuel(decimal, 2);
    }
    assert("12 AM"@ =~= seq!['1', '2'] + " AM"@);
    assert("12 PM"@ =~= seq!['1', '2'] + " PM"@);
}

/// Extract a display hour like "3 PM" from an ISO 8601 string.
///
/// Input format: "2026-02-28T14:00:00-08:00"; the hour digits follow the 'T'.
/// `clock_24h` is the locale's `clock-24h` setting: a 24-hour clock renders
/// "14h", the default renders the 12-hour AM/PM clock.
pub fn format_hour(start_time: &str, clock_24h: bool) -> (r: String)
    requires
        hour_field_sliceable(start_time@),
    ensures
        r@ == format_hour_spec(start_time@, clock_24h),
{
    match iso_hour(start_time) {
        Some(hour) => {
            if clock_24h {
                let mut s = u32_text(hour);
                push_str(&mut s, "h");
                return s;
            }
            if hour == 0 {
                owned("12 AM")
            } else if hour <= 11 {
                let mut s = u32_text(hour);
                push_str(&mut s, " AM");
                s
            } else if hour == 12 {
                owned("12 PM")
            } else {
                let mut s = u32_text(hour - 12);
                push_str(&mut s, " PM");
                s
            }
        }
        None => owned(start_time),
    }
}

// --- Geocoding types ---

#[derive(Debug, Clone)]
pub struct SearchResult {
    pub display_name: String,
    pub lat: String,
    pub lon: String,
    pub address: Option<NominatimAddress>,
}

#[derive(Debug, Clone)]
pub struct NominatimAddress {
    pub country_code: Option<String>,
}

// --- Condition icons ---

/// The symbolic icon for a lowercased condition text: storms first, then
/// snow, rain (scattered or not), fog, heavy cloud, partial cloud, mostly
/// clear, clear; any other cloud is overcast; anything else is clear. Clear
/// and partly clear skies have a night variant.
pub open spec fn icon_for_condition_text(s: Seq<char>, is_daytime: bool) -> Seq<char> {
    let night = !is_daytime;
    if has_sub(s, "thunder"@) || has_sub(s, "storm"@) {
        "weather-storm-symbolic"@
    } else if has_sub(s, "snow"@) || has_sub(s, "flurr"@) || has_sub(s, "blizzard"@) {
        "weather-snow-symbolic"@
    } else if has_sub(s, "rain"@) || has_sub(s, "shower"@) || has_sub(s, "drizzle"@) {
        if has_sub(s, "scattered"@) {
            "weather-showers-scattered-symbolic"@
        } else {
            "weather-showers-symbolic"@
        }
    } else if has_sub(s, "fog"@) || has_sub(s, "mist"@) || has_sub(s, "haz"@) {
        "weather-fog-symbolic"@
    } else if has_sub(s, "mostly cloudy"@) || has_sub(s, "overcast"@) {
        "weather-overcast-symbolic"@
    } else if (has_sub(s, "partly"@) && has_sub(s, "cloud"@)) || has_sub(s, "mostly sunny"@)
        || has_sub(s, "mostly clear"@) {
        if night {
            "weather-few-clouds-night-symbolic"@
        } else {
            "weather-few-clouds-symbolic"@
        }
    } else if has_sub(s, "sunny"@) || has_sub(s, "clear"@) {
        if night {
            "weather-clear-night-symbolic"@
        } else {
            "weather-clear-symbolic"@
        }
    } else if has_sub(s, "cloud"@) {
        "weather-overcast-symbolic"@
    } else if night {
        "weather-clear-night-symbolic"@
    } else {
        "weather-clear-symbolic"@
    }
}

/// No storm, snow, rain or fog word occurs in a condition text.
pub open spec fn no_weather_words(s: Seq<char>) -> bool {
    !has_sub(s, "thunder"@) && !has_sub(s, "storm"@) && !has_sub(s, "snow"@) && !has_sub(s, "flurr"@)
        && !has_sub(s, "blizzard"@) && !has_sub(s, "rain"@) && !has_sub(s, "shower"@) && !has_sub(
        s,
        "drizzle"@,
    ) && !has_sub(s, "fog"@) && !has_sub(s, "mist"@) && !has_sub(s, "haz"@)
}

/// What the icon says of the condition text, by the words it holds.
/// Thunder or storm shows a storm, whatever else is said. Otherwise snow,
/// flurries or a blizzard show snow. Otherwise rain, showers or drizzle show
/// showers, scattered ones exactly when "scattered" is said. Otherwise fog,
/// mist or haze show fog. Without any of those words, an overcast or mostly
/// cloudy sky shows overcast (never a clear sky), and a text with no sky
/// word at all shows a clear sky. Only the clear and partly cloudy skies
/// differ between day and night, and at night they show their night icons.
pub proof fn lemma_icon_follows_the_words(s: Seq<char>, is_daytime: bool)
    ensures
        has_sub(s, "thunder"@) || has_sub(s, "storm"@) ==> icon_for_condition_text(s, is_daytime)
            == "weather-storm-symbolic"@,
        !has_sub(s, "thunder"@) && !has_sub(s, "storm"@) && (has_sub(s, "snow"@) || has_sub(
            s,
            "flurr"@,
        ) || has_sub(s, "blizzard"@)) ==> icon_for_condition_text(s, is_daytime)
            == "weather-snow-symbolic"@,
        !has_sub(s, "thunder"@) && !has_sub(s, "storm"@) && !has_sub(s, "snow"@) && !has_sub(
            s,
            "flurr"@,
        ) && !has_sub(s, "blizzard"@) && (has_sub(s, "rain"@) || has_sub(s, "shower"@) || has_sub(
            s,
            "drizzle"@,
        )) ==> icon_for_condition_text(s, is_daytime) == (if has_sub(s, "scattered"@) {
            "weather-showers-scattered-symbolic"@
        } else {
            "weather-showers-symbolic"@
        }),
        !has_sub(s, "thunder"@) && !has_sub(s, "storm"@) && !has_sub(s, "snow"@) && !has_sub(
            s,
            "flurr"@,
        ) && !has_sub(s, "blizzard"@) && !has_sub(s, "rain"@) && !has_sub(s, "shower"@)
            && !has_sub(s, "drizzle"@) && (has_sub(s, "fog"@) || has_sub(s, "mist"@) || has_sub(
            s,
            "haz"@,
        )) ==> icon_for_condition_text(s, is_daytime) == "weather-fog-symbolic"@,
        no_weather_words(s) && (has_sub(s, "overcast"@) || has_sub(s, "mostly cloudy"@))
            ==> icon_for_condition_text(s, is_daytime) == "weather-overcast-symbolic"@,
        no_weather_words(s) && !has_sub(s, "cloud"@) && !has_sub(s, "overcast"@) && !has_sub(
            s,
            "sunny"@,
        ) && !has_sub(s, "clear"@) ==> icon_for_condition_text(s, is_daytime) == (if is_daytime {
            "weather-clear-symbolic"@
        } else {
            "weather-clear-night-symbolic"@
        }),
        no_weather_words(s) && !has_sub(s, "overcast"@) && !has_sub(s, "mostly cloudy"@) && ((has_sub(
            s,
            "partly"@,
        ) && has_sub(s, "cloud"@)) || has_sub(s, "mostly sunny"@) || has_sub(s, "mostly clear"@))
            ==> icon_for_condition_text(s, is_daytime) == (if is_daytime {
            "weather-few-clouds-symbolic"@
        } else {
            "weather-few-clouds-night-symbolic"@
        }),
        no_weather_words(s) && !has_sub(s, "cloud"@) && !has_sub(s, "overcast"@) && !has_sub(
            s,
            "mostly sunny"@,
        ) && !has_sub(s, "mostly clear"@) && (has_sub(s, "sunny"@) || has_sub(s, "clear"@))
            ==> icon_for_condition_text(s, is_daytime) == (if is_daytime {
            "weather-clear-symbolic"@
        } else {
            "weather-clear-night-symbolic"@
        }),
        no_weather_words(s) && has_sub(s, "cloud"@) && !has_sub(s, "partly"@) && !has_sub(
            s,
            "sunny"@,
        ) && !has_sub(s, "clear"@) ==> icon_for_condition_text(s, is_daytime)
            == "weather-overcast-symbolic"@,
        icon_for_condition_text(s, true) != icon_for_condition_text(s, false) ==> ({
            let day = icon_for_condition_text(s, true);
            let night = icon_for_condition_text(s, false);
            ||| day == "weather-clear-symbolic"@ && night == "weather-clear-night-symbolic"@
            ||| day == "weather-few-clouds-symbolic"@ && night == "weather-few-clouds-night-symbolic"@
        }),
{
    reveal_strlit("mostly cloudy");
    reveal_strlit("mostly sunny");
    reveal_strlit("mostly clear");
    reveal_strlit("cloud");
    reveal_strlit("sunny");
    reveal_strlit("clear");
    if has_sub(s, "mostly cloudy"@) {
        let i = choose|i: int| occurs_at(s, "mostly cloudy"@, i);
        assert("mostly cloudy"@.subrange(7, 12) =~= "cloud"@);
        lemma_occurs_within(s, "mostly cloudy"@, "cloud"@, i, 7);
    }
    if has_sub(s, "mostly sunny"@) {
        let i = choose|i: int| occurs_at(s, "mostly sunny"@, i);
        assert("mostly sunny"@.subrange(7, 12) =~= "sunny"@);
        lemma_occurs_within(s, "mostly sunny"@, "sunny"@, i, 7);
    }
    if has_sub(s, "mostly clear"@) {
        let i = choose|i: int| occurs_at(s, "mostly clear"@, i);
        assert("mostly clear"@.subrange(7, 12) =~= "clear"@);
        lemma_occurs_within(s, "mostly clear"@, "clear"@, i, 7);
    }
}

/// Where a text occurs, so does every piece of it.
proof fn lemma_occurs_within(s: Seq<char>, n: Seq<char>, t: Seq<char>, i: int, k: int)
    requires
        occurs_at(s, n, i),
        0 <= k,
        k + t.len() <= n.len(),
        n.subrange(k, k + t.len()) == t,
    ensures
        occurs_at(s, t, i + k),
{
    assert(s.subrange(i + k, i + k + t.len()) =~= s.subrange(i, i + n.len()).subrange(k, k + t.len()));
}

/// Map a weather condition string and day/night flag to a symbolic icon name.
/// The condition is matched case-insensitively (after Unicode lowercasing);
/// on ASCII text that lowercasing is the ASCII one.
pub fn condition_icon(condition: &str, is_daytime: bool) -> (r: &'static str)
    ensures
        r@ == icon_for_condition_text(str_lowercase(condition@), is_daytime),
        all_ascii(condition@) ==> r@ == icon_for_condition_text(
            condition@.map_values(|c: char| ascii_lower(c)),
            is_daytime,
        ),
{
    let lower = to_lowercase(condition);
    icon_for_lowercased(lower.as_str(), is_daytime)
}

/// The icon for a condition text that is already lowercased (see
/// [`icon_for_condition_text`]).
pub fn icon_for_lowercased(lower: &str, is_daytime: bool) -> (r: &'static str)
    ensures
        r@ == icon_for_condition_text(lower@, is_daytime),
{
    let s = chars_of(lower);
    let night = !is_daytime;

    if contains_chars(&s, "thunder") || contains_chars(&s, "storm") {
        return "weather-storm-symbolic";
    }
    if contains_chars(&s, "snow") || contains_chars(&s, "flurr") || contains_chars(&s, "blizzard") {
        return "weather-snow-symbolic";
    }
    if contains_chars(&s, "rain") || contains_chars(&s, "shower") || contains_chars(&s, "drizzle") {
        return if contains_chars(&s, "scattered") {
            "weather-showers-scattered-symbolic"
        } else {
            "weather-showers-symbolic"
        };
    }
    if contains_chars(&s, "fog") || contains_chars(&s, "mist") || contains_chars(&s, "haz") {
        return "weather-fog-symbolic";
    }
    if contains_chars(&s, "mostly cloudy") || contains_chars(&s, "overcast") {
        return "weather-overcast-symbolic";
    }
    if contains_chars(&s, "partly") && contains_chars(&s, "cloud") {
        return if night {
            "weather-few-clouds-night-symbolic"
        } else {
            "weather-few-clouds-symbolic"
        };
    }
    if contains_chars(&s, "mostly sunny") || contains_chars(&s, "mostly clear") {
        return if night {
            "weather-few-clouds-night-symbolic"
        } else {
            "weather-few-clouds-symbolic"
        };
    }
    if contains_chars(&s, "sunny") || contains_chars(&s, "clear") {
        return if night {
            "weather-clear-night-symbolic"
        } else {
            "weather-clear-symbolic"
        };
    }
    if contains_chars(&s, "cloud") {
        return "weather-overcast-symbolic";
    }

    if night {
        "weather-clear-night-symbolic"
    } else {
        "weather-clear-symbolic"
    }
}

// --- Place names ---

/// The short name of a Nominatim display name: the first ", "-separated
/// part and the second-to-last one, joined by ", ", when there are at least
/// three parts; the display name itself otherwise.
pub open spec fn short_name_spec(display_name: Seq<char>) -> Seq<char> {
    let parts = split_spec(display_name, ", "@);
    if parts.len() >= 3 {
        parts[0] + ", "@ + parts[parts.len() - 2]
    } else {
        display_name
    }
}

/// Shortening a place name is idempotent: a short name is its own short
/// name, since its two parts hold no ", " of their own.
pub proof fn lemma_short_name_is_idempotent(display_name: Seq<char>)
    ensures
        short_name_spec(short_name_spec(display_name)) == short_name_spec(display_name),
{
    reveal_strlit(", ");
    let parts = split_spec(display_name, ", "@);
    if parts.len() >= 3 {
        lemma_split_pieces_hold_no_separator(display_name, ", "@);
        assert(!has_sub(parts[0], ", "@));
        assert(!has_sub(parts[parts.len() - 2], ", "@));
        lemma_split_joined_pair(parts[0], parts[parts.len() - 2]);
    }
}

/// Extract a short "City, State" name from a Nominatim display_name.
///
/// Nominatim US results look like:
///   "Denver, City and County of Denver, Colorado, United States"
///   "Chicago, Cook County, Illinois, United States"
///
/// The first part (city) and second-to-last part (state) are taken, falling
/// back to the full string if the format is unexpected.
pub fn short_location_name(display_name: &str) -> (r: String)
    ensures
        r@ == short_name_spec(display_name@),
{
    proof {
        reveal_strlit(", ");
    }
    let cs = chars_of(display_name);
    let parts = split_chars(&cs, ", ");
    assert(parts@.len() == split_spec(display_name@, ", "@).len());
    if parts.len() >= 3 {
        let mut r = string_of(&parts[0]);
        push_str(&mut r, ", ");
        push_chars(&mut r, &parts[parts.len() - 2]);
        assert(parts@[0]@ == split_spec(display_name@, ", "@)[0]);
        assert(parts@[parts.len() - 2]@ == split_spec(display_name@, ", "@)[parts.len() - 2]);
        r
    } else {
        owned(display_name)
    }
}

} // verus!
