//! The shape of requests to the National Weather Service API and of what is
//! kept from its answers.
use vstd::prelude::*;
use crate::text::{concat2, decimal, owned, push_str, push_u32};
use crate::types::{opt_chars, GridInfo, PointsResponse};

verus! {

pub const BASE_URL: &'static str = "https://api.weather.gov";

pub const USER_AGENT: &'static str = "cosmic-ext-whether/0.1.0 (https://github.com/nwxnw/cosmic-ext-whether)";

/// Seconds a request may take before it is abandoned.
pub const REQUEST_TIMEOUT_SECS: u64 = 15;

#[derive(Debug, Clone)]
pub enum NwsError {
    Network(String),
    Api(String),
    Parse(String),
}

impl NwsError {
    /// The human-readable message of the error, as it is shown to the user:
    /// a prefix naming the kind of failure, then the detail.
    pub fn message(&self) -> (r: String)
        ensures
            r@ == match self {
                NwsError::Network(m) => "Network error: "@ + m@,
                NwsError::Api(m) => "API error: "@ + m@,
                NwsError::Parse(m) => "Parse error: "@ + m@,
            },
    {
        match self {
            NwsError::Network(msg) => concat2("Network error: ", msg.as_str()),
            NwsError::Api(msg) => concat2("API error: ", msg.as_str()),
            NwsError::Parse(msg) => concat2("Parse error: ", msg.as_str()),
        }
    }

    /// The error for a points lookup answered with a non-success status
    /// (`status` as the HTTP status displays itself).
    pub fn points_status(status: &str) -> (r: NwsError)
        ensures
            r matches NwsError::Api(m) && m@ == "Points API returned "@ + status@,
    {
        NwsError::Api(concat2("Points API returned ", status))
    }

    /// The error for a forecast request answered with a non-success status.
    pub fn forecast_status(status: &str) -> (r: NwsError)
        ensures
            r matches NwsError::Api(m) && m@ == "Forecast API returned "@ + status@,
    {
        NwsError::Api(concat2("Forecast API returned ", status))
    }
}

/// The grid lookup URL for a latitude/longitude pair.
pub fn points_url(lat: &str, lon: &str) -> (r: String)
    ensures
        r@ == BASE_URL@ + "/points/"@ + lat@ + ","@ + lon@,
{
    let mut url = owned(BASE_URL);
    push_str(&mut url, "/points/");
    push_str(&mut url, lat);
    push_str(&mut url, ",");
    push_str(&mut url, lon);
    url
}

/// The unit system asked of the forecast endpoint: "us" for Fahrenheit,
/// "si" otherwise.
pub open spec fn units_param(use_fahrenheit: bool) -> Seq<char> {
    if use_fahrenheit { "us"@ } else { "si"@ }
}

/// The 7-day forecast URL of a grid cell.
pub fn forecast_url(grid: &GridInfo, use_fahrenheit: bool) -> (r: String)
    ensures
        r@ == BASE_URL@ + "/gridpoints/"@ + grid.office@ + "/"@ + decimal(grid.grid_x as nat) + ","@
            + decimal(grid.grid_y as nat) + "/forecast?units="@ + units_param(use_fahrenheit),
{
    let units = if use_fahrenheit { "us" } else { "si" };
    let mut url = owned(BASE_URL);
    push_str(&mut url, "/gridpoints/");
    push_str(&mut url, grid.office.as_str());
    push_str(&mut url, "/");
    push_u32(&mut url, grid.grid_x);
    push_str(&mut url, ",");
    push_u32(&mut url, grid.grid_y);
    push_str(&mut url, "/forecast?units=");
    push_str(&mut url, units);
    url
}

/// The name of the place nearest to a grid point: "City, State" from the
/// relative location, or the empty string when the answer has none.
pub open spec fn points_place_name(points: PointsResponse) -> Seq<char> {
    match points.properties.relative_location {
        Some(rl) => rl.properties.city@ + ", "@ + rl.properties.state@,
        None => Seq::empty(),
    }
}

/// What a points lookup yields: the forecast grid (office and cell, with no
/// station known yet) and the nearest place's name.
pub fn grid_from_points(points: &PointsResponse) -> (r: (GridInfo, String))
    ensures
        r.0.office@ == points.properties.grid_id@,
        r.0.grid_x == points.properties.grid_x,
        r.0.grid_y == points.properties.grid_y,
        opt_chars(r.0.nearest_station) is None,
        r.1@ == points_place_name(*points),
{
    let props = &points.properties;
    let grid = GridInfo {
        office: props.grid_id.clone(),
        grid_x: props.grid_x,
        grid_y: props.grid_y,
        nearest_station: None,
    };
    let location_name = match &props.relative_location {
        Some(rl) => {
            let mut s = owned(rl.properties.city.as_str());
            push_str(&mut s, ", ");
            push_str(&mut s, rl.properties.state.as_str());
            s
        }
        None => String::new(),
    };
    (grid, location_name)
}

} // verus!
