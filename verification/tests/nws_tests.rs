use whether::nws::{forecast_url, grid_from_points, points_url, NwsError};
use whether::types::{
    GridInfo, PointsProperties, PointsResponse, RelativeLocation, RelativeLocationProperties,
};

#[test]
fn points_url_joins_coordinates() {
    assert_eq!(points_url("45.52", "-122.68"), "https://api.weather.gov/points/45.52,-122.68");
}

#[test]
fn forecast_url_names_grid_and_units() {
    let grid = GridInfo { office: "PQR".to_string(), grid_x: 112, grid_y: 103, nearest_station: None };
    assert_eq!(
        forecast_url(&grid, true),
        "https://api.weather.gov/gridpoints/PQR/112,103/forecast?units=us"
    );
    let grid = GridInfo { office: "BOU".to_string(), grid_x: 0, grid_y: 7, nearest_station: None };
    assert_eq!(
        forecast_url(&grid, false),
        "https://api.weather.gov/gridpoints/BOU/0,7/forecast?units=si"
    );
}

#[test]
fn error_messages_name_the_failure() {
    assert_eq!(NwsError::Network("timed out".to_string()).message(), "Network error: timed out");
    assert_eq!(NwsError::Api("down".to_string()).message(), "API error: down");
    assert_eq!(NwsError::Parse("bad json".to_string()).message(), "Parse error: bad json");
}

#[test]
fn status_errors_are_api_errors() {
    match NwsError::points_status("404 Not Found") {
        NwsError::Api(m) => assert_eq!(m, "Points API returned 404 Not Found"),
        other => panic!("{other:?}"),
    }
    match NwsError::forecast_status("500 Internal Server Error") {
        NwsError::Api(m) => assert_eq!(m, "Forecast API returned 500 Internal Server Error"),
        other => panic!("{other:?}"),
    }
}

#[test]
fn grid_and_place_from_points() {
    let points = PointsResponse {
        properties: PointsProperties {
            grid_id: "PQR".to_string(),
            grid_x: 112,
            grid_y: 103,
            relative_location: Some(RelativeLocation {
                properties: RelativeLocationProperties {
                    city: "Portland".to_string(),
                    state: "OR".to_string(),
                },
            }),
        },
    };
    let (grid, name) = grid_from_points(&points);
    assert_eq!(grid, GridInfo { office: "PQR".to_string(), grid_x: 112, grid_y: 103, nearest_station: None });
    assert_eq!(name, "Portland, OR");
}

#[test]
fn place_name_is_empty_without_relative_location() {
    let points = PointsResponse {
        properties: PointsProperties {
            grid_id: "BOU".to_string(),
            grid_x: 1,
            grid_y: 2,
            relative_location: None,
        },
    };
    let (_, name) = grid_from_points(&points);
    assert_eq!(name, "");
}
