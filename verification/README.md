# whether

The rules of a desktop weather applet, written in Verus and verified:
how forecast periods fold into day rows, which icon a condition shows,
which clock and temperature unit a locale prefers, how hour labels and
place names are formed, what the NWS API is asked, and how one fetch of
weather data becomes the forecast the applet shows.

- `src/text.rs` — string building, substring search, splitting, decimal
  numbers, and the byte-offset semantics of `str::find` / `str::get`.
- `src/types.rs` — domain types; day-row pairing, hour labels, condition
  icons, short place names.
- `src/config.rs` — configuration, locale rules, the steps of loading a
  stored configuration.
- `src/nws.rs` — NWS request URLs, errors, and what a grid lookup yields.
- `src/weather.rs` — weather readings as plain values and their message ids.
- `src/backend.rs` — daily and hourly periods, day/night, the current
  observation, the steps of fetching the US prose forecast, assembling a
  forecast.
- `src/views.rs` — what the panel and popup show, apart from drawing it:
  icons, labels, the alert banner, the hourly strip, daily rows, the
  current-conditions card and the location search.
- `app/` — a console front end: network requests, environment, English
  texts, and the fractional measurements (pressure, UV, geometry).
- `tests/` — tests of the library on concrete values.

Run `whether LAT LON [COUNTRY_CODE] [NAME]` from `app/` to print a forecast.
