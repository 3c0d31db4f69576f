//! Applet configuration and the locale rules that pick its defaults: the
//! temperature unit and the clock a locale's country prefers.
use vstd::prelude::*;
use vstd::utf8::*;
use crate::text::{all_ascii, ascii_upper, find_byte, first_index, get_range, str_eq, str_get, str_uppercase, to_uppercase};
use crate::types::{opt_chars, SavedLocation};

verus! {

broadcast use vstd::utf8::encode_utf8_valid_utf8;

pub const APP_ID: &'static str = "com.github.nwxnw.cosmic-ext-whether";

/// Schema version of the stored configuration.
pub const CONFIG_VERSION: u64 = 5;

#[derive(Debug, Clone, PartialEq, Eq)]
pub struct WhetherConfig {
    pub use_fahrenheit: bool,
    pub locations: Vec<SavedLocation>,
    pub active_location_index: usize,
    pub refresh_interval_minutes: u32,
}

impl WhetherConfig {
    /// The configuration of a first start: no saved locations, the first
    /// slot active, a 30-minute refresh, and the temperature unit that the
    /// user's locale prefers (see [`fahrenheit_for_locale`]).
    pub fn initial(use_fahrenheit: bool) -> (r: Self)
        ensures
            r.use_fahrenheit == use_fahrenheit,
            r.locations@.len() == 0,
            r.active_location_index == 0,
            r.refresh_interval_minutes == 30,
    {
        WhetherConfig {
            use_fahrenheit,
            locations: Vec::new(),
            active_location_index: 0,
            refresh_interval_minutes: 30,
        }
    }

    /// The saved location that is currently selected, if the index points
    /// at one.
    pub fn active_location(&self) -> (r: Option<&SavedLocation>)
        ensures
            self.active_location_index < self.locations@.len() ==> r == Some(
                &self.locations@[self.active_location_index as int],
            ),
            self.active_location_index >= self.locations@.len() ==> r is None,
    {
        if self.active_location_index < self.locations.len() {
            Some(&self.locations[self.active_location_index])
        } else {
            None
        }
    }
}

/// The characters of an optional string slice.
pub open spec fn opt_str(o: Option<&str>) -> Option<Seq<char>> {
    match o {
        Some(s) => Some(s@),
        None => None,
    }
}

/// The country field of a locale string such as `"en_US.UTF-8"`: the two
/// bytes after the first '_', when they lie on character boundaries.
pub open spec fn locale_country_spec(l: Seq<char>) -> Option<Seq<char>> {
    let b = encode_utf8(l);
    match first_index(b, '_' as u8) {
        Some(p) => str_get(b, p + 1, p + 3),
        None => None,
    }
}

/// The country field of a locale, uppercased.
pub open spec fn locale_country_upper(l: Seq<char>) -> Option<Seq<char>> {
    match locale_country_spec(l) {
        Some(c) => Some(str_uppercase(c)),
        None => None,
    }
}

/// The ASCII uppercase of a text, character by character.
pub open spec fn ascii_upper_text(s: Seq<char>) -> Seq<char> {
    s.map_values(|c: char| ascii_upper(c))
}

/// The country field of a locale, ASCII-uppercased, when it is ASCII.
pub open spec fn ascii_country(locale: Option<Seq<char>>) -> Option<Seq<char>> {
    match locale {
        Some(l) => match locale_country_spec(l) {
            Some(c) => if all_ascii(c) { Some(ascii_upper_text(c)) } else { None },
            None => None,
        },
        None => None,
    }
}

/// The uppercased country code of a locale (`"en_us.utf8"` gives `"US"`).
pub fn locale_country(locale: &str) -> (r: Option<String>)
    ensures
        opt_chars(r) == locale_country_upper(locale@),
        locale_country_spec(locale@) is Some && all_ascii(locale_country_spec(locale@)->0)
            ==> opt_chars(r) == Some(ascii_upper_text(locale_country_spec(locale@)->0)),
{
    match find_byte(locale, '_' as u8) {
        Some(pos) => {
            if pos > usize::MAX - 3 {
                return None;
            }
            match get_range(locale, pos + 1, pos + 3) {
                Some(c) => Some(to_uppercase(c)),
                None => None,
            }
        }
        None => None,
    }
}

/// Countries that measure temperature in Fahrenheit: the US, Liberia and
/// Myanmar.
pub open spec fn fahrenheit_country(c: Seq<char>) -> bool {
    c == "US"@ || c == "LR"@ || c == "MM"@
}

/// Countries that keep the 12-hour clock.
pub open spec fn twelve_hour_country(c: Seq<char>) -> bool {
    c == "US"@ || c == "CA"@ || c == "AU"@ || c == "NZ"@ || c == "PH"@ || c == "IN"@ || c
        == "PK"@ || c == "BD"@ || c == "MY"@ || c == "EG"@ || c == "SA"@ || c == "JO"@ || c
        == "MX"@ || c == "CO"@
}

/// Whether a locale prefers Fahrenheit: its country decides; no locale, or
/// one without a readable country, keeps Fahrenheit.
pub open spec fn fahrenheit_spec(locale: Option<Seq<char>>) -> bool {
    match locale {
        None => true,
        Some(l) => match locale_country_upper(l) {
            Some(c) => fahrenheit_country(c),
            None => true,
        },
    }
}

/// Whether a locale prefers the 24-hour clock: its country decides; no
/// locale, or one without a readable country, keeps the 12-hour clock.
pub open spec fn military_time_spec(locale: Option<Seq<char>>) -> bool {
    match locale {
        None => false,
        Some(l) => match locale_country_upper(l) {
            Some(c) => !twelve_hour_country(c),
            None => false,
        },
    }
}

/// Whether an uppercased country code measures temperature in Fahrenheit.
pub fn is_fahrenheit_country(c: &str) -> (r: bool)
    ensures
        r == fahrenheit_country(c@),
{
    str_eq(c, "US") || str_eq(c, "LR") || str_eq(c, "MM")
}

/// Whether an uppercased country code keeps the 12-hour clock.
pub fn is_twelve_hour_country(c: &str) -> (r: bool)
    ensures
        r == twelve_hour_country(c@),
{
    str_eq(c, "US") || str_eq(c, "CA") || str_eq(c, "AU") || str_eq(c, "NZ") || str_eq(c, "PH")
        || str_eq(c, "IN") || str_eq(c, "PK") || str_eq(c, "BD") || str_eq(c, "MY") || str_eq(
        c,
        "EG",
    ) || str_eq(c, "SA") || str_eq(c, "JO") || str_eq(c, "MX") || str_eq(c, "CO")
}

/// Whether to default to Fahrenheit for a locale (the value of
/// `LC_MEASUREMENT`, else `LANG`).
///
/// US, Liberia (LR), and Myanmar (MM) use Fahrenheit; everyone else uses
/// Celsius. Falls back to Fahrenheit if no locale can be determined.
pub fn fahrenheit_for_locale(locale: Option<&str>) -> (r: bool)
    ensures
        r == fahrenheit_spec(opt_str(locale)),
        ascii_country(opt_str(locale)) is Some ==> r == fahrenheit_country(
            ascii_country(opt_str(locale))->0,
        ),
        ascii_country(opt_str(locale)) is Some ==> (r <==> (ascii_country(opt_str(locale))->0 == "US"@
            || ascii_country(opt_str(locale))->0 == "LR"@ || ascii_country(opt_str(locale))->0
            == "MM"@)),
        locale is None ==> r,
{
    match locale {
        None => true,
        Some(l) => match locale_country(l) {
            Some(c) => is_fahrenheit_country(c.as_str()),
            None => true,
        },
    }
}

/// Country code after `_` in a locale string decides the clock.
/// `None` and anything without a parseable country keep the 12-hour default.
pub fn military_time_for_locale(locale: Option<&str>) -> (r: bool)
    ensures
        r == military_time_spec(opt_str(locale)),
        ascii_country(opt_str(locale)) is Some ==> r == !twelve_hour_country(
            ascii_country(opt_str(locale))->0,
        ),
        locale is None ==> !r,
{
    match locale {
        None => false,
        Some(l) => match locale_country(l) {
            Some(c) => !is_twelve_hour_country(c.as_str()),
            None => false,
        },
    }
}

/// The default unit by country: for a locale whose country field reads
/// `c` once uppercased, Fahrenheit exactly when `c` is US, LR or MM, Celsius
/// for every other country; a locale without a readable country, or no
/// locale, keeps Fahrenheit.
pub proof fn lemma_fahrenheit_only_in_three_countries(l: Seq<char>)
    ensures
        locale_country_upper(l) matches Some(c) ==> (fahrenheit_spec(Some(l)) <==> (c == "US"@
            || c == "LR"@ || c == "MM"@)),
        locale_country_upper(l) is None ==> fahrenheit_spec(Some(l)),
        fahrenheit_spec(None),
{
}

/// The default clock by country: for a locale whose country field reads
/// `c` once uppercased, the 12-hour clock exactly when `c` is one of US, CA,
/// AU, NZ, PH, IN, PK, BD, MY, EG, SA, JO, MX, CO, the 24-hour clock for
/// every other country; a locale without a readable country, or no locale,
/// keeps the 12-hour clock.
pub proof fn lemma_twelve_hour_clock_countries(l: Seq<char>)
    ensures
        locale_country_upper(l) matches Some(c) ==> (!military_time_spec(Some(l)) <==> (c == "US"@
            || c == "CA"@ || c == "AU"@ || c == "NZ"@ || c == "PH"@ || c == "IN"@ || c == "PK"@
            || c == "BD"@ || c == "MY"@ || c == "EG"@ || c == "SA"@ || c == "JO"@ || c == "MX"@
            || c == "CO"@)),
        locale_country_upper(l) is None ==> !military_time_spec(Some(l)),
        !military_time_spec(None),
{
}

/// A locale variable's value, when it is set and not empty.
pub open spec fn set_value(v: Option<String>) -> Option<Seq<char>> {
    match v {
        Some(s) => if s@.len() > 0 { Some(s@) } else { None },
        None => None,
    }
}

/// The locale that decides a preference: the value of the category's own
/// variable (`LC_MEASUREMENT` or `LC_TIME`) when it is set and not empty,
/// else that of `LANG` under the same condition.
pub fn pick_locale(category: Option<String>, lang: Option<String>) -> (r: Option<String>)
    ensures
        opt_chars(r) == match set_value(category) {
            Some(c) => Some(c),
            None => set_value(lang),
        },
{
    if let Some(c) = &category {
        if c.as_str().unicode_len() > 0 {
            return category;
        }
    }
    match lang {
        Some(l) => if l.as_str().unicode_len() > 0 { Some(l) } else { None },
        None => None,
    }
}

/// Whether to show a 24-hour clock: the time applet's own setting when it
/// could be read, else what the locale (`LC_TIME`, else `LANG`) prefers.
pub fn military_time_from(applet_setting: Option<bool>, locale: Option<&str>) -> (r: bool)
    ensures
        r == match applet_setting {
            Some(v) => v,
            None => military_time_spec(opt_str(locale)),
        },
{
    match applet_setting {
        Some(v) => v,
        None => military_time_for_locale(locale),
    }
}

/// The clock and the unit a locale prefers depend on its country field
/// alone, uppercased: locales whose country fields uppercase alike get the
/// same answers, whatever their language, encoding or letter case.
pub proof fn lemma_locale_rules_follow_the_country(l1: Seq<char>, l2: Seq<char>)
    requires
        locale_country_upper(l1) == locale_country_upper(l2),
    ensures
        military_time_spec(Some(l1)) == military_time_spec(Some(l2)),
        fahrenheit_spec(Some(l1)) == fahrenheit_spec(Some(l2)),
{
}

// --- Loading the stored configuration ---

/// A step of loading the stored configuration.
#[derive(Debug, Clone, Copy, PartialEq, Eq, Structural)]
pub enum LoadStep {
    /// Open the store of schema `version` and read its entry.
    Read(u64),
    /// Open the store of the current schema: to write into it what a legacy
    /// schema gave (`migrated`), or to keep it for later saves of the
    /// defaults (`!migrated`).
    OpenCurrent { migrated: bool },
    /// Done: use what the last read gave. `save` says whether to write it to
    /// the current store first; `keep_store` whether the current store is
    /// kept for later saves.
    Use { save: bool, keep_store: bool },
    /// Done: nothing could be read; start from the defaults. `keep_store`
    /// says whether the current store is kept for later saves.
    Defaults { keep_store: bool },
}

/// What performing a step gave.
#[derive(Debug, Clone, Copy, PartialEq, Eq, Structural)]
pub enum LoadEvent {
    /// The store could not be opened.
    NoStore,
    /// The store opened but holds no saved entry: none of its fields could
    /// be read.
    Unreadable,
    /// The store opened and its entry was read whole.
    Complete,
    /// The store opened and only part of its entry was read; the missing
    /// fields took their defaults.
    Partial,
}

/// The oldest schema that can still be migrated.
pub const OLDEST_SCHEMA: u64 = 2;

/// The schema read after `v` gave nothing usable: the next older one, or,
/// below the oldest, the current store is opened for the defaults.
pub open spec fn after_legacy(v: u64) -> LoadStep {
    if v > OLDEST_SCHEMA { LoadStep::Read((v - 1) as u64) } else { LoadStep::OpenCurrent { migrated: false } }
}

/// The step after `step` gave `event`. The current schema is read first;
/// an entry found there, whole or in part, is used (a partial read is
/// written back so new fields keep their defaults). When its store does not
/// open or holds no entry, the legacy schemas are tried, newest first down
/// to the oldest: the first one read whole is migrated (written to the
/// current store, when that opens) and used. When none is, the defaults are
/// used, with the current store kept when it opens. Finished steps stay
/// finished.
pub open spec fn load_step_spec(step: LoadStep, event: LoadEvent) -> LoadStep {
    match step {
        LoadStep::Read(v) => if v >= CONFIG_VERSION {
            match event {
                LoadEvent::NoStore | LoadEvent::Unreadable => after_legacy(CONFIG_VERSION),
                LoadEvent::Complete => LoadStep::Use { save: false, keep_store: true },
                LoadEvent::Partial => LoadStep::Use { save: true, keep_store: true },
            }
        } else {
            match event {
                LoadEvent::Complete => LoadStep::OpenCurrent { migrated: true },
                _ => after_legacy(v),
            }
        },
        LoadStep::OpenCurrent { migrated } => match event {
            LoadEvent::NoStore => if migrated {
                LoadStep::Use { save: false, keep_store: false }
            } else {
                LoadStep::Defaults { keep_store: false }
            },
            _ => if migrated {
                LoadStep::Use { save: true, keep_store: true }
            } else {
                LoadStep::Defaults { keep_store: true }
            },
        },
        LoadStep::Use { save, keep_store } => LoadStep::Use { save, keep_store },
        LoadStep::Defaults { keep_store } => LoadStep::Defaults { keep_store },
    }
}

/// The first step of loading: read the current schema.
pub fn first_load_step() -> (r: LoadStep)
    ensures
        r == LoadStep::Read(CONFIG_VERSION),
{
    LoadStep::Read(CONFIG_VERSION)
}

fn legacy_next(v: u64) -> (r: LoadStep)
    ensures
        r == after_legacy(v),
{
    if v > OLDEST_SCHEMA { LoadStep::Read(v - 1) } else { LoadStep::OpenCurrent { migrated: false } }
}

/// The step after `step` gave `event` (see [`load_step_spec`]).
pub fn next_load_step(step: LoadStep, event: LoadEvent) -> (r: LoadStep)
    ensures
        r == load_step_spec(step, event),
{
    match step {
        LoadStep::Read(v) => {
            if v >= CONFIG_VERSION {
                match event {
                    LoadEvent::NoStore | LoadEvent::Unreadable => legacy_next(CONFIG_VERSION),
                    LoadEvent::Complete => LoadStep::Use { save: false, keep_store: true },
                    LoadEvent::Partial => LoadStep::Use { save: true, keep_store: true },
                }
            } else {
                match event {
                    LoadEvent::Complete => LoadStep::OpenCurrent { migrated: true },
                    _ => legacy_next(v),
                }
            }
        }
        LoadStep::OpenCurrent { migrated } => match event {
            LoadEvent::NoStore => if migrated {
                LoadStep::Use { save: false, keep_store: false }
            } else {
                LoadStep::Defaults { keep_store: false }
            },
            _ => if migrated {
                LoadStep::Use { save: true, keep_store: true }
            } else {
                LoadStep::Defaults { keep_store: true }
            },
        },
        LoadStep::Use { save, keep_store } => LoadStep::Use { save, keep_store },
        LoadStep::Defaults { keep_store } => LoadStep::Defaults { keep_store },
    }
}

/// Whether a step ends loading.
pub open spec fn load_finished(step: LoadStep) -> bool {
    step is Use || step is Defaults
}

/// A bound on the steps still to come before loading finishes.
pub open spec fn steps_left(step: LoadStep) -> nat {
    match step {
        LoadStep::Read(v) => if v >= CONFIG_VERSION { CONFIG_VERSION as nat + 2 } else { v as nat + 2 },
        LoadStep::OpenCurrent { .. } => 1,
        _ => 0,
    }
}

/// Every step that has not finished moves loading closer to its end, so
/// loading finishes after at most `CONFIG_VERSION + 2` steps, whatever the
/// stores give.
pub proof fn lemma_loading_finishes(step: LoadStep, event: LoadEvent)
    requires
        !load_finished(step),
    ensures
        steps_left(load_step_spec(step, event)) < steps_left(step),
{
}

/// An entry of the current schema read whole is used as it was saved,
/// without writing anything, and its store is kept.
pub proof fn lemma_saved_entry_is_used_unchanged()
    ensures
        load_step_spec(LoadStep::Read(CONFIG_VERSION), LoadEvent::Complete) == (LoadStep::Use {
            save: false,
            keep_store: true,
        }),
{
}

/// A current store that does not open, or opens without a saved entry,
/// sends loading on to the newest legacy schema; a legacy entry read whole
/// is then written to the current store whenever that store opens.
pub proof fn lemma_legacy_entries_are_migrated(v: u64, event: LoadEvent)
    requires
        OLDEST_SCHEMA <= v < CONFIG_VERSION,
        event != LoadEvent::NoStore,
    ensures
        load_step_spec(LoadStep::Read(CONFIG_VERSION), LoadEvent::NoStore) == LoadStep::Read(
            (CONFIG_VERSION - 1) as u64,
        ),
        load_step_spec(LoadStep::Read(CONFIG_VERSION), LoadEvent::Unreadable) == LoadStep::Read(
            (CONFIG_VERSION - 1) as u64,
        ),
        load_step_spec(load_step_spec(LoadStep::Read(v), LoadEvent::Complete), event) == (LoadStep::Use {
            save: true,
            keep_store: true,
        }),
{
}

} // verus!
