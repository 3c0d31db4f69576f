use whether::config::{
    fahrenheit_for_locale, is_fahrenheit_country, is_twelve_hour_country, locale_country, military_time_for_locale, military_time_from, pick_locale,
    WhetherConfig,
};
use whether::types::SavedLocation;

#[test]
fn twelve_hour_countries_stay_on_twelve_hour() {
    for l in [
        "en_US.UTF-8",
        "en_CA",
        "en_AU.UTF-8",
        "es_MX",
        "en_IN",
        "es_CO",
    ] {
        assert!(!military_time_for_locale(Some(l)), "{l}");
    }
}

#[test]
fn other_countries_use_twenty_four_hour() {
    for l in [
        "sv_SE.UTF-8",
        "en_GB",
        "pt_BR.UTF-8",
        "pl_PL",
        "de_DE@euro",
        "ja_JP.UTF-8",
    ] {
        assert!(military_time_for_locale(Some(l)), "{l}");
    }
}

#[test]
fn country_code_is_case_insensitive() {
    assert!(!military_time_for_locale(Some("en_us.utf8")));
    assert!(military_time_for_locale(Some("sv_se")));
}

#[test]
fn missing_or_unparseable_locale_keeps_the_default() {
    assert!(!military_time_for_locale(None));
    assert!(!military_time_for_locale(Some("C")));
    assert!(!military_time_for_locale(Some("POSIX")));
    assert!(!military_time_for_locale(Some("en")));
    assert!(!military_time_for_locale(Some("en_")));
}

#[test]
fn remaining_twelve_hour_countries() {
    for l in ["en_NZ", "en_PH", "ur_PK", "bn_BD", "ms_MY", "ar_EG", "ar_SA", "ar_JO"] {
        assert!(!military_time_for_locale(Some(l)), "{l}");
    }
}

#[test]
fn country_field_cut_inside_a_character_keeps_the_default() {
    // "é" is two bytes: bytes 1..3 after '_' end inside the next character.
    assert!(!military_time_for_locale(Some("en_Xé")));
    // A two-byte character as the whole field is a country, just not a listed one.
    assert!(military_time_for_locale(Some("en_é")));
}

#[test]
fn only_the_first_underscore_counts() {
    assert!(!military_time_for_locale(Some("x_US_GB")));
    assert!(military_time_for_locale(Some("x_GB_US")));
}

#[test]
fn locale_country_is_uppercased_two_letters() {
    assert_eq!(locale_country("en_us.UTF-8"), Some("US".to_string()));
    assert_eq!(locale_country("en_"), None);
    assert_eq!(locale_country("en_U"), None);
    assert_eq!(locale_country("POSIX"), None);
}

#[test]
fn fahrenheit_countries() {
    assert!(fahrenheit_for_locale(Some("en_US.UTF-8")));
    assert!(fahrenheit_for_locale(Some("en_LR")));
    assert!(fahrenheit_for_locale(Some("my_MM")));
    assert!(!fahrenheit_for_locale(Some("en_GB.UTF-8")));
    assert!(!fahrenheit_for_locale(Some("de_de")));
}

#[test]
fn fahrenheit_is_the_default_without_a_country() {
    assert!(fahrenheit_for_locale(None));
    assert!(fahrenheit_for_locale(Some("C")));
    assert!(fahrenheit_for_locale(Some("en_")));
}

fn place(name: &str) -> SavedLocation {
    SavedLocation {
        name: name.to_string(),
        lat: "45.0".to_string(),
        lon: "-122.0".to_string(),
        cached_grid: None,
        country_code: Some("us".to_string()),
    }
}

#[test]
fn initial_config_has_no_locations() {
    let cfg = WhetherConfig::initial(false);
    assert!(!cfg.use_fahrenheit);
    assert!(cfg.locations.is_empty());
    assert_eq!(cfg.active_location_index, 0);
    assert_eq!(cfg.refresh_interval_minutes, 30);
    assert!(cfg.active_location().is_none());
}

#[test]
fn active_location_follows_the_index() {
    let mut cfg = WhetherConfig::initial(true);
    cfg.locations = vec![place("Portland, Oregon"), place("Denver, Colorado")];
    cfg.active_location_index = 1;
    assert_eq!(cfg.active_location().map(|l| l.name.as_str()), Some("Denver, Colorado"));
    cfg.active_location_index = 2;
    assert!(cfg.active_location().is_none());
}

use whether::config::{first_load_step, next_load_step, LoadEvent, LoadStep, CONFIG_VERSION};

#[test]
fn current_schema_is_used_when_it_holds_an_entry() {
    let s = first_load_step();
    assert_eq!(s, LoadStep::Read(CONFIG_VERSION));
    assert_eq!(next_load_step(s, LoadEvent::Complete), LoadStep::Use { save: false, keep_store: true });
    assert_eq!(next_load_step(s, LoadEvent::Partial), LoadStep::Use { save: true, keep_store: true });
}

#[test]
fn empty_current_store_goes_on_to_the_legacy_schemas() {
    let s = first_load_step();
    assert_eq!(next_load_step(s, LoadEvent::Unreadable), LoadStep::Read(4));
    assert_eq!(next_load_step(s, LoadEvent::NoStore), LoadStep::Read(4));
}

#[test]
fn legacy_schemas_are_tried_newest_first() {
    let mut s = first_load_step();
    let mut seen = vec![];
    while let LoadStep::Read(v) = s {
        seen.push(v);
        s = next_load_step(s, LoadEvent::NoStore);
    }
    assert_eq!(seen, vec![5, 4, 3, 2]);
    assert_eq!(s, LoadStep::OpenCurrent { migrated: false });
    assert_eq!(next_load_step(s, LoadEvent::NoStore), LoadStep::Defaults { keep_store: false });
    assert_eq!(next_load_step(s, LoadEvent::Unreadable), LoadStep::Defaults { keep_store: true });
    // A legacy entry that is unreadable or only partly readable is skipped.
    assert_eq!(next_load_step(LoadStep::Read(4), LoadEvent::Unreadable), LoadStep::Read(3));
    assert_eq!(next_load_step(LoadStep::Read(3), LoadEvent::Partial), LoadStep::Read(2));
    assert_eq!(
        next_load_step(LoadStep::Read(2), LoadEvent::Partial),
        LoadStep::OpenCurrent { migrated: false }
    );
}

#[test]
fn a_legacy_entry_read_whole_is_migrated() {
    let s = next_load_step(first_load_step(), LoadEvent::Unreadable);
    assert_eq!(next_load_step(s, LoadEvent::Complete), LoadStep::OpenCurrent { migrated: true });
    assert_eq!(next_load_step(LoadStep::Read(3), LoadEvent::Complete), LoadStep::OpenCurrent { migrated: true });
    assert_eq!(
        next_load_step(LoadStep::OpenCurrent { migrated: true }, LoadEvent::Complete),
        LoadStep::Use { save: true, keep_store: true }
    );
    assert_eq!(
        next_load_step(LoadStep::OpenCurrent { migrated: true }, LoadEvent::NoStore),
        LoadStep::Use { save: false, keep_store: false }
    );
    assert_eq!(
        next_load_step(LoadStep::Defaults { keep_store: true }, LoadEvent::Complete),
        LoadStep::Defaults { keep_store: true }
    );
}

#[test]
fn category_variable_wins_over_lang() {
    assert_eq!(
        pick_locale(Some("sv_SE.UTF-8".to_string()), Some("en_US.UTF-8".to_string())),
        Some("sv_SE.UTF-8".to_string())
    );
}

#[test]
fn empty_category_variable_falls_back_to_lang() {
    assert_eq!(
        pick_locale(Some(String::new()), Some("en_US.UTF-8".to_string())),
        Some("en_US.UTF-8".to_string())
    );
    assert_eq!(pick_locale(None, Some("de_DE".to_string())), Some("de_DE".to_string()));
    assert_eq!(pick_locale(None, Some(String::new())), None);
    assert_eq!(pick_locale(None, None), None);
}

#[test]
fn time_applet_setting_wins_over_locale() {
    assert!(military_time_from(Some(true), Some("en_US.UTF-8")));
    assert!(!military_time_from(Some(false), Some("de_DE.UTF-8")));
    assert!(military_time_from(None, Some("de_DE.UTF-8")));
    assert!(!military_time_from(None, None));
}

#[test]
fn country_lists() {
    assert!(is_fahrenheit_country("US"));
    assert!(is_fahrenheit_country("LR"));
    assert!(!is_fahrenheit_country("us"));
    assert!(!is_fahrenheit_country("DE"));
    assert!(is_twelve_hour_country("CO"));
    assert!(!is_twelve_hour_country("GB"));
}
