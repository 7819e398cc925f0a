//! The settings, how they are held, and how they reach their page.

use uptake::json::{member, Json};
use uptake::payload_keys::{assert_keys, assert_payload_coverage};
use uptake::settings::{
    current, init, save, FreezeCovers, HandLaunchState, HeldPictureQuality, Language, Published,
    Settings, SettingsStore, FILTER_RANGE, OPACITY_RANGE,
};

#[test]
fn the_defaults_are_the_inventorys_defaults() {
    let settings = Settings::default();
    assert!(!settings.start_with_windows, "off");
    assert_eq!(settings.hand_launch_state, HandLaunchState::Placing);
    assert_eq!(settings.save_directory, None, "None means Pictures\\UP-TAKE");
    assert!(!settings.leave_placing_after_screenshot, "off");
    assert!(!settings.auto_save_screenshots, "Save is explicit, so this is off");
    assert_eq!(settings.freeze_covers, FreezeCovers::ThisMonitor);
    assert_eq!(settings.held_picture_quality, HeldPictureQuality::Fast);
    assert!(!settings.show_in_screen_recordings, "off");
    assert_eq!(settings.area_opacity_percent, 40);
    assert_eq!(settings.filter_strength_percent, 16);
    assert_eq!(settings.language, Language::System);
}

#[test]
fn a_hand_edited_number_is_clamped_to_the_nearer_end_not_reset() {
    let clamped = Settings {
        area_opacity_percent: 250,
        filter_strength_percent: 0,
        ..Settings::default()
    }
    .clamped();
    assert_eq!(clamped.area_opacity_percent, OPACITY_RANGE.1);
    assert_eq!(clamped.filter_strength_percent, FILTER_RANGE.0);
}

#[test]
fn an_opacity_of_zero_cannot_be_stored_because_it_strands_the_area() {
    let clamped = Settings { area_opacity_percent: 0, ..Settings::default() }.clamped();
    assert_eq!(clamped.area_opacity_percent, OPACITY_RANGE.0);
    assert!(OPACITY_RANGE.0 > 0, "the floor must not be zero");
}

#[test]
fn the_ranges_hold_at_both_ends() {
    assert_eq!((OPACITY_RANGE, FILTER_RANGE), ((10, 100), (5, 60)));
    for (given, kept) in [(9, 10), (10, 10), (55, 55), (100, 100), (101, 100), (255, 100)] {
        let clamped = Settings { area_opacity_percent: given, ..Settings::default() }.clamped();
        assert_eq!(clamped.area_opacity_percent, kept);
        assert_eq!(clamped.clone().clamped(), clamped);
    }
    for (given, kept) in [(4, 5), (5, 5), (60, 60), (61, 60)] {
        let clamped = Settings { filter_strength_percent: given, ..Settings::default() }.clamped();
        assert_eq!(clamped.filter_strength_percent, kept);
    }
    assert_eq!(Settings::default().clamped(), Settings::default());
}

#[test]
fn a_language_choice_forces_a_code_and_system_does_not() {
    assert_eq!(Language::System.code(), None);
    assert_eq!(Language::English.code(), Some("en"));
    assert_eq!(Language::German.code(), Some("de"));
}

#[test]
fn the_settings_reach_the_window_under_the_keys_it_reads() {
    let verdict = assert_keys(
        "Settings",
        &Settings::default().to_json(),
        &[
            "start_with_windows",
            "hand_launch_state",
            "save_directory",
            "leave_placing_after_screenshot",
            "auto_save_screenshots",
            "freeze_covers",
            "held_picture_quality",
            "show_in_screen_recordings",
            "area_opacity_percent",
            "filter_strength_percent",
            "language",
        ],
    );
    assert_eq!(verdict, Ok(()));
}

#[test]
fn every_enum_reaches_the_window_as_the_word_the_window_matches_on() {
    assert_eq!(FreezeCovers::ThisMonitor.word(), "this_monitor");
    assert_eq!(FreezeCovers::EveryMonitor.word(), "every_monitor");
    assert_eq!(HeldPictureQuality::Fast.word(), "fast");
    assert_eq!(HeldPictureQuality::Exact.word(), "exact");
    assert_eq!(HandLaunchState::Placing.word(), "placing");
    assert_eq!(HandLaunchState::Hidden.word(), "hidden");
    assert_eq!(Language::System.word(), "system");
    assert_eq!(Language::English.word(), "english");
    assert_eq!(Language::German.word(), "german");
    let document = Settings {
        language: Language::German,
        save_directory: Some("D:\\shots".to_string()),
        ..Settings::default()
    }
    .to_json();
    let text = |words: &str| Json::Text(words.to_string());
    assert_eq!(member(&document, "freeze_covers"), Some(&text("this_monitor")));
    assert_eq!(member(&document, "held_picture_quality"), Some(&text("fast")));
    assert_eq!(member(&document, "hand_launch_state"), Some(&text("placing")));
    assert_eq!(member(&document, "language"), Some(&text("german")));
    assert_eq!(member(&document, "save_directory"), Some(&text("D:\\shots")));
    assert_eq!(
        member(&document, "area_opacity_percent"),
        Some(&Json::Number("40".to_string()))
    );
    assert_eq!(
        member(&Settings::default().to_json(), "save_directory"),
        Some(&Json::Null)
    );
}

#[test]
fn settings_no_payload_in_this_module_escapes_the_key_table() {
    let reason = "a field of Settings, covered by its key table and its wire-name test";
    let source = "#[derive(Debug, Clone, Copy, PartialEq, Eq, Serialize, Deserialize, Default)]\n\
                  #[serde(rename_all = \"snake_case\")]\npub enum HandLaunchState {\n    Placing,\n}\n\
                  #[derive(Debug, Serialize, Deserialize)]\npub enum FreezeCovers {\n    ThisMonitor,\n}\n\
                  #[derive(Debug, Serialize, Deserialize)]\npub enum HeldPictureQuality {\n    Fast,\n}\n\
                  #[derive(Debug, Serialize, Deserialize)]\npub enum Language {\n    System,\n}\n\
                  #[derive(Debug, Clone, PartialEq, Eq, Serialize, Deserialize)]\n\
                  #[serde(default)]\npub struct Settings {\n    pub start_with_windows: bool,\n}\n";
    let verdict = assert_payload_coverage(
        "settings.rs",
        source,
        &["Settings"],
        &[
            ("HandLaunchState", reason),
            ("FreezeCovers", reason),
            ("HeldPictureQuality", reason),
            ("Language", reason),
        ],
    );
    assert_eq!(verdict, Ok(()));
}

#[test]
fn nothing_loaded_is_the_shipped_settings() {
    let mut store = SettingsStore::default();
    assert_eq!(current(&store), Settings::default());
    let published = init(&mut store, None);
    assert_eq!(current(&store), Settings::default());
    assert_eq!(
        published,
        Published {
            freeze_covers: FreezeCovers::ThisMonitor,
            held_picture_quality: HeldPictureQuality::Fast,
        }
    );
}

#[test]
fn what_is_loaded_is_brought_into_range_and_published() {
    let mut store = SettingsStore::default();
    let published = init(
        &mut store,
        Some(Settings {
            area_opacity_percent: 200,
            freeze_covers: FreezeCovers::EveryMonitor,
            held_picture_quality: HeldPictureQuality::Exact,
            ..Settings::default()
        }),
    );
    assert_eq!(current(&store).area_opacity_percent, 100);
    assert_eq!(published.freeze_covers, FreezeCovers::EveryMonitor);
    assert_eq!(published.held_picture_quality, HeldPictureQuality::Exact);
}

#[test]
fn a_save_takes_effect_even_where_it_cannot_be_written() {
    let mut store = SettingsStore::default();
    let wanted = Settings { filter_strength_percent: 99, ..Settings::default() };
    let saved = save(&mut store, wanted.clone(), None);
    assert_eq!(
        saved.file,
        Err("APPDATA is not set, so there is nowhere to save the settings".to_string())
    );
    assert_eq!(current(&store).filter_strength_percent, 60);

    let saved = save(&mut store, wanted, Some("C:\\config.toml".to_string()));
    assert_eq!(saved.file, Ok("C:\\config.toml".to_string()));
    assert_eq!(saved.publish.freeze_covers, FreezeCovers::ThisMonitor);
}
