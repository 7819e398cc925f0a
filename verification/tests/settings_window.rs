//! The settings window.

use uptake::json::{member, Json};
use uptake::overlay;
use uptake::payload_keys::{assert_keys, assert_payload_coverage};
use uptake::settings::{current, Settings, SettingsStore};
use uptake::settings_window::{
    first_failure, open, settings_facts, settings_write, Facts, WindowStep, CHANGED_EVENT,
    MINIMUM_SIZE, SIZE, WINDOW_LABEL,
};

#[test]
fn the_window_is_not_the_overlay() {
    assert_ne!(WINDOW_LABEL, overlay::WINDOW_LABEL);
    assert_eq!(CHANGED_EVENT, "settings://changed");
}

#[test]
fn the_window_cannot_be_dragged_smaller_than_its_layout() {
    assert!(MINIMUM_SIZE.0 < SIZE.0 && MINIMUM_SIZE.1 < SIZE.1);
    assert!(f64::from(MINIMUM_SIZE.0) > 196.0 * 2.0);
    assert_eq!((SIZE, MINIMUM_SIZE), ((900, 620), (720, 480)));
}

#[test]
fn the_facts_reach_the_window_under_the_keys_it_reads() {
    let facts = Facts {
        summon_hotkey: "Win+Shift+U".to_string(),
        grab_hotkey: "Win+Shift+G".to_string(),
        default_save_directory: r"C:\Users\someone\Pictures\UP-TAKE".to_string(),
        autostart_registered: false,
        opacity_range: (10, 100),
        filter_range: (5, 60),
        system_language: "en".to_string(),
    };
    let verdict = assert_keys(
        "Facts",
        &facts.to_json(),
        &[
            "summon_hotkey",
            "grab_hotkey",
            "default_save_directory",
            "autostart_registered",
            "opacity_range",
            "filter_range",
            "system_language",
        ],
    );
    assert_eq!(verdict, Ok(()));
    assert_eq!(
        member(&facts.to_json(), "opacity_range"),
        Some(&Json::List(vec![
            Json::Number("10".to_string()),
            Json::Number("100".to_string()),
        ]))
    );
}

#[test]
fn settings_window_no_payload_in_this_module_escapes_the_key_table() {
    let source = "#[derive(Debug, Clone, Serialize)]\npub struct Facts {\n    pub summon_hotkey: String,\n}\n";
    assert_eq!(
        assert_payload_coverage("settings_window.rs", source, &["Facts"], &[]),
        Ok(())
    );
}

#[test]
fn the_facts_are_what_was_found_out() {
    let facts = settings_facts("Win+Shift+U", "Win+Shift+G", None, true, "de");
    assert_eq!(
        facts,
        Facts {
            summon_hotkey: "Win+Shift+U".to_string(),
            grab_hotkey: "Win+Shift+G".to_string(),
            default_save_directory: String::new(),
            autostart_registered: true,
            opacity_range: (10, 100),
            filter_range: (5, 60),
            system_language: "de".to_string(),
        }
    );
    let facts = settings_facts("a", "b", Some("D:\\shots".to_string()), false, "en");
    assert_eq!(facts.default_save_directory, "D:\\shots");
}

#[test]
fn an_open_window_comes_to_the_front() {
    assert_eq!(open(true), vec![WindowStep::Show, WindowStep::Unminimize, WindowStep::Focus]);
    assert_eq!(open(false), vec![WindowStep::Build]);
}

#[test]
fn windows_is_told_only_of_what_changed() {
    let mut store = SettingsStore::default();
    let wanted = Settings { start_with_windows: true, area_opacity_percent: 1, ..Settings::default() };
    let written = settings_write(&mut store, wanted.clone(), None);
    assert_eq!(written.autostart, Some(true));
    assert_eq!(written.show_in_recordings, None);
    assert_eq!(written.changed, wanted, "the overlay is told what was sent");
    assert!(written.saved.file.is_err());
    assert_eq!(current(&store).area_opacity_percent, 10);

    let written = settings_write(&mut store, wanted.clone(), Some("config.toml".to_string()));
    assert_eq!((written.autostart, written.show_in_recordings), (None, None));
    assert_eq!(written.saved.file, Ok("config.toml".to_string()));

    let back = Settings { show_in_screen_recordings: true, ..Settings::default() };
    let written = settings_write(&mut store, back, None);
    assert_eq!((written.autostart, written.show_in_recordings), (Some(false), Some(true)));
}

#[test]
fn the_first_failure_is_the_answer() {
    let bad = |what: &str| Err(what.to_string());
    assert_eq!(first_failure(Ok(()), Ok(()), Ok(())), Ok(()));
    assert_eq!(first_failure(bad("file"), bad("key"), bad("affinity")), bad("file"));
    assert_eq!(first_failure(Ok(()), bad("key"), bad("affinity")), bad("key"));
    assert_eq!(first_failure(Ok(()), Ok(()), bad("affinity")), bad("affinity"));
    assert_eq!(first_failure(bad("file"), Ok(()), Ok(())), bad("file"));
}
