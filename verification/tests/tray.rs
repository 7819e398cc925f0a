//! The tray.

use uptake::strings::{parse, Language, Strings};
use uptake::tray::{
    build, choice_note, icon_click, menu_choice, menu_items, report_failure, Build, TrayChoice,
    CLICK_NOTE, QUIT_ID, SETTINGS_ID, SHOW_ID, TOOLTIP,
};

fn strings() -> Strings {
    Strings {
        language: Language::English,
        table: parse(
            "{\"strings\": {\"tray.show\": {\"en\": \"Show UP-TAKE ({hotkey})\"}, \
             \"tray.settings\": {\"en\": \"Settings\"}, \"tray.quit\": {\"en\": \"Quit\"}, \
             \"tray.unavailable.title\": {\"en\": \"No tray\"}, \
             \"tray.unavailable.detail\": {\"en\": \"{error}. Press {hotkey}.\"}}}",
        ),
    }
}

#[test]
fn the_menu_ends_with_quit() {
    let items = menu_items(&strings(), "Win+Shift+U");
    let rows: Vec<(&str, &str)> =
        items.iter().map(|item| (item.id, item.label.as_str())).collect();
    assert_eq!(
        rows,
        vec![
            ("tray:show", "Show UP-TAKE (Win+Shift+U)"),
            ("tray:settings", "Settings"),
            ("tray:quit", "Quit"),
        ]
    );
    assert_eq!(TOOLTIP, "UP-TAKE");
}

#[test]
fn a_plain_id_of_another_menu_is_not_a_choice() {
    assert_eq!(menu_choice(SHOW_ID), Some(TrayChoice::Show));
    assert_eq!(menu_choice(SETTINGS_ID), Some(TrayChoice::Settings));
    assert_eq!(menu_choice(QUIT_ID), Some(TrayChoice::Quit));
    assert_eq!(menu_choice("quit"), None);
    assert_eq!(menu_choice(""), None);
}

#[test]
fn each_choice_is_noted() {
    assert_eq!(choice_note(TrayChoice::Show), "tray: Show chosen from the menu");
    assert_eq!(choice_note(TrayChoice::Settings), "tray: Settings chosen from the menu");
    assert_eq!(choice_note(TrayChoice::Quit), "tray: Quit chosen, exiting");
    assert_eq!(CLICK_NOTE, "tray: left click on the icon");
}

#[test]
fn only_a_left_click_as_it_completes_brings_the_overlay_up() {
    assert_eq!(icon_click(true, true), Some(TrayChoice::Show));
    assert_eq!(icon_click(true, false), None);
    assert_eq!(icon_click(false, true), None);
}

#[test]
fn a_missing_tray_says_why_and_how_to_leave() {
    let failure = report_failure(&strings(), "Win+Shift+U", "no icon");
    assert_eq!(failure.title, "No tray");
    assert_eq!(failure.detail, "no icon. Press Win+Shift+U.");
}

#[test]
fn building_takes_every_step_and_names_the_one_that_failed() {
    let mut step = Build::Icon;
    for expected in
        [Build::Show, Build::Settings, Build::Quit, Build::Menu, Build::Tray, Build::Done]
    {
        step = build(step, Ok(()));
        assert_eq!(step, expected);
    }
    assert_eq!(build(Build::Done, Err("late".to_string())), Build::Done);
    for (step, message) in [
        (Build::Icon, "no default window icon is configured"),
        (Build::Show, "Could not build the Show menu item: e"),
        (Build::Settings, "Could not build the Settings menu item: e"),
        (Build::Quit, "Could not build the Quit menu item: e"),
        (Build::Menu, "Could not build the tray menu: e"),
        (Build::Tray, "Could not create the tray icon: e"),
    ] {
        assert_eq!(build(step, Err("e".to_string())), Build::Failed(message.to_string()));
    }
}
