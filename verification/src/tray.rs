//! The tray icon: its menu, what choosing from it does, and what the user is
//! told if there is none.

use vstd::prelude::*;
use crate::strings::{fill, text, Strings, Text};
use crate::strings;
use crate::text::same_text;

verus! {

/// The menu's ids. They are the tray's own, because a choice from any menu of
/// the application is heard here, and told apart by its id alone.
pub const SHOW_ID: &'static str = "tray:show";

pub const SETTINGS_ID: &'static str = "tray:settings";

pub const QUIT_ID: &'static str = "tray:quit";

/// What the icon says when it is pointed at.
pub const TOOLTIP: &'static str = "UP-TAKE";

/// A row of the tray's menu.
#[derive(Debug, PartialEq, Eq)]
pub struct TrayItem {
    pub id: &'static str,
    pub label: String,
}

/// What a text says once its placeholders are filled.
pub open spec fn filled(
    strings: Strings,
    item: Text,
    values: Seq<(Seq<char>, Seq<char>)>,
) -> Seq<char> {
    strings::filled_from(
        strings::shown(strings.table.model(), strings.language, item),
        values,
        0,
    )
}

/// The tray's menu: Show, Settings, and Quit last.
pub fn menu_items(strings: &Strings, hotkey: &str) -> (items: Vec<TrayItem>)
    ensures
        items@.len() == 3,
        items@[0].id@ == "tray:show"@,
        items@[0].label@ == filled(*strings, Text::TrayShow, seq![("hotkey"@, hotkey@)]),
        items@[1].id@ == "tray:settings"@,
        items@[1].label@ == strings::shown(
            strings.table.model(),
            strings.language,
            Text::TraySettings,
        ),
        items@[2].id@ == "tray:quit"@,
        items@[2].label@ == strings::shown(
            strings.table.model(),
            strings.language,
            Text::TrayQuit,
        ),
{
    let values: [(&str, &str); 1] = [("hotkey", hotkey)];
    assert(strings::spoken(values@) =~= seq![("hotkey"@, hotkey@)]);
    let mut items: Vec<TrayItem> = Vec::new();
    items.push(TrayItem { id: SHOW_ID, label: fill(strings, Text::TrayShow, &values) });
    items.push(TrayItem { id: SETTINGS_ID, label: text(strings, Text::TraySettings).to_owned() });
    items.push(TrayItem { id: QUIT_ID, label: text(strings, Text::TrayQuit).to_owned() });
    items
}

/// What a click on the tray asks for.
#[derive(Debug, Clone, Copy, PartialEq, Eq, Structural)]
pub enum TrayChoice {
    /// Bring the overlay up.
    Show,
    /// Open the settings window.
    Settings,
    /// Leave the application.
    Quit,
}

/// The id of a choice.
pub open spec fn id_of(choice: TrayChoice) -> Seq<char> {
    match choice {
        TrayChoice::Show => "tray:show"@,
        TrayChoice::Settings => "tray:settings"@,
        TrayChoice::Quit => "tray:quit"@,
    }
}

/// What choosing a row asks for; nothing for a row of another menu.
pub fn menu_choice(id: &str) -> (choice: Option<TrayChoice>)
    ensures
        match choice {
            Some(choice) => id@ == id_of(choice),
            None => forall|choice: TrayChoice| #[trigger] id_of(choice) != id@,
        },
{
    if same_text(id, SHOW_ID) {
        Some(TrayChoice::Show)
    } else if same_text(id, SETTINGS_ID) {
        Some(TrayChoice::Settings)
    } else if same_text(id, QUIT_ID) {
        Some(TrayChoice::Quit)
    } else {
        None
    }
}

/// What the log says of a choice from the menu.
pub fn choice_note(choice: TrayChoice) -> (note: &'static str)
    ensures
        note@ == match choice {
            TrayChoice::Show => "tray: Show chosen from the menu"@,
            TrayChoice::Settings => "tray: Settings chosen from the menu"@,
            TrayChoice::Quit => "tray: Quit chosen, exiting"@,
        },
{
    match choice {
        TrayChoice::Show => "tray: Show chosen from the menu",
        TrayChoice::Settings => "tray: Settings chosen from the menu",
        TrayChoice::Quit => "tray: Quit chosen, exiting",
    }
}

/// What the log says of a click on the icon.
pub const CLICK_NOTE: &'static str = "tray: left click on the icon";

/// What a click on the icon asks for: the left button, as it is released.
pub fn icon_click(left: bool, released: bool) -> (choice: Option<TrayChoice>)
    ensures
        choice == if left && released {
            Some(TrayChoice::Show)
        } else {
            None
        },
{
    if left && released {
        Some(TrayChoice::Show)
    } else {
        None
    }
}

/// What the user is told where there is no tray.
#[derive(Debug, PartialEq, Eq)]
pub struct TrayFailure {
    pub title: String,
    pub detail: String,
}

/// What the user is told where there is no tray: why, and how to leave without
/// it.
pub fn report_failure(strings: &Strings, hotkey: &str, error: &str) -> (failure: TrayFailure)
    ensures
        failure.title@ == strings::shown(
            strings.table.model(),
            strings.language,
            Text::TrayUnavailableTitle,
        ),
        failure.detail@ == filled(
            *strings,
            Text::TrayUnavailableDetail,
            seq![("hotkey"@, hotkey@), ("error"@, error@)],
        ),
{
    let values: [(&str, &str); 2] = [("hotkey", hotkey), ("error", error)];
    assert(strings::spoken(values@) =~= seq![("hotkey"@, hotkey@), ("error"@, error@)]);
    TrayFailure {
        title: text(strings, Text::TrayUnavailableTitle).to_owned(),
        detail: fill(strings, Text::TrayUnavailableDetail, &values),
    }
}

// ---------------------------------------------------------------------------
// Building it.
// ---------------------------------------------------------------------------

/// What building the tray does next.
#[derive(Debug, PartialEq, Eq)]
pub enum Build {
    /// Get the window's icon.
    Icon,
    /// Make the Show row.
    Show,
    /// Make the Settings row.
    Settings,
    /// Make the Quit row.
    Quit,
    /// Make the menu of the three.
    Menu,
    /// Make the tray icon.
    Tray,
    /// There is a tray.
    Done,
    /// There is none, and why.
    Failed(String),
}

/// What is said of a step that failed.
pub open spec fn failed_text(step: Build, error: Seq<char>) -> Seq<char> {
    match step {
        Build::Icon => "no default window icon is configured"@,
        Build::Show => "Could not build the Show menu item: "@ + error,
        Build::Settings => "Could not build the Settings menu item: "@ + error,
        Build::Quit => "Could not build the Quit menu item: "@ + error,
        Build::Menu => "Could not build the tray menu: "@ + error,
        Build::Tray => "Could not create the tray icon: "@ + error,
        Build::Done | Build::Failed(_) => error,
    }
}

/// The step after one that worked.
pub open spec fn after_step(step: Build) -> Build {
    match step {
        Build::Icon => Build::Show,
        Build::Show => Build::Settings,
        Build::Settings => Build::Quit,
        Build::Quit => Build::Menu,
        Build::Menu => Build::Tray,
        Build::Tray => Build::Done,
        other => other,
    }
}

/// Whether building goes on.
pub open spec fn is_open(step: Build) -> bool {
    !(step is Done) && !(step is Failed)
}

/// A text with an error behind it.
fn with_error(what: &str, error: &str) -> (message: String)
    ensures
        message@ == what@ + error@,
{
    let mut message = what.to_owned();
    message.append(error);
    message
}

/// The next step of building the tray, given how one went.
pub fn build(step: Build, result: Result<(), String>) -> (next: Build)
    ensures
        match result {
            Ok(_) => next == after_step(step),
            Err(error) => if is_open(step) {
                next is Failed && next->Failed_0@ == failed_text(step, error@)
            } else {
                next == step
            },
        },
{
    match result {
        Ok(_) => match step {
            Build::Icon => Build::Show,
            Build::Show => Build::Settings,
            Build::Settings => Build::Quit,
            Build::Quit => Build::Menu,
            Build::Menu => Build::Tray,
            Build::Tray => Build::Done,
            other => other,
        },
        Err(error) => match step {
            Build::Icon => Build::Failed("no default window icon is configured".to_owned()),
            Build::Show => Build::Failed(
                with_error("Could not build the Show menu item: ", &error),
            ),
            Build::Settings => Build::Failed(
                with_error("Could not build the Settings menu item: ", &error),
            ),
            Build::Quit => Build::Failed(
                with_error("Could not build the Quit menu item: ", &error),
            ),
            Build::Menu => Build::Failed(with_error("Could not build the tray menu: ", &error)),
            Build::Tray => Build::Failed(with_error("Could not create the tray icon: ", &error)),
            other => other,
        },
    }
}

// ---------------------------------------------------------------------------
// Laws.
// ---------------------------------------------------------------------------

/// Ids are distinct, so no row is taken for another, and each begins with the
/// tray's own name, so no other menu's plain id is taken for one of them.
pub proof fn law_ids_are_the_trays_own()
    ensures
        forall|a: TrayChoice, b: TrayChoice|
            #[trigger] id_of(a) == #[trigger] id_of(b) ==> a == b,
        forall|a: TrayChoice|
            (#[trigger] id_of(a)).len() > 5 && id_of(a).take(5) == "tray:"@,
{
    reveal_strlit("tray:");
    reveal_strlit("tray:show");
    reveal_strlit("tray:settings");
    reveal_strlit("tray:quit");
    assert("tray:show"@.len() == 9 && "tray:settings"@.len() == 13 && "tray:quit"@.len() == 9);
    assert("tray:show"@[5] == 's' && "tray:quit"@[5] == 'q');
    assert("tray:show"@.take(5) =~= "tray:"@);
    assert("tray:settings"@.take(5) =~= "tray:"@);
    assert("tray:quit"@.take(5) =~= "tray:"@);
}

/// Where building has got to after some steps worked or did not; nowhere after
/// one that did not.
pub open spec fn reached(step: Build, worked: Seq<bool>) -> Option<Build>
    decreases worked.len(),
{
    if worked.len() == 0 || !is_open(step) {
        Some(step)
    } else if worked[0] {
        reached(after_step(step), worked.drop_first())
    } else {
        None
    }
}

/// There is a tray once all six steps have worked, and not otherwise.
pub proof fn law_a_tray_takes_every_step(worked: Seq<bool>)
    ensures
        (reached(Build::Icon, worked) == Some(Build::Done)) == (worked.len() >= 6 && forall|i: int|
            0 <= i < 6 ==> worked[i]),
{
    reveal_with_fuel(reached, 7);
    if reached(Build::Icon, worked) == Some(Build::Done) {
        assert(worked.len() >= 6);
        assert(worked[0] && worked[1] && worked[2] && worked[3] && worked[4] && worked[5]);
    }
}

/// Each row of the tray's menu asks for what it says: Show brings the overlay up, Settings
/// opens the settings, and Quit, the last, leaves.
pub proof fn law_a_tray_row_does_what_it_says(
    strings: &Strings,
    hotkey: &str,
    items: Vec<TrayItem>,
    show: Option<TrayChoice>,
    settings: Option<TrayChoice>,
    quit: Option<TrayChoice>,
    show_words: String,
    settings_words: &str,
    quit_words: &str,
    values: &[(&str, &str)],
)
    requires
        call_ensures(menu_items, (strings, hotkey), items),
        items@.len() == 3 ==> {
            &&& call_ensures(menu_choice, (items@[0].id,), show)
            &&& call_ensures(menu_choice, (items@[1].id,), settings)
            &&& call_ensures(menu_choice, (items@[2].id,), quit)
        },
        values@ == seq![("hotkey", hotkey)],
        call_ensures(fill, (strings, Text::TrayShow, values), show_words),
        call_ensures(text, (strings, Text::TraySettings), settings_words),
        call_ensures(text, (strings, Text::TrayQuit), quit_words),
    ensures
        items@.len() == 3,
        show == Some(TrayChoice::Show),
        settings == Some(TrayChoice::Settings),
        quit == Some(TrayChoice::Quit),
        items@[0].label@ == show_words@,
        items@[1].label@ == settings_words@,
        items@[2].label@ == quit_words@,
{
    law_ids_are_the_trays_own();
    assert(id_of(TrayChoice::Show) == "tray:show"@);
    assert(id_of(TrayChoice::Settings) == "tray:settings"@);
    assert(id_of(TrayChoice::Quit) == "tray:quit"@);
    assert(strings::spoken(values@) =~= seq![("hotkey"@, hotkey@)]);
}

/// A choice from another menu is none of the tray's, and each of the tray's has one id.
pub proof fn law_a_choice_is_known_by_its_id(id: &str, choice: Option<TrayChoice>)
    requires
        call_ensures(menu_choice, (id,), choice),
    ensures
        choice == Some(TrayChoice::Show) <==> id@ == "tray:show"@,
        choice == Some(TrayChoice::Settings) <==> id@ == "tray:settings"@,
        choice == Some(TrayChoice::Quit) <==> id@ == "tray:quit"@,
{
    law_ids_are_the_trays_own();
    assert(id_of(TrayChoice::Show) == "tray:show"@);
    assert(id_of(TrayChoice::Settings) == "tray:settings"@);
    assert(id_of(TrayChoice::Quit) == "tray:quit"@);
}

/// The icon brings the overlay up when the left button is released on it, and at no other
/// click.
pub proof fn law_the_icon_shows_on_a_left_release(
    left: bool,
    released: bool,
    choice: Option<TrayChoice>,
)
    requires
        call_ensures(icon_click, (left, released), choice),
    ensures
        choice == Some(TrayChoice::Show) <==> left && released,
        choice is None <==> !left || !released,
{
}

/// What the log says of a choice is which it was.
pub proof fn law_a_choice_is_logged_as_itself(choice: TrayChoice, note: &'static str)
    requires
        call_ensures(choice_note, (choice,), note),
    ensures
        choice == TrayChoice::Show ==> note@ == "tray: Show chosen from the menu"@,
        choice == TrayChoice::Settings ==> note@ == "tray: Settings chosen from the menu"@,
        choice == TrayChoice::Quit ==> note@ == "tray: Quit chosen, exiting"@,
{
}

/// Where there is no tray the user is told the title and the detail, with the shortcut and
/// the error in their places.
pub proof fn law_the_user_is_told_why_there_is_no_tray(
    strings: &Strings,
    hotkey: &str,
    error: &str,
    failure: TrayFailure,
    title: &str,
    detail: String,
    values: &[(&str, &str)],
)
    requires
        call_ensures(report_failure, (strings, hotkey, error), failure),
        call_ensures(text, (strings, Text::TrayUnavailableTitle), title),
        values@ == seq![("hotkey", hotkey), ("error", error)],
        call_ensures(fill, (strings, Text::TrayUnavailableDetail, values), detail),
    ensures
        failure.title@ == title@,
        failure.detail@ == detail@,
{
    assert(strings::spoken(values@) =~= seq![("hotkey"@, hotkey@), ("error"@, error@)]);
}

/// The tray is built from the icon, the three rows, the menu and the tray itself, in this
/// order, and is there once they all are.
pub proof fn law_the_steps_of_building_a_tray(
    show: Build,
    settings: Build,
    quit: Build,
    menu: Build,
    tray: Build,
    done: Build,
)
    requires
        call_ensures(build, (Build::Icon, Ok(())), show),
        call_ensures(build, (show, Ok(())), settings),
        call_ensures(build, (settings, Ok(())), quit),
        call_ensures(build, (quit, Ok(())), menu),
        call_ensures(build, (menu, Ok(())), tray),
        call_ensures(build, (tray, Ok(())), done),
    ensures
        show == Build::Show,
        settings == Build::Settings,
        quit == Build::Quit,
        menu == Build::Menu,
        tray == Build::Tray,
        done == Build::Done,
{
}

/// A step that fails ends the building with what could not be built, and why; what has
/// ended stays as it is.
pub proof fn law_a_step_that_fails_says_which(step: Build, error: String, next: Build)
    requires
        call_ensures(build, (step, Err(error)), next),
    ensures
        step == Build::Icon ==> next is Failed && next->Failed_0@
            == "no default window icon is configured"@,
        step == Build::Show ==> next is Failed && next->Failed_0@
            == "Could not build the Show menu item: "@ + error@,
        step == Build::Settings ==> next is Failed && next->Failed_0@
            == "Could not build the Settings menu item: "@ + error@,
        step == Build::Quit ==> next is Failed && next->Failed_0@
            == "Could not build the Quit menu item: "@ + error@,
        step == Build::Menu ==> next is Failed && next->Failed_0@
            == "Could not build the tray menu: "@ + error@,
        step == Build::Tray ==> next is Failed && next->Failed_0@
            == "Could not create the tray icon: "@ + error@,
        step is Done || step is Failed ==> next == step,
{
}

} // verus!
