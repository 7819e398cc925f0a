//! The settings window: what it shows, and what a change in it sets off.

use vstd::prelude::*;
use crate::settings::{current, save, Saved, Settings, SettingsStore, FILTER_RANGE, OPACITY_RANGE};
use crate::settings;

verus! {

/// The settings window's label.
pub const WINDOW_LABEL: &'static str = "settings";

/// The event the overlay hears a change on.
pub const CHANGED_EVENT: &'static str = "settings://changed";

/// The window's width and height.
pub const SIZE: (u32, u32) = (900, 620);

/// The smallest the window may be dragged to. Below it a row's description no
/// longer fits beside its control.
pub const MINIMUM_SIZE: (u32, u32) = (720, 480);

/// What opening the window has done, in order.
#[derive(Debug, Clone, Copy, PartialEq, Eq, Structural)]
pub enum WindowStep {
    Show,
    Unminimize,
    Focus,
    Build,
}

/// What opening the window has done. One that is open comes to the front, and is
/// shown before it takes the focus: a minimised window takes it unseen.
pub fn open(already_open: bool) -> (steps: Vec<WindowStep>)
    ensures
        steps@ == if already_open {
            seq![WindowStep::Show, WindowStep::Unminimize, WindowStep::Focus]
        } else {
            seq![WindowStep::Build]
        },
{
    let mut steps: Vec<WindowStep> = Vec::new();
    if already_open {
        steps.push(WindowStep::Show);
        steps.push(WindowStep::Unminimize);
        steps.push(WindowStep::Focus);
        assert(steps@ =~= seq![WindowStep::Show, WindowStep::Unminimize, WindowStep::Focus]);
    } else {
        steps.push(WindowStep::Build);
        assert(steps@ =~= seq![WindowStep::Build]);
    }
    steps
}

/// What the window shows but cannot change.
#[derive(Debug, PartialEq, Eq)]
pub struct Facts {
    /// The summon shortcut, as the user reads it.
    pub summon_hotkey: String,
    /// The shortcut that copies a monitor, as the user reads it.
    pub grab_hotkey: String,
    /// Where Save writes when no folder was chosen; empty if that is not known.
    pub default_save_directory: String,
    /// Whether the application is registered to start with Windows, on this
    /// machine.
    pub autostart_registered: bool,
    /// The lowest and highest an area's opacity may be set to.
    pub opacity_range: (u8, u8),
    /// The lowest and highest a Filter area's strength may be set to.
    pub filter_range: (u8, u8),
    /// What following Windows' language comes to.
    pub system_language: String,
}

/// What the window shows but cannot change.
pub fn settings_facts(
    summon: &str,
    grab: &str,
    save_directory: Option<String>,
    autostart_registered: bool,
    system_language: &str,
) -> (facts: Facts)
    ensures
        facts.summon_hotkey@ == summon@,
        facts.grab_hotkey@ == grab@,
        facts.default_save_directory@ == match save_directory {
            Some(directory) => directory@,
            None => Seq::empty(),
        },
        facts.autostart_registered == autostart_registered,
        facts.opacity_range == OPACITY_RANGE,
        facts.filter_range == FILTER_RANGE,
        facts.system_language@ == system_language@,
{
    Facts {
        summon_hotkey: summon.to_owned(),
        grab_hotkey: grab.to_owned(),
        default_save_directory: match save_directory {
            Some(directory) => directory,
            None => String::new(),
        },
        autostart_registered,
        opacity_range: OPACITY_RANGE,
        filter_range: FILTER_RANGE,
        system_language: system_language.to_owned(),
    }
}

/// What a change sets off, once it is in force. Each is done whatever becomes of
/// the others.
#[derive(Debug)]
pub struct Written {
    pub saved: Saved,
    /// Whether to start with Windows, if that changed.
    pub autostart: Option<bool>,
    /// Whether to appear in screen recordings, if that changed.
    pub show_in_recordings: Option<bool>,
    /// What the overlay is told, whatever changed.
    pub changed: Settings,
}

/// A flag's new value, if it is new.
pub open spec fn flag_change(before: bool, after: bool) -> Option<bool> {
    if before != after {
        Some(after)
    } else {
        None
    }
}

/// A flag's new value, if it is new.
fn change(before: bool, after: bool) -> (changed: Option<bool>)
    ensures
        changed == flag_change(before, after),
{
    if before == after {
        None
    } else {
        Some(after)
    }
}

/// Puts settings in force, and then says what the change sets off. What Windows
/// has to be told is told only where it changed.
pub fn settings_write(store: &mut SettingsStore, settings: Settings, file: Option<String>) -> (
    written: Written)
    ensures
        final(store).choices() == settings::in_range(settings@),
        written.saved.publish == settings::published(settings::in_range(settings@)),
        match (file, written.saved.file) {
            (Some(file), Ok(path)) => path == file,
            (None, Err(error)) => error@
                == "APPDATA is not set, so there is nowhere to save the settings"@,
            _ => false,
        },
        written.autostart == flag_change(
            old(store).choices().start_with_windows,
            settings.start_with_windows,
        ),
        written.show_in_recordings == flag_change(
            old(store).choices().show_in_screen_recordings,
            settings.show_in_screen_recordings,
        ),
        written.changed@ == settings@,
{
    let previous = current(store);
    let changed = settings.clone();
    let autostart = change(previous.start_with_windows, settings.start_with_windows);
    let show_in_recordings = change(
        previous.show_in_screen_recordings,
        settings.show_in_screen_recordings,
    );
    let saved = save(store, settings, file);
    Written { saved, autostart, show_in_recordings, changed }
}

/// What went wrong in one of the things a change set off, if it did.
pub open spec fn trouble_of(outcome: Result<(), String>) -> Seq<Seq<char>> {
    match outcome {
        Ok(_) => Seq::empty(),
        Err(error) => seq![error@],
    }
}

/// What went wrong altogether, in the order in which it was done.
pub open spec fn troubles(
    file: Result<(), String>,
    autostart: Result<(), String>,
    recordings: Result<(), String>,
) -> Seq<Seq<char>> {
    trouble_of(file) + trouble_of(autostart) + trouble_of(recordings)
}

/// Keeps the first failure.
fn keep_first(first: Option<String>, outcome: Result<(), String>) -> (kept: Option<String>)
    ensures
        match (first, kept) {
            (Some(first), Some(kept)) => kept == first,
            (None, Some(kept)) => outcome is Err && kept == outcome->Err_0,
            (None, None) => outcome is Ok,
            _ => false,
        },
{
    match first {
        Some(first) => Some(first),
        None => match outcome {
            Ok(_) => None,
            Err(error) => Some(error),
        },
    }
}

/// What the page is answered: the first thing that went wrong.
pub fn first_failure(
    file: Result<(), String>,
    autostart: Result<(), String>,
    recordings: Result<(), String>,
) -> (answer: Result<(), String>)
    ensures
        match answer {
            Ok(_) => troubles(file, autostart, recordings).len() == 0,
            Err(error) => troubles(file, autostart, recordings).len() > 0 && troubles(
                file,
                autostart,
                recordings,
            )[0] == error@,
        },
{
    let first = keep_first(keep_first(keep_first(None, file), autostart), recordings);
    match first {
        Some(error) => Err(error),
        None => Ok(()),
    }
}

// ---------------------------------------------------------------------------
// Laws.
// ---------------------------------------------------------------------------

/// The window cannot be dragged to more than its size, and a row always has room
/// beside the sidebar.
pub proof fn law_the_window_keeps_room_for_its_layout()
    ensures
        MINIMUM_SIZE.0 < SIZE.0,
        MINIMUM_SIZE.1 < SIZE.1,
        MINIMUM_SIZE.0 > 196 * 2,
{
}

/// A change that leaves a flag as it was has Windows told nothing of it, and one
/// that moves it has Windows told its new value.
pub proof fn law_windows_is_told_of_changes_only(before: bool, after: bool)
    ensures
        flag_change(before, before) is None,
        before != after ==> flag_change(before, after) == Some(after),
{
}

/// Writing settings puts them in force as saving them does, and has Windows told exactly of
/// the flags that are new, with their new values; the overlay is told what was written.
pub proof fn law_what_writing_settings_sets_off(
    store: &mut SettingsStore,
    settings: Settings,
    file: Option<String>,
    written: Written,
    before: Settings,
    alone: &mut SettingsStore,
    saved: Saved,
)
    requires
        call_ensures(current, (&*old(store),), before),
        call_ensures(settings_write, (store, settings, file), written),
        *old(alone) == *old(store),
        call_ensures(save, (alone, settings, file), saved),
    ensures
        final(store).choices() == final(alone).choices(),
        written.saved.publish == saved.publish,
        written.saved.file is Ok <==> file is Some,
        written.saved.file is Ok ==> written.saved.file->Ok_0 == file->0,
        written.autostart is Some <==> settings.start_with_windows != before.start_with_windows,
        written.autostart is Some ==> written.autostart->0 == settings.start_with_windows,
        written.show_in_recordings is Some <==> settings.show_in_screen_recordings
            != before.show_in_screen_recordings,
        written.show_in_recordings is Some ==> written.show_in_recordings->0
            == settings.show_in_screen_recordings,
        written.changed@ == settings@,
{
    assert(before@ == old(store).choices());
    assert(before@.start_with_windows == before.start_with_windows);
    assert(before@.show_in_screen_recordings == before.show_in_screen_recordings);
}

/// The page is answered with the first thing that went wrong, in the order file, start with
/// Windows, recordings; and with success only where nothing did.
pub proof fn law_the_first_failure_is_the_answer(
    file: Result<(), String>,
    autostart: Result<(), String>,
    recordings: Result<(), String>,
    answer: Result<(), String>,
)
    requires
        call_ensures(first_failure, (file, autostart, recordings), answer),
    ensures
        answer is Ok <==> file is Ok && autostart is Ok && recordings is Ok,
        file is Err ==> answer is Err && answer->Err_0@ == file->Err_0@,
        file is Ok && autostart is Err ==> answer is Err && answer->Err_0@ == autostart->Err_0@,
        file is Ok && autostart is Ok && recordings is Err ==> answer is Err && answer->Err_0@
            == recordings->Err_0@,
{
    let all = troubles(file, autostart, recordings);
    if file is Err {
        assert(all[0] == file->Err_0@);
    } else if autostart is Err {
        assert(all[0] == autostart->Err_0@);
    } else if recordings is Err {
        assert(all[0] == recordings->Err_0@);
    } else {
        assert(all.len() == 0);
    }
}

/// The window that is open is shown, brought back from being minimised and focused, in this
/// order; one that is not is built.
pub proof fn law_opening_brings_the_window_up(already_open: bool, steps: Vec<WindowStep>)
    requires
        call_ensures(open, (already_open,), steps),
    ensures
        already_open ==> steps@ == seq![
            WindowStep::Show,
            WindowStep::Unminimize,
            WindowStep::Focus,
        ],
        !already_open ==> steps@ == seq![WindowStep::Build],
{
}

/// The window shows what it was given, each under its own name, and the ranges its sliders
/// have.
pub proof fn law_the_facts_are_what_was_given(
    summon: &str,
    grab: &str,
    save_directory: Option<String>,
    autostart_registered: bool,
    system_language: &str,
    facts: Facts,
)
    requires
        call_ensures(
            settings_facts,
            (summon, grab, save_directory, autostart_registered, system_language),
            facts,
        ),
    ensures
        facts.summon_hotkey@ == summon@,
        facts.grab_hotkey@ == grab@,
        save_directory is Some ==> facts.default_save_directory@ == save_directory->0@,
        save_directory is None ==> facts.default_save_directory@.len() == 0,
        facts.autostart_registered == autostart_registered,
        facts.opacity_range == (10u8, 100u8),
        facts.filter_range == (5u8, 60u8),
        facts.system_language@ == system_language@,
{
}

} // verus!
