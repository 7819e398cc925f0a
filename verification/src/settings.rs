//! Every setting the user can change, and the one place that says what was
//! chosen.
//!
//! The settings are held here as a snapshot. The two that a fast path reads, how
//! far a freeze reaches and how a held picture is encoded, are handed out again
//! on load and on every save, so the two places cannot disagree.

use vstd::prelude::*;

verus! {

/// Where an area's opacity may sit, as a percentage. The floor is not zero: an
/// invisible area has no chrome to grab, and could not be recovered.
pub const OPACITY_RANGE: (u8, u8) = (10, 100);

/// Where a Filter area's strength may sit, as a percentage. The ceiling leaves
/// what lies underneath readable.
pub const FILTER_RANGE: (u8, u8) = (5, 60);

/// Which state a launch by hand lands in.
#[derive(Debug, Clone, Copy, PartialEq, Eq, Structural)]
pub enum HandLaunchState {
    /// The overlay comes up in Placement.
    Placing,
    /// The overlay stays hidden, as a launch with Windows does.
    Hidden,
}

impl Default for HandLaunchState {
    fn default() -> (value: Self)
        ensures
            value == HandLaunchState::Placing,
    {
        HandLaunchState::Placing
    }
}

impl HandLaunchState {
    /// The word the settings page and the settings file have for the choice.
    pub open spec fn word_text(self) -> Seq<char> {
        match self {
            HandLaunchState::Placing => "placing"@,
            HandLaunchState::Hidden => "hidden"@,
        }
    }

    /// The word the settings page and the settings file have for the choice.
    pub fn word(self) -> (word: &'static str)
        ensures
            word@ == self.word_text(),
    {
        match self {
            HandLaunchState::Placing => "placing",
            HandLaunchState::Hidden => "hidden",
        }
    }
}

/// Which monitors a freeze covers.
#[derive(Debug, Clone, Copy, PartialEq, Eq, Structural)]
pub enum FreezeCovers {
    /// The monitor the cursor is on.
    ThisMonitor,
    /// Every monitor.
    EveryMonitor,
}

impl Default for FreezeCovers {
    fn default() -> (value: Self)
        ensures
            value == FreezeCovers::ThisMonitor,
    {
        FreezeCovers::ThisMonitor
    }
}

impl FreezeCovers {
    /// The word the settings page and the settings file have for the choice.
    pub open spec fn word_text(self) -> Seq<char> {
        match self {
            FreezeCovers::ThisMonitor => "this_monitor"@,
            FreezeCovers::EveryMonitor => "every_monitor"@,
        }
    }

    /// The word the settings page and the settings file have for the choice.
    pub fn word(self) -> (word: &'static str)
        ensures
            word@ == self.word_text(),
    {
        match self {
            FreezeCovers::ThisMonitor => "this_monitor",
            FreezeCovers::EveryMonitor => "every_monitor",
        }
    }
}

/// How a held picture is encoded for display.
#[derive(Debug, Clone, Copy, PartialEq, Eq, Structural)]
pub enum HeldPictureQuality {
    /// JPEG.
    Fast,
    /// PNG: lossless, and slower on a dense screen.
    Exact,
}

impl Default for HeldPictureQuality {
    fn default() -> (value: Self)
        ensures
            value == HeldPictureQuality::Fast,
    {
        HeldPictureQuality::Fast
    }
}

impl HeldPictureQuality {
    /// The word the settings page and the settings file have for the choice.
    pub open spec fn word_text(self) -> Seq<char> {
        match self {
            HeldPictureQuality::Fast => "fast"@,
            HeldPictureQuality::Exact => "exact"@,
        }
    }

    /// The word the settings page and the settings file have for the choice.
    pub fn word(self) -> (word: &'static str)
        ensures
            word@ == self.word_text(),
    {
        match self {
            HeldPictureQuality::Fast => "fast",
            HeldPictureQuality::Exact => "exact",
        }
    }
}

/// Which language the interface is shown in.
#[derive(Debug, Clone, Copy, PartialEq, Eq, Structural)]
pub enum Language {
    /// Whatever Windows' display language resolves to.
    System,
    /// English.
    English,
    /// German.
    German,
}

impl Default for Language {
    fn default() -> (value: Self)
        ensures
            value == Language::System,
    {
        Language::System
    }
}

impl Language {
    /// The word the settings page and the settings file have for the choice.
    pub open spec fn word_text(self) -> Seq<char> {
        match self {
            Language::System => "system"@,
            Language::English => "english"@,
            Language::German => "german"@,
        }
    }

    /// The word the settings page and the settings file have for the choice.
    pub fn word(self) -> (word: &'static str)
        ensures
            word@ == self.word_text(),
    {
        match self {
            Language::System => "system",
            Language::English => "english",
            Language::German => "german",
        }
    }
}

impl Language {
    /// The catalogue code this choice forces; none lets Windows decide.
    #[must_use]
    pub fn code(self) -> (code: Option<&'static str>)
        ensures
            match self {
                Language::System => code is None,
                Language::English => code is Some && code->0@ == "en"@,
                Language::German => code is Some && code->0@ == "de"@,
            },
    {
        match self {
            Language::System => None,
            Language::English => Some("en"),
            Language::German => Some("de"),
        }
    }
}

/// Everything the user can change.
#[derive(Debug, PartialEq, Eq)]
pub struct Settings {
    /// Whether the application starts with Windows.
    pub start_with_windows: bool,
    /// Which state a launch by hand lands in.
    pub hand_launch_state: HandLaunchState,
    /// Where Save writes; the folder for pictures if nothing is chosen.
    pub save_directory: Option<String>,
    /// Whether taking a screenshot leaves Placement.
    pub leave_placing_after_screenshot: bool,
    /// Whether a Screenshot area writes its picture to disk as it is drawn.
    pub auto_save_screenshots: bool,
    /// Which monitors a freeze covers.
    pub freeze_covers: FreezeCovers,
    /// How a held picture is encoded for display.
    pub held_picture_quality: HeldPictureQuality,
    /// Whether the overlay appears in screen recordings.
    pub show_in_screen_recordings: bool,
    /// How solid an area looks, as a percentage.
    pub area_opacity_percent: u8,
    /// How strong a Filter area's wash is, as a percentage.
    pub filter_strength_percent: u8,
    /// Which language the interface is shown in.
    pub language: Language,
}

/// What some settings say.
pub ghost struct Choices {
    pub start_with_windows: bool,
    pub hand_launch_state: HandLaunchState,
    pub save_directory: Option<Seq<char>>,
    pub leave_placing_after_screenshot: bool,
    pub auto_save_screenshots: bool,
    pub freeze_covers: FreezeCovers,
    pub held_picture_quality: HeldPictureQuality,
    pub show_in_screen_recordings: bool,
    pub area_opacity_percent: u8,
    pub filter_strength_percent: u8,
    pub language: Language,
}

impl View for Settings {
    type V = Choices;

    open spec fn view(&self) -> Choices {
        Choices {
            start_with_windows: self.start_with_windows,
            hand_launch_state: self.hand_launch_state,
            save_directory: match self.save_directory {
                Some(directory) => Some(directory@),
                None => None,
            },
            leave_placing_after_screenshot: self.leave_placing_after_screenshot,
            auto_save_screenshots: self.auto_save_screenshots,
            freeze_covers: self.freeze_covers,
            held_picture_quality: self.held_picture_quality,
            show_in_screen_recordings: self.show_in_screen_recordings,
            area_opacity_percent: self.area_opacity_percent,
            filter_strength_percent: self.filter_strength_percent,
            language: self.language,
        }
    }
}

/// What the settings are before anything was chosen.
pub open spec fn shipped() -> Choices {
    Choices {
        start_with_windows: false,
        hand_launch_state: HandLaunchState::Placing,
        save_directory: None,
        leave_placing_after_screenshot: false,
        auto_save_screenshots: false,
        freeze_covers: FreezeCovers::ThisMonitor,
        held_picture_quality: HeldPictureQuality::Fast,
        show_in_screen_recordings: false,
        area_opacity_percent: 40,
        filter_strength_percent: 16,
        language: Language::System,
    }
}

/// A percentage, brought to the nearer end of a range if it lies outside.
pub open spec fn nearest(value: u8, range: (u8, u8)) -> u8 {
    if value < range.0 {
        range.0
    } else if value > range.1 {
        range.1
    } else {
        value
    }
}

/// Settings with every value brought into its range.
pub open spec fn in_range(choices: Choices) -> Choices {
    Choices {
        area_opacity_percent: nearest(choices.area_opacity_percent, OPACITY_RANGE),
        filter_strength_percent: nearest(choices.filter_strength_percent, FILTER_RANGE),
        ..choices
    }
}

/// A percentage, brought to the nearer end of a range if it lies outside.
fn clamp(value: u8, range: (u8, u8)) -> (clamped: u8)
    ensures
        clamped == nearest(value, range),
{
    if value < range.0 {
        range.0
    } else if value > range.1 {
        range.1
    } else {
        value
    }
}

impl Default for Settings {
    fn default() -> (settings: Self)
        ensures
            settings@ == shipped(),
    {
        Settings {
            start_with_windows: false,
            hand_launch_state: HandLaunchState::Placing,
            save_directory: None,
            leave_placing_after_screenshot: false,
            auto_save_screenshots: false,
            freeze_covers: FreezeCovers::ThisMonitor,
            held_picture_quality: HeldPictureQuality::Fast,
            show_in_screen_recordings: false,
            area_opacity_percent: 40,
            filter_strength_percent: 16,
            language: Language::System,
        }
    }
}

impl Clone for Settings {
    fn clone(&self) -> (copy: Self)
        ensures
            copy@ == self@,
    {
        Settings {
            start_with_windows: self.start_with_windows,
            hand_launch_state: self.hand_launch_state,
            save_directory: match &self.save_directory {
                Some(directory) => Some(directory.clone()),
                None => None,
            },
            leave_placing_after_screenshot: self.leave_placing_after_screenshot,
            auto_save_screenshots: self.auto_save_screenshots,
            freeze_covers: self.freeze_covers,
            held_picture_quality: self.held_picture_quality,
            show_in_screen_recordings: self.show_in_screen_recordings,
            area_opacity_percent: self.area_opacity_percent,
            filter_strength_percent: self.filter_strength_percent,
            language: self.language,
        }
    }
}

impl Settings {
    /// Brings every value into the range that is accepted: to the nearer end
    /// rather than back to what was shipped.
    pub fn clamped(self) -> (settings: Self)
        ensures
            settings@ == in_range(self@),
    {
        let mut settings = self;
        settings.area_opacity_percent = clamp(settings.area_opacity_percent, OPACITY_RANGE);
        settings.filter_strength_percent = clamp(settings.filter_strength_percent, FILTER_RANGE);
        settings
    }
}

/// What the fast paths are told.
#[derive(Debug, Clone, Copy, PartialEq, Eq, Structural)]
pub struct Published {
    pub freeze_covers: FreezeCovers,
    pub held_picture_quality: HeldPictureQuality,
}

/// What the fast paths are told of some settings.
pub open spec fn published(choices: Choices) -> Published {
    Published {
        freeze_covers: choices.freeze_covers,
        held_picture_quality: choices.held_picture_quality,
    }
}

/// The settings that are in force. None are before they were loaded.
#[derive(Debug)]
pub struct SettingsStore {
    pub held: Option<Settings>,
}

impl SettingsStore {
    /// The settings in force: those that are held, or the shipped ones.
    pub open spec fn choices(self) -> Choices {
        match self.held {
            Some(settings) => settings@,
            None => shipped(),
        }
    }
}

impl Default for SettingsStore {
    fn default() -> (store: Self)
        ensures
            store.held is None,
    {
        SettingsStore { held: None }
    }
}

/// The settings as they stand.
#[must_use]
pub fn current(store: &SettingsStore) -> (settings: Settings)
    ensures
        settings@ == store.choices(),
{
    match &store.held {
        Some(settings) => settings.clone(),
        None => Settings::default(),
    }
}

/// Puts the settings in force and says what the fast paths are told.
fn hold(store: &mut SettingsStore, settings: Settings) -> (publish: Published)
    ensures
        final(store).held is Some,
        final(store).choices() == settings@,
        publish == published(settings@),
{
    let publish = Published {
        freeze_covers: settings.freeze_covers,
        held_picture_quality: settings.held_picture_quality,
    };
    store.held = Some(settings);
    publish
}

/// Puts the settings in force that were read from the settings file, or the
/// shipped ones where none could be.
pub fn init(store: &mut SettingsStore, loaded: Option<Settings>) -> (publish: Published)
    ensures
        final(store).held is Some,
        final(store).choices() == in_range(
            match loaded {
                Some(settings) => settings@,
                None => shipped(),
            },
        ),
        publish == published(final(store).choices()),
{
    let settings = match loaded {
        Some(settings) => settings,
        None => Settings::default(),
    };
    hold(store, settings.clamped())
}

/// What a save leads to.
#[derive(Debug)]
pub struct Saved {
    /// What the fast paths are told, whatever becomes of the file.
    pub publish: Published,
    /// The file the settings are written to, or why there is none.
    pub file: Result<String, String>,
}

/// Puts settings in force and says where they are written. They are in force for
/// this run even where they cannot be written.
pub fn save(store: &mut SettingsStore, settings: Settings, file: Option<String>) -> (saved: Saved)
    ensures
        final(store).held is Some,
        final(store).choices() == in_range(settings@),
        saved.publish == published(in_range(settings@)),
        match (file, saved.file) {
            (Some(file), Ok(path)) => path == file,
            (None, Err(error)) => error@
                == "APPDATA is not set, so there is nowhere to save the settings"@,
            _ => false,
        },
{
    let publish = hold(store, settings.clamped());
    let file = match file {
        Some(file) => Ok(file),
        None => Err("APPDATA is not set, so there is nowhere to save the settings".to_owned()),
    };
    Saved { publish, file }
}

// ---------------------------------------------------------------------------
// Laws.
// ---------------------------------------------------------------------------

/// Whatever the numbers were, they end up in their ranges, and an area is never
/// invisible.
pub proof fn law_every_number_ends_up_in_its_range(choices: Choices)
    ensures
        OPACITY_RANGE.0 <= in_range(choices).area_opacity_percent <= OPACITY_RANGE.1,
        FILTER_RANGE.0 <= in_range(choices).filter_strength_percent <= FILTER_RANGE.1,
        in_range(choices).area_opacity_percent > 0,
{
}

/// A setting that is in its range is left alone, and so is every setting that
/// has none.
pub proof fn law_what_is_in_range_is_kept(choices: Choices)
    requires
        OPACITY_RANGE.0 <= choices.area_opacity_percent <= OPACITY_RANGE.1,
        FILTER_RANGE.0 <= choices.filter_strength_percent <= FILTER_RANGE.1,
    ensures
        in_range(choices) == choices,
{
}

/// Bringing settings into range twice is bringing them once.
pub proof fn law_bringing_into_range_is_done_once(choices: Choices)
    ensures
        in_range(in_range(choices)) == in_range(choices),
{
}

/// No percentage lies nearer to what was asked for than the one that is held.
pub proof fn law_the_nearer_end_is_taken(value: u8, range: (u8, u8), other: u8)
    requires
        range.0 <= other <= range.1,
    ensures
        nearest(value, range) <= value ==> value - nearest(value, range) <= if other <= value {
            value - other
        } else {
            other - value
        },
        nearest(value, range) >= value ==> nearest(value, range) - value <= if other <= value {
            value - other
        } else {
            other - value
        },
{
}

/// The shipped settings are in range.
pub proof fn law_the_shipped_settings_are_in_range()
    ensures
        in_range(shipped()) == shipped(),
{
}

/// A word stands for one choice only.
pub proof fn law_words_are_distinct()
    ensures
        forall|a: HandLaunchState, b: HandLaunchState|
            #[trigger] a.word_text() == #[trigger] b.word_text() ==> a == b,
        forall|a: FreezeCovers, b: FreezeCovers|
            #[trigger] a.word_text() == #[trigger] b.word_text() ==> a == b,
        forall|a: HeldPictureQuality, b: HeldPictureQuality|
            #[trigger] a.word_text() == #[trigger] b.word_text() ==> a == b,
        forall|a: Language, b: Language|
            #[trigger] a.word_text() == #[trigger] b.word_text() ==> a == b,
{
    reveal_strlit("placing");
    reveal_strlit("hidden");
    reveal_strlit("this_monitor");
    reveal_strlit("every_monitor");
    reveal_strlit("fast");
    reveal_strlit("exact");
    reveal_strlit("system");
    reveal_strlit("english");
    reveal_strlit("german");
    assert("placing"@[0] == 'p' && "hidden"@[0] == 'h');
    assert("this_monitor"@[0] == 't' && "every_monitor"@[0] == 'e');
    assert("fast"@[0] == 'f' && "exact"@[0] == 'e');
    assert("system"@[0] == 's' && "english"@[0] == 'e' && "german"@[0] == 'g');
}

/// What was saved is what is in force: every choice as it was made, but for the two
/// percentages, which are brought to the nearest that is allowed.
pub proof fn law_what_is_saved_is_in_force(
    store: &mut SettingsStore,
    settings: Settings,
    file: Option<String>,
    saved: Saved,
    read: Settings,
)
    requires
        call_ensures(save, (store, settings, file), saved),
        call_ensures(current, (&*final(store),), read),
    ensures
        read.start_with_windows == settings.start_with_windows,
        read.hand_launch_state == settings.hand_launch_state,
        read.save_directory is Some <==> settings.save_directory is Some,
        read.save_directory is Some ==> read.save_directory->0@ == settings.save_directory->0@,
        read.leave_placing_after_screenshot == settings.leave_placing_after_screenshot,
        read.auto_save_screenshots == settings.auto_save_screenshots,
        read.freeze_covers == settings.freeze_covers,
        read.held_picture_quality == settings.held_picture_quality,
        read.show_in_screen_recordings == settings.show_in_screen_recordings,
        read.language == settings.language,
        10 <= settings.area_opacity_percent <= 100 ==> read.area_opacity_percent
            == settings.area_opacity_percent,
        settings.area_opacity_percent < 10 ==> read.area_opacity_percent == 10,
        settings.area_opacity_percent > 100 ==> read.area_opacity_percent == 100,
        5 <= settings.filter_strength_percent <= 60 ==> read.filter_strength_percent
            == settings.filter_strength_percent,
        settings.filter_strength_percent < 5 ==> read.filter_strength_percent == 5,
        settings.filter_strength_percent > 60 ==> read.filter_strength_percent == 60,
        saved.publish.freeze_covers == settings.freeze_covers,
        saved.publish.held_picture_quality == settings.held_picture_quality,
        file is Some ==> saved.file == Ok::<String, String>(file->0),
        file is None ==> (saved.file matches Err(error) && error@
            == "APPDATA is not set, so there is nowhere to save the settings"@),
{
    let before = settings@;
    assert(read@ == in_range(before));
    assert(read@.save_directory == before.save_directory);
    assert(read.save_directory is Some <==> read@.save_directory is Some);
}

/// What was loaded is in force as what is saved would be, and where nothing could be loaded
/// the shipped settings are.
pub proof fn law_what_is_loaded_is_in_force(
    store: &mut SettingsStore,
    loaded: Option<Settings>,
    publish: Published,
    other: &mut SettingsStore,
    settings: Settings,
    file: Option<String>,
    saved: Saved,
)
    requires
        call_ensures(init, (store, loaded), publish),
        loaded is Some ==> settings == loaded->0,
        loaded is None ==> call_ensures(Settings::default, (), settings),
        call_ensures(save, (other, settings, file), saved),
    ensures
        final(store).choices() == final(other).choices(),
        publish == saved.publish,
{
}

/// The shipped settings: nothing is done unasked, and an area is neither faint nor solid.
pub proof fn law_the_shipped_settings(
    store: SettingsStore,
    settings: Settings,
)
    requires
        store.held is None,
        call_ensures(current, (&store,), settings),
    ensures
        !settings.start_with_windows,
        settings.hand_launch_state == HandLaunchState::Placing,
        settings.save_directory is None,
        !settings.leave_placing_after_screenshot,
        !settings.auto_save_screenshots,
        settings.freeze_covers == FreezeCovers::ThisMonitor,
        settings.held_picture_quality == HeldPictureQuality::Fast,
        !settings.show_in_screen_recordings,
        settings.area_opacity_percent == 40,
        settings.filter_strength_percent == 16,
        settings.language == Language::System,
{
    assert(settings@ == shipped());
    assert(settings.save_directory is Some <==> settings@.save_directory is Some);
}

/// A choice of language forces the catalogue's code of that language, and following the
/// system forces none.
pub proof fn law_a_language_forces_its_code(language: Language, code: Option<&'static str>)
    requires
        call_ensures(Language::code, (language,), code),
    ensures
        language == Language::System <==> code is None,
        language == Language::English ==> code->0@ == "en"@,
        language == Language::German ==> code->0@ == "de"@,
{
}

/// The words the page and the file have for the choices are those of the choices.
pub proof fn law_a_choice_has_its_word(
    launch: HandLaunchState,
    launch_word: &'static str,
    covers: FreezeCovers,
    covers_word: &'static str,
    quality: HeldPictureQuality,
    quality_word: &'static str,
    language: Language,
    language_word: &'static str,
)
    requires
        call_ensures(HandLaunchState::word, (launch,), launch_word),
        call_ensures(FreezeCovers::word, (covers,), covers_word),
        call_ensures(HeldPictureQuality::word, (quality,), quality_word),
        call_ensures(Language::word, (language,), language_word),
    ensures
        launch_word@ == if launch == HandLaunchState::Placing {
            "placing"@
        } else {
            "hidden"@
        },
        covers_word@ == if covers == FreezeCovers::ThisMonitor {
            "this_monitor"@
        } else {
            "every_monitor"@
        },
        quality_word@ == if quality == HeldPictureQuality::Fast {
            "fast"@
        } else {
            "exact"@
        },
        language == Language::System ==> language_word@ == "system"@,
        language == Language::English ==> language_word@ == "english"@,
        language == Language::German ==> language_word@ == "german"@,
{
}

/// Settings that are brought into their ranges keep every choice, and each percentage is the
/// nearest that is allowed.
pub proof fn law_only_a_percentage_is_brought_into_range(settings: Settings, clamped: Settings)
    requires
        call_ensures(Settings::clamped, (settings,), clamped),
    ensures
        clamped.start_with_windows == settings.start_with_windows,
        clamped.hand_launch_state == settings.hand_launch_state,
        clamped.leave_placing_after_screenshot == settings.leave_placing_after_screenshot,
        clamped.auto_save_screenshots == settings.auto_save_screenshots,
        clamped.freeze_covers == settings.freeze_covers,
        clamped.held_picture_quality == settings.held_picture_quality,
        clamped.show_in_screen_recordings == settings.show_in_screen_recordings,
        clamped.language == settings.language,
        clamped.area_opacity_percent == if settings.area_opacity_percent < 10 {
            10
        } else if settings.area_opacity_percent > 100 {
            100
        } else {
            settings.area_opacity_percent
        },
        clamped.filter_strength_percent == if settings.filter_strength_percent < 5 {
            5
        } else if settings.filter_strength_percent > 60 {
            60
        } else {
            settings.filter_strength_percent
        },
{
    assert(clamped@ == in_range(settings@));
}

/// What each choice is until it is made.
pub proof fn law_the_choices_until_they_are_made(
    launch: HandLaunchState,
    covers: FreezeCovers,
    quality: HeldPictureQuality,
    language: Language,
    store: SettingsStore,
)
    requires
        call_ensures(HandLaunchState::default, (), launch),
        call_ensures(FreezeCovers::default, (), covers),
        call_ensures(HeldPictureQuality::default, (), quality),
        call_ensures(Language::default, (), language),
        call_ensures(SettingsStore::default, (), store),
    ensures
        launch == HandLaunchState::Placing,
        covers == FreezeCovers::ThisMonitor,
        quality == HeldPictureQuality::Fast,
        language == Language::System,
        store.held is None,
{
}

/// Once settings were saved they are held.
pub proof fn law_saved_settings_are_held(
    store: &mut SettingsStore,
    settings: Settings,
    file: Option<String>,
    saved: Saved,
)
    requires
        call_ensures(save, (store, settings, file), saved),
    ensures
        final(store).held is Some,
{
}

} // verus!
