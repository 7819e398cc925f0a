//! Every word the program shows, in the language the user reads.
//!
//! The words live in a catalogue, one entry per text with its languages side by
//! side. A lookup never fails: a text the catalogue does not have in the
//! language is shown in English, and one it does not have at all as its key.

use vstd::prelude::*;
use crate::json::{member, read_json, Json, JsonModel};
use crate::json;
use crate::search;
use crate::text::{chars_of, same_text, text_of};

verus! {

/// The variable that forces a language in a debug build.
pub const DEV_VAR: &'static str = "UPTAKE_DEV_LANGUAGE";

/// A language the program has.
#[derive(Debug, Clone, Copy, PartialEq, Eq, Structural)]
pub enum Language {
    /// The source language, and the one for every other locale.
    English,
    /// For every German locale.
    German,
}

/// The code the catalogue uses for a language.
pub open spec fn code_of(language: Language) -> &'static str {
    match language {
        Language::English => "en",
        Language::German => "de",
    }
}

impl Language {
    /// Every language.
    pub fn all() -> (languages: [Language; 2])
        ensures
            languages@ == seq![Language::English, Language::German],
    {
        [Language::English, Language::German]
    }

    /// The code the catalogue and the page use.
    #[must_use]
    pub fn code(self) -> (code: &'static str)
        ensures
            code == code_of(self),
    {
        match self {
            Language::English => "en",
            Language::German => "de",
        }
    }

    /// The language a code names, if the program has it.
    pub fn from_code(code: &str) -> (language: Option<Self>)
        ensures
            match language {
                Some(language) => code@ == code_of(language)@,
                None => code@ != "en"@ && code@ != "de"@,
            },
    {
        if same_text(code, "en") {
            Some(Language::English)
        } else if same_text(code, "de") {
            Some(Language::German)
        } else {
            None
        }
    }

    /// The language for a Windows language identifier: its low ten bits are the
    /// primary language, and 7 there is German, whatever the country.
    #[must_use]
    pub fn from_langid(id: u16) -> (language: Self)
        ensures
            language == if id % 1024 == 7 {
                Language::German
            } else {
                Language::English
            },
    {
        assert(id & 0x03ff == id % 1024) by (bit_vector);
        if id & 0x03ff == 0x07 {
            Language::German
        } else {
            Language::English
        }
    }
}

/// The language for what is forced and for the system: the one that is forced, if
/// the program has it, and else the system's.
pub open spec fn detected(forced: Option<&str>, langid: u16) -> Language {
    if forced is Some && forced->0@ == code_of(Language::English)@ {
        Language::English
    } else if forced is Some && forced->0@ == code_of(Language::German)@ {
        Language::German
    } else if langid % 1024 == 7 {
        Language::German
    } else {
        Language::English
    }
}

/// The language for what is forced and for the system: the one that is forced, if
/// the program has it, and else the system's.
fn detect(forced: Option<&str>, langid: u16) -> (language: Language)
    ensures
        language == detected(forced, langid),
{
    proof {
        law_codes_are_distinct();
    }
    if let Some(code) = forced {
        if let Some(language) = Language::from_code(code) {
            return language;
        }
    }
    Language::from_langid(langid)
}

/// The language shown: the one that is settled, and where none is, the one that
/// is found.
pub open spec fn settled_on(settled: Option<Language>, found: Language) -> Language {
    match settled {
        Some(language) => language,
        None => found,
    }
}

/// The language shown, decided once: what is settled stays, whatever is forced or
/// the system has become since.
pub fn language(settled: &mut Option<Language>, forced: Option<&str>, langid: u16) -> (language:
    Language)
    ensures
        language == settled_on(*old(settled), detected(forced, langid)),
        *final(settled) == Some(language),
        *old(settled) is Some ==> *final(settled) == *old(settled),
{
    match *settled {
        Some(language) => language,
        None => {
            let found = detect(forced, langid);
            *settled = Some(found);
            found
        },
    }
}

/// The languages have different codes.
pub proof fn law_codes_are_distinct()
    ensures
        code_of(Language::English)@ != code_of(Language::German)@,
{
    reveal_strlit("en");
    reveal_strlit("de");
    assert("en"@[0] != "de"@[0]);
}

/// A text the program shows.
#[derive(Debug, Clone, Copy, PartialEq, Eq, Structural)]
pub enum Text {
    /// Area menu: copy a Screenshot area's capture.
    MenuCopy,
    /// Area menu: save a Screenshot area's capture to a file.
    MenuSaveImage,
    /// Area menu: the row that opens the type list.
    MenuAreaType,
    /// Type list: convert to a Default area.
    MenuTypeDefault,
    /// Type list: convert to a Screenshot area.
    MenuTypeScreenshot,
    /// Type list: convert to a Filter area.
    MenuTypeFilter,
    /// Type list: convert to an Upscale area.
    MenuTypeUpscale,
    /// Type list: convert to an OCR area.
    MenuTypeOcr,
    /// Area menu: the row that opens the depth list.
    MenuDepth,
    /// Depth list: always above other areas.
    MenuDepthFront,
    /// Depth list: stacked automatically.
    MenuDepthAuto,
    /// Depth list: always below other areas.
    MenuDepthBack,
    /// Area menu: let clicks fall through the area.
    MenuClickThrough,
    /// Area menu: remove the area.
    MenuDismiss,
    /// Tray menu: show the overlay. `{hotkey}` is the summon shortcut.
    TrayShow,
    /// Tray menu: open the settings window.
    TraySettings,
    /// Tray menu: quit UP-TAKE.
    TrayQuit,
    /// Dialog title when the tray icon could not be created.
    TrayUnavailableTitle,
    /// Dialog text when the tray icon could not be created. `{hotkey}`, `{error}`.
    TrayUnavailableDetail,
    /// Dialog title when a global shortcut could not be registered.
    HotkeyUnavailableTitle,
    /// Another application holds the shortcut. `{label}`.
    HotkeyTaken,
    /// Windows refused the shortcut for another reason. `{label}`, `{error}`.
    HotkeyRefused,
    /// Dialog title: a Copy or a monitor grab failed.
    OutputCopyTitle,
    /// Dialog title: a Save failed.
    OutputSaveTitle,
    /// Dialog title: an area did not receive its capture.
    OutputCaptureTitle,
    /// What survived a failed Copy or grab: the clipboard.
    OutputClipboardUnchanged,
    /// What survived a failed Save: no file was touched.
    OutputNothingWritten,
    /// What survived a failed capture: the area as it was.
    OutputAreaUnchanged,
    /// Dialog text for a failed action. `{reassurance}`, `{reason}`.
    OutputFailed,
    /// Dialog title: OCR read the area and the text did not reach the clipboard.
    OcrCopyTitle,
    /// Dialog text for the same. `{reason}`.
    OcrCopyDetail,
    /// The title of the settings window.
    SettingsTitle,
}

/// A text's key in the catalogue.
pub open spec fn key_of(text: Text) -> &'static str {
    match text {
        Text::MenuCopy => "menu.copy",
        Text::MenuSaveImage => "menu.save_image",
        Text::MenuAreaType => "menu.area_type",
        Text::MenuTypeDefault => "menu.type.default",
        Text::MenuTypeScreenshot => "menu.type.screenshot",
        Text::MenuTypeFilter => "menu.type.filter",
        Text::MenuTypeUpscale => "menu.type.upscale",
        Text::MenuTypeOcr => "menu.type.ocr",
        Text::MenuDepth => "menu.depth",
        Text::MenuDepthFront => "menu.depth.front",
        Text::MenuDepthAuto => "menu.depth.auto",
        Text::MenuDepthBack => "menu.depth.back",
        Text::MenuClickThrough => "menu.click_through",
        Text::MenuDismiss => "menu.dismiss",
        Text::TrayShow => "tray.show",
        Text::TraySettings => "tray.settings",
        Text::TrayQuit => "tray.quit",
        Text::TrayUnavailableTitle => "tray.unavailable.title",
        Text::TrayUnavailableDetail => "tray.unavailable.detail",
        Text::HotkeyUnavailableTitle => "hotkey.unavailable.title",
        Text::HotkeyTaken => "hotkey.taken",
        Text::HotkeyRefused => "hotkey.refused",
        Text::OutputCopyTitle => "output.copy.title",
        Text::OutputSaveTitle => "output.save.title",
        Text::OutputCaptureTitle => "output.capture.title",
        Text::OutputClipboardUnchanged => "output.clipboard_unchanged",
        Text::OutputNothingWritten => "output.nothing_written",
        Text::OutputAreaUnchanged => "output.area_unchanged",
        Text::OutputFailed => "output.failed",
        Text::OcrCopyTitle => "output.ocr_copy.title",
        Text::OcrCopyDetail => "output.ocr_copy.detail",
        Text::SettingsTitle => "settings.title",
    }
}

/// Every text.
pub open spec fn all_texts() -> Seq<Text> {
    seq![
        Text::MenuCopy,
        Text::MenuSaveImage,
        Text::MenuAreaType,
        Text::MenuTypeDefault,
        Text::MenuTypeScreenshot,
        Text::MenuTypeFilter,
        Text::MenuTypeUpscale,
        Text::MenuTypeOcr,
        Text::MenuDepth,
        Text::MenuDepthFront,
        Text::MenuDepthAuto,
        Text::MenuDepthBack,
        Text::MenuClickThrough,
        Text::MenuDismiss,
        Text::TrayShow,
        Text::TraySettings,
        Text::TrayQuit,
        Text::TrayUnavailableTitle,
        Text::TrayUnavailableDetail,
        Text::HotkeyUnavailableTitle,
        Text::HotkeyTaken,
        Text::HotkeyRefused,
        Text::OutputCopyTitle,
        Text::OutputSaveTitle,
        Text::OutputCaptureTitle,
        Text::OutputClipboardUnchanged,
        Text::OutputNothingWritten,
        Text::OutputAreaUnchanged,
        Text::OutputFailed,
        Text::OcrCopyTitle,
        Text::OcrCopyDetail,
        Text::SettingsTitle,
    ]
}

impl Text {
    /// Every text.
    pub fn all() -> (texts: [Text; 32])
        ensures
            texts@ == all_texts(),
    {
        [
            Text::MenuCopy,
            Text::MenuSaveImage,
            Text::MenuAreaType,
            Text::MenuTypeDefault,
            Text::MenuTypeScreenshot,
            Text::MenuTypeFilter,
            Text::MenuTypeUpscale,
            Text::MenuTypeOcr,
            Text::MenuDepth,
            Text::MenuDepthFront,
            Text::MenuDepthAuto,
            Text::MenuDepthBack,
            Text::MenuClickThrough,
            Text::MenuDismiss,
            Text::TrayShow,
            Text::TraySettings,
            Text::TrayQuit,
            Text::TrayUnavailableTitle,
            Text::TrayUnavailableDetail,
            Text::HotkeyUnavailableTitle,
            Text::HotkeyTaken,
            Text::HotkeyRefused,
            Text::OutputCopyTitle,
            Text::OutputSaveTitle,
            Text::OutputCaptureTitle,
            Text::OutputClipboardUnchanged,
            Text::OutputNothingWritten,
            Text::OutputAreaUnchanged,
            Text::OutputFailed,
            Text::OcrCopyTitle,
            Text::OcrCopyDetail,
            Text::SettingsTitle,
        ]
    }

    /// The text's key in the catalogue.
    #[must_use]
    pub fn key(self) -> (key: &'static str)
        ensures
            key == key_of(self),
    {
        match self {
            Text::MenuCopy => "menu.copy",
            Text::MenuSaveImage => "menu.save_image",
            Text::MenuAreaType => "menu.area_type",
            Text::MenuTypeDefault => "menu.type.default",
            Text::MenuTypeScreenshot => "menu.type.screenshot",
            Text::MenuTypeFilter => "menu.type.filter",
            Text::MenuTypeUpscale => "menu.type.upscale",
            Text::MenuTypeOcr => "menu.type.ocr",
            Text::MenuDepth => "menu.depth",
            Text::MenuDepthFront => "menu.depth.front",
            Text::MenuDepthAuto => "menu.depth.auto",
            Text::MenuDepthBack => "menu.depth.back",
            Text::MenuClickThrough => "menu.click_through",
            Text::MenuDismiss => "menu.dismiss",
            Text::TrayShow => "tray.show",
            Text::TraySettings => "tray.settings",
            Text::TrayQuit => "tray.quit",
            Text::TrayUnavailableTitle => "tray.unavailable.title",
            Text::TrayUnavailableDetail => "tray.unavailable.detail",
            Text::HotkeyUnavailableTitle => "hotkey.unavailable.title",
            Text::HotkeyTaken => "hotkey.taken",
            Text::HotkeyRefused => "hotkey.refused",
            Text::OutputCopyTitle => "output.copy.title",
            Text::OutputSaveTitle => "output.save.title",
            Text::OutputCaptureTitle => "output.capture.title",
            Text::OutputClipboardUnchanged => "output.clipboard_unchanged",
            Text::OutputNothingWritten => "output.nothing_written",
            Text::OutputAreaUnchanged => "output.area_unchanged",
            Text::OutputFailed => "output.failed",
            Text::OcrCopyTitle => "output.ocr_copy.title",
            Text::OcrCopyDetail => "output.ocr_copy.detail",
            Text::SettingsTitle => "settings.title",
        }
    }
}

/// `all_texts` leaves no text out.
pub proof fn law_no_text_is_left_out(text: Text)
    ensures
        all_texts().contains(text),
{
    let all = all_texts();
    assert(all[0] == Text::MenuCopy);
    assert(all[1] == Text::MenuSaveImage);
    assert(all[2] == Text::MenuAreaType);
    assert(all[3] == Text::MenuTypeDefault);
    assert(all[4] == Text::MenuTypeScreenshot);
    assert(all[5] == Text::MenuTypeFilter);
    assert(all[6] == Text::MenuTypeUpscale);
    assert(all[7] == Text::MenuTypeOcr);
    assert(all[8] == Text::MenuDepth);
    assert(all[9] == Text::MenuDepthFront);
    assert(all[10] == Text::MenuDepthAuto);
    assert(all[11] == Text::MenuDepthBack);
    assert(all[12] == Text::MenuClickThrough);
    assert(all[13] == Text::MenuDismiss);
    assert(all[14] == Text::TrayShow);
    assert(all[15] == Text::TraySettings);
    assert(all[16] == Text::TrayQuit);
    assert(all[17] == Text::TrayUnavailableTitle);
    assert(all[18] == Text::TrayUnavailableDetail);
    assert(all[19] == Text::HotkeyUnavailableTitle);
    assert(all[20] == Text::HotkeyTaken);
    assert(all[21] == Text::HotkeyRefused);
    assert(all[22] == Text::OutputCopyTitle);
    assert(all[23] == Text::OutputSaveTitle);
    assert(all[24] == Text::OutputCaptureTitle);
    assert(all[25] == Text::OutputClipboardUnchanged);
    assert(all[26] == Text::OutputNothingWritten);
    assert(all[27] == Text::OutputAreaUnchanged);
    assert(all[28] == Text::OutputFailed);
    assert(all[29] == Text::OcrCopyTitle);
    assert(all[30] == Text::OcrCopyDetail);
    assert(all[31] == Text::SettingsTitle);
}

/// No two texts share a key.
pub proof fn law_keys_are_distinct(a: Text, b: Text)
    requires
        a != b,
    ensures
        key_of(a)@ != key_of(b)@,
{
    reveal_strlit("menu.copy");
    reveal_strlit("menu.save_image");
    reveal_strlit("menu.area_type");
    reveal_strlit("menu.type.default");
    reveal_strlit("menu.type.screenshot");
    reveal_strlit("menu.type.filter");
    reveal_strlit("menu.type.upscale");
    reveal_strlit("menu.type.ocr");
    reveal_strlit("menu.depth");
    reveal_strlit("menu.depth.front");
    reveal_strlit("menu.depth.auto");
    reveal_strlit("menu.depth.back");
    reveal_strlit("menu.click_through");
    reveal_strlit("menu.dismiss");
    reveal_strlit("tray.show");
    reveal_strlit("tray.settings");
    reveal_strlit("tray.quit");
    reveal_strlit("tray.unavailable.title");
    reveal_strlit("tray.unavailable.detail");
    reveal_strlit("hotkey.unavailable.title");
    reveal_strlit("hotkey.taken");
    reveal_strlit("hotkey.refused");
    reveal_strlit("output.copy.title");
    reveal_strlit("output.save.title");
    reveal_strlit("output.capture.title");
    reveal_strlit("output.clipboard_unchanged");
    reveal_strlit("output.nothing_written");
    reveal_strlit("output.area_unchanged");
    reveal_strlit("output.failed");
    reveal_strlit("output.ocr_copy.title");
    reveal_strlit("output.ocr_copy.detail");
    reveal_strlit("settings.title");
    assert("menu.copy"@.len() == 9);
    assert("menu.save_image"@.len() == 15);
    assert("menu.area_type"@.len() == 14);
    assert("menu.type.default"@.len() == 17);
    assert("menu.type.screenshot"@.len() == 20);
    assert("menu.type.filter"@.len() == 16);
    assert("menu.type.upscale"@.len() == 17);
    assert("menu.type.ocr"@.len() == 13);
    assert("menu.depth"@.len() == 10);
    assert("menu.depth.front"@.len() == 16);
    assert("menu.depth.auto"@.len() == 15);
    assert("menu.depth.back"@.len() == 15);
    assert("menu.click_through"@.len() == 18);
    assert("menu.dismiss"@.len() == 12);
    assert("tray.show"@.len() == 9);
    assert("tray.settings"@.len() == 13);
    assert("tray.quit"@.len() == 9);
    assert("tray.unavailable.title"@.len() == 22);
    assert("tray.unavailable.detail"@.len() == 23);
    assert("hotkey.unavailable.title"@.len() == 24);
    assert("hotkey.taken"@.len() == 12);
    assert("hotkey.refused"@.len() == 14);
    assert("output.copy.title"@.len() == 17);
    assert("output.save.title"@.len() == 17);
    assert("output.capture.title"@.len() == 20);
    assert("output.clipboard_unchanged"@.len() == 26);
    assert("output.nothing_written"@.len() == 22);
    assert("output.area_unchanged"@.len() == 21);
    assert("output.failed"@.len() == 13);
    assert("output.ocr_copy.title"@.len() == 21);
    assert("output.ocr_copy.detail"@.len() == 22);
    assert("settings.title"@.len() == 14);
    assert("menu.copy"@[0] != "tray.show"@[0]);
    assert("menu.copy"@[0] != "tray.quit"@[0]);
    assert("menu.save_image"@[5] != "menu.depth.auto"@[5]);
    assert("menu.save_image"@[5] != "menu.depth.back"@[5]);
    assert("menu.area_type"@[0] != "hotkey.refused"@[0]);
    assert("menu.area_type"@[0] != "settings.title"@[0]);
    assert("menu.type.default"@[10] != "menu.type.upscale"@[10]);
    assert("menu.type.default"@[0] != "output.copy.title"@[0]);
    assert("menu.type.default"@[0] != "output.save.title"@[0]);
    assert("menu.type.screenshot"@[0] != "output.capture.title"@[0]);
    assert("menu.type.filter"@[5] != "menu.depth.front"@[5]);
    assert("menu.type.upscale"@[0] != "output.copy.title"@[0]);
    assert("menu.type.upscale"@[0] != "output.save.title"@[0]);
    assert("menu.type.ocr"@[0] != "tray.settings"@[0]);
    assert("menu.type.ocr"@[0] != "output.failed"@[0]);
    assert("menu.depth.auto"@[11] != "menu.depth.back"@[11]);
    assert("menu.dismiss"@[0] != "hotkey.taken"@[0]);
    assert("tray.show"@[5] != "tray.quit"@[5]);
    assert("tray.settings"@[0] != "output.failed"@[0]);
    assert("tray.unavailable.title"@[0] != "output.nothing_written"@[0]);
    assert("tray.unavailable.title"@[0] != "output.ocr_copy.detail"@[0]);
    assert("hotkey.refused"@[0] != "settings.title"@[0]);
    assert("output.copy.title"@[7] != "output.save.title"@[7]);
    assert("output.nothing_written"@[7] != "output.ocr_copy.detail"@[7]);
    assert("output.area_unchanged"@[7] != "output.ocr_copy.title"@[7]);
}

// ---------------------------------------------------------------------------
// The catalogue.
// ---------------------------------------------------------------------------

/// One text of the catalogue: its key, and what it reads in each language.
#[derive(Debug, PartialEq, Eq)]
pub struct Entry {
    pub key: String,
    /// Language code and text.
    pub texts: Vec<(String, String)>,
}

/// The catalogue.
#[derive(Debug, PartialEq, Eq)]
pub struct Table {
    pub entries: Vec<Entry>,
}

/// Pairs of texts, by what they say.
pub open spec fn said(pairs: Seq<(String, String)>) -> Seq<(Seq<char>, Seq<char>)> {
    Seq::new(pairs.len(), |i: int| (pairs[i].0@, pairs[i].1@))
}

impl Table {
    /// Key, then language code, then text.
    pub open spec fn model(self) -> Seq<(Seq<char>, Seq<(Seq<char>, Seq<char>)>)> {
        Seq::new(
            self.entries@.len(),
            |i: int| (self.entries@[i].key@, said(self.entries@[i].texts@)),
        )
    }

    /// How many texts the catalogue has.
    pub fn len(&self) -> (len: usize)
        ensures
            len == self.model().len(),
    {
        self.entries.len()
    }
}

/// The members of an object that are texts, in order.
pub open spec fn texts_in(members: Seq<(Seq<char>, JsonModel)>) -> Seq<(Seq<char>, Seq<char>)>
    decreases members.len(),
{
    if members.len() == 0 {
        Seq::empty()
    } else {
        let before = texts_in(members.drop_last());
        match members.last().1 {
            JsonModel::Text(text) => before.push((members.last().0, text)),
            _ => before,
        }
    }
}

/// The texts of an entry; none for what is no object.
pub open spec fn entry_texts(entry: JsonModel) -> Seq<(Seq<char>, Seq<char>)> {
    match entry {
        JsonModel::Object(members) => texts_in(members),
        _ => Seq::empty(),
    }
}

/// The catalogue a document holds: the members of its `strings` object. What is
/// not of that shape is skipped.
pub open spec fn catalogue_in(document: JsonModel) -> Seq<
    (Seq<char>, Seq<(Seq<char>, Seq<char>)>),
> {
    match json::member_of(document, "strings"@) {
        Some(JsonModel::Object(members)) => Seq::new(
            members.len(),
            |i: int| (members[i].0, entry_texts(members[i].1)),
        ),
        _ => Seq::empty(),
    }
}

/// The texts of an entry.
fn texts_of(entry: &Json) -> (texts: Vec<(String, String)>)
    ensures
        said(texts@) == entry_texts(entry.model()),
{
    let mut texts: Vec<(String, String)> = Vec::new();
    if let Json::Object(members) = entry {
        let mut i: usize = 0;
        proof {
            assert(entry.model()->Object_0.take(0) =~= Seq::empty());
            assert(said(texts@) =~= Seq::empty());
        }
        while i < members.len()
            invariant
                i <= members.len(),
                *entry == Json::Object(*members),
                entry.model()->Object_0.len() == members@.len(),
                said(texts@) == texts_in(entry.model()->Object_0.take(i as int)),
            decreases members.len() - i,
        {
            let ghost all = entry.model()->Object_0;
            let ghost before = said(texts@);
            assert(all[i as int] == (members@[i as int].0@, members@[i as int].1.model()));
            assert(all.take(i + 1).drop_last() =~= all.take(i as int));
            if let Json::Text(text) = &members[i].1 {
                texts.push((members[i].0.clone(), text.clone()));
                assert(said(texts@) =~= before.push((members@[i as int].0@, text@)));
            }
            i += 1;
        }
        assert(entry.model()->Object_0.take(i as int) =~= entry.model()->Object_0);
    } else {
        assert(said(texts@) =~= Seq::empty());
    }
    texts
}

/// The catalogue a document holds.
pub fn catalogue(document: &Json) -> (table: Table)
    ensures
        table.model() == catalogue_in(document.model()),
{
    let mut entries: Vec<Entry> = Vec::new();
    if let Some(strings) = member(document, "strings") {
        if let Json::Object(members) = strings {
            let ghost all = strings.model()->Object_0;
            let mut i: usize = 0;
            while i < members.len()
                invariant
                    i <= members.len(),
                    *strings == Json::Object(*members),
                    all == strings.model()->Object_0,
                    all.len() == members@.len(),
                    entries@.len() == i,
                    forall|k: int|
                        0 <= k < i ==> (#[trigger] entries@[k]).key@ == all[k].0 && said(
                            entries@[k].texts@,
                        ) == entry_texts(all[k].1),
                decreases members.len() - i,
            {
                assert(all[i as int] == (members@[i as int].0@, members@[i as int].1.model()));
                entries.push(
                    Entry { key: members[i].0.clone(), texts: texts_of(&members[i].1) },
                );
                i += 1;
            }
        }
    }
    let table = Table { entries };
    assert(table.model() =~= catalogue_in(document.model()));
    table
}

/// What a text that should hold the catalogue gives.
pub open spec fn parsed(text: Seq<char>) -> Seq<(Seq<char>, Seq<(Seq<char>, Seq<char>)>)> {
    match json::json_document(text) {
        Some(document) => catalogue_in(document),
        None => Seq::empty(),
    }
}

/// Reads the catalogue; a text that is no JSON gives an empty one.
pub fn parse(text: &str) -> (table: Table)
    ensures
        table.model() == parsed(text@),
{
    match read_json(text) {
        Some(document) => catalogue(&document),
        None => {
            let table = Table { entries: Vec::new() };
            assert(table.model() =~= Seq::empty());
            table
        },
    }
}

/// What is said under a key: the first pair of that key, from `start` on.
pub open spec fn value_from<V>(pairs: Seq<(Seq<char>, V)>, key: Seq<char>, start: int) -> Option<V>
    decreases pairs.len() - start,
{
    if start < 0 || start >= pairs.len() {
        None
    } else if pairs[start].0 == key {
        Some(pairs[start].1)
    } else {
        value_from(pairs, key, start + 1)
    }
}

/// A text in a language: from the catalogue in that language, else in English,
/// else the key itself.
pub open spec fn shown(
    table: Seq<(Seq<char>, Seq<(Seq<char>, Seq<char>)>)>,
    language: Language,
    text: Text,
) -> Seq<char> {
    match value_from(table, key_of(text)@, 0) {
        Some(texts) => match value_from(texts, code_of(language)@, 0) {
            Some(found) => found,
            None => match value_from(texts, code_of(Language::English)@, 0) {
                Some(found) => found,
                None => key_of(text)@,
            },
        },
        None => key_of(text)@,
    }
}

/// The entry under a key.
fn entry_for<'a>(table: &'a Table, key: &str) -> (entry: Option<&'a Entry>)
    ensures
        match entry {
            Some(entry) => value_from(table.model(), key@, 0) == Some(said(entry.texts@)),
            None => value_from(table.model(), key@, 0) is None,
        },
{
    let mut i: usize = 0;
    while i < table.entries.len()
        invariant
            i <= table.entries.len(),
            value_from(table.model(), key@, 0) == value_from(table.model(), key@, i as int),
        decreases table.entries.len() - i,
    {
        if same_text(&table.entries[i].key, key) {
            return Some(&table.entries[i]);
        }
        i += 1;
    }
    None
}

/// The text of an entry in a language.
fn text_for<'a>(entry: &'a Entry, code: &str) -> (text: Option<&'a str>)
    ensures
        match text {
            Some(text) => value_from(said(entry.texts@), code@, 0) == Some(text@),
            None => value_from(said(entry.texts@), code@, 0) is None,
        },
{
    let mut i: usize = 0;
    while i < entry.texts.len()
        invariant
            i <= entry.texts.len(),
            value_from(said(entry.texts@), code@, 0) == value_from(
                said(entry.texts@),
                code@,
                i as int,
            ),
        decreases entry.texts.len() - i,
    {
        if same_text(&entry.texts[i].0, code) {
            return Some(entry.texts[i].1.as_str());
        }
        i += 1;
    }
    None
}

/// A text in a given language, falling back to English, then to the key.
#[must_use]
pub fn text_in<'a>(table: &'a Table, language: Language, text: Text) -> (words: &'a str)
    ensures
        words@ == shown(table.model(), language, text),
{
    let key = text.key();
    match entry_for(table, key) {
        Some(entry) => match text_for(entry, language.code()) {
            Some(words) => words,
            None => match text_for(entry, Language::English.code()) {
                Some(words) => words,
                None => key,
            },
        },
        None => key,
    }
}

/// The catalogue and the language it is shown in, settled once.
#[derive(Debug, PartialEq, Eq)]
pub struct Strings {
    pub language: Language,
    pub table: Table,
}

/// A text in the language that is shown.
#[must_use]
pub fn text<'a>(strings: &'a Strings, item: Text) -> (words: &'a str)
    ensures
        words@ == shown(strings.table.model(), strings.language, item),
{
    text_in(&strings.table, strings.language, item)
}

// ---------------------------------------------------------------------------
// Filling in.
// ---------------------------------------------------------------------------

/// Names and values, by what they say.
pub open spec fn spoken(values: Seq<(&str, &str)>) -> Seq<(Seq<char>, Seq<char>)> {
    Seq::new(values.len(), |i: int| (values[i].0@, values[i].1@))
}

/// The test "is this character".
pub open spec fn is_char(wanted: char) -> spec_fn(char) -> bool {
    |c: char| c == wanted
}

/// What stands for a placeholder: its value, and where it has none the
/// placeholder as it is written.
pub open spec fn stand_in(values: Seq<(Seq<char>, Seq<char>)>, name: Seq<char>) -> Seq<char> {
    match value_from(values, name, 0) {
        Some(value) => value,
        None => seq!['{'] + name + seq!['}'],
    }
}

/// A template from `start` on, with its placeholders filled, each once: what a
/// value brings in is not looked at again. A brace that is never closed stays.
pub open spec fn filled_from(
    template: Seq<char>,
    values: Seq<(Seq<char>, Seq<char>)>,
    start: int,
) -> Seq<char>
    decreases template.len() - start,
{
    if start < 0 || start > template.len() || template.len() > usize::MAX {
        Seq::empty()
    } else {
        proof {
            search::lemma_first_from(template, is_char('{'), start);
            if search::first_from(template, is_char('{'), start) is Some {
                search::lemma_first_from(
                    template,
                    is_char('}'),
                    search::first_from(template, is_char('{'), start)->0 + 1,
                );
            }
        }
        match search::first_from(template, is_char('{'), start) {
            Some(open) => match search::first_from(template, is_char('}'), open + 1) {
                Some(close) => template.subrange(start, open as int) + stand_in(
                    values,
                    template.subrange(open + 1, close as int),
                ) + filled_from(template, values, close + 1),
                None => template.skip(start),
            },
            None => template.skip(start),
        }
    }
}

/// Where a character first stands, from `start` on.
fn find_char(chars: &Vec<char>, wanted: char, start: usize) -> (found: Option<usize>)
    requires
        start <= chars@.len(),
    ensures
        found == search::first_from(chars@, is_char(wanted), start as int),
{
    let mut i: usize = start;
    while i < chars.len()
        invariant
            i <= chars.len(),
            search::first_from(chars@, is_char(wanted), start as int) == search::first_from(
                chars@,
                is_char(wanted),
                i as int,
            ),
        decreases chars.len() - i,
    {
        if chars[i] == wanted {
            return Some(i);
        }
        i += 1;
    }
    None
}

/// The value of a name: the first of that name.
fn value_of<'a>(values: &[(&'a str, &'a str)], name: &str) -> (value: Option<&'a str>)
    ensures
        match value {
            Some(value) => value_from(spoken(values@), name@, 0) == Some(value@),
            None => value_from(spoken(values@), name@, 0) is None,
        },
{
    let mut i: usize = 0;
    while i < values.len()
        invariant
            i <= values.len(),
            value_from(spoken(values@), name@, 0) == value_from(
                spoken(values@),
                name@,
                i as int,
            ),
        decreases values.len() - i,
    {
        if same_text(values[i].0, name) {
            return Some(values[i].1);
        }
        i += 1;
    }
    None
}

/// Fills each `{name}` of a template in one pass, so that a value with braces
/// in it is never filled again. A placeholder without a value stays as it is
/// written.
pub fn substitute(template: &str, values: &[(&str, &str)]) -> (out: String)
    ensures
        out@ == filled_from(template@, spoken(values@), 0),
{
    let chars = chars_of(template);
    let len: usize = chars.len();
    let mut out = String::new();
    let mut start: usize = 0;
    loop
        invariant
            start <= len,
            len == chars.len(),
            chars@ == template@,
            filled_from(template@, spoken(values@), 0) == out@ + filled_from(
                template@,
                spoken(values@),
                start as int,
            ),
        decreases len - start,
    {
        proof {
            search::lemma_first_from(chars@, is_char('{'), start as int);
        }
        let open: usize = match find_char(&chars, '{', start) {
            Some(open) => open,
            None => {
                out.append(&text_of(&chars, start, len));
                assert(template@.skip(start as int) =~= chars@.subrange(start as int, len as int));
                return out;
            },
        };
        proof {
            search::lemma_first_from(chars@, is_char('}'), open + 1);
        }
        let close: usize = match find_char(&chars, '}', open + 1) {
            Some(close) => close,
            None => {
                out.append(&text_of(&chars, start, len));
                assert(template@.skip(start as int) =~= chars@.subrange(start as int, len as int));
                return out;
            },
        };
        let ghost before = out@;
        out.append(&text_of(&chars, start, open));
        let name = text_of(&chars, open + 1, close);
        match value_of(values, &name) {
            Some(value) => {
                out.append(value);
            },
            None => {
                out.push('{');
                out.append(&name);
                out.push('}');
            },
        }
        proof {
            let part = template@.subrange(start as int, open as int);
            let filled = stand_in(spoken(values@), name@);
            let rest = filled_from(template@, spoken(values@), close + 1);
            assert(out@ =~= before + part + filled);
            assert(before + (part + filled + rest) =~= out@ + rest);
        }
        start = close + 1;
    }
}

/// A text in the language that is shown, with its placeholders filled.
#[must_use]
pub fn fill(strings: &Strings, item: Text, values: &[(&str, &str)]) -> (words: String)
    ensures
        words@ == filled_from(
            shown(strings.table.model(), strings.language, item),
            spoken(values@),
            0,
        ),
{
    substitute(text(strings, item), values)
}

// ---------------------------------------------------------------------------
// Laws.
// ---------------------------------------------------------------------------

/// The language is settled once: whatever a first call found, a later one gives
/// the same language and leaves it settled, and every text reads as it did.
pub proof fn law_the_language_is_settled_once(
    before: Option<Language>,
    first: Language,
    later: Language,
    table: Seq<(Seq<char>, Seq<(Seq<char>, Seq<char>)>)>,
)
    ensures
        ({
            let language = settled_on(before, first);
            &&& settled_on(Some(language), later) == language
            &&& forall|text: Text|
                #[trigger] shown(table, settled_on(Some(language), later), text) == shown(
                    table,
                    language,
                    text,
                )
        }),
{
}

/// A code leads back to its language.
pub proof fn law_a_code_names_its_language(a: Language, b: Language)
    requires
        code_of(a)@ == code_of(b)@,
    ensures
        a == b,
{
    law_codes_are_distinct();
}

/// A lookup never comes up empty-handed: it gives the language, English or the
/// key.
pub proof fn law_a_lookup_never_fails(
    table: Seq<(Seq<char>, Seq<(Seq<char>, Seq<char>)>)>,
    language: Language,
    text: Text,
)
    ensures
        value_from(table, key_of(text)@, 0) is None ==> shown(table, language, text) == key_of(
            text,
        )@,
        value_from(table, key_of(text)@, 0) matches Some(texts) ==> {
            ||| value_from(texts, code_of(language)@, 0) == Some(shown(table, language, text))
            ||| value_from(texts, code_of(Language::English)@, 0) == Some(
                shown(table, language, text),
            )
            ||| shown(table, language, text) == key_of(text)@
        },
{
}

/// A template without placeholders is left as it is.
pub proof fn law_plain_text_is_left_alone(
    template: Seq<char>,
    values: Seq<(Seq<char>, Seq<char>)>,
)
    requires
        template.len() <= usize::MAX,
        !template.contains('{') || !template.contains('}'),
    ensures
        filled_from(template, values, 0) == template,
{
    search::lemma_first_from(template, is_char('{'), 0);
    assert(template.skip(0) =~= template);
    match search::first_from(template, is_char('{'), 0) {
        Some(open) => {
            search::lemma_first_from(template, is_char('}'), open + 1);
            assert(template[open as int] == '{');
        },
        None => {},
    }
}

/// A value is filled in as it is, braces and all: it is never filled again.
pub proof fn law_a_value_is_not_filled_again(name: Seq<char>, value: Seq<char>)
    requires
        name.len() + 2 <= usize::MAX,
        !name.contains('{'),
        !name.contains('}'),
    ensures
        filled_from(seq!['{'] + name + seq!['}'], seq![(name, value)], 0) == value,
        filled_from(seq!['{'] + name + seq!['}'], Seq::empty(), 0) == seq!['{'] + name + seq!['}'],
{
    let template = seq!['{'] + name + seq!['}'];
    let last = template.len() - 1;
    search::lemma_first_from(template, is_char('{'), 0);
    assert(template[0] == '{');
    assert(is_char('{')(template[0]));
    assert(search::first_from(template, is_char('{'), 0) == Some(0usize));
    search::lemma_first_from(template, is_char('}'), 1);
    assert(template[last] == '}');
    assert(is_char('}')(template[last]));
    let close = search::first_from(template, is_char('}'), 1)->0;
    if close < last {
        assert(template[close as int] == name[close - 1]);
        assert(name.contains('}'));
    }
    assert(template.subrange(0, 0) =~= Seq::empty());
    assert(template.subrange(1, last) =~= name);
    search::lemma_first_from(template, is_char('{'), template.len() as int);
    assert(template.skip(template.len() as int) =~= Seq::empty());
    assert(filled_from(template, seq![(name, value)], last + 1) =~= Seq::empty());
    assert(filled_from(template, Seq::empty(), last + 1) =~= Seq::empty());
    let one = seq![(name, value)];
    assert(value_from(one, name, 0) == Some(one[0].1));
    assert(filled_from(template, one, 0) =~= value);
    assert(value_from(Seq::<(Seq<char>, Seq<char>)>::empty(), name, 0) is None);
    assert(filled_from(template, Seq::empty(), 0) =~= template);
}

/// A code names its language, and no other code names one.
pub proof fn law_a_code_is_its_languages(
    language: Language,
    code: &'static str,
    other: &str,
    named: Option<Language>,
    back: Option<Language>,
)
    requires
        call_ensures(Language::code, (language,), code),
        call_ensures(Language::from_code, (code,), back),
        call_ensures(Language::from_code, (other,), named),
    ensures
        language == Language::English ==> code@ == "en"@,
        language == Language::German ==> code@ == "de"@,
        back == Some(language),
        named == Some(Language::English) <==> other@ == "en"@,
        named == Some(Language::German) <==> other@ == "de"@,
{
    law_codes_are_distinct();
}

/// Every German locale, whatever the country, reads German, and every other English.
pub proof fn law_a_german_locale_reads_german(primary: u16, country: u16, language: Language)
    requires
        primary < 1024,
        country < 64,
        call_ensures(Language::from_langid, ((country * 1024 + primary) as u16,), language),
    ensures
        language == Language::German <==> primary == 7,
        language == Language::English <==> primary != 7,
{
    let id = country * 1024 + primary;
    assert(id % 1024 == primary) by (nonlinear_arith)
        requires
            id == country * 1024 + primary,
            0 <= primary < 1024,
    ;
}

/// The language is the one that was settled, or where none was, the one that is forced, if
/// the program has it, and else the system's; and it is settled from then on.
pub proof fn law_how_the_language_is_settled(
    settled: &mut Option<Language>,
    forced: Option<&str>,
    langid: u16,
    language_shown: Language,
    systems: Language,
    later: &mut Option<Language>,
    other_forced: Option<&str>,
    other_langid: u16,
    later_shown: Language,
)
    requires
        call_ensures(language, (settled, forced, langid), language_shown),
        call_ensures(Language::from_langid, (langid,), systems),
        *old(later) == *final(settled),
        call_ensures(language, (later, other_forced, other_langid), later_shown),
    ensures
        *old(settled) is Some ==> language_shown == (*old(settled))->0,
        *old(settled) is None && forced is Some && (forced->0)@ == "de"@ ==> language_shown
            == Language::German,
        *old(settled) is None && forced is Some && (forced->0)@ == "en"@ ==> language_shown
            == Language::English,
        *old(settled) is None && !(forced is Some && ((forced->0)@ == "de"@ || (forced->0)@
            == "en"@)) ==> language_shown == systems,
        *final(settled) == Some(language_shown),
        later_shown == language_shown,
        *final(later) == Some(language_shown),
{
    law_codes_are_distinct();
}

/// The first pair of a key is what is found under it.
proof fn lemma_value_from<V>(pairs: Seq<(Seq<char>, V)>, key: Seq<char>, start: int, i: int)
    requires
        0 <= start <= i < pairs.len(),
        pairs[i].0 == key,
        forall|k: int| 0 <= k < i ==> (#[trigger] pairs[k]).0 != key,
    ensures
        value_from(pairs, key, start) == Some(pairs[i].1),
    decreases i - start,
{
    if start < i {
        lemma_value_from(pairs, key, start + 1, i);
    }
}

/// Nothing is found under a key that no pair has.
proof fn lemma_no_value_from<V>(pairs: Seq<(Seq<char>, V)>, key: Seq<char>, start: int)
    requires
        0 <= start <= pairs.len(),
        forall|k: int| 0 <= k < pairs.len() ==> (#[trigger] pairs[k]).0 != key,
    ensures
        value_from(pairs, key, start) is None,
    decreases pairs.len() - start,
{
    if start < pairs.len() {
        lemma_no_value_from(pairs, key, start + 1);
    }
}

/// A text reads as the catalogue has it under its key in the language; where it has it not
/// in that language, as in English; and else it is its key.
pub proof fn law_a_text_reads_as_the_catalogue_has_it(
    table: &Table,
    language: Language,
    text: Text,
    words: &str,
    key: &'static str,
    code: &'static str,
    i: int,
    j: int,
)
    requires
        call_ensures(text_in, (table, language, text), words),
        call_ensures(Text::key, (text,), key),
        call_ensures(Language::code, (language,), code),
        0 <= i < table.entries@.len(),
        table.entries@[i].key@ == key@,
        forall|k: int| 0 <= k < i ==> (#[trigger] table.entries@[k]).key@ != key@,
    ensures
        ({
            let texts = table.entries@[i].texts@;
            let in_language = exists|k: int|
                0 <= k < texts.len() && (#[trigger] texts[k]).0@ == code@;
            &&& 0 <= j < texts.len() && texts[j].0@ == code@ && (forall|k: int|
                0 <= k < j ==> (#[trigger] texts[k]).0@ != code@) ==> words@ == texts[j].1@
            &&& !in_language && 0 <= j < texts.len() && texts[j].0@ == "en"@ && (forall|k: int|
                0 <= k < j ==> (#[trigger] texts[k]).0@ != "en"@) ==> words@ == texts[j].1@
            &&& !in_language && (forall|k: int|
                0 <= k < texts.len() ==> (#[trigger] texts[k]).0@ != "en"@) ==> words@ == key@
        }),
{
    let model = table.model();
    assert(model[i].0 == key@);
    assert forall|k: int| 0 <= k < i implies (#[trigger] model[k]).0 != key@ by {
        assert(table.entries@[k].key@ != key@);
    }
    lemma_value_from(model, key@, 0, i);
    let texts = table.entries@[i].texts@;
    let pairs = said(texts);
    assert forall|k: int| 0 <= k < texts.len() implies (#[trigger] pairs[k]).0 == texts[k].0@ by {}
    if 0 <= j < texts.len() && texts[j].0@ == code@ && (forall|k: int|
        0 <= k < j ==> (#[trigger] texts[k]).0@ != code@) {
        assert forall|k: int| 0 <= k < j implies (#[trigger] pairs[k]).0 != code@ by {
            assert(texts[k].0@ != code@);
        }
        lemma_value_from(pairs, code@, 0, j);
    }
    if !(exists|k: int| 0 <= k < texts.len() && (#[trigger] texts[k]).0@ == code@) {
        assert forall|k: int| 0 <= k < pairs.len() implies (#[trigger] pairs[k]).0 != code@ by {
            assert(texts[k].0@ != code@);
        }
        lemma_no_value_from(pairs, code@, 0);
        if 0 <= j < texts.len() && texts[j].0@ == "en"@ && (forall|k: int|
            0 <= k < j ==> (#[trigger] texts[k]).0@ != "en"@) {
            assert forall|k: int| 0 <= k < j implies (#[trigger] pairs[k]).0 != "en"@ by {
                assert(texts[k].0@ != "en"@);
            }
            lemma_value_from(pairs, "en"@, 0, j);
        }
        if forall|k: int| 0 <= k < texts.len() ==> (#[trigger] texts[k]).0@ != "en"@ {
            assert forall|k: int| 0 <= k < pairs.len() implies (#[trigger] pairs[k]).0 != "en"@ by {
                assert(texts[k].0@ != "en"@);
            }
            lemma_no_value_from(pairs, "en"@, 0);
        }
    }
}

/// A text the catalogue does not have is shown as its key.
pub proof fn law_a_text_that_is_missing_is_its_key(
    table: &Table,
    language: Language,
    text: Text,
    words: &str,
    key: &'static str,
)
    requires
        call_ensures(text_in, (table, language, text), words),
        call_ensures(Text::key, (text,), key),
        forall|k: int|
            0 <= k < table.entries@.len() ==> (#[trigger] table.entries@[k]).key@ != key@,
    ensures
        words@ == key@,
{
    let model = table.model();
    assert forall|k: int| 0 <= k < model.len() implies (#[trigger] model[k]).0 != key@ by {
        assert(table.entries@[k].key@ != key@);
    }
    lemma_no_value_from(model, key@, 0);
}

/// What is shown is the text in the language of the run, and filling it in is filling that.
pub proof fn law_what_is_shown_is_in_the_language_of_the_run(
    strings: &Strings,
    item: Text,
    shown_words: &str,
    words: &str,
    values: &[(&str, &str)],
    filled: String,
    substituted: String,
)
    requires
        call_ensures(text, (strings, item), shown_words),
        call_ensures(text_in, (&strings.table, strings.language, item), words),
        call_ensures(fill, (strings, item, values), filled),
        call_ensures(substitute, (shown_words, values), substituted),
    ensures
        shown_words@ == words@,
        filled@ == substituted@,
{
}

/// Where a character first stands in the rest of a text is where it first stands from there
/// on in the whole.
proof fn lemma_first_in_rest(chars: Seq<char>, wanted: char, skipped: int, start: int)
    requires
        0 <= skipped,
        0 <= start,
        skipped + start <= chars.len(),
        chars.len() <= usize::MAX,
    ensures
        search::first_from(chars.skip(skipped), is_char(wanted), start) == match search::first_from(
            chars,
            is_char(wanted),
            skipped + start,
        ) {
            Some(found) => Some((found - skipped) as usize),
            None => None,
        },
    decreases chars.len() - start,
{
    let rest = chars.skip(skipped);
    search::lemma_first_from(chars, is_char(wanted), skipped + start);
    if start < rest.len() {
        assert(rest[start] == chars[skipped + start]);
        if chars[skipped + start] != wanted {
            lemma_first_in_rest(chars, wanted, skipped, start + 1);
        }
    }
}

/// Filling the rest of a template is filling the template from there on.
proof fn lemma_filled_rest(
    template: Seq<char>,
    values: Seq<(Seq<char>, Seq<char>)>,
    skipped: int,
    start: int,
)
    requires
        0 <= skipped,
        0 <= start,
        skipped + start <= template.len(),
        template.len() <= usize::MAX,
    ensures
        filled_from(template.skip(skipped), values, start) == filled_from(
            template,
            values,
            skipped + start,
        ),
    decreases template.len() - start,
{
    let rest = template.skip(skipped);
    let from = skipped + start;
    lemma_first_in_rest(template, '{', skipped, start);
    search::lemma_first_from(template, is_char('{'), from);
    assert(rest.skip(start) =~= template.skip(from));
    match search::first_from(template, is_char('{'), from) {
        Some(open) => {
            lemma_first_in_rest(template, '}', skipped, open - skipped + 1);
            search::lemma_first_from(template, is_char('}'), open + 1);
            match search::first_from(template, is_char('}'), open + 1) {
                Some(close) => {
                    assert(rest.subrange(start, open - skipped) =~= template.subrange(
                        from,
                        open as int,
                    ));
                    assert(rest.subrange(open - skipped + 1, close - skipped) =~= template.subrange(
                        open + 1,
                        close as int,
                    ));
                    lemma_filled_rest(template, values, skipped, close - skipped + 1);
                },
                None => {},
            }
        },
        None => {},
    }
}

/// A placeholder is replaced by the first value of its name, in its place: what stands
/// before it stays, and what stands behind it is filled as it would be alone. One without a
/// value stays as it is written.
pub proof fn law_a_placeholder_is_filled_in_its_place(
    template: &str,
    before: Seq<char>,
    name: Seq<char>,
    rest: &str,
    values: &[(&str, &str)],
    out: String,
    rest_out: String,
    i: int,
)
    requires
        call_ensures(substitute, (template, values), out),
        call_ensures(substitute, (rest, values), rest_out),
        template@ == before + seq!['{'] + name + seq!['}'] + rest@,
        template@.len() <= usize::MAX,
        !before.contains('{'),
        !name.contains('}'),
    ensures
        0 <= i < values@.len() && values@[i].0@ == name && (forall|k: int|
            0 <= k < i ==> (#[trigger] values@[k]).0@ != name) ==> out@ == before + values@[i].1@
            + rest_out@,
        (forall|k: int| 0 <= k < values@.len() ==> (#[trigger] values@[k]).0@ != name) ==> out@
            == before + seq!['{'] + name + seq!['}'] + rest_out@,
{
    let all = template@;
    let pairs = spoken(values@);
    let open = before.len() as int;
    let close = open + 1 + name.len();
    search::lemma_first_from(all, is_char('{'), 0);
    assert(all[open] == '{');
    assert(is_char('{')(all[open]));
    let found = search::first_from(all, is_char('{'), 0)->0;
    if found < open {
        assert(all[found as int] == before[found as int]);
        assert(before.contains('{'));
    }
    assert(found == open);
    search::lemma_first_from(all, is_char('}'), open + 1);
    assert(all[close] == '}');
    assert(is_char('}')(all[close]));
    let closed = search::first_from(all, is_char('}'), open + 1)->0;
    if closed < close {
        assert(all[closed as int] == name[closed - open - 1]);
        assert(name.contains('}'));
    }
    assert(closed == close);
    assert(all.subrange(0, open) =~= before);
    assert(all.subrange(open + 1, close) =~= name);
    assert(all.skip(close + 1) =~= rest@);
    lemma_filled_rest(all, pairs, close + 1, 0);
    assert(out@ == before + stand_in(pairs, name) + rest_out@);
    assert forall|k: int| 0 <= k < values@.len() implies (#[trigger] pairs[k]).0 == values@[k].0@
        && pairs[k].1 == values@[k].1@ by {}
    if 0 <= i < values@.len() && values@[i].0@ == name && (forall|k: int|
        0 <= k < i ==> (#[trigger] values@[k]).0@ != name) {
        assert forall|k: int| 0 <= k < i implies (#[trigger] pairs[k]).0 != name by {
            assert(values@[k].0@ != name);
        }
        lemma_value_from(pairs, name, 0, i);
    }
    if forall|k: int| 0 <= k < values@.len() ==> (#[trigger] values@[k]).0@ != name {
        assert forall|k: int| 0 <= k < pairs.len() implies (#[trigger] pairs[k]).0 != name by {
            assert(values@[k].0@ != name);
        }
        lemma_no_value_from(pairs, name, 0);
        assert(out@ =~= before + seq!['{'] + name + seq!['}'] + rest_out@);
    }
}

/// A template without an opening brace, or in which none is closed, is left as it is.
pub proof fn law_what_has_no_placeholder_is_left(
    template: &str,
    values: &[(&str, &str)],
    out: String,
)
    requires
        call_ensures(substitute, (template, values), out),
        template@.len() <= usize::MAX,
        !template@.contains('{') || !template@.contains('}'),
    ensures
        out@ == template@,
{
    law_plain_text_is_left_alone(template@, spoken(values@));
}

/// The texts of an object are its members that are texts, with their names, and nothing
/// else.
proof fn lemma_texts_in(members: Seq<(Seq<char>, JsonModel)>, name: Seq<char>, text: Seq<char>)
    ensures
        texts_in(members).contains((name, text)) <==> members.contains(
            (name, JsonModel::Text(text)),
        ),
    decreases members.len(),
{
    if members.len() > 0 {
        let shorter = members.drop_last();
        lemma_texts_in(shorter, name, text);
        let before = texts_in(shorter);
        let wanted = (name, JsonModel::Text(text));
        assert(members.contains(wanted) <==> shorter.contains(wanted) || members.last() == wanted)
            by {
            if members.contains(wanted) {
                let k = choose|k: int| 0 <= k < members.len() && members[k] == wanted;
                if k < members.len() - 1 {
                    assert(shorter[k] == wanted);
                }
            }
            if shorter.contains(wanted) {
                let k = choose|k: int| 0 <= k < shorter.len() && shorter[k] == wanted;
                assert(members[k] == wanted);
            }
            if members.last() == wanted {
                assert(members[members.len() - 1] == wanted);
            }
        }
        match members.last().1 {
            JsonModel::Text(last) => {
                let after = before.push((members.last().0, last));
                assert(after.contains((name, text)) <==> before.contains((name, text)) || (
                members.last().0,
                    last,
                ) == (name, text)) by {
                    if after.contains((name, text)) {
                        let k = choose|k: int| 0 <= k < after.len() && after[k] == (name, text);
                        if k < before.len() {
                            assert(before[k] == (name, text));
                        }
                    }
                    if before.contains((name, text)) {
                        let k = choose|k: int| 0 <= k < before.len() && before[k] == (name, text);
                        assert(after[k] == (name, text));
                    }
                    assert(after[before.len() as int] == (members.last().0, last));
                }
            },
            _ => {},
        }
    }
}

/// The catalogue of a document has an entry for each member of its `strings`, under the
/// member's name, with exactly the texts among that member's own; a document without
/// `strings` has none.
pub proof fn law_the_catalogue_is_what_the_document_holds(
    document: &Json,
    table: Table,
    strings: Option<&Json>,
    i: int,
    name: Seq<char>,
    words: Seq<char>,
)
    requires
        call_ensures(catalogue, (document,), table),
        call_ensures(member, (document, "strings"), strings),
    ensures
        strings is None || !(strings->0.model() is Object) ==> table.entries@.len() == 0,
        strings is Some && strings->0.model() is Object ==> {
            let members = strings->0.model()->Object_0;
            &&& table.entries@.len() == members.len()
            &&& 0 <= i < members.len() ==> {
                &&& table.entries@[i].key@ == members[i].0
                &&& members[i].1 matches JsonModel::Object(fields) ==> (said(
                    table.entries@[i].texts@,
                ).contains((name, words)) <==> fields.contains((name, JsonModel::Text(words))))
                &&& !(members[i].1 is Object) ==> table.entries@[i].texts@.len() == 0
            }
        },
{
    let model = table.model();
    assert(model.len() == table.entries@.len());
    if strings is Some && strings->0.model() is Object {
        let members = strings->0.model()->Object_0;
        if 0 <= i < members.len() {
            assert(model[i] == (members[i].0, entry_texts(members[i].1)));
            assert(model[i].0 == table.entries@[i].key@);
            assert(model[i].1 == said(table.entries@[i].texts@));
            assert(said(table.entries@[i].texts@).len() == table.entries@[i].texts@.len());
            if members[i].1 is Object {
                lemma_texts_in(members[i].1->Object_0, name, words);
            }
        }
    }
}

/// The catalogue of a text is that of the document it says, and of what is no JSON it is
/// empty.
pub proof fn law_the_catalogue_is_read_from_the_document(
    source: &str,
    table: Table,
    document: Option<Json>,
    of_document: Table,
)
    requires
        call_ensures(parse, (source,), table),
        call_ensures(read_json, (source,), document),
        document is Some ==> call_ensures(catalogue, (&document->0,), of_document),
    ensures
        document is Some ==> table.model() == of_document.model(),
        document is None ==> table.entries@.len() == 0,
{
    assert(table.model().len() == table.entries@.len());
}
/// A text is looked up under its own key.
pub proof fn law_a_text_has_its_own_key(text: Text, key: &'static str)
    requires
        call_ensures(Text::key, (text,), key),
    ensures
        text == Text::MenuCopy ==> key@ == "menu.copy"@,
        text == Text::MenuSaveImage ==> key@ == "menu.save_image"@,
        text == Text::MenuAreaType ==> key@ == "menu.area_type"@,
        text == Text::MenuTypeDefault ==> key@ == "menu.type.default"@,
        text == Text::MenuTypeScreenshot ==> key@ == "menu.type.screenshot"@,
        text == Text::MenuTypeFilter ==> key@ == "menu.type.filter"@,
        text == Text::MenuTypeUpscale ==> key@ == "menu.type.upscale"@,
        text == Text::MenuTypeOcr ==> key@ == "menu.type.ocr"@,
        text == Text::MenuDepth ==> key@ == "menu.depth"@,
        text == Text::MenuDepthFront ==> key@ == "menu.depth.front"@,
        text == Text::MenuDepthAuto ==> key@ == "menu.depth.auto"@,
        text == Text::MenuDepthBack ==> key@ == "menu.depth.back"@,
        text == Text::MenuClickThrough ==> key@ == "menu.click_through"@,
        text == Text::MenuDismiss ==> key@ == "menu.dismiss"@,
        text == Text::TrayShow ==> key@ == "tray.show"@,
        text == Text::TraySettings ==> key@ == "tray.settings"@,
        text == Text::TrayQuit ==> key@ == "tray.quit"@,
        text == Text::TrayUnavailableTitle ==> key@ == "tray.unavailable.title"@,
        text == Text::TrayUnavailableDetail ==> key@ == "tray.unavailable.detail"@,
        text == Text::HotkeyUnavailableTitle ==> key@ == "hotkey.unavailable.title"@,
        text == Text::HotkeyTaken ==> key@ == "hotkey.taken"@,
        text == Text::HotkeyRefused ==> key@ == "hotkey.refused"@,
        text == Text::OutputCopyTitle ==> key@ == "output.copy.title"@,
        text == Text::OutputSaveTitle ==> key@ == "output.save.title"@,
        text == Text::OutputCaptureTitle ==> key@ == "output.capture.title"@,
        text == Text::OutputClipboardUnchanged ==> key@ == "output.clipboard_unchanged"@,
        text == Text::OutputNothingWritten ==> key@ == "output.nothing_written"@,
        text == Text::OutputAreaUnchanged ==> key@ == "output.area_unchanged"@,
        text == Text::OutputFailed ==> key@ == "output.failed"@,
        text == Text::OcrCopyTitle ==> key@ == "output.ocr_copy.title"@,
        text == Text::OcrCopyDetail ==> key@ == "output.ocr_copy.detail"@,
        text == Text::SettingsTitle ==> key@ == "settings.title"@,
{
}

} // verus!
