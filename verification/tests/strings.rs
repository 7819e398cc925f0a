//! The words the program shows.

use uptake::json::read_json;
use uptake::strings::{
    catalogue, fill, language, parse, substitute, text, text_in, Language, Strings, Table, Text,
    DEV_VAR,
};

/// A catalogue with every text in both languages.
fn full_catalogue() -> String {
    let mut entries = Vec::new();
    for item in Text::all() {
        let (english, german) = match item {
            Text::MenuDismiss => ("Dismiss".to_string(), "Entfernen".to_string()),
            Text::TrayShow => ("Show ({hotkey})".to_string(), "Zeigen ({hotkey})".to_string()),
            _ => (format!("{} in English", item.key()), format!("{} auf Deutsch", item.key())),
        };
        entries.push(format!(
            "\"{}\": {{\"note\": 3, \"en\": \"{english}\", \"de\": \"{german}\"}}",
            item.key()
        ));
    }
    format!("{{\"version\": 1, \"strings\": {{{}}}}}", entries.join(", "))
}

fn strings(language: Language) -> Strings {
    Strings { language, table: parse(&full_catalogue()) }
}

#[test]
fn the_catalogue_parses_and_is_not_empty() {
    let parsed = parse(&full_catalogue());
    assert!(
        parsed.len() >= Text::all().len(),
        "the catalogue holds {} strings and Rust alone names {}",
        parsed.len(),
        Text::all().len()
    );
}

#[test]
fn every_rust_string_exists_in_every_language() {
    let table = parse(&full_catalogue());
    for item in Text::all() {
        let Some(entry) = table.entries.iter().find(|entry| entry.key == item.key()) else {
            panic!("{} is not in the catalogue", item.key())
        };
        for language in Language::all() {
            let found = entry.texts.iter().find(|(code, _)| code == language.code());
            assert!(
                found.is_some_and(|(_, text)| !text.is_empty()),
                "{} has no {} text",
                item.key(),
                language.code()
            );
            assert_ne!(text_in(&table, language, item), item.key());
        }
    }
}

#[test]
fn no_two_rust_strings_share_a_key() {
    let mut keys: Vec<&str> = Text::all().iter().map(|item| item.key()).collect();
    keys.sort_unstable();
    let before = keys.len();
    keys.dedup();
    assert_eq!(keys.len(), before);
}

#[test]
fn tests_read_english() {
    assert_eq!(text(&strings(Language::English), Text::MenuDismiss), "Dismiss");
    let table = parse(&full_catalogue());
    assert_eq!(text_in(&table, Language::German, Text::MenuDismiss), "Entfernen");
}

#[test]
fn every_german_locale_reads_german_and_nothing_else_does() {
    for id in [0x0407, 0x0807, 0x0c07, 0x1007, 0x1407] {
        assert_eq!(Language::from_langid(id), Language::German, "{id:#06x}");
    }
    for id in [0x0409, 0x0809, 0x040c, 0x0413, 0x0107] {
        assert_eq!(Language::from_langid(id), Language::English, "{id:#06x}");
    }
}

#[test]
fn the_dev_override_knows_exactly_the_shipped_codes() {
    assert!(DEV_VAR.starts_with("UPTAKE_DEV_"));
    assert_eq!(Language::from_code("de"), Some(Language::German));
    assert_eq!(Language::from_code("en"), Some(Language::English));
    assert_eq!(Language::from_code("fr"), None);
    assert_eq!(Language::from_code("DE"), None);
}

#[test]
fn substitution_fills_names_once_and_leaves_unknown_ones() {
    assert_eq!(substitute("{a} and {b}", &[("a", "1"), ("b", "2")]), "1 and 2");
    assert_eq!(
        substitute(
            "{reason} / {reassurance}",
            &[("reason", "{reassurance}"), ("reassurance", "ok")]
        ),
        "{reassurance} / ok"
    );
    assert_eq!(substitute("{missing}", &[]), "{missing}");
    assert_eq!(substitute("no close {brace", &[("brace", "x")]), "no close {brace");
    assert_eq!(substitute("Größe {n}", &[("n", "3")]), "Größe 3");
}

#[test]
fn substitution_at_its_edges() {
    assert_eq!(substitute("", &[("a", "1")]), "");
    assert_eq!(substitute("{}", &[("", "x")]), "x");
    assert_eq!(substitute("{a}{a}", &[("a", "1"), ("a", "2")]), "11");
    assert_eq!(substitute("} {a}", &[("a", "1")]), "} 1");
    assert_eq!(substitute("{{a}}", &[("a", "1"), ("{a", "2")]), "2}");
    assert_eq!(substitute("plain", &[("plain", "x")]), "plain");
}

#[test]
fn a_text_that_is_missing_falls_back_to_english_and_then_to_its_key() {
    let table = parse(
        "{\"strings\": {\"menu.copy\": {\"en\": \"Copy\"}, \"menu.dismiss\": {\"fr\": \"x\"}, \"tray.quit\": 7}}",
    );
    assert_eq!(text_in(&table, Language::German, Text::MenuCopy), "Copy");
    assert_eq!(text_in(&table, Language::German, Text::MenuDismiss), "menu.dismiss");
    assert_eq!(text_in(&table, Language::English, Text::TrayQuit), "tray.quit");
    assert_eq!(text_in(&table, Language::English, Text::TrayShow), "tray.show");
}

#[test]
fn a_catalogue_that_cannot_be_read_is_empty() {
    assert_eq!(parse("not json"), Table { entries: Vec::new() });
    assert_eq!(parse("{\"strings\": []}").len(), 0);
    let Some(document) = read_json("{\"strings\": {\"a\": {\"en\": \"A\"}}}") else {
        panic!("the document is JSON")
    };
    assert_eq!(catalogue(&document).len(), 1);
}

#[test]
fn a_filled_text_is_in_the_language_that_is_shown() {
    assert_eq!(
        fill(&strings(Language::German), Text::TrayShow, &[("hotkey", "Win+Shift+U")]),
        "Zeigen (Win+Shift+U)"
    );
    assert_eq!(
        fill(&strings(Language::English), Text::TrayShow, &[("hotkey", "{hotkey}")]),
        "Show ({hotkey})"
    );
}

#[test]
fn a_forced_language_wins_if_the_program_has_it() {
    assert_eq!(language(&mut None, Some("de"), 0x0409), Language::German);
    assert_eq!(language(&mut None, Some("en"), 0x0407), Language::English);
    assert_eq!(language(&mut None, Some("fr"), 0x0407), Language::German);
    assert_eq!(language(&mut None, None, 0x0409), Language::English);
    assert_eq!(Language::German.code(), "de");
    assert_eq!(Language::English.code(), "en");
}

#[test]
fn the_language_is_settled_once() {
    let mut settled = None;
    let first = language(&mut settled, None, 0x0407);
    assert_eq!((first, settled), (Language::German, Some(Language::German)));
    for (forced, langid) in [(Some("en"), 0x0407), (None, 0x0409), (Some("fr"), 0x040c)] {
        let later = language(&mut settled, forced, langid);
        assert_eq!((later, settled), (Language::German, Some(Language::German)));
        assert_eq!(text(&strings(later), Text::MenuDismiss), "Entfernen");
    }
}
