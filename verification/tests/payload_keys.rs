//! The guard on payload keys.

use serde::ser::SerializeStruct;
use serde::Serialize;
use uptake::json::{read_json, Json};
use uptake::payload_keys::{
    assert_keys, assert_payload_coverage, is_whitespace, keys_of, lines_of, name_declared,
    serialize_structs, stands_in_name,
};

/// A value as the page would read it.
fn wire<T: Serialize>(value: &T) -> Json {
    let Ok(text) = serde_json::to_string(value) else { panic!("a payload serializes") };
    let Some(json) = read_json(&text) else { panic!("what was serialized reads back") };
    json
}

fn keys<T: Serialize>(value: &T) -> Vec<String> {
    let Some(keys) = keys_of(&wire(value)) else {
        panic!("a payload must serialize to a JSON object")
    };
    keys
}

struct Renamed {
    chrome_only: bool,
}

impl Serialize for Renamed {
    fn serialize<S: serde::Serializer>(&self, serializer: S) -> Result<S::Ok, S::Error> {
        let mut state = serializer.serialize_struct("Renamed", 1)?;
        state.serialize_field("chromeOnly", &self.chrome_only)?;
        state.end()
    }
}

struct Plain {
    chrome_only: bool,
}

impl Serialize for Plain {
    fn serialize<S: serde::Serializer>(&self, serializer: S) -> Result<S::Ok, S::Error> {
        let mut state = serializer.serialize_struct("Plain", 1)?;
        state.serialize_field("chrome_only", &self.chrome_only)?;
        state.end()
    }
}

/// Two fields, declared in the order they are given.
struct Two {
    first: &'static str,
    second: &'static str,
}

impl Serialize for Two {
    fn serialize<S: serde::Serializer>(&self, serializer: S) -> Result<S::Ok, S::Error> {
        let mut state = serializer.serialize_struct("Two", 2)?;
        state.serialize_field(self.first, &true)?;
        state.serialize_field(self.second, &true)?;
        state.end()
    }
}

#[test]
fn a_rename_is_visible_here_and_nowhere_else() {
    assert_eq!(keys(&Renamed { chrome_only: true }), vec!["chromeOnly"]);
    assert_eq!(keys(&Plain { chrome_only: true }), vec!["chrome_only"]);
}

#[test]
fn the_extractor_sees_a_struct_behind_a_serde_attribute() {
    let source = "#[derive(Serialize, Clone)]\n#[serde(rename_all = \"camelCase\")]\n\
                  struct HoverPayload {\n    id: Option<u64>,\n}\n";
    assert_eq!(serialize_structs(source), vec!["HoverPayload"]);
}

#[test]
fn the_extractor_ignores_a_struct_that_does_not_derive_serialize() {
    let source = "#[derive(Debug, Clone, Copy)]\nstruct Gesture {\n    id: u64,\n}\n";
    assert!(serialize_structs(source).is_empty());
}

/// Fails as the guard does.
fn insist(verdict: Result<(), String>) {
    if let Err(fault) = verdict {
        panic!("{fault}");
    }
}

#[test]
#[should_panic(expected = "derives Serialize and no test pins its keys")]
fn the_coverage_control_refuses_a_payload_that_no_test_names() {
    insist(assert_payload_coverage(
        "a fixture",
        "#[derive(Serialize)]\nstruct Known {\n    a: bool,\n}\n\
         #[derive(Serialize)]\nstruct Stray {\n    b: bool,\n}\n",
        &["Known"],
        &[],
    ));
}

#[test]
#[should_panic(expected = "extracted no Serialize structs")]
fn the_coverage_control_refuses_an_empty_extraction() {
    insist(assert_payload_coverage("a fixture", "struct NotSerialized {}\n", &["Known"], &[]));
}

#[test]
fn the_coverage_control_accepts_an_exempted_name() {
    insist(assert_payload_coverage(
        "a fixture",
        "#[derive(Serialize)]\nstruct OnDisk {\n    a: bool,\n}\n",
        &[],
        &[("OnDisk", "written to disk, never sent over IPC")],
    ));
}

#[test]
#[should_panic(expected = "does not serialize to the keys the frontend reads")]
fn the_key_assertion_refuses_a_set_that_does_not_match() {
    insist(assert_keys("Two", &wire(&Two { first: "a", second: "b" }), &["a"]));
}

#[test]
fn the_key_assertion_does_not_care_about_declaration_order() {
    insist(assert_keys("Two", &wire(&Two { first: "b", second: "a" }), &["a", "b"]));
    let backwards = Json::Object(vec![
        ("b".to_string(), Json::Null),
        ("a".to_string(), Json::Null),
    ]);
    insist(assert_keys("backwards", &backwards, &["a", "b"]));
    insist(assert_keys("backwards", &backwards, &["b", "a"]));
    assert_eq!(keys_of(&backwards), Some(vec!["a".to_string(), "b".to_string()]));
}

#[test]
fn the_extractor_sees_a_public_struct() {
    let public = "#[derive(Serialize)]\npub struct Exported {\n    id: u64,\n}\n";
    assert_eq!(serialize_structs(public), vec!["Exported"]);
    let restricted = "#[derive(Serialize)]\npub(crate) struct Shared {\n    id: u64,\n}\n";
    assert_eq!(serialize_structs(restricted), vec!["Shared"]);
}

#[test]
fn the_extractor_sees_a_serializable_enum() {
    let source = "#[derive(Serialize)]\nenum Verdict {\n    Ok,\n}\n";
    assert_eq!(serialize_structs(source), vec!["Verdict"]);
    let public = "#[derive(Serialize)]\npub enum Outcome {\n    Ok,\n}\n";
    assert_eq!(serialize_structs(public), vec!["Outcome"]);
}

#[test]
fn the_extractor_skips_a_fixture_in_the_test_module() {
    let source = "#[derive(Serialize)]\nstruct Real {\n    a: bool,\n}\n\
                  #[cfg(test)]\nmod tests {\n    #[derive(Serialize)]\n\
                  struct Fixture {\n        b: bool,\n    }\n}\n";
    assert_eq!(serialize_structs(source), vec!["Real"]);
}

#[test]
#[should_panic(expected = "`#[cfg(test)]` blocks")]
fn the_coverage_control_refuses_a_file_with_two_test_modules() {
    insist(assert_payload_coverage(
        "a fixture",
        "#[derive(Serialize)]\nstruct Real {\n    a: bool,\n}\n\
         #[cfg(test)]\nmod a {}\n#[cfg(test)]\nmod b {}\n",
        &["Real"],
        &[],
    ));
}

#[test]
fn the_extractor_finds_an_indented_struct() {
    let source = "    #[derive(Serialize)]\n    struct Inner {\n        id: u64,\n    }\n";
    assert_eq!(serialize_structs(source), vec!["Inner"]);
}

#[test]
fn a_derive_that_declares_nothing_is_let_go() {
    let source = "#[derive(Serialize)]\nfn stray() {}\nstruct Later {}\n";
    assert!(serialize_structs(source).is_empty());
    let again = "#[derive(Serialize)]\n#[derive(Debug)]\nstruct Plain {}\n";
    assert!(serialize_structs(again).is_empty());
    let nameless = "#[derive(Serialize)]\nstruct (u8);\n";
    assert!(serialize_structs(nameless).is_empty());
}

#[test]
fn lines_end_as_they_do_everywhere() {
    for source in ["", "\n", "a", "a\n", "a\nb", "a\r\nb\r\n", "a\rb\n", "\r\n", "a\n\nb", "a\r", "ä\nö"] {
        let ours: Vec<String> = lines_of(source).iter().map(|line| line.iter().collect()).collect();
        let theirs: Vec<String> = source.lines().map(String::from).collect();
        assert_eq!(ours, theirs, "{source:?}");
    }
}

#[test]
fn white_space_is_what_the_standard_library_calls_so() {
    for c in '\0'..=char::MAX {
        assert_eq!(is_whitespace(c), c.is_whitespace(), "{c:?}");
    }
}

#[test]
fn a_name_ends_where_no_letter_digit_or_underscore_follows() {
    let name = |line: &str| name_declared(&line.chars().collect());
    assert_eq!(name("struct Größe2_x<T> {"), Some("Größe2_x".to_string()));
    assert_eq!(name("pub(in crate::a) enum E {"), Some("E".to_string()));
    assert_eq!(name("pub(crate)struct E {"), None);
    assert_eq!(name("struct  Twice {"), None);
    assert_eq!(name("structure"), None);
    assert_eq!(name(""), None);
}

#[test]
fn what_is_no_object_has_no_keys() {
    assert_eq!(keys_of(&Json::Null), None);
    assert_eq!(
        assert_keys("list", &Json::List(Vec::new()), &[]),
        Err("a payload must serialize to a JSON object".to_string())
    );
    assert_eq!(assert_keys("empty", &Json::Object(Vec::new()), &[]), Ok(()));
}

#[test]
fn the_faults_say_what_to_do() {
    assert_eq!(
        assert_payload_coverage("x.rs", "#[derive(Serialize)]\nstruct Stray;\n", &[], &[]),
        Err("x.rs: `Stray` derives Serialize and no test pins its keys. Add it to the key table, or to the exempt list with a reason. This is `I-67`: a payload key is reachable by no other guard in this repository.".to_string())
    );
    assert_eq!(
        assert_payload_coverage("x.rs", "#[cfg(test)]\n#[cfg(test)]\n #[cfg(test)]\n", &[], &[]),
        Err("x.rs: 3 `#[cfg(test)]` blocks. `serialize_structs` skips to end-of-file at the first one, so a second means it scanned less of this file than this list claims to cover. Split the file, or teach the extractor to track nesting.".to_string())
    );
    assert_eq!(
        assert_payload_coverage("x.rs", "", &[], &[]),
        Err("x.rs: extracted no Serialize structs. Has the attribute or the struct keyword been reshaped? An empty set agrees with any list.".to_string())
    );
    assert_eq!(
        assert_keys("x", &Json::Object(Vec::new()), &["a"]),
        Err("x does not serialize to the keys the frontend reads".to_string())
    );
}

#[test]
fn a_document_reads_back_as_what_it_says() {
    assert_eq!(
        read_json("{\"b\": [1, -2.5, null, true], \"a\": {\"c\": \"x\\n\"}}"),
        Some(Json::Object(vec![
            (
                "a".to_string(),
                Json::Object(vec![("c".to_string(), Json::Text("x\n".to_string()))]),
            ),
            (
                "b".to_string(),
                Json::List(vec![
                    Json::Number("1".to_string()),
                    Json::Number("-2.5".to_string()),
                    Json::Null,
                    Json::Bool(true),
                ]),
            ),
        ]))
    );
    assert_eq!(read_json("{"), None);
}

#[test]
fn a_name_is_made_of_letters_digits_and_underscores() {
    for byte in 0..=0x7f_u8 {
        let expected = byte.is_ascii_alphanumeric() || byte == b'_';
        assert_eq!(stands_in_name(char::from(byte)), expected, "{byte:#x}");
    }
    assert!(stands_in_name('ä') && stands_in_name('٣'));
    assert!(!stands_in_name('—') && !stands_in_name('\u{a0}'));
    assert_eq!(
        serialize_structs("#[derive(Serialize)]\nstruct Maß_2<T> {"),
        vec!["Maß_2".to_string()]
    );
}
