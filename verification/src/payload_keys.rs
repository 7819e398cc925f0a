//! The guard on payload keys: which types of a source file go out over the
//! wire, and whether a test pins the keys of each.
//!
//! A payload's keys are read by the page under their own names, and nothing but
//! a test that spells them out notices a change. The scanner finds the types
//! that derive `Serialize`; the coverage check holds them against the list of
//! those a test covers.

use vstd::prelude::*;
use vstd::relations::{sorted_by, total_ordering};
use crate::json::{Json, JsonModel};
use crate::text::{chars_of, push_decimal, same_chars, same_text};
use crate::text;

verus! {

// ---------------------------------------------------------------------------
// Lines and words.
// ---------------------------------------------------------------------------

/// Where the line that holds `start` ends: at the next newline, or at the end of
/// the text.
pub open spec fn line_end(source: Seq<char>, start: int) -> int
    decreases source.len() - start,
{
    if start >= source.len() || source[start] == '\n' {
        start
    } else {
        line_end(source, start + 1)
    }
}

/// A line ends within the text, and at a newline unless the text ends there.
pub proof fn lemma_line_end(source: Seq<char>, start: int)
    requires
        0 <= start <= source.len(),
    ensures
        start <= line_end(source, start) <= source.len(),
    decreases source.len() - start,
{
    if start < source.len() && source[start] != '\n' {
        lemma_line_end(source, start + 1);
    }
}

/// A line without the carriage return that belongs to its end.
pub open spec fn without_return(line: Seq<char>) -> Seq<char> {
    if line.len() > 0 && line.last() == '\r' {
        line.drop_last()
    } else {
        line
    }
}

/// The lines of a text from `start` on. A line ends at a newline, or at a
/// carriage return and a newline, neither of which belongs to it; the last may
/// go without.
pub open spec fn lines_from(source: Seq<char>, start: int) -> Seq<Seq<char>>
    decreases source.len() - start,
{
    if start < 0 || start >= source.len() {
        Seq::empty()
    } else {
        proof {
            lemma_line_end(source, start);
        }
        let end = line_end(source, start);
        if end < source.len() {
            seq![without_return(source.subrange(start, end))] + lines_from(source, end + 1)
        } else {
            seq![source.skip(start)]
        }
    }
}

/// What some lines say.
pub open spec fn deep(lines: Seq<Vec<char>>) -> Seq<Seq<char>> {
    Seq::new(lines.len(), |i: int| lines[i]@)
}

/// Part of a text.
fn slice(chars: &Vec<char>, start: usize, end: usize) -> (part: Vec<char>)
    requires
        start <= end <= chars@.len(),
    ensures
        part@ == chars@.subrange(start as int, end as int),
{
    let mut part: Vec<char> = Vec::new();
    let mut i: usize = start;
    while i < end
        invariant
            start <= i <= end <= chars@.len(),
            part@ == chars@.subrange(start as int, i as int),
        decreases end - i,
    {
        part.push(chars[i]);
        i += 1;
        assert(part@ =~= chars@.subrange(start as int, i as int));
    }
    part
}

/// Where the line that begins at `start` ends.
fn end_of_line(chars: &Vec<char>, start: usize) -> (end: usize)
    requires
        start <= chars@.len(),
    ensures
        end == line_end(chars@, start as int),
        start <= end <= chars@.len(),
{
    let mut i: usize = start;
    while i < chars.len() && chars[i] != '\n'
        invariant
            start <= i <= chars.len(),
            line_end(chars@, start as int) == line_end(chars@, i as int),
        decreases chars.len() - i,
    {
        i += 1;
    }
    i
}

/// The lines of a text.
pub fn lines_of(source: &str) -> (lines: Vec<Vec<char>>)
    ensures
        deep(lines@) == lines_from(source@, 0),
{
    let chars = chars_of(source);
    let len: usize = chars.len();
    let mut lines: Vec<Vec<char>> = Vec::new();
    let mut start: usize = 0;
    assert(deep(lines@) =~= Seq::empty());
    while start < len
        invariant
            start <= len,
            len == chars.len(),
            chars@ == source@,
            lines_from(source@, 0) == deep(lines@) + lines_from(source@, start as int),
        decreases len - start,
    {
        let ghost before = deep(lines@);
        let end: usize = end_of_line(&chars, start);
        if end < len {
            let ghost whole = chars@.subrange(start as int, end as int);
            let line = if end > start && chars[end - 1] == '\r' {
                assert(whole.last() == '\r');
                assert(whole.drop_last() =~= chars@.subrange(start as int, end - 1));
                slice(&chars, start, end - 1)
            } else {
                assert(whole.len() > 0 ==> whole.last() == chars@[end - 1]);
                slice(&chars, start, end)
            };
            assert(line@ == without_return(whole));
            lines.push(line);
            assert(deep(lines@) =~= before.push(line@));
            assert(before + (seq![line@] + lines_from(source@, end + 1)) =~= deep(lines@)
                + lines_from(source@, end + 1));
            start = end + 1;
        } else {
            let line = slice(&chars, start, len);
            assert(line@ =~= source@.skip(start as int));
            lines.push(line);
            assert(deep(lines@) =~= before + seq![line@]);
            start = len;
            assert(deep(lines@) + lines_from(source@, len as int) =~= deep(lines@));
        }
    }
    assert(deep(lines@) + lines_from(source@, start as int) =~= deep(lines@));
    lines
}

/// The characters with the White_Space property.
pub open spec fn is_space(c: char) -> bool {
    let n = c as u32;
    ||| 0x09 <= n <= 0x0d
    ||| n == 0x20
    ||| n == 0x85
    ||| n == 0xa0
    ||| n == 0x1680
    ||| 0x2000 <= n <= 0x200a
    ||| n == 0x2028
    ||| n == 0x2029
    ||| n == 0x202f
    ||| n == 0x205f
    ||| n == 0x3000
}

/// Whether a character has the White_Space property.
pub fn is_whitespace(c: char) -> (yes: bool)
    ensures
        yes == is_space(c),
{
    let n: u32 = c as u32;
    (n >= 0x09 && n <= 0x0d) || n == 0x20 || n == 0x85 || n == 0xa0 || n == 0x1680 || (n >= 0x2000
        && n <= 0x200a) || n == 0x2028 || n == 0x2029 || n == 0x202f || n == 0x205f || n == 0x3000
}

/// A line from its first character that is not white space.
pub open spec fn trimmed(line: Seq<char>) -> Seq<char>
    decreases line.len(),
{
    if line.len() > 0 && is_space(line[0]) {
        trimmed(line.drop_first())
    } else {
        line
    }
}

/// A line from its first character that is not white space.
fn trim_start(line: &Vec<char>) -> (rest: Vec<char>)
    ensures
        rest@ == trimmed(line@),
{
    let mut start: usize = 0;
    assert(line@.skip(0) =~= line@);
    while start < line.len() && is_whitespace(line[start])
        invariant
            start <= line.len(),
            trimmed(line@) == trimmed(line@.skip(start as int)),
        decreases line.len() - start,
    {
        assert(line@.skip(start as int).drop_first() =~= line@.skip(start + 1));
        start += 1;
    }
    assert(line@.skip(start as int) =~= line@.subrange(start as int, line@.len() as int));
    slice(line, start, line.len())
}

/// Whether `pattern` stands in `text` at `at`.
pub open spec fn stands_at(text: Seq<char>, pattern: Seq<char>, at: int) -> bool {
    &&& 0 <= at
    &&& at + pattern.len() <= text.len()
    &&& text.subrange(at, at + pattern.len()) == pattern
}

/// Whether `text` begins with `pattern`.
pub open spec fn begins(text: Seq<char>, pattern: Seq<char>) -> bool {
    stands_at(text, pattern, 0)
}

/// Where `pattern` first stands in `text`, from `start` on.
pub open spec fn found_from(text: Seq<char>, pattern: Seq<char>, start: int) -> Option<int>
    decreases text.len() + 1 - start,
{
    if start < 0 || start > text.len() {
        None
    } else if stands_at(text, pattern, start) {
        Some(start)
    } else {
        found_from(text, pattern, start + 1)
    }
}

/// Where a pattern was found, it stands.
pub proof fn lemma_found_stands(text: Seq<char>, pattern: Seq<char>, start: int)
    ensures
        found_from(text, pattern, start) matches Some(at) ==> start <= at && stands_at(
            text,
            pattern,
            at,
        ),
    decreases text.len() + 1 - start,
{
    if 0 <= start <= text.len() && !stands_at(text, pattern, start) {
        lemma_found_stands(text, pattern, start + 1);
    }
}

/// Whether `pattern` stands in `text` at `at`.
fn matches_at(text: &Vec<char>, pattern: &Vec<char>, at: usize) -> (yes: bool)
    requires
        at <= text@.len(),
    ensures
        yes == stands_at(text@, pattern@, at as int),
{
    if text.len() - at < pattern.len() {
        return false;
    }
    let total: usize = text.len();
    let mut i: usize = 0;
    while i < pattern.len()
        invariant
            i <= pattern.len(),
            total == text@.len(),
            at + pattern@.len() <= total,
            forall|k: int| 0 <= k < i ==> text@[at + k] == pattern@[k],
        decreases pattern.len() - i,
    {
        if text[at + i] != pattern[i] {
            assert(text@.subrange(at as int, at + pattern@.len())[i as int] != pattern@[i as int]);
            return false;
        }
        i += 1;
    }
    assert(text@.subrange(at as int, at + pattern@.len()) =~= pattern@);
    true
}

/// Whether a text begins with a pattern.
fn starts_with(text: &Vec<char>, pattern: &str) -> (yes: bool)
    ensures
        yes == begins(text@, pattern@),
{
    let wanted = chars_of(pattern);
    matches_at(text, &wanted, 0)
}

/// Where a pattern first stands in a text.
fn find(text: &Vec<char>, pattern: &str) -> (found: Option<usize>)
    ensures
        match found {
            Some(at) => found_from(text@, pattern@, 0) == Some(at as int),
            None => found_from(text@, pattern@, 0) is None,
        },
{
    let wanted = chars_of(pattern);
    let mut i: usize = 0;
    loop
        invariant
            i <= text.len(),
            wanted@ == pattern@,
            found_from(text@, pattern@, 0) == found_from(text@, pattern@, i as int),
        decreases text.len() - i,
    {
        if matches_at(text, &wanted, i) {
            return Some(i);
        }
        if i == text.len() {
            assert(found_from(text@, pattern@, i + 1) is None);
            return None;
        }
        i += 1;
    }
}

/// Whether an ASCII character is a letter or a digit.
pub open spec fn ascii_alphanumeric(c: char) -> bool {
    '0' <= c <= '9' || 'A' <= c <= 'Z' || 'a' <= c <= 'z'
}

/// Whether a character is a letter or a digit, in any script.
pub uninterp spec fn alphanumeric(c: char) -> bool;

/// Whether a character is a letter or a digit, in any script.
///
/// Calls `char::is_alphanumeric`, which is a property of the character in the
/// Unicode tables. It is known by its name, and for ASCII it is what one would
/// write down.
#[verifier::external_body]
fn is_alphanumeric(c: char) -> (yes: bool)
    ensures
        yes == alphanumeric(c),
        c as u32 <= 0x7f ==> yes == ascii_alphanumeric(c),
{
    c.is_alphanumeric()
}

/// Whether a character can stand in a name: a letter, a digit or an underscore.
pub open spec fn in_name(c: char) -> bool {
    c == '_' || if c as u32 <= 0x7f {
        ascii_alphanumeric(c)
    } else {
        alphanumeric(c)
    }
}

/// Whether a character can stand in a name.
pub fn stands_in_name(c: char) -> (yes: bool)
    ensures
        yes == in_name(c),
        c as u32 <= 0x7f ==> alphanumeric(c) == ascii_alphanumeric(c),
{
    is_alphanumeric(c) || c == '_'
}

/// The name at the beginning of a text.
pub open spec fn leading_name(text: Seq<char>) -> Seq<char>
    decreases text.len(),
{
    if text.len() > 0 && in_name(text[0]) {
        seq![text[0]] + leading_name(text.drop_first())
    } else {
        Seq::empty()
    }
}

// ---------------------------------------------------------------------------
// The scanner.
// ---------------------------------------------------------------------------

/// A declaration without its visibility.
pub open spec fn without_visibility(line: Seq<char>) -> Seq<char> {
    if begins(line, "pub "@) {
        line.skip(4)
    } else if begins(line, "pub("@) {
        match found_from(line.skip(4), ") "@, 0) {
            Some(at) => line.skip(4).skip(at + 2),
            None => line,
        }
    } else {
        line
    }
}

/// The name of the struct or enum a line declares.
pub open spec fn declared_name(line: Seq<char>) -> Option<Seq<char>> {
    let rest = without_visibility(line);
    let tail = if begins(rest, "struct "@) {
        Some(rest.skip(7))
    } else if begins(rest, "enum "@) {
        Some(rest.skip(5))
    } else {
        None
    };
    match tail {
        Some(tail) => if leading_name(tail).len() == 0 {
            None
        } else {
            Some(leading_name(tail))
        },
        None => None,
    }
}

/// The rest of a text.
fn tail_of(text: &Vec<char>, start: usize) -> (rest: Vec<char>)
    requires
        start <= text@.len(),
    ensures
        rest@ == text@.skip(start as int),
{
    assert(text@.skip(start as int) =~= text@.subrange(start as int, text@.len() as int));
    slice(text, start, text.len())
}

/// The name at the beginning of a text.
fn name_of(text: &Vec<char>) -> (name: String)
    ensures
        name@ == leading_name(text@),
{
    let mut name = String::new();
    let mut i: usize = 0;
    assert(text@.skip(0) =~= text@);
    assert(name@ + leading_name(text@) =~= leading_name(text@));
    while i < text.len()
        invariant
            i <= text.len(),
            leading_name(text@) == name@ + leading_name(text@.skip(i as int)),
        decreases text.len() - i,
    {
        let c = text[i];
        let ghost rest = text@.skip(i as int);
        assert(rest[0] == c);
        if !stands_in_name(c) {
            assert(name@ + leading_name(rest) =~= name@);
            return name;
        }
        assert(rest.drop_first() =~= text@.skip(i + 1));
        let ghost before = name@;
        name.push(c);
        assert(before + (seq![c] + leading_name(text@.skip(i + 1))) =~= name@ + leading_name(
            text@.skip(i + 1),
        ));
        i += 1;
    }
    assert(name@ + leading_name(text@.skip(i as int)) =~= name@);
    name
}

/// The name of the struct or enum a trimmed line declares.
pub fn name_declared(line: &Vec<char>) -> (name: Option<String>)
    ensures
        match name {
            Some(name) => declared_name(line@) == Some(name@),
            None => declared_name(line@) is None,
        },
{
    proof {
        reveal_strlit("pub ");
        reveal_strlit("pub(");
        reveal_strlit(") ");
        reveal_strlit("struct ");
        reveal_strlit("enum ");
        assert("pub "@.len() == 4 && "pub("@.len() == 4 && ") "@.len() == 2);
        assert("struct "@.len() == 7 && "enum "@.len() == 5);
    }
    let rest = if starts_with(line, "pub ") {
        tail_of(line, 4)
    } else if starts_with(line, "pub(") {
        let after = tail_of(line, 4);
        let total: usize = after.len();
        proof {
            lemma_found_stands(after@, ") "@, 0);
        }
        match find(&after, ") ") {
            Some(at) => {
                assert(at + 2 <= total);
                tail_of(&after, at + 2)
            },
            None => tail_of(line, 0),
        }
    } else {
        tail_of(line, 0)
    };
    assert(line@.skip(0) =~= line@);
    let tail = if starts_with(&rest, "struct ") {
        tail_of(&rest, 7)
    } else if starts_with(&rest, "enum ") {
        tail_of(&rest, 5)
    } else {
        return None;
    };
    let name = name_of(&tail);
    if chars_of(&name).len() == 0 {
        None
    } else {
        Some(name)
    }
}

/// The names of the types that derive `Serialize`, in the lines from `start`
/// on. `flagged` says that a derive with `Serialize` precedes. The scan ends
/// where the tests begin; other attributes may stand between a derive and its
/// type.
pub open spec fn payloads_from(lines: Seq<Seq<char>>, start: int, flagged: bool) -> Seq<Seq<char>>
    decreases lines.len() - start,
{
    if start < 0 || start >= lines.len() {
        Seq::empty()
    } else {
        let line = trimmed(lines[start]);
        if line == "#[cfg(test)]"@ {
            Seq::empty()
        } else if begins(line, "#[derive("@) {
            payloads_from(lines, start + 1, found_from(line, "Serialize"@, 0) is Some)
        } else if flagged && begins(line, "#["@) {
            payloads_from(lines, start + 1, true)
        } else if flagged && declared_name(line) is Some {
            seq![declared_name(line)->0] + payloads_from(lines, start + 1, false)
        } else {
            payloads_from(lines, start + 1, false)
        }
    }
}

/// The names of the types of a source file that derive `Serialize`.
pub open spec fn payloads(source: Seq<char>) -> Seq<Seq<char>> {
    payloads_from(lines_from(source, 0), 0, false)
}

/// What some names say.
pub open spec fn names_of(names: Seq<String>) -> Seq<Seq<char>> {
    Seq::new(names.len(), |i: int| names[i]@)
}

/// The names of the types of a source file that derive `Serialize`, up to its
/// tests.
pub fn serialize_structs(source: &str) -> (names: Vec<String>)
    ensures
        names_of(names@) == payloads(source@),
{
    let lines = lines_of(source);
    let marker = chars_of("#[cfg(test)]");
    let ghost all = lines_from(source@, 0);
    let mut names: Vec<String> = Vec::new();
    let mut flagged = false;
    let mut i: usize = 0;
    assert(names_of(names@) =~= Seq::empty());
    assert(names_of(names@) + payloads_from(all, 0, false) =~= payloads_from(all, 0, false));
    while i < lines.len()
        invariant
            i <= lines.len(),
            all == deep(lines@),
            all == lines_from(source@, 0),
            marker@ == "#[cfg(test)]"@,
            payloads_from(all, 0, false) == names_of(names@) + payloads_from(
                all,
                i as int,
                flagged,
            ),
        decreases lines.len() - i,
    {
        let line = trim_start(&lines[i]);
        let ghost before = names_of(names@);
        assert(line@ == trimmed(all[i as int]));
        if same_chars(&line, &marker) {
            assert(before + payloads_from(all, i as int, flagged) =~= before);
            return names;
        }
        if starts_with(&line, "#[derive(") {
            flagged = find(&line, "Serialize").is_some();
        } else if flagged && starts_with(&line, "#[") {
            // Another attribute between the derive and its type.
        } else if flagged {
            if let Some(name) = name_declared(&line) {
                let ghost rest = payloads_from(all, i + 1, false);
                let ghost said = name@;
                names.push(name);
                assert(names_of(names@) =~= before.push(said));
                assert(before + (seq![said] + rest) =~= names_of(names@) + rest);
            }
            flagged = false;
        }
        i += 1;
    }
    assert(names_of(names@) + payloads_from(all, i as int, flagged) =~= names_of(names@));
    names
}

// ---------------------------------------------------------------------------
// The coverage check.
// ---------------------------------------------------------------------------

/// How many of the first `count` lines begin a module of tests.
pub open spec fn test_modules(lines: Seq<Seq<char>>, count: nat) -> nat
    decreases count,
{
    if count == 0 {
        0
    } else {
        test_modules(lines, (count - 1) as nat) + if trimmed(lines[count - 1])
            == "#[cfg(test)]"@ {
            1nat
        } else {
            0nat
        }
    }
}

/// The number of lines of a source file that begin a module of tests.
fn count_test_modules(source: &str) -> (count: usize)
    ensures
        count == test_modules(lines_from(source@, 0), lines_from(source@, 0).len()),
{
    let lines = lines_of(source);
    let marker = chars_of("#[cfg(test)]");
    let ghost all = lines_from(source@, 0);
    let mut count: usize = 0;
    let mut i: usize = 0;
    while i < lines.len()
        invariant
            i <= lines.len(),
            count <= i,
            all == deep(lines@),
            marker@ == "#[cfg(test)]"@,
            count == test_modules(all, i as nat),
        decreases lines.len() - i,
    {
        let line = trim_start(&lines[i]);
        assert(line@ == trimmed(all[i as int]));
        if same_chars(&line, &marker) {
            count += 1;
        }
        i += 1;
    }
    count
}

/// Whether a name is in a list.
pub open spec fn listed(names: Seq<&str>, name: Seq<char>) -> bool {
    exists|i: int| 0 <= i < names.len() && (#[trigger] names[i])@ == name
}

/// Whether a name is exempt, for whatever reason is given.
pub open spec fn exempted(exempt: Seq<(&str, &str)>, name: Seq<char>) -> bool {
    exists|i: int| 0 <= i < exempt.len() && (#[trigger] exempt[i]).0@ == name
}

/// Whether a test covers a type, or it need not be covered.
pub open spec fn known(covered: Seq<&str>, exempt: Seq<(&str, &str)>, name: Seq<char>) -> bool {
    listed(covered, name) || exempted(exempt, name)
}

/// Whether a test covers a type, or it need not be covered.
fn is_known(covered: &[&str], exempt: &[(&str, &str)], name: &str) -> (yes: bool)
    ensures
        yes == known(covered@, exempt@, name@),
{
    let mut i: usize = 0;
    while i < covered.len()
        invariant
            i <= covered.len(),
            forall|k: int| 0 <= k < i ==> (#[trigger] covered@[k])@ != name@,
        decreases covered.len() - i,
    {
        if same_text(covered[i], name) {
            assert(covered@[i as int]@ == name@);
            return true;
        }
        i += 1;
    }
    let mut j: usize = 0;
    while j < exempt.len()
        invariant
            j <= exempt.len(),
            forall|k: int| 0 <= k < j ==> (#[trigger] exempt@[k]).0@ != name@,
            !listed(covered@, name@),
        decreases exempt.len() - j,
    {
        if same_text(exempt[j].0, name) {
            assert(exempt@[j as int].0@ == name@);
            return true;
        }
        j += 1;
    }
    false
}

/// What is said of a file with more than one module of tests.
pub open spec fn too_many_text(what: Seq<char>, count: nat) -> Seq<char> {
    what + ": "@ + text::decimal(count)
        + " `#[cfg(test)]` blocks. `serialize_structs` skips to end-of-file at the first one, so a second means it scanned less of this file than this list claims to cover. Split the file, or teach the extractor to track nesting."@
}

/// What is said of a file in which no type was found.
pub open spec fn none_text(what: Seq<char>) -> Seq<char> {
    what
        + ": extracted no Serialize structs. Has the attribute or the struct keyword been reshaped? An empty set agrees with any list."@
}

/// What is said of a type that no test covers.
pub open spec fn stray_text(what: Seq<char>, name: Seq<char>) -> Seq<char> {
    what + ": `"@ + name
        + "` derives Serialize and no test pins its keys. Add it to the key table, or to the exempt list with a reason. This is `I-67`: a payload key is reachable by no other guard in this repository."@
}

/// The first of some names that is not known.
pub open spec fn first_stray(
    names: Seq<Seq<char>>,
    covered: Seq<&str>,
    exempt: Seq<(&str, &str)>,
    start: int,
) -> Option<Seq<char>>
    decreases names.len() - start,
{
    if start < 0 || start >= names.len() {
        None
    } else if !known(covered, exempt, names[start]) {
        Some(names[start])
    } else {
        first_stray(names, covered, exempt, start + 1)
    }
}

/// What is wrong with the coverage of a file, if anything is.
pub open spec fn coverage_fault(
    what: Seq<char>,
    source: Seq<char>,
    covered: Seq<&str>,
    exempt: Seq<(&str, &str)>,
) -> Option<Seq<char>> {
    let lines = lines_from(source, 0);
    let modules = test_modules(lines, lines.len());
    if modules > 1 {
        Some(too_many_text(what, modules))
    } else if payloads(source).len() == 0 {
        Some(none_text(what))
    } else {
        match first_stray(payloads(source), covered, exempt, 0) {
            Some(name) => Some(stray_text(what, name)),
            None => None,
        }
    }
}

/// Holds the types of a source file that derive `Serialize` against the list of
/// those a test covers, and says what is wrong.
pub fn assert_payload_coverage(
    what: &str,
    source: &str,
    covered: &[&str],
    exempt: &[(&str, &str)],
) -> (verdict: Result<(), String>)
    ensures
        match verdict {
            Ok(_) => coverage_fault(what@, source@, covered@, exempt@) is None,
            Err(fault) => coverage_fault(what@, source@, covered@, exempt@) == Some(fault@),
        },
{
    let modules: usize = count_test_modules(source);
    if modules > 1 {
        let mut fault = what.to_owned();
        fault.append(": ");
        push_decimal(&mut fault, modules as u128);
        fault.append(
            " `#[cfg(test)]` blocks. `serialize_structs` skips to end-of-file at the first one, so a second means it scanned less of this file than this list claims to cover. Split the file, or teach the extractor to track nesting.",
        );
        return Err(fault);
    }
    let found = serialize_structs(source);
    assert(names_of(found@).len() == found@.len());
    if found.len() == 0 {
        let mut fault = what.to_owned();
        fault.append(
            ": extracted no Serialize structs. Has the attribute or the struct keyword been reshaped? An empty set agrees with any list.",
        );
        return Err(fault);
    }
    let mut i: usize = 0;
    while i < found.len()
        invariant
            i <= found.len(),
            names_of(found@) == payloads(source@),
            first_stray(payloads(source@), covered@, exempt@, 0) == first_stray(
                payloads(source@),
                covered@,
                exempt@,
                i as int,
            ),
            payloads(source@).len() == found@.len(),
            found@.len() > 0,
            test_modules(lines_from(source@, 0), lines_from(source@, 0).len()) <= 1,
        decreases found.len() - i,
    {
        assert(names_of(found@)[i as int] == found@[i as int]@);
        if !is_known(covered, exempt, &found[i]) {
            let mut fault = what.to_owned();
            fault.append(": `");
            fault.append(&found[i]);
            fault.append(
                "` derives Serialize and no test pins its keys. Add it to the key table, or to the exempt list with a reason. This is `I-67`: a payload key is reachable by no other guard in this repository.",
            );
            return Err(fault);
        }
        i += 1;
    }
    Ok(())
}

// ---------------------------------------------------------------------------
// The keys.
// ---------------------------------------------------------------------------

/// Whether one text comes no later than another, by its characters.
pub open spec fn no_later(a: Seq<char>, b: Seq<char>) -> bool
    decreases a.len(),
{
    if a.len() == 0 {
        true
    } else if b.len() == 0 {
        false
    } else if a[0] == b[0] {
        no_later(a.drop_first(), b.drop_first())
    } else {
        a[0] < b[0]
    }
}

/// The order of texts.
pub open spec fn text_order() -> spec_fn(Seq<char>, Seq<char>) -> bool {
    |a: Seq<char>, b: Seq<char>| no_later(a, b)
}

proof fn lemma_order_reflexive(a: Seq<char>)
    ensures
        no_later(a, a),
    decreases a.len(),
{
    if a.len() > 0 {
        lemma_order_reflexive(a.drop_first());
    }
}

proof fn lemma_order_total(a: Seq<char>, b: Seq<char>)
    ensures
        no_later(a, b) || no_later(b, a),
    decreases a.len(),
{
    if a.len() > 0 && b.len() > 0 && a[0] == b[0] {
        lemma_order_total(a.drop_first(), b.drop_first());
    }
}

proof fn lemma_order_antisymmetric(a: Seq<char>, b: Seq<char>)
    requires
        no_later(a, b),
        no_later(b, a),
    ensures
        a == b,
    decreases a.len(),
{
    if a.len() > 0 && b.len() > 0 && a[0] == b[0] {
        lemma_order_antisymmetric(a.drop_first(), b.drop_first());
        assert(a =~= seq![a[0]] + a.drop_first());
        assert(b =~= seq![b[0]] + b.drop_first());
    } else {
        assert(a =~= b);
    }
}

proof fn lemma_order_transitive(a: Seq<char>, b: Seq<char>, c: Seq<char>)
    requires
        no_later(a, b),
        no_later(b, c),
    ensures
        no_later(a, c),
    decreases a.len(),
{
    if a.len() > 0 && b.len() > 0 && c.len() > 0 && a[0] == b[0] && b[0] == c[0] {
        lemma_order_transitive(a.drop_first(), b.drop_first(), c.drop_first());
    }
}

/// The order of texts is a total order.
pub proof fn lemma_text_order_is_total()
    ensures
        total_ordering(text_order()),
{
    let order = text_order();
    assert forall|a: Seq<char>| #[trigger] order(a, a) by {
        lemma_order_reflexive(a);
    }
    assert forall|a: Seq<char>, b: Seq<char>| #[trigger] order(a, b) && #[trigger] order(
        b,
        a,
    ) implies a == b by {
        lemma_order_antisymmetric(a, b);
    }
    assert forall|a: Seq<char>, b: Seq<char>, c: Seq<char>| #[trigger] order(a, b)
        && #[trigger] order(b, c) implies order(a, c) by {
        lemma_order_transitive(a, b, c);
    }
    assert forall|a: Seq<char>, b: Seq<char>| #[trigger] order(a, b) || #[trigger] order(b, a) by {
        lemma_order_total(a, b);
    }
}

/// Whether one text comes no later than another.
fn comes_no_later(a: &str, b: &str) -> (yes: bool)
    ensures
        yes == no_later(a@, b@),
{
    let left = chars_of(a);
    let right = chars_of(b);
    let mut i: usize = 0;
    assert(left@.skip(0) =~= left@ && right@.skip(0) =~= right@);
    loop
        invariant
            i <= left.len(),
            i <= right.len(),
            left@ == a@,
            right@ == b@,
            no_later(a@, b@) == no_later(left@.skip(i as int), right@.skip(i as int)),
        decreases left.len() - i,
    {
        if i == left.len() {
            return true;
        }
        if i == right.len() {
            return false;
        }
        if left[i] != right[i] {
            return left[i] < right[i];
        }
        assert(left@.skip(i as int).drop_first() =~= left@.skip(i + 1));
        assert(right@.skip(i as int).drop_first() =~= right@.skip(i + 1));
        i += 1;
    }
}

/// Puts a name where it belongs in a sorted list.
fn insert_sorted(names: &mut Vec<String>, name: String)
    requires
        sorted_by(names_of(old(names)@), text_order()),
    ensures
        sorted_by(names_of(final(names)@), text_order()),
        names_of(final(names)@).to_multiset() == names_of(old(names)@).to_multiset().insert(name@),
{
    let ghost before = names_of(names@);
    let ghost order = text_order();
    let mut at: usize = 0;
    while at < names.len() && comes_no_later(&names[at], &name)
        invariant
            at <= names.len(),
            before == names_of(names@),
            forall|k: int| 0 <= k < at ==> no_later(#[trigger] before[k], name@),
        decreases names.len() - at,
    {
        assert(before[at as int] == names@[at as int]@);
        at += 1;
    }
    proof {
        lemma_text_order_is_total();
        assert(at < names@.len() ==> before[at as int] == names@[at as int]@);
        assert forall|k: int| at <= k < before.len() implies no_later(
            name@,
            #[trigger] before[k],
        ) by {
            lemma_order_total(before[at as int], name@);
            if k > at {
                assert(order(before[at as int], before[k]));
                lemma_order_transitive(name@, before[at as int], before[k]);
            }
        }
    }
    let ghost said = name@;
    names.insert(at, name);
    proof {
        let after = names_of(names@);
        assert(after =~= before.insert(at as int, said));
        vstd::seq_lib::to_multiset_insert(before, at as int, said);
        assert forall|i: int, j: int| 0 <= i < j < after.len() implies #[trigger] order(
            after[i],
            after[j],
        ) by {
            let a = if i < at {
                i
            } else {
                i - 1
            };
            let b = if j < at {
                j
            } else {
                j - 1
            };
            if i != at && j != at {
                assert(order(before[a], before[b]));
            }
        }
    }
}

/// The names of an object's members.
pub open spec fn member_names(members: Seq<(Seq<char>, JsonModel)>) -> Seq<Seq<char>> {
    Seq::new(members.len(), |i: int| members[i].0)
}

/// Whether `keys` are the names of the members of an object, sorted.
pub open spec fn are_sorted_keys(keys: Seq<Seq<char>>, document: JsonModel) -> bool {
    &&& document is Object
    &&& sorted_by(keys, text_order())
    &&& keys.to_multiset() == member_names(document->Object_0).to_multiset()
}

/// The keys a payload goes out under, sorted; nothing for what is no object.
pub fn keys_of(value: &Json) -> (keys: Option<Vec<String>>)
    ensures
        match keys {
            Some(keys) => are_sorted_keys(names_of(keys@), value.model()),
            None => !(value.model() is Object),
        },
{
    match value {
        Json::Object(members) => {
            let ghost all = member_names(value.model()->Object_0);
            let mut keys: Vec<String> = Vec::new();
            let mut i: usize = 0;
            assert(names_of(keys@) =~= all.take(0));
            while i < members.len()
                invariant
                    i <= members.len(),
                    *value == Json::Object(*members),
                    all == member_names(value.model()->Object_0),
                    all.len() == members@.len(),
                    sorted_by(names_of(keys@), text_order()),
                    names_of(keys@).to_multiset() == all.take(i as int).to_multiset(),
                decreases members.len() - i,
            {
                assert(value.model()->Object_0[i as int].0 == members@[i as int].0@);
                insert_sorted(&mut keys, members[i].0.clone());
                proof {
                    vstd::seq_lib::to_multiset_build(all.take(i as int), all[i as int]);
                    assert(all.take(i + 1) =~= all.take(i as int).push(all[i as int]));
                }
                i += 1;
            }
            assert(all.take(i as int) =~= all);
            Some(keys)
        },
        _ => None,
    }
}

/// What some names say.
pub open spec fn spoken(names: Seq<&str>) -> Seq<Seq<char>> {
    Seq::new(names.len(), |i: int| names[i]@)
}

/// Some names, sorted.
fn sorted_names(names: &[&str]) -> (sorted: Vec<String>)
    ensures
        sorted_by(names_of(sorted@), text_order()),
        names_of(sorted@).to_multiset() == spoken(names@).to_multiset(),
{
    let ghost all = spoken(names@);
    let mut sorted: Vec<String> = Vec::new();
    let mut i: usize = 0;
    assert(names_of(sorted@) =~= all.take(0));
    while i < names.len()
        invariant
            i <= names.len(),
            all == spoken(names@),
            sorted_by(names_of(sorted@), text_order()),
            names_of(sorted@).to_multiset() == all.take(i as int).to_multiset(),
        decreases names.len() - i,
    {
        insert_sorted(&mut sorted, names[i].to_owned());
        proof {
            vstd::seq_lib::to_multiset_build(all.take(i as int), all[i as int]);
            assert(all.take(i + 1) =~= all.take(i as int).push(all[i as int]));
        }
        i += 1;
    }
    assert(all.take(i as int) =~= all);
    sorted
}

/// Whether two lists of names say the same.
fn same_names(a: &Vec<String>, b: &Vec<String>) -> (same: bool)
    ensures
        same == (names_of(a@) == names_of(b@)),
{
    assert(names_of(a@).len() == a@.len() && names_of(b@).len() == b@.len());
    if a.len() != b.len() {
        return false;
    }
    let mut i: usize = 0;
    while i < a.len()
        invariant
            i <= a.len(),
            a.len() == b.len(),
            forall|k: int| 0 <= k < i ==> a@[k]@ == b@[k]@,
        decreases a.len() - i,
    {
        if !same_text(&a[i], &b[i]) {
            assert(names_of(a@)[i as int] != names_of(b@)[i as int]);
            return false;
        }
        i += 1;
    }
    assert(names_of(a@) =~= names_of(b@));
    true
}

/// What is wrong with the keys of a payload, if anything is: it has to be an
/// object, and to have exactly the keys that are expected, in any order.
pub open spec fn key_fault(
    what: Seq<char>,
    document: JsonModel,
    expected: Seq<Seq<char>>,
) -> Option<Seq<char>> {
    match document {
        JsonModel::Object(members) => if member_names(members).to_multiset()
            == expected.to_multiset() {
            None
        } else {
            Some(what + " does not serialize to the keys the frontend reads"@)
        },
        _ => Some("a payload must serialize to a JSON object"@),
    }
}

/// Holds the keys of a payload against those the page reads, and says what is
/// wrong.
pub fn assert_keys(what: &str, value: &Json, expected: &[&str]) -> (verdict: Result<(), String>)
    ensures
        match verdict {
            Ok(_) => key_fault(what@, value.model(), spoken(expected@)) is None,
            Err(fault) => key_fault(what@, value.model(), spoken(expected@)) == Some(fault@),
        },
{
    let want = sorted_names(expected);
    match keys_of(value) {
        Some(keys) => {
            let same = same_names(&keys, &want);
            proof {
                lemma_text_order_is_total();
                let have = names_of(keys@);
                if have.to_multiset() == names_of(want@).to_multiset() {
                    vstd::seq_lib::lemma_sorted_unique(have, names_of(want@), text_order());
                }
            }
            if same {
                Ok(())
            } else {
                let mut fault = what.to_owned();
                fault.append(" does not serialize to the keys the frontend reads");
                Err(fault)
            }
        },
        None => Err("a payload must serialize to a JSON object".to_owned()),
    }
}

// ---------------------------------------------------------------------------
// Laws.
// ---------------------------------------------------------------------------

/// Where no name is the first that is not known, every name is known.
proof fn lemma_no_stray(
    names: Seq<Seq<char>>,
    covered: Seq<&str>,
    exempt: Seq<(&str, &str)>,
    start: int,
    i: int,
)
    requires
        first_stray(names, covered, exempt, start) is None,
        0 <= start <= i < names.len(),
    ensures
        known(covered, exempt, names[i]),
    decreases i - start,
{
    if start < i {
        lemma_no_stray(names, covered, exempt, start + 1, i);
    }
}

/// A file that passes has something to cover, covers every bit of it, and was
/// scanned to where its one module of tests begins.
pub proof fn law_a_file_that_passes_is_covered(
    what: Seq<char>,
    source: Seq<char>,
    covered: Seq<&str>,
    exempt: Seq<(&str, &str)>,
    i: int,
)
    requires
        coverage_fault(what, source, covered, exempt) is None,
    ensures
        payloads(source).len() > 0,
        test_modules(lines_from(source, 0), lines_from(source, 0).len()) <= 1,
        0 <= i < payloads(source).len() ==> known(covered, exempt, payloads(source)[i]),
{
    if 0 <= i < payloads(source).len() {
        lemma_no_stray(payloads(source), covered, exempt, 0, i);
    }
}

/// Nothing behind the line where the tests begin is taken for a payload: what
/// stands there makes no difference.
pub proof fn law_tests_are_not_scanned(
    lines: Seq<Seq<char>>,
    other: Seq<Seq<char>>,
    marker: int,
    start: int,
    flagged: bool,
)
    requires
        0 <= start <= marker < lines.len(),
        marker < other.len(),
        trimmed(lines[marker]) == "#[cfg(test)]"@,
        forall|k: int| 0 <= k <= marker ==> lines[k] == other[k],
    ensures
        payloads_from(lines, start, flagged) == payloads_from(other, start, flagged),
    decreases marker - start,
{
    if start < marker {
        law_tests_are_not_scanned(lines, other, marker, start + 1, true);
        law_tests_are_not_scanned(lines, other, marker, start + 1, false);
    }
}

/// The order in which a payload's fields are declared makes no difference.
pub proof fn law_the_order_of_fields_makes_no_difference(
    what: Seq<char>,
    members: Seq<(Seq<char>, JsonModel)>,
    other: Seq<(Seq<char>, JsonModel)>,
    expected: Seq<Seq<char>>,
)
    requires
        member_names(members).to_multiset() == member_names(other).to_multiset(),
    ensures
        key_fault(what, JsonModel::Object(members), expected) == key_fault(
            what,
            JsonModel::Object(other),
            expected,
        ),
{
}

/// The sorted keys of an object are the only ones: two lists that are both its
/// keys, sorted, are the same list.
pub proof fn law_sorted_keys_are_unique(
    keys: Seq<Seq<char>>,
    other: Seq<Seq<char>>,
    document: JsonModel,
)
    requires
        are_sorted_keys(keys, document),
        are_sorted_keys(other, document),
    ensures
        keys == other,
{
    lemma_text_order_is_total();
    vstd::seq_lib::lemma_sorted_unique(keys, other, text_order());
}

/// White space is the tabs and line ends of ASCII, its space, and the spaces and separators
/// of Unicode.
pub proof fn law_what_is_white_space(c: char, yes: bool)
    requires
        call_ensures(is_whitespace, (c,), yes),
    ensures
        yes <==> {
            ||| c == '\t'
            ||| c == '\n'
            ||| c == '\u{0b}'
            ||| c == '\u{0c}'
            ||| c == '\r'
            ||| c == ' '
            ||| c == '\u{85}'
            ||| c == '\u{a0}'
            ||| c == '\u{1680}'
            ||| '\u{2000}' <= c <= '\u{200a}'
            ||| c == '\u{2028}'
            ||| c == '\u{2029}'
            ||| c == '\u{202f}'
            ||| c == '\u{205f}'
            ||| c == '\u{3000}'
        },
{
}

/// Of the ASCII characters the letters, the digits and the underscore stand in names.
pub proof fn law_what_stands_in_a_name(c: char, yes: bool)
    requires
        call_ensures(stands_in_name, (c,), yes),
        c as u32 <= 0x7f,
    ensures
        yes <==> 'a' <= c <= 'z' || 'A' <= c <= 'Z' || '0' <= c <= '9' || c == '_',
{
}

/// The lines of what stands behind some characters are those of the whole from there on.
proof fn lemma_lines_of_rest(source: Seq<char>, skipped: int, start: int)
    requires
        0 <= skipped,
        0 <= start,
        skipped + start <= source.len(),
    ensures
        line_end(source.skip(skipped), start) == line_end(source, skipped + start) - skipped,
        lines_from(source.skip(skipped), start) == lines_from(source, skipped + start),
    decreases source.len() - start,
{
    let rest = source.skip(skipped);
    let from = skipped + start;
    if start < rest.len() {
        lemma_end_of_rest(source, skipped, start);
        lemma_line_end(source, from);
        let end = line_end(source, from);
        if end < source.len() {
            assert(rest.subrange(start, end - skipped) =~= source.subrange(from, end));
            lemma_lines_of_rest(source, skipped, end - skipped + 1);
        } else {
            assert(rest.skip(start) =~= source.skip(from));
        }
    }
}

/// A line of what stands behind some characters ends where it ends in the whole.
proof fn lemma_end_of_rest(source: Seq<char>, skipped: int, start: int)
    requires
        0 <= skipped,
        0 <= start,
        skipped + start <= source.len(),
    ensures
        line_end(source.skip(skipped), start) == line_end(source, skipped + start) - skipped,
    decreases source.len() - start,
{
    let rest = source.skip(skipped);
    if start < rest.len() {
        assert(rest[start] == source[skipped + start]);
        if rest[start] != '\n' {
            lemma_end_of_rest(source, skipped, start + 1);
        }
    }
}

/// A line without a newline runs to the newline behind it, or to the end of the text.
proof fn lemma_where_a_line_ends(source: Seq<char>, start: int, end: int)
    requires
        0 <= start <= end <= source.len(),
        forall|k: int| start <= k < end ==> #[trigger] source[k] != '\n',
        end < source.len() ==> source[end] == '\n',
    ensures
        line_end(source, start) == end,
    decreases end - start,
{
    if start < end {
        lemma_where_a_line_ends(source, start + 1, end);
    }
}

/// A line ends at its newline: it is the first line, without a carriage return at its end,
/// and the others are the lines of what stands behind the newline.
pub proof fn law_a_newline_ends_a_line(
    source: &str,
    line: Seq<char>,
    rest: &str,
    lines: Vec<Vec<char>>,
    rest_lines: Vec<Vec<char>>,
)
    requires
        call_ensures(lines_of, (source,), lines),
        call_ensures(lines_of, (rest,), rest_lines),
        source@ == line + seq!['\n'] + rest@,
        !line.contains('\n'),
    ensures
        lines@.len() == 1 + rest_lines@.len(),
        line.len() > 0 && line.last() == '\r' ==> lines@[0]@ == line.drop_last(),
        line.len() == 0 || line.last() != '\r' ==> lines@[0]@ == line,
        forall|i: int|
            0 <= i < rest_lines@.len() ==> lines@[i + 1]@ == (#[trigger] rest_lines@[i])@,
{
    let all = source@;
    let end = line.len() as int;
    assert forall|k: int| 0 <= k < end implies #[trigger] all[k] != '\n' by {
        assert(all[k] == line[k]);
    }
    lemma_where_a_line_ends(all, 0, end);
    assert(all.subrange(0, end) =~= line);
    assert(all.skip(end + 1) =~= rest@);
    lemma_lines_of_rest(all, end + 1, 0);
    let said = deep(lines@);
    assert(said.len() == lines@.len());
    assert(deep(rest_lines@).len() == rest_lines@.len());
    assert(said[0] == lines@[0]@);
    assert forall|i: int| 0 <= i < rest_lines@.len() implies lines@[i + 1]@ == (
    #[trigger] rest_lines@[i])@ by {
        assert(said[i + 1] == deep(rest_lines@)[i]);
    }
}

/// A text without a newline is one line, as it stands, or none where it is empty.
pub proof fn law_a_text_without_a_newline_is_one_line(source: &str, lines: Vec<Vec<char>>)
    requires
        call_ensures(lines_of, (source,), lines),
        !source@.contains('\n'),
    ensures
        source@.len() == 0 ==> lines@.len() == 0,
        source@.len() > 0 ==> lines@.len() == 1 && lines@[0]@ == source@,
{
    let said = deep(lines@);
    assert(said.len() == lines@.len());
    if source@.len() > 0 {
        lemma_where_a_line_ends(source@, 0, source@.len() as int);
        assert(source@.skip(0) =~= source@);
        assert(said[0] == lines@[0]@);
    }
}

/// A pattern is found where it first stands.
proof fn lemma_found_first(text: Seq<char>, pattern: Seq<char>, start: int, at: int)
    requires
        0 <= start <= at,
        stands_at(text, pattern, at),
        forall|k: int| start <= k < at ==> !#[trigger] stands_at(text, pattern, k),
    ensures
        found_from(text, pattern, start) == Some(at),
    decreases at - start,
{
    if start < at {
        lemma_found_first(text, pattern, start + 1, at);
    }
}

/// A pattern that stands somewhere is found.
proof fn lemma_found_somewhere(text: Seq<char>, pattern: Seq<char>, start: int, at: int)
    requires
        0 <= start <= at,
        stands_at(text, pattern, at),
    ensures
        found_from(text, pattern, start) is Some,
    decreases at - start,
{
    if start < at && !stands_at(text, pattern, start) {
        lemma_found_somewhere(text, pattern, start + 1, at);
    }
}

/// The name at the beginning of a text runs to the first character that does not stand in
/// names.
proof fn lemma_leading_name(name: Seq<char>, rest: Seq<char>)
    requires
        forall|k: int| 0 <= k < name.len() ==> in_name(#[trigger] name[k]),
        rest.len() > 0 ==> !in_name(rest[0]),
    ensures
        leading_name(name + rest) == name,
    decreases name.len(),
{
    let text = name + rest;
    if name.len() > 0 {
        assert(text.drop_first() =~= name.drop_first() + rest);
        lemma_leading_name(name.drop_first(), rest);
        assert(text[0] == name[0]);
        assert(seq![name[0]] + name.drop_first() =~= name);
    } else {
        assert(text =~= rest);
    }
}

/// A text begins with the pattern that is put before it.
proof fn lemma_begins(pattern: Seq<char>, rest: Seq<char>)
    ensures
        begins(pattern + rest, pattern),
        (pattern + rest).skip(pattern.len() as int) == rest,
{
    assert((pattern + rest).subrange(0, pattern.len() as int) =~= pattern);
    assert((pattern + rest).skip(pattern.len() as int) =~= rest);
}

/// A text begins with no pattern that differs from it in a character.
proof fn lemma_does_not_begin(text: Seq<char>, pattern: Seq<char>, at: int)
    requires
        0 <= at < pattern.len(),
        at < text.len() ==> text[at] != pattern[at],
    ensures
        !begins(text, pattern),
{
    if begins(text, pattern) {
        assert(text.subrange(0, pattern.len() as int)[at] == text[at]);
    }
}

/// What stands behind a keyword is declared.
proof fn lemma_keyword(keyword: Seq<char>, name: Seq<char>, rest: Seq<char>)
    requires
        keyword == "struct "@ || keyword == "enum "@,
        name.len() > 0,
        forall|k: int| 0 <= k < name.len() ==> in_name(#[trigger] name[k]),
        rest.len() > 0 ==> !in_name(rest[0]),
    ensures
        !begins(keyword + (name + rest), "pub "@),
        !begins(keyword + (name + rest), "pub("@),
        begins(keyword + (name + rest), "struct "@) <==> keyword == "struct "@,
        begins(keyword + (name + rest), keyword),
        (keyword + (name + rest)).skip(keyword.len() as int) == name + rest,
        leading_name(name + rest) == name,
        keyword.len() == if keyword == "struct "@ {
            7
        } else {
            5int
        },
{
    reveal_strlit("pub ");
    reveal_strlit("pub(");
    reveal_strlit("struct ");
    reveal_strlit("enum ");
    let line = keyword + (name + rest);
    assert(line[0] == keyword[0]);
    lemma_does_not_begin(line, "pub "@, 0);
    lemma_does_not_begin(line, "pub("@, 0);
    lemma_begins(keyword, name + rest);
    if keyword == "enum "@ {
        lemma_does_not_begin(line, "struct "@, 0);
        assert("enum "@[0] != "struct "@[0]);
    }
    lemma_leading_name(name, rest);
}

/// A line that declares a struct or an enum, public, public within bounds or not, gives its
/// name: what stands behind the keyword, to the first character that does not stand in
/// names.
pub proof fn law_a_declaration_gives_its_name(
    line: &Vec<char>,
    visibility: Seq<char>,
    bounds: Seq<char>,
    keyword: Seq<char>,
    declared: Seq<char>,
    rest: Seq<char>,
    name: Option<String>,
)
    requires
        call_ensures(name_declared, (line,), name),
        line@ == visibility + (keyword + (declared + rest)),
        visibility == Seq::<char>::empty() || visibility == "pub "@ || (visibility == "pub("@ + bounds
            + ") "@ && !bounds.contains(')')),
        keyword == "struct "@ || keyword == "enum "@,
        declared.len() > 0,
        forall|k: int|
            0 <= k < declared.len() ==> call_ensures(
                stands_in_name,
                (#[trigger] declared[k],),
                true,
            ),
        rest.len() > 0 ==> call_ensures(stands_in_name, (rest[0],), false),
    ensures
        name matches Some(name) && name@ == declared,
{
    reveal_strlit("pub ");
    reveal_strlit("pub(");
    reveal_strlit(") ");
    let body = keyword + (declared + rest);
    assert forall|k: int| 0 <= k < declared.len() implies in_name(#[trigger] declared[k]) by {
        assert(call_ensures(stands_in_name, (declared[k],), true));
    }
    lemma_keyword(keyword, declared, rest);
    if visibility == Seq::<char>::empty() {
        assert(line@ =~= body);
    } else if visibility == "pub "@ {
        lemma_begins(visibility, body);
    } else {
        let inner = bounds + (") "@ + body);
        assert(line@ =~= "pub("@ + inner);
        lemma_begins("pub("@, inner);
        assert(line@[3] == '(');
        lemma_does_not_begin(line@, "pub "@, 3);
        let at = bounds.len() as int;
        assert(inner.subrange(at, at + 2) =~= ") "@);
        assert forall|k: int| 0 <= k < at implies !#[trigger] stands_at(inner, ") "@, k) by {
            assert(inner[k] == bounds[k]);
            if stands_at(inner, ") "@, k) {
                assert(inner.subrange(k, k + 2)[0] == inner[k]);
                assert(bounds.contains(')'));
            }
        }
        lemma_found_first(inner, ") "@, 0, at);
        assert(inner.skip(at + 2) =~= body);
    }
    assert(without_visibility(line@) == body);
}

/// A line that begins neither with a visibility nor with one of the two keywords declares
/// nothing, nor does a keyword without a name.
pub proof fn law_other_lines_declare_nothing(
    line: &Vec<char>,
    keyword: Seq<char>,
    rest: Seq<char>,
    name: Option<String>,
)
    requires
        call_ensures(name_declared, (line,), name),
        line@.len() == 0 || (line@[0] != 'p' && line@[0] != 's' && line@[0] != 'e') || (line@
            == keyword + rest && (keyword == "struct "@ || keyword == "enum "@) && (rest.len() > 0
            ==> call_ensures(stands_in_name, (rest[0],), false))),
    ensures
        name is None,
{
    reveal_strlit("pub ");
    reveal_strlit("pub(");
    reveal_strlit("struct ");
    reveal_strlit("enum ");
    if line@.len() == 0 || (line@[0] != 'p' && line@[0] != 's' && line@[0] != 'e') {
        lemma_does_not_begin(line@, "pub "@, 0);
        lemma_does_not_begin(line@, "pub("@, 0);
        lemma_does_not_begin(line@, "struct "@, 0);
        lemma_does_not_begin(line@, "enum "@, 0);
    } else {
        assert(line@[0] == keyword[0]);
        lemma_does_not_begin(line@, "pub "@, 0);
        lemma_does_not_begin(line@, "pub("@, 0);
        lemma_begins(keyword, rest);
        if keyword == "enum "@ {
            lemma_does_not_begin(line@, "struct "@, 0);
        }
    }
}

/// Whether a line says `body`, behind nothing but white space.
pub open spec fn indented(line: Seq<char>, body: Seq<char>) -> bool {
    exists|k: int|
        #![trigger line.skip(k)]
        0 <= k <= line.len() && line.skip(k) == body && (forall|j: int|
            0 <= j < k ==> is_space(#[trigger] line[j]))
}

/// White space before a line is taken off it.
proof fn lemma_trimmed_from(line: Seq<char>, k: int)
    requires
        0 <= k <= line.len(),
        forall|j: int| 0 <= j < k ==> is_space(#[trigger] line[j]),
        k < line.len() ==> !is_space(line[k]),
    ensures
        trimmed(line) == line.skip(k),
    decreases k,
{
    if k > 0 {
        let shorter = line.drop_first();
        assert forall|j: int| 0 <= j < k - 1 implies is_space(#[trigger] shorter[j]) by {
            assert(shorter[j] == line[j + 1]);
        }
        lemma_trimmed_from(shorter, k - 1);
        assert(shorter.skip(k - 1) =~= line.skip(k));
    } else {
        assert(line.skip(0) =~= line);
    }
}

/// What is left of a line is what it says behind its white space.
proof fn lemma_trimmed_is_indented(line: Seq<char>)
    ensures
        indented(line, trimmed(line)),
    decreases line.len(),
{
    if line.len() > 0 && is_space(line[0]) {
        let shorter = line.drop_first();
        lemma_trimmed_is_indented(shorter);
        let k = choose|k: int|
            #![trigger shorter.skip(k)]
            0 <= k <= shorter.len() && shorter.skip(k) == trimmed(shorter) && (forall|j: int|
                0 <= j < k ==> is_space(#[trigger] shorter[j]));
        assert(line.skip(k + 1) =~= shorter.skip(k));
        assert forall|j: int| 0 <= j < k + 1 implies is_space(#[trigger] line[j]) by {
            if j > 0 {
                assert(shorter[j - 1] == line[j]);
            }
        }
    } else {
        assert(line.skip(0) =~= line);
    }
}

/// A line that says `body` behind its white space is `body` once it is trimmed.
proof fn lemma_indented_is_trimmed(line: Seq<char>, body: Seq<char>)
    requires
        indented(line, body),
        body.len() > 0 ==> !is_space(body[0]),
    ensures
        trimmed(line) == body,
{
    let k = choose|k: int|
        #![trigger line.skip(k)]
        0 <= k <= line.len() && line.skip(k) == body && (forall|j: int|
            0 <= j < k ==> is_space(#[trigger] line[j]));
    if k < line.len() {
        assert(line.skip(k)[0] == line[k]);
    }
    lemma_trimmed_from(line, k);
}

/// What is found from some line on does not depend on what stands before it.
proof fn lemma_payloads_of_rest(lines: Seq<Seq<char>>, skipped: int, start: int, flagged: bool)
    requires
        0 <= skipped,
        0 <= start,
        skipped + start <= lines.len(),
    ensures
        payloads_from(lines.skip(skipped), start, flagged) == payloads_from(
            lines,
            skipped + start,
            flagged,
        ),
    decreases lines.len() - start,
{
    let rest = lines.skip(skipped);
    if start < rest.len() {
        assert(rest[start] == lines[skipped + start]);
        lemma_payloads_of_rest(lines, skipped, start + 1, true);
        lemma_payloads_of_rest(lines, skipped, start + 1, false);
    }
}

/// A text without white space in front keeps it off when something is put behind it.
proof fn lemma_derive_line(line: Seq<char>, derived: Seq<char>)
    requires
        indented(line, "#[derive("@ + derived),
    ensures
        trimmed(line) == "#[derive("@ + derived,
        begins(trimmed(line), "#[derive("@),
        trimmed(line) != "#[cfg(test)]"@,
{
    reveal_strlit("#[derive(");
    reveal_strlit("#[cfg(test)]");
    let body = "#[derive("@ + derived;
    assert(body[0] == '#');
    assert(body[2] == 'd');
    lemma_indented_is_trimmed(line, body);
    lemma_begins("#[derive("@, derived);
    assert("#[cfg(test)]"@[2] == 'c');
}

/// A type is found where its declaration follows a derive that names `Serialize`, and the
/// scan goes on behind it.
pub proof fn law_a_type_behind_its_derive_is_found(
    source: &str,
    rest: &str,
    lines: Vec<Vec<char>>,
    rest_lines: Vec<Vec<char>>,
    before: Seq<char>,
    after: Seq<char>,
    declaration: &Vec<char>,
    name: String,
    names: Vec<String>,
    rest_names: Vec<String>,
)
    requires
        call_ensures(serialize_structs, (source,), names),
        call_ensures(serialize_structs, (rest,), rest_names),
        call_ensures(lines_of, (source,), lines),
        call_ensures(lines_of, (rest,), rest_lines),
        lines@.len() == 2 + rest_lines@.len(),
        forall|i: int|
            0 <= i < rest_lines@.len() ==> (#[trigger] rest_lines@[i])@ == lines@[i + 2]@,
        indented(lines@[0]@, "#[derive("@ + (before + "Serialize"@ + after)),
        indented(lines@[1]@, declaration@),
        call_ensures(name_declared, (declaration,), Some(name)),
    ensures
        names@.len() == 1 + rest_names@.len(),
        names@[0]@ == name@,
        forall|i: int|
            0 <= i < rest_names@.len() ==> names@[i + 1]@ == (#[trigger] rest_names@[i])@,
{
    let all = deep(lines@);
    assert(all[0] == lines@[0]@ && all[1] == lines@[1]@);
    lemma_same_rest(lines@, rest_lines@, 2);
    let derived = before + "Serialize"@ + after;
    lemma_derive_line(all[0], derived);
    lemma_names_serialize(before, after);
    lemma_declaration_is_no_attribute(declaration@);
    lemma_indented_is_trimmed(all[1], declaration@);
    lemma_payloads_of_rest(all, 2, 0, false);
    let found = names_of(names@);
    assert(payloads_from(all, 0, false) == payloads_from(all, 1, true));
    assert(payloads_from(all, 1, true) == seq![name@] + payloads_from(all, 2, false));
    assert(found == seq![name@] + names_of(rest_names@));
    assert(found.len() == names@.len() && names_of(rest_names@).len() == rest_names@.len());
    assert(found[0] == names@[0]@);
    assert forall|i: int| 0 <= i < rest_names@.len() implies names@[i + 1]@ == (
    #[trigger] rest_names@[i])@ by {
        assert(found[i + 1] == names_of(rest_names@)[i]);
    }
}

/// Lines that are the rest of others say what that rest says.
proof fn lemma_same_rest(lines: Seq<Vec<char>>, rest_lines: Seq<Vec<char>>, skipped: int)
    requires
        0 <= skipped,
        lines.len() == skipped + rest_lines.len(),
        forall|i: int|
            0 <= i < rest_lines.len() ==> (#[trigger] rest_lines[i])@ == lines[i + skipped]@,
    ensures
        deep(lines).skip(skipped) == deep(rest_lines),
{
    assert forall|i: int| 0 <= i < rest_lines.len() implies deep(lines).skip(skipped)[i] == deep(
        rest_lines,
    )[i] by {
        assert(rest_lines[i]@ == lines[i + skipped]@);
    }
    assert(deep(lines).skip(skipped) =~= deep(rest_lines));
}

/// A derive that names `Serialize` is seen to.
proof fn lemma_names_serialize(before: Seq<char>, after: Seq<char>)
    ensures
        found_from("#[derive("@ + (before + "Serialize"@ + after), "Serialize"@, 0) is Some,
{
    let text = "#[derive("@ + (before + "Serialize"@ + after);
    let at = "#[derive("@.len() as int + before.len();
    assert(text.subrange(at, at + "Serialize"@.len()) =~= "Serialize"@);
    lemma_found_somewhere(text, "Serialize"@, 0, at);
}

/// A line that declares a type is no attribute, and has no white space in front.
proof fn lemma_declaration_is_no_attribute(line: Seq<char>)
    requires
        declared_name(line) is Some,
    ensures
        line.len() > 0,
        !is_space(line[0]),
        line != "#[cfg(test)]"@,
        !begins(line, "#["@),
        !begins(line, "#[derive("@),
{
    reveal_strlit("pub ");
    reveal_strlit("pub(");
    reveal_strlit("struct ");
    reveal_strlit("enum ");
    reveal_strlit("#[");
    reveal_strlit("#[derive(");
    reveal_strlit("#[cfg(test)]");
    if begins(line, "pub "@) {
        assert(line.subrange(0, 4)[0] == line[0]);
    } else if begins(line, "pub("@) {
        assert(line.subrange(0, 4)[0] == line[0]);
    } else if begins(line, "struct "@) {
        assert(line.subrange(0, 7)[0] == line[0]);
    } else {
        assert(line.subrange(0, 5)[0] == line[0]);
    }
    lemma_does_not_begin(line, "#["@, 0);
    lemma_does_not_begin(line, "#[derive("@, 0);
}

/// Another attribute between a derive and its type makes no difference.
pub proof fn law_an_attribute_in_between_makes_no_difference(
    source: &str,
    without: &str,
    lines: Vec<Vec<char>>,
    lines_without: Vec<Vec<char>>,
    before: Seq<char>,
    after: Seq<char>,
    attribute: Seq<char>,
    names: Vec<String>,
    names_without: Vec<String>,
)
    requires
        call_ensures(serialize_structs, (source,), names),
        call_ensures(serialize_structs, (without,), names_without),
        call_ensures(lines_of, (source,), lines),
        call_ensures(lines_of, (without,), lines_without),
        lines_without@.len() > 0,
        lines@.len() == 1 + lines_without@.len(),
        lines@[0]@ == lines_without@[0]@,
        forall|i: int|
            1 <= i < lines_without@.len() ==> (#[trigger] lines_without@[i])@ == lines@[i + 1]@,
        indented(lines@[0]@, "#[derive("@ + (before + "Serialize"@ + after)),
        indented(lines@[1]@, "#["@ + attribute),
        attribute.len() > 0,
        attribute[0] != 'd',
        attribute != "cfg(test)]"@,
    ensures
        names_of(names@) == names_of(names_without@),
{
    reveal_strlit("#[");
    reveal_strlit("#[derive(");
    reveal_strlit("#[cfg(test)]");
    reveal_strlit("cfg(test)]");
    let all = deep(lines@);
    let other = deep(lines_without@);
    assert(all[0] == lines@[0]@ && all[1] == lines@[1]@);
    assert(other[0] == lines_without@[0]@);
    assert forall|i: int| 0 <= i < other.len() - 1 implies all.skip(2)[i] == other.skip(1)[i] by {
        assert(lines_without@[i + 1]@ == lines@[i + 2]@);
    }
    assert(all.skip(2) =~= other.skip(1));
    lemma_derive_line(all[0], before + "Serialize"@ + after);
    lemma_names_serialize(before, after);
    let body = "#["@ + attribute;
    assert(body[0] == '#' && body[2] == attribute[0]);
    lemma_indented_is_trimmed(all[1], body);
    lemma_begins("#["@, attribute);
    lemma_does_not_begin(body, "#[derive("@, 2);
    if body == "#[cfg(test)]"@ {
        assert(attribute =~= body.skip(2));
        assert(attribute =~= "cfg(test)]"@);
    }
    lemma_payloads_of_rest(all, 2, 0, true);
    lemma_payloads_of_rest(other, 1, 0, true);
    assert(payloads_from(all, 0, false) == payloads_from(all, 1, true));
    assert(payloads_from(all, 1, true) == payloads_from(all, 2, true));
    assert(payloads_from(other, 0, false) == payloads_from(other, 1, true));
}

/// A line that neither derives nor begins the tests is passed over, as is a derive without
/// `Serialize`, and a derive with it whose next line is neither an attribute nor a
/// declaration.
pub proof fn law_other_lines_are_passed_over(
    source: &str,
    rest: &str,
    lines: Vec<Vec<char>>,
    rest_lines: Vec<Vec<char>>,
    passed: int,
    first: Seq<char>,
    second: &Vec<char>,
    names: Vec<String>,
    rest_names: Vec<String>,
)
    requires
        call_ensures(serialize_structs, (source,), names),
        call_ensures(serialize_structs, (rest,), rest_names),
        call_ensures(lines_of, (source,), lines),
        call_ensures(lines_of, (rest,), rest_lines),
        passed == 1 || passed == 2,
        lines@.len() == passed + rest_lines@.len(),
        forall|i: int|
            0 <= i < rest_lines@.len() ==> (#[trigger] rest_lines@[i])@ == lines@[i + passed]@,
        passed == 1 ==> indented(lines@[0]@, first) && (first.len() > 0 ==> first[0] != '#'
            && !is_space(first[0])) || (indented(
            lines@[0]@,
            "#[derive("@ + first,
        ) && forall|k: int|
            #![trigger ("#[derive("@ + first).skip(k)]
            0 <= k <= 9 + first.len() ==> !("Serialize"@).is_prefix_of(
                ("#[derive("@ + first).skip(k),
            )),
        passed == 2 ==> indented(lines@[0]@, "#[derive("@ + first) && indented(
            lines@[1]@,
            second@,
        ) && (second@.len() > 0 ==> second@[0] != '#' && !is_space(second@[0]))
            && call_ensures(name_declared, (second,), None),
    ensures
        names_of(names@) == names_of(rest_names@),
{
    reveal_strlit("#[");
    reveal_strlit("#[derive(");
    reveal_strlit("#[cfg(test)]");
    reveal_strlit("Serialize");
    let all = deep(lines@);
    assert(all[0] == lines@[0]@);
    lemma_same_rest(lines@, rest_lines@, passed);
    lemma_payloads_of_rest(all, passed, 0, false);
    if passed == 2 {
        assert(all[1] == lines@[1]@);
        lemma_derive_line(all[0], first);
        lemma_indented_is_trimmed(all[1], second@);
        lemma_does_not_begin(second@, "#["@, 0);
        lemma_does_not_begin(second@, "#[derive("@, 0);
        assert(payloads_from(all, 1, true) == payloads_from(all, 2, false));
        assert(payloads_from(all, 1, false) == payloads_from(all, 2, false));
    } else if indented(all[0], first) && (first.len() > 0 ==> first[0] != '#' && !is_space(
        first[0],
    )) {
        lemma_indented_is_trimmed(all[0], first);
        lemma_does_not_begin(first, "#[derive("@, 0);
    } else {
        lemma_derive_line(all[0], first);
        let body = "#[derive("@ + first;
        lemma_found_stands(body, "Serialize"@, 0);
        if found_from(body, "Serialize"@, 0) is Some {
            let at = found_from(body, "Serialize"@, 0)->0;
            assert(body.skip(at).subrange(0, 9) =~= body.subrange(at, at + 9));
            assert(("Serialize"@).is_prefix_of(body.skip(at)));
        }
        assert(payloads_from(all, 0, false) == payloads_from(all, 1, false));
    }
}

/// Nothing is found from the line on where the tests begin.
pub proof fn law_the_tests_end_the_scan(
    source: &str,
    lines: Vec<Vec<char>>,
    names: Vec<String>,
)
    requires
        call_ensures(serialize_structs, (source,), names),
        call_ensures(lines_of, (source,), lines),
        lines@.len() == 0 || indented(lines@[0]@, "#[cfg(test)]"@),
    ensures
        names@.len() == 0,
{
    reveal_strlit("#[cfg(test)]");
    let all = deep(lines@);
    if lines@.len() > 0 {
        assert(all[0] == lines@[0]@);
        lemma_indented_is_trimmed(all[0], "#[cfg(test)]"@);
    }
    assert(names_of(names@).len() == names@.len());
}

/// Two lines that begin tests are counted twice.
proof fn lemma_two_modules(lines: Seq<Seq<char>>, count: nat, i: int, j: int)
    requires
        0 <= i < j < count,
        trimmed(lines[i]) == "#[cfg(test)]"@,
        trimmed(lines[j]) == "#[cfg(test)]"@,
    ensures
        test_modules(lines, count) >= 2,
    decreases count,
{
    if j < count - 1 {
        lemma_two_modules(lines, (count - 1) as nat, i, j);
    } else {
        lemma_one_module(lines, (count - 1) as nat, i);
    }
}

/// A line that begins tests is counted.
proof fn lemma_one_module(lines: Seq<Seq<char>>, count: nat, i: int)
    requires
        0 <= i < count,
        trimmed(lines[i]) == "#[cfg(test)]"@,
    ensures
        test_modules(lines, count) >= 1,
    decreases count,
{
    if i < count - 1 {
        lemma_one_module(lines, (count - 1) as nat, i);
    }
}

/// What is counted more than once stands on two lines.
proof fn lemma_modules_stand_somewhere(lines: Seq<Seq<char>>, count: nat) -> (at: (int, int))
    ensures
        test_modules(lines, count) >= 1 ==> 0 <= at.1 < count && trimmed(lines[at.1])
            == "#[cfg(test)]"@,
        test_modules(lines, count) >= 2 ==> 0 <= at.0 < at.1 && trimmed(lines[at.0])
            == "#[cfg(test)]"@,
    decreases count,
{
    if count == 0 {
        (0, 0)
    } else {
        let before = lemma_modules_stand_somewhere(lines, (count - 1) as nat);
        if trimmed(lines[count - 1]) == "#[cfg(test)]"@ {
            (before.1, count - 1)
        } else {
            before
        }
    }
}

/// The first name that is not known is the one that is named.
proof fn lemma_first_stray(
    names: Seq<Seq<char>>,
    covered: Seq<&str>,
    exempt: Seq<(&str, &str)>,
    start: int,
    i: int,
)
    requires
        0 <= start <= i <= names.len(),
        forall|k: int| 0 <= k < i ==> known(covered, exempt, #[trigger] names[k]),
        i < names.len() ==> !known(covered, exempt, names[i]),
    ensures
        i < names.len() ==> first_stray(names, covered, exempt, start) == Some(names[i]),
        i == names.len() ==> first_stray(names, covered, exempt, start) is None,
    decreases i - start,
{
    if start < i {
        lemma_first_stray(names, covered, exempt, start + 1, i);
    }
}

/// A file passes that has a type to cover, at most one module of tests, and each of its
/// types either covered or exempt; of one that does not, the first fault is told: that it
/// has several modules of tests, that it has no type, or its first type that is neither.
pub proof fn law_a_file_passes_where_it_is_covered(
    what: &str,
    source: &str,
    covered: &[&str],
    exempt: &[(&str, &str)],
    verdict: Result<(), String>,
    names: Vec<String>,
    lines: Vec<Vec<char>>,
    i: int,
)
    requires
        call_ensures(assert_payload_coverage, (what, source, covered, exempt), verdict),
        call_ensures(serialize_structs, (source,), names),
        call_ensures(lines_of, (source,), lines),
    ensures
        ({
            let several = exists|a: int, b: int|
                0 <= a < b < lines@.len() && indented((#[trigger] lines@[a])@, "#[cfg(test)]"@)
                    && indented((#[trigger] lines@[b])@, "#[cfg(test)]"@);
            let pinned = |name: Seq<char>|
                (exists|k: int| 0 <= k < covered@.len() && (#[trigger] covered@[k])@ == name)
                    || (exists|k: int|
                    0 <= k < exempt@.len() && (#[trigger] exempt@[k]).0@ == name);
            &&& verdict is Ok <==> !several && names@.len() > 0 && forall|k: int|
                0 <= k < names@.len() ==> pinned((#[trigger] names@[k])@)
            &&& several ==> (verdict matches Err(fault) && (what@ + ": "@).is_prefix_of(fault@)
                && fault@.len() > what@.len() + 2 && '0' <= fault@[what@.len() as int + 2] <= '9')
            &&& !several && names@.len() == 0 ==> (verdict matches Err(fault) && fault@ == what@
                + ": extracted no Serialize structs. Has the attribute or the struct keyword been reshaped? An empty set agrees with any list."@)
            &&& !several && 0 <= i < names@.len() && !pinned(names@[i]@) && (forall|k: int|
                0 <= k < i ==> pinned((#[trigger] names@[k])@)) ==> (verdict matches Err(fault)
                && fault@ == what@ + ": `"@ + names@[i]@
                + "` derives Serialize and no test pins its keys. Add it to the key table, or to the exempt list with a reason. This is `I-67`: a payload key is reachable by no other guard in this repository."@)
        }),
{
    reveal_strlit("#[cfg(test)]");
    reveal_strlit(": ");
    let several = exists|a: int, b: int|
        0 <= a < b < lines@.len() && indented((#[trigger] lines@[a])@, "#[cfg(test)]"@)
            && indented((#[trigger] lines@[b])@, "#[cfg(test)]"@);
    let pinned = |name: Seq<char>|
        (exists|k: int| 0 <= k < covered@.len() && (#[trigger] covered@[k])@ == name) || (exists|
            k: int,
        |
            0 <= k < exempt@.len() && (#[trigger] exempt@[k]).0@ == name);
    let all = deep(lines@);
    let said = names_of(names@);
    let modules = test_modules(all, all.len());
    assert(all.len() == lines@.len() && said.len() == names@.len());
    assert(said == payloads(source@));
    assert(several <==> modules > 1) by {
        if several {
            let (a, b) = choose|a: int, b: int|
                0 <= a < b < lines@.len() && indented((#[trigger] lines@[a])@, "#[cfg(test)]"@)
                    && indented((#[trigger] lines@[b])@, "#[cfg(test)]"@);
            assert(all[a] == lines@[a]@ && all[b] == lines@[b]@);
            lemma_indented_is_trimmed(all[a], "#[cfg(test)]"@);
            lemma_indented_is_trimmed(all[b], "#[cfg(test)]"@);
            lemma_two_modules(all, all.len(), a, b);
        }
        if modules > 1 {
            let at = lemma_modules_stand_somewhere(all, all.len());
            lemma_trimmed_is_indented(all[at.0]);
            lemma_trimmed_is_indented(all[at.1]);
            assert(all[at.0] == lines@[at.0]@ && all[at.1] == lines@[at.1]@);
        }
    }
    assert forall|k: int| 0 <= k < names@.len() implies pinned((#[trigger] names@[k])@) == known(
        covered@,
        exempt@,
        said[k],
    ) by {
        assert(said[k] == names@[k]@);
    }
    if several {
        text::lemma_decimal_says_its_number(modules);
        let fault = verdict->Err_0@;
        assert(fault.subrange(0, (what@ + ": "@).len() as int) =~= what@ + ": "@);
        assert(fault[what@.len() as int + 2] == text::decimal(modules)[0]);
    } else if names@.len() > 0 {
        if forall|k: int| 0 <= k < names@.len() ==> pinned((#[trigger] names@[k])@) {
            assert forall|k: int| 0 <= k < said.len() implies known(
                covered@,
                exempt@,
                #[trigger] said[k],
            ) by {
                assert(pinned(names@[k]@));
            }
            lemma_first_stray(said, covered@, exempt@, 0, said.len() as int);
        }
        if verdict is Ok {
            assert forall|k: int| 0 <= k < names@.len() implies pinned(
                (#[trigger] names@[k])@,
            ) by {
                lemma_no_stray(said, covered@, exempt@, 0, k);
            }
        }
        if 0 <= i < names@.len() && !pinned(names@[i]@) && (forall|k: int|
            0 <= k < i ==> pinned((#[trigger] names@[k])@)) {
            assert forall|k: int| 0 <= k < i implies known(
                covered@,
                exempt@,
                #[trigger] said[k],
            ) by {
                assert(pinned(names@[k]@));
            }
            assert(said[i] == names@[i]@);
            lemma_first_stray(said, covered@, exempt@, 0, i);
        }
    }
}

/// Of two texts that come one after the other, the first is the beginning of the second, or
/// has the lesser character where they first differ.
proof fn lemma_order_by_characters(a: Seq<char>, b: Seq<char>) -> (at: int)
    requires
        no_later(a, b),
    ensures
        0 <= at <= a.len(),
        at <= b.len(),
        a.take(at) == b.take(at),
        at == a.len() || (at < b.len() && a[at] < b[at]),
    decreases a.len(),
{
    if a.len() > 0 && b.len() > 0 && a[0] == b[0] {
        let rest = lemma_order_by_characters(a.drop_first(), b.drop_first());
        assert forall|k: int| 0 <= k < rest + 1 implies a[k] == b[k] by {
            if k > 0 {
                assert(a.drop_first().take(rest)[k - 1] == a[k]);
                assert(b.drop_first().take(rest)[k - 1] == b[k]);
            }
        }
        assert(a.take(rest + 1) =~= b.take(rest + 1));
        rest + 1
    } else {
        assert(a.take(0) =~= b.take(0));
        0
    }
}

/// The keys of an object are the names of its members, each as often as it occurs, and in
/// alphabetical order: of two that follow each other the first is the beginning of the
/// second, or has the lesser character where they first differ. What is no object has none.
pub proof fn law_the_keys_are_the_names_in_order(
    value: &Json,
    keys: Option<Vec<String>>,
    i: int,
    j: int,
)
    requires
        call_ensures(keys_of, (value,), keys),
    ensures
        keys is Some <==> value.model() is Object,
        keys is Some ==> {
            let members = value.model()->Object_0;
            let found = keys->0@;
            &&& Seq::new(found.len(), |k: int| found[k]@).to_multiset() == Seq::new(
                members.len(),
                |k: int| members[k].0,
            ).to_multiset()
            &&& 0 <= i < j < found.len() ==> exists|at: int|
                0 <= at <= found[i]@.len() && at <= found[j]@.len() && #[trigger] found[i]@.take(at)
                    == found[j]@.take(at) && (at == found[i]@.len() || (at < found[j]@.len()
                    && found[i]@[at] < found[j]@[at]))
        },
{
    if keys is Some {
        let found = keys->0@;
        let members = value.model()->Object_0;
        assert(names_of(found) =~= Seq::new(found.len(), |k: int| found[k]@));
        assert(member_names(members) =~= Seq::new(members.len(), |k: int| members[k].0));
        if 0 <= i < j < found.len() {
            let order = text_order();
            assert(order(names_of(found)[i], names_of(found)[j]));
            let at = lemma_order_by_characters(found[i]@, found[j]@);
            assert(found[i]@.take(at) == found[j]@.take(at));
        }
    }
}

/// A payload passes that is an object with exactly the keys that are expected, each as often
/// as it is expected and in any order; of one that does not, what is wrong is told.
pub proof fn law_a_payload_passes_with_its_keys(
    what: &str,
    value: &Json,
    expected: &[&str],
    verdict: Result<(), String>,
)
    requires
        call_ensures(assert_keys, (what, value, expected), verdict),
    ensures
        verdict is Ok <==> (value.model() matches JsonModel::Object(members) && Seq::new(
            members.len(),
            |k: int| members[k].0,
        ).to_multiset() == Seq::new(expected@.len(), |k: int| expected@[k]@).to_multiset()),
        !(value.model() is Object) ==> (verdict matches Err(fault) && fault@
            == "a payload must serialize to a JSON object"@),
        value.model() is Object && verdict is Err ==> (verdict->Err_0)@ == what@
            + " does not serialize to the keys the frontend reads"@,
{
    assert(spoken(expected@) =~= Seq::new(expected@.len(), |k: int| expected@[k]@));
    if value.model() is Object {
        let members = value.model()->Object_0;
        assert(member_names(members) =~= Seq::new(members.len(), |k: int| members[k].0));
    }
}

} // verus!
