//! JSON documents: what the catalogue of texts is read from, and what the pages
//! are told.

use vstd::prelude::*;
use crate::text;
use crate::text::{push_decimal, push_signed};

verus! {

/// A JSON document.
#[derive(Debug, PartialEq, Eq)]
pub enum Json {
    Null,
    Bool(bool),
    /// A number, as it is written.
    Number(String),
    Text(String),
    List(Vec<Json>),
    /// The members, by name.
    Object(Vec<(String, Json)>),
}

/// What a JSON document says.
#[verifier::ext_equal]
pub ghost enum JsonModel {
    Null,
    Bool(bool),
    Number(Seq<char>),
    Text(Seq<char>),
    List(Seq<JsonModel>),
    Object(Seq<(Seq<char>, JsonModel)>),
}

impl Json {
    /// What the document says.
    pub open spec fn model(self) -> JsonModel
        decreases self,
    {
        match self {
            Json::Null => JsonModel::Null,
            Json::Bool(flag) => JsonModel::Bool(flag),
            Json::Number(number) => JsonModel::Number(number@),
            Json::Text(text) => JsonModel::Text(text@),
            Json::List(items) => JsonModel::List(
                Seq::new(
                    items@.len(),
                    |i: int|
                        if 0 <= i < items@.len() {
                            items@[i].model()
                        } else {
                            JsonModel::Null
                        },
                ),
            ),
            Json::Object(members) => JsonModel::Object(
                Seq::new(
                    members@.len(),
                    |i: int|
                        if 0 <= i < members@.len() {
                            (members@[i].0@, members@[i].1.model())
                        } else {
                            (Seq::empty(), JsonModel::Null)
                        },
                ),
            ),
        }
    }
}

/// `serde_json`'s own tree of a document.
#[verifier::external_type_specification]
#[verifier::external_body]
pub struct ExValue(serde_json::Value);

/// What a `serde_json::Value` holds.
pub uninterp spec fn json_model(value: serde_json::Value) -> JsonModel;

/// What `serde_json::from_str` reads a text as; nothing where it refuses it.
pub uninterp spec fn json_document(text: Seq<char>) -> Option<JsonModel>;

/// Reads a text as a JSON document.
///
/// Calls `serde_json::from_str` for a `serde_json::Value`. What it accepts, and
/// what it makes of it, depends on the text alone and is known by its name.
#[verifier::external_body]
fn parse_value(text: &str) -> (value: Option<serde_json::Value>)
    ensures
        match value {
            Some(value) => json_document(text@) == Some(json_model(value)),
            None => json_document(text@) is None,
        },
{
    serde_json::from_str::<serde_json::Value>(text).ok()
}

/// Takes a `serde_json::Value` apart, variant by variant.
///
/// A number is taken as its `Display` writes it, and the members of a
/// `serde_json::Map` as its `into_iter` hands them out, which is in the order of
/// their names. What the tree then says is what the value holds.
#[verifier::external_body]
fn json_of(value: serde_json::Value) -> (json: Json)
    ensures
        json.model() == json_model(value),
{
    match value {
        serde_json::Value::Null => Json::Null,
        serde_json::Value::Bool(flag) => Json::Bool(flag),
        serde_json::Value::Number(number) => Json::Number(number.to_string()),
        serde_json::Value::String(text) => Json::Text(text),
        serde_json::Value::Array(items) => Json::List(items.into_iter().map(json_of).collect()),
        serde_json::Value::Object(members) => Json::Object(
            members.into_iter().map(|(name, member)| (name, json_of(member))).collect(),
        ),
    }
}

/// Reads a text as a JSON document, if it is one.
pub fn read_json(text: &str) -> (json: Option<Json>)
    ensures
        match json {
            Some(json) => json_document(text@) == Some(json.model()),
            None => json_document(text@) is None,
        },
{
    match parse_value(text) {
        Some(value) => Some(json_of(value)),
        None => None,
    }
}

/// A member of an object by its name: the first of that name.
pub open spec fn member_from(
    members: Seq<(Seq<char>, JsonModel)>,
    name: Seq<char>,
    start: int,
) -> Option<JsonModel>
    decreases members.len() - start,
{
    if start < 0 || start >= members.len() {
        None
    } else if members[start].0 == name {
        Some(members[start].1)
    } else {
        member_from(members, name, start + 1)
    }
}

/// A member of a document by its name; nothing for what is no object.
pub open spec fn member_of(document: JsonModel, name: Seq<char>) -> Option<JsonModel> {
    match document {
        JsonModel::Object(members) => member_from(members, name, 0),
        _ => None,
    }
}

/// A member of a document by its name.
pub fn member<'a>(document: &'a Json, name: &str) -> (found: Option<&'a Json>)
    ensures
        match found {
            Some(found) => member_of(document.model(), name@) == Some(found.model()),
            None => member_of(document.model(), name@) is None,
        },
{
    match document {
        Json::Object(members) => {
            let mut i: usize = 0;
            while i < members.len()
                invariant
                    i <= members.len(),
                    *document == Json::Object(*members),
                    member_of(document.model(), name@) == member_from(
                        document.model()->Object_0,
                        name@,
                        i as int,
                    ),
                decreases members.len() - i,
            {
                assert(document.model()->Object_0[i as int] == (
                    members@[i as int].0@,
                    members@[i as int].1.model(),
                ));
                if crate::text::same_text(&members[i].0, name) {
                    return Some(&members[i].1);
                }
                i += 1;
            }
            None
        },
        _ => None,
    }
}

// ---------------------------------------------------------------------------
// Documents for the pages.
// ---------------------------------------------------------------------------

/// What a list of documents says.
pub open spec fn items_model(items: Seq<Json>) -> Seq<JsonModel> {
    Seq::new(items.len(), |i: int| items[i].model())
}

/// What the members of an object say.
pub open spec fn members_model(members: Seq<(String, Json)>) -> Seq<(Seq<char>, JsonModel)> {
    Seq::new(members.len(), |i: int| (members[i].0@, members[i].1.model()))
}

/// A number as a document.
pub open spec fn number_model(n: int) -> JsonModel {
    JsonModel::Number(text::signed_decimal(n))
}

/// A number that may be missing, as a document.
pub open spec fn optional_number(n: Option<u64>) -> JsonModel {
    match n {
        Some(n) => number_model(n as int),
        None => JsonModel::Null,
    }
}

/// An index that may be missing, as a document.
pub open spec fn optional_index(n: Option<usize>) -> JsonModel {
    match n {
        Some(n) => number_model(n as int),
        None => JsonModel::Null,
    }
}

/// A rectangle as a document: a list of its four numbers.
pub open spec fn rect_model(rect: (i32, i32, u32, u32)) -> JsonModel {
    JsonModel::List(
        seq![
            number_model(rect.0 as int),
            number_model(rect.1 as int),
            number_model(rect.2 as int),
            number_model(rect.3 as int),
        ],
    )
}

/// An unsigned number as a document.
pub fn number(n: u64) -> (json: Json)
    ensures
        json.model() == number_model(n as int),
{
    let mut digits = String::new();
    push_decimal(&mut digits, n as u128);
    assert(digits@ =~= text::decimal(n as nat));
    Json::Number(digits)
}

/// A signed number as a document.
pub fn signed(n: i64) -> (json: Json)
    ensures
        json.model() == number_model(n as int),
{
    let mut digits = String::new();
    push_signed(&mut digits, n);
    assert(digits@ =~= text::signed_decimal(n as int));
    Json::Number(digits)
}

/// A number that may be missing, as a document.
pub fn maybe_number(n: Option<u64>) -> (json: Json)
    ensures
        json.model() == optional_number(n),
{
    match n {
        Some(n) => number(n),
        None => Json::Null,
    }
}

/// An index that may be missing, as a document.
pub fn maybe_index(n: Option<usize>) -> (json: Json)
    ensures
        json.model() == optional_index(n),
{
    match n {
        Some(n) => number(n as u64),
        None => Json::Null,
    }
}

/// A text as a document.
pub fn words(text: &str) -> (json: Json)
    ensures
        json.model() == JsonModel::Text(text@),
{
    Json::Text(text.to_owned())
}

/// A list of documents.
pub fn list(items: Vec<Json>) -> (json: Json)
    ensures
        json.model() == JsonModel::List(items_model(items@)),
{
    let json = Json::List(items);
    assert(json.model()->List_0 =~= items_model(items@));
    json
}

/// An object with these members.
pub fn object(members: Vec<(String, Json)>) -> (json: Json)
    ensures
        json.model() == JsonModel::Object(members_model(members@)),
{
    let json = Json::Object(members);
    assert(json.model()->Object_0 =~= members_model(members@));
    json
}

/// Adds a document to a list.
pub fn push_item(items: &mut Vec<Json>, item: Json)
    ensures
        items_model(final(items)@) == items_model(old(items)@).push(item.model()),
{
    items.push(item);
    assert(items_model(items@) =~= items_model(old(items)@).push(item.model()));
}

/// Adds a member to those of an object.
pub fn push_member(members: &mut Vec<(String, Json)>, name: &str, value: Json)
    ensures
        members_model(final(members)@) == members_model(old(members)@).push((name@, value.model())),
{
    members.push((name.to_owned(), value));
    assert(members_model(members@) =~= members_model(old(members)@).push((name@, value.model())));
}

/// A rectangle as a document: a list of its four numbers.
pub fn rect_list(rect: (i32, i32, u32, u32)) -> (json: Json)
    ensures
        json.model() == rect_model(rect),
{
    let mut items: Vec<Json> = Vec::new();
    push_item(&mut items, signed(rect.0 as i64));
    push_item(&mut items, signed(rect.1 as i64));
    push_item(&mut items, number(rect.2 as u64));
    push_item(&mut items, number(rect.3 as u64));
    assert(items_model(items@) =~= rect_model(rect)->List_0);
    list(items)
}

// ---------------------------------------------------------------------------
// Laws.
// ---------------------------------------------------------------------------

/// A number as a document says the number, in digits, with a sign where it is
/// negative.
pub proof fn law_a_number_is_written_in_digits(n: u64, unsigned: Json, m: i64, signed_json: Json)
    requires
        call_ensures(number, (n,), unsigned),
        call_ensures(signed, (m,), signed_json),
    ensures
        unsigned.model() matches JsonModel::Number(digits) && text::all_digits(digits)
            && text::number_said(digits) == n,
        signed_json.model() matches JsonModel::Number(digits) && if m < 0 {
            digits.len() > 1 && digits[0] == '-' && text::all_digits(digits.skip(1))
                && text::number_said(digits.skip(1)) == -m
        } else {
            text::all_digits(digits) && text::number_said(digits) == m
        },
{
    text::lemma_decimal_says_its_number(n as nat);
    if m < 0 {
        text::lemma_decimal_says_its_number((-m) as nat);
        assert(text::signed_decimal(m as int).skip(1) =~= text::decimal((-m) as nat));
    } else {
        text::lemma_decimal_says_its_number(m as nat);
    }
}

/// What is missing is null, and what is there is not.
pub proof fn law_what_is_missing_is_null(
    n: Option<u64>,
    number: Json,
    i: Option<usize>,
    index: Json,
)
    requires
        call_ensures(maybe_number, (n,), number),
        call_ensures(maybe_index, (i,), index),
    ensures
        n is None <==> number.model() == JsonModel::Null,
        i is None <==> index.model() == JsonModel::Null,
        n is Some ==> (number.model() matches JsonModel::Number(digits) && text::number_said(digits)
            == n->0),
        i is Some ==> (index.model() matches JsonModel::Number(digits) && text::number_said(digits)
            == i->0),
{
    if n is Some {
        text::lemma_decimal_says_its_number(n->0 as nat);
    }
    if i is Some {
        text::lemma_decimal_says_its_number(i->0 as nat);
    }
}

/// A rectangle is a list of its numbers in their order, each written as it is alone.
pub proof fn law_a_rectangle_is_four_numbers(
    rect: (i32, i32, u32, u32),
    json: Json,
    left: Json,
    top: Json,
    width: Json,
    height: Json,
)
    requires
        call_ensures(rect_list, (rect,), json),
        call_ensures(signed, (rect.0 as i64,), left),
        call_ensures(signed, (rect.1 as i64,), top),
        call_ensures(number, (rect.2 as u64,), width),
        call_ensures(number, (rect.3 as u64,), height),
    ensures
        json.model() matches JsonModel::List(items) && items == seq![
            left.model(),
            top.model(),
            width.model(),
            height.model(),
        ],
{
}

/// A member is found under its name: the first that has it, and none where no member
/// has it.
pub proof fn law_a_member_is_found_by_its_name(
    document: &Json,
    name: &str,
    found: Option<&Json>,
    i: int,
)
    requires
        call_ensures(member, (document, name), found),
        document.model() is Object,
        0 <= i < document.model()->Object_0.len(),
        document.model()->Object_0[i].0 == name@,
        forall|k: int| 0 <= k < i ==> (#[trigger] document.model()->Object_0[k]).0 != name@,
    ensures
        found matches Some(found) && found.model() == document.model()->Object_0[i].1,
{
    lemma_member_from(document.model()->Object_0, name@, 0, i);
}

/// The first member of a name is the one that is found.
proof fn lemma_member_from(
    members: Seq<(Seq<char>, JsonModel)>,
    name: Seq<char>,
    start: int,
    i: int,
)
    requires
        0 <= start <= i < members.len(),
        members[i].0 == name,
        forall|k: int| 0 <= k < i ==> (#[trigger] members[k]).0 != name,
    ensures
        member_from(members, name, start) == Some(members[i].1),
    decreases i - start,
{
    if start < i {
        lemma_member_from(members, name, start + 1, i);
    }
}

/// No member is found where none has the name, nor in what is no object.
pub proof fn law_no_member_is_made_up(document: &Json, name: &str, found: Option<&Json>)
    requires
        call_ensures(member, (document, name), found),
        document.model() matches JsonModel::Object(members) ==> forall|k: int|
            0 <= k < members.len() ==> (#[trigger] members[k]).0 != name@,
    ensures
        found is None,
{
    if document.model() is Object {
        lemma_no_member_from(document.model()->Object_0, name@, 0);
    }
}

/// A name that no member has finds none.
proof fn lemma_no_member_from(members: Seq<(Seq<char>, JsonModel)>, name: Seq<char>, start: int)
    requires
        0 <= start <= members.len(),
        forall|k: int| 0 <= k < members.len() ==> (#[trigger] members[k]).0 != name,
    ensures
        member_from(members, name, start) is None,
    decreases members.len() - start,
{
    if start < members.len() {
        lemma_no_member_from(members, name, start + 1);
    }
}

/// A text as a document says the text.
pub proof fn law_words_are_said_as_they_are(text: &str, json: Json)
    requires
        call_ensures(words, (text,), json),
    ensures
        json.model() == JsonModel::Text(text@),
{
}

/// A list holds the documents it was made of, in their order.
pub proof fn law_a_list_holds_its_items(items: Vec<Json>, json: Json, i: int)
    requires
        call_ensures(list, (items,), json),
    ensures
        json.model() matches JsonModel::List(said) && said.len() == items@.len() && (0 <= i
            < items@.len() ==> said[i] == items@[i].model()),
{
}

/// An object holds the members it was made of, each under its name.
pub proof fn law_an_object_holds_its_members(members: Vec<(String, Json)>, json: Json, i: int)
    requires
        call_ensures(object, (members,), json),
    ensures
        json.model() matches JsonModel::Object(said) && said.len() == members@.len() && (0 <= i
            < members@.len() ==> said[i].0 == members@[i].0@ && said[i].1
            == members@[i].1.model()),
{
}

/// What is added comes last, and what was there stays.
pub proof fn law_what_is_added_comes_last(
    items: &mut Vec<Json>,
    item: Json,
    members: &mut Vec<(String, Json)>,
    name: &str,
    value: Json,
    i: int,
)
    requires
        call_ensures(push_item, (items, item), ()),
        call_ensures(push_member, (members, name, value), ()),
    ensures
        final(items)@.len() == old(items)@.len() + 1,
        final(items)@.last().model() == item.model(),
        0 <= i < old(items)@.len() ==> final(items)@[i].model() == old(items)@[i].model(),
        final(members)@.len() == old(members)@.len() + 1,
        final(members)@.last().0@ == name@,
        final(members)@.last().1.model() == value.model(),
        0 <= i < old(members)@.len() ==> final(members)@[i].0@ == old(members)@[i].0@
            && final(members)@[i].1.model() == old(members)@[i].1.model(),
{
    let after = items_model(final(items)@);
    assert(after.len() == final(items)@.len());
    assert(items_model(old(items)@).len() == old(items)@.len());
    assert(after[old(items)@.len() as int] == item.model());
    if 0 <= i < old(items)@.len() {
        assert(after[i] == items_model(old(items)@)[i]);
    }
    let held = members_model(final(members)@);
    assert(held.len() == final(members)@.len());
    assert(members_model(old(members)@).len() == old(members)@.len());
    assert(held[old(members)@.len() as int] == (name@, value.model()));
    if 0 <= i < old(members)@.len() {
        assert(held[i] == members_model(old(members)@)[i]);
    }
}

/// A text is read as what the reader makes of it, and refused exactly where the reader does;
/// two texts that are the same are read as the same document.
pub proof fn law_the_same_text_is_the_same_document(
    text: &str,
    json: Option<Json>,
    other: &str,
    other_json: Option<Json>,
)
    requires
        call_ensures(read_json, (text,), json),
        call_ensures(read_json, (other,), other_json),
    ensures
        json is Some <==> json_document(text@) is Some,
        json is Some ==> Some(json->0.model()) == json_document(text@),
        text@ == other@ ==> (json is Some <==> other_json is Some),
        text@ == other@ && json is Some ==> json->0.model() == other_json->0.model(),
{
}

} // verus!
