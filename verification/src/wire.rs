//! What goes to the pages: each payload as a document, under the keys the pages
//! read it by.
//!
//! Every key is its field's own name but one: the page reads `chromeOnly`.

use vstd::prelude::*;
use crate::json::{list, maybe_index, maybe_number, number, object, push_item, push_member,
    rect_list, signed, words, Json, JsonModel};
use crate::json;
use crate::menu::{ChildMenuView, MenuItemView, MenuPayload, MenuView};
use crate::overlay::{ActiveMonitorPayload, AreaPayload, AreasPayload, FlashPayload, HoverPayload,
    PinPayload, StatePayload, Still};
use crate::poll::SelectionPayload;
use crate::settings::{FreezeCovers, HandLaunchState, HeldPictureQuality, Language, Settings};
use crate::settings_window::Facts;

verus! {

/// A text that may be missing, as a document.
pub open spec fn optional_text(text: Option<Seq<char>>) -> JsonModel {
    match text {
        Some(text) => JsonModel::Text(text),
        None => JsonModel::Null,
    }
}

/// A name that may be missing, by what it says.
pub open spec fn said(name: Option<&'static str>) -> Option<Seq<char>> {
    match name {
        Some(name) => Some(name@),
        None => None,
    }
}

/// A name that may be missing, as a document.
fn maybe_words(name: Option<&'static str>) -> (json: Json)
    ensures
        json.model() == optional_text(said(name)),
{
    match name {
        Some(name) => words(name),
        None => Json::Null,
    }
}

/// A text that may be missing, by what it says.
pub open spec fn spoken(text: Option<String>) -> Option<Seq<char>> {
    match text {
        Some(text) => Some(text@),
        None => None,
    }
}

/// A text that may be missing, as a document.
fn maybe_text(text: &Option<String>) -> (json: Json)
    ensures
        json.model() == optional_text(spoken(*text)),
{
    match text {
        Some(text) => words(text),
        None => Json::Null,
    }
}

/// A rectangle that may be missing, as a document.
pub open spec fn optional_rect(rect: Option<(i32, i32, u32, u32)>) -> JsonModel {
    match rect {
        Some(rect) => json::rect_model(rect),
        None => JsonModel::Null,
    }
}

/// A rectangle that may be missing, as a document.
fn maybe_rect(rect: Option<(i32, i32, u32, u32)>) -> (json: Json)
    ensures
        json.model() == optional_rect(rect),
{
    match rect {
        Some(rect) => rect_list(rect),
        None => Json::Null,
    }
}

/// A pair of numbers as a document.
pub open spec fn pair_model(a: int, b: int) -> JsonModel {
    JsonModel::List(seq![json::number_model(a), json::number_model(b)])
}

/// A pair of numbers as a document.
fn pair(a: i64, b: i64) -> (json: Json)
    ensures
        json.model() == pair_model(a as int, b as int),
{
    let mut items: Vec<Json> = Vec::new();
    push_item(&mut items, signed(a));
    push_item(&mut items, signed(b));
    assert(json::items_model(items@) =~= pair_model(a as int, b as int)->List_0);
    list(items)
}

// ---------------------------------------------------------------------------
// The selection and what is hovered.
// ---------------------------------------------------------------------------

impl SelectionPayload {
    /// The rectangle a drag shows, for the page.
    pub open spec fn document(self) -> JsonModel {
        JsonModel::Object(
            seq![
                ("rect"@, optional_rect(self.rect)),
                ("source"@, json::optional_number(self.source)),
                ("probe"@, json::optional_number(self.probe)),
            ],
        )
    }

    /// The rectangle a drag shows, for the page.
    pub fn to_json(&self) -> (json: Json)
        ensures
            json.model() == self.document(),
    {
        let mut members: Vec<(String, Json)> = Vec::new();
        push_member(&mut members, "rect", maybe_rect(self.rect));
        push_member(&mut members, "source", maybe_number(self.source));
        push_member(&mut members, "probe", maybe_number(self.probe));
        assert(json::members_model(members@) =~= self.document()->Object_0);
        object(members)
    }
}

impl HoverPayload {
    /// What is hovered, for the page.
    pub open spec fn document(self) -> JsonModel {
        JsonModel::Object(
            seq![
                ("id"@, json::optional_number(self.id)),
                ("chromeOnly"@, JsonModel::Bool(self.chrome_only)),
            ],
        )
    }

    /// What is hovered, for the page.
    pub fn to_json(&self) -> (json: Json)
        ensures
            json.model() == self.document(),
    {
        let mut members: Vec<(String, Json)> = Vec::new();
        push_member(&mut members, "id", maybe_number(self.id));
        push_member(&mut members, "chromeOnly", Json::Bool(self.chrome_only));
        assert(json::members_model(members@) =~= self.document()->Object_0);
        object(members)
    }
}

impl ActiveMonitorPayload {
    /// The monitor the pointer is on, for the page.
    pub open spec fn document(self) -> JsonModel {
        JsonModel::Object(
            seq![
                ("index"@, json::optional_index(self.index)),
            ],
        )
    }

    /// The monitor the pointer is on, for the page.
    pub fn to_json(&self) -> (json: Json)
        ensures
            json.model() == self.document(),
    {
        let mut members: Vec<(String, Json)> = Vec::new();
        push_member(&mut members, "index", maybe_index(self.index));
        assert(json::members_model(members@) =~= self.document()->Object_0);
        object(members)
    }
}

// ---------------------------------------------------------------------------
// The menu.
// ---------------------------------------------------------------------------

impl MenuItemView {
    /// A row of the menu, for the page.
    pub open spec fn document(self) -> JsonModel {
        JsonModel::Object(
            seq![
                ("rect"@, json::rect_model(self.rect)),
                ("label"@, JsonModel::Text(self.label@)),
                ("checked"@, JsonModel::Bool(self.checked)),
                ("parent"@, JsonModel::Bool(self.parent)),
            ],
        )
    }

    /// A row of the menu, for the page.
    pub fn to_json(&self) -> (json: Json)
        ensures
            json.model() == self.document(),
    {
        let mut members: Vec<(String, Json)> = Vec::new();
        push_member(&mut members, "rect", rect_list(self.rect));
        push_member(&mut members, "label", words(self.label));
        push_member(&mut members, "checked", Json::Bool(self.checked));
        push_member(&mut members, "parent", Json::Bool(self.parent));
        assert(json::members_model(members@) =~= self.document()->Object_0);
        object(members)
    }
}

/// The rows of a list, for the page.
pub open spec fn items_model(items: Seq<MenuItemView>) -> JsonModel {
    JsonModel::List(Seq::new(items.len(), |i: int| items[i].document()))
}

/// The rows of a list, for the page.
fn item_list(items: &Vec<MenuItemView>) -> (json: Json)
    ensures
        json.model() == items_model(items@),
{
    let mut documents: Vec<Json> = Vec::new();
    let mut i: usize = 0;
    assert(json::items_model(documents@) =~= items_model(items@.take(0))->List_0);
    while i < items.len()
        invariant
            i <= items.len(),
            json::items_model(documents@) == items_model(items@.take(i as int))->List_0,
        decreases items.len() - i,
    {
        push_item(&mut documents, items[i].to_json());
        i += 1;
        assert(json::items_model(documents@) =~= items_model(items@.take(i as int))->List_0);
    }
    assert(items@.take(i as int) =~= items@);
    list(documents)
}

impl ChildMenuView {
    /// The child list, for the page.
    pub open spec fn document(self) -> JsonModel {
        JsonModel::Object(
            seq![
                ("rect"@, json::rect_model(self.rect)),
                ("items"@, items_model(self.items@)),
                ("hovered"@, json::optional_index(self.hovered)),
                ("owner"@, json::number_model(self.owner as int)),
            ],
        )
    }

    /// The child list, for the page.
    pub fn to_json(&self) -> (json: Json)
        ensures
            json.model() == self.document(),
    {
        let mut members: Vec<(String, Json)> = Vec::new();
        push_member(&mut members, "rect", rect_list(self.rect));
        push_member(&mut members, "items", item_list(&self.items));
        push_member(&mut members, "hovered", maybe_index(self.hovered));
        push_member(&mut members, "owner", number(self.owner as u64));
        assert(json::members_model(members@) =~= self.document()->Object_0);
        object(members)
    }
}

/// The child list that may be open, for the page.
pub open spec fn optional_child(child: Option<ChildMenuView>) -> JsonModel {
    match child {
        Some(child) => child.document(),
        None => JsonModel::Null,
    }
}

/// The child list that may be open, for the page.
fn maybe_child(child: &Option<ChildMenuView>) -> (json: Json)
    ensures
        json.model() == optional_child(*child),
{
    match child {
        Some(child) => child.to_json(),
        None => Json::Null,
    }
}

impl MenuView {
    /// The menu, for the page.
    pub open spec fn document(self) -> JsonModel {
        JsonModel::Object(
            seq![
                ("rect"@, json::rect_model(self.rect)),
                ("items"@, items_model(self.items@)),
                ("hovered"@, json::optional_index(self.hovered)),
                ("child"@, optional_child(self.child)),
            ],
        )
    }

    /// The menu, for the page.
    pub fn to_json(&self) -> (json: Json)
        ensures
            json.model() == self.document(),
    {
        let mut members: Vec<(String, Json)> = Vec::new();
        push_member(&mut members, "rect", rect_list(self.rect));
        push_member(&mut members, "items", item_list(&self.items));
        push_member(&mut members, "hovered", maybe_index(self.hovered));
        push_member(&mut members, "child", maybe_child(&self.child));
        assert(json::members_model(members@) =~= self.document()->Object_0);
        object(members)
    }
}

/// The menu that may be open, for the page.
pub open spec fn optional_menu(menu: Option<MenuView>) -> JsonModel {
    match menu {
        Some(menu) => menu.document(),
        None => JsonModel::Null,
    }
}

/// The menu that may be open, for the page.
fn maybe_menu(menu: &Option<MenuView>) -> (json: Json)
    ensures
        json.model() == optional_menu(*menu),
{
    match menu {
        Some(menu) => menu.to_json(),
        None => Json::Null,
    }
}

impl MenuPayload {
    /// What the page is told about the menu.
    pub open spec fn document(self) -> JsonModel {
        JsonModel::Object(
            seq![
                ("menu"@, optional_menu(self.menu)),
            ],
        )
    }

    /// What the page is told about the menu.
    pub fn to_json(&self) -> (json: Json)
        ensures
            json.model() == self.document(),
    {
        let mut members: Vec<(String, Json)> = Vec::new();
        push_member(&mut members, "menu", maybe_menu(&self.menu));
        assert(json::members_model(members@) =~= self.document()->Object_0);
        object(members)
    }
}

// ---------------------------------------------------------------------------
// The state and the areas.
// ---------------------------------------------------------------------------

/// Some rectangles, for the page.
pub open spec fn rects_model(items: Seq<(i32, i32, u32, u32)>) -> JsonModel {
    JsonModel::List(Seq::new(items.len(), |i: int| json::rect_model(items[i])))
}

/// Some rectangles, for the page.
fn rects_list(items: &Vec<(i32, i32, u32, u32)>) -> (json: Json)
    ensures
        json.model() == rects_model(items@),
{
    let mut documents: Vec<Json> = Vec::new();
    let mut i: usize = 0;
    assert(json::items_model(documents@) =~= rects_model(items@.take(0))->List_0);
    while i < items.len()
        invariant
            i <= items.len(),
            json::items_model(documents@) == rects_model(items@.take(i as int))->List_0,
        decreases items.len() - i,
    {
        push_item(&mut documents, rect_list(items[i]));
        i += 1;
        assert(json::items_model(documents@) =~= rects_model(items@.take(i as int))->List_0);
    }
    assert(items@.take(i as int) =~= items@);
    list(documents)
}

/// A still, for the page: its four numbers and its address.
pub open spec fn still_model(still: Still) -> JsonModel {
    JsonModel::List(
        seq![
            json::number_model(still.rect.0 as int),
            json::number_model(still.rect.1 as int),
            json::number_model(still.rect.2 as int),
            json::number_model(still.rect.3 as int),
            JsonModel::Text(still.url@),
        ],
    )
}

/// A still, for the page.
fn still_list(still: &Still) -> (json: Json)
    ensures
        json.model() == still_model(*still),
{
    let mut items: Vec<Json> = Vec::new();
    push_item(&mut items, signed(still.rect.0 as i64));
    push_item(&mut items, signed(still.rect.1 as i64));
    push_item(&mut items, number(still.rect.2 as u64));
    push_item(&mut items, number(still.rect.3 as u64));
    push_item(&mut items, words(&still.url));
    assert(json::items_model(items@) =~= still_model(*still)->List_0);
    list(items)
}

/// The stills, for the page.
pub open spec fn stills_model(items: Seq<Still>) -> JsonModel {
    JsonModel::List(Seq::new(items.len(), |i: int| still_model(items[i])))
}

/// The stills, for the page.
fn stills_list(items: &Vec<Still>) -> (json: Json)
    ensures
        json.model() == stills_model(items@),
{
    let mut documents: Vec<Json> = Vec::new();
    let mut i: usize = 0;
    assert(json::items_model(documents@) =~= stills_model(items@.take(0))->List_0);
    while i < items.len()
        invariant
            i <= items.len(),
            json::items_model(documents@) == stills_model(items@.take(i as int))->List_0,
        decreases items.len() - i,
    {
        push_item(&mut documents, still_list(&items[i]));
        i += 1;
        assert(json::items_model(documents@) =~= stills_model(items@.take(i as int))->List_0);
    }
    assert(items@.take(i as int) =~= items@);
    list(documents)
}

impl StatePayload {
    /// The state, for the page.
    pub open spec fn document(self) -> JsonModel {
        JsonModel::Object(
            seq![
                ("state"@, JsonModel::Text(self.state@)),
                ("origin"@, pair_model(self.origin.0 as int, self.origin.1 as int)),
                ("monitors"@, rects_model(self.monitors@)),
                ("armed"@, optional_text(said(self.armed))),
                ("frozen"@, JsonModel::Bool(self.frozen)),
                ("stills"@, stills_model(self.stills@)),
                ("freeze_probe"@, json::optional_number(self.freeze_probe)),
            ],
        )
    }

    /// The state, for the page.
    pub fn to_json(&self) -> (json: Json)
        ensures
            json.model() == self.document(),
    {
        let mut members: Vec<(String, Json)> = Vec::new();
        push_member(&mut members, "state", words(self.state));
        push_member(&mut members, "origin", pair(self.origin.0 as i64, self.origin.1 as i64));
        push_member(&mut members, "monitors", rects_list(&self.monitors));
        push_member(&mut members, "armed", maybe_words(self.armed));
        push_member(&mut members, "frozen", Json::Bool(self.frozen));
        push_member(&mut members, "stills", stills_list(&self.stills));
        push_member(&mut members, "freeze_probe", maybe_number(self.freeze_probe));
        assert(json::members_model(members@) =~= self.document()->Object_0);
        object(members)
    }
}

impl AreaPayload {
    /// An area, for the page.
    pub open spec fn document(self) -> JsonModel {
        JsonModel::Object(
            seq![
                ("id"@, json::number_model(self.id as int)),
                ("rect"@, json::rect_model(self.rect)),
                ("close"@, json::rect_model(self.close)),
                ("layer"@, JsonModel::Text(self.layer@)),
                ("kind"@, JsonModel::Text(self.kind@)),
            ],
        )
    }

    /// An area, for the page.
    pub fn to_json(&self) -> (json: Json)
        ensures
            json.model() == self.document(),
    {
        let mut members: Vec<(String, Json)> = Vec::new();
        push_member(&mut members, "id", number(self.id));
        push_member(&mut members, "rect", rect_list(self.rect));
        push_member(&mut members, "close", rect_list(self.close));
        push_member(&mut members, "layer", words(self.layer));
        push_member(&mut members, "kind", words(self.kind));
        assert(json::members_model(members@) =~= self.document()->Object_0);
        object(members)
    }
}

/// Some areas, for the page.
pub open spec fn areas_model(items: Seq<AreaPayload>) -> JsonModel {
    JsonModel::List(Seq::new(items.len(), |i: int| items[i].document()))
}

/// Some areas, for the page.
fn area_list(items: &Vec<AreaPayload>) -> (json: Json)
    ensures
        json.model() == areas_model(items@),
{
    let mut documents: Vec<Json> = Vec::new();
    let mut i: usize = 0;
    assert(json::items_model(documents@) =~= areas_model(items@.take(0))->List_0);
    while i < items.len()
        invariant
            i <= items.len(),
            json::items_model(documents@) == areas_model(items@.take(i as int))->List_0,
        decreases items.len() - i,
    {
        push_item(&mut documents, items[i].to_json());
        i += 1;
        assert(json::items_model(documents@) =~= areas_model(items@.take(i as int))->List_0);
    }
    assert(items@.take(i as int) =~= items@);
    list(documents)
}

impl AreasPayload {
    /// The areas, for the page.
    pub open spec fn document(self) -> JsonModel {
        JsonModel::Object(
            seq![
                ("areas"@, areas_model(self.areas@)),
            ],
        )
    }

    /// The areas, for the page.
    pub fn to_json(&self) -> (json: Json)
        ensures
            json.model() == self.document(),
    {
        let mut members: Vec<(String, Json)> = Vec::new();
        push_member(&mut members, "areas", area_list(&self.areas));
        assert(json::members_model(members@) =~= self.document()->Object_0);
        object(members)
    }
}

impl FlashPayload {
    /// An acknowledgement, for the page.
    pub open spec fn document(self) -> JsonModel {
        JsonModel::Object(
            seq![
                ("id"@, json::number_model(self.id as int)),
                ("nonce"@, json::number_model(self.nonce as int)),
            ],
        )
    }

    /// An acknowledgement, for the page.
    pub fn to_json(&self) -> (json: Json)
        ensures
            json.model() == self.document(),
    {
        let mut members: Vec<(String, Json)> = Vec::new();
        push_member(&mut members, "id", number(self.id));
        push_member(&mut members, "nonce", number(self.nonce));
        assert(json::members_model(members@) =~= self.document()->Object_0);
        object(members)
    }
}

impl PinPayload {
    /// Where an area's picture is, for the page.
    pub open spec fn document(self) -> JsonModel {
        JsonModel::Object(
            seq![
                ("id"@, json::number_model(self.id as int)),
                ("url"@, JsonModel::Text(self.url@)),
            ],
        )
    }

    /// Where an area's picture is, for the page.
    pub fn to_json(&self) -> (json: Json)
        ensures
            json.model() == self.document(),
    {
        let mut members: Vec<(String, Json)> = Vec::new();
        push_member(&mut members, "id", number(self.id));
        push_member(&mut members, "url", words(&self.url));
        assert(json::members_model(members@) =~= self.document()->Object_0);
        object(members)
    }
}

// ---------------------------------------------------------------------------
// The settings.
// ---------------------------------------------------------------------------

impl Settings {
    /// The settings, for their page.
    pub open spec fn document(self) -> JsonModel {
        JsonModel::Object(
            seq![
                ("start_with_windows"@, JsonModel::Bool(self.start_with_windows)),
                ("hand_launch_state"@, JsonModel::Text(self.hand_launch_state.word_text())),
                ("save_directory"@, optional_text(spoken(self.save_directory))),
                (
                    "leave_placing_after_screenshot"@,
                    JsonModel::Bool(self.leave_placing_after_screenshot),
                ),
                ("auto_save_screenshots"@, JsonModel::Bool(self.auto_save_screenshots)),
                ("freeze_covers"@, JsonModel::Text(self.freeze_covers.word_text())),
                ("held_picture_quality"@, JsonModel::Text(self.held_picture_quality.word_text())),
                ("show_in_screen_recordings"@, JsonModel::Bool(self.show_in_screen_recordings)),
                ("area_opacity_percent"@, json::number_model(self.area_opacity_percent as int)),
                (
                    "filter_strength_percent"@,
                    json::number_model(self.filter_strength_percent as int),
                ),
                ("language"@, JsonModel::Text(self.language.word_text())),
            ],
        )
    }

    /// The settings, for their page.
    pub fn to_json(&self) -> (json: Json)
        ensures
            json.model() == self.document(),
    {
        let mut members: Vec<(String, Json)> = Vec::new();
        push_member(&mut members, "start_with_windows", Json::Bool(self.start_with_windows));
        push_member(&mut members, "hand_launch_state", words(self.hand_launch_state.word()));
        push_member(&mut members, "save_directory", maybe_text(&self.save_directory));
        push_member(
            &mut members,
            "leave_placing_after_screenshot",
            Json::Bool(self.leave_placing_after_screenshot),
        );
        push_member(&mut members, "auto_save_screenshots", Json::Bool(self.auto_save_screenshots));
        push_member(&mut members, "freeze_covers", words(self.freeze_covers.word()));
        push_member(&mut members, "held_picture_quality", words(self.held_picture_quality.word()));
        push_member(
            &mut members,
            "show_in_screen_recordings",
            Json::Bool(self.show_in_screen_recordings),
        );
        push_member(&mut members, "area_opacity_percent", number(self.area_opacity_percent as u64));
        push_member(
            &mut members,
            "filter_strength_percent",
            number(self.filter_strength_percent as u64),
        );
        push_member(&mut members, "language", words(self.language.word()));
        assert(json::members_model(members@) =~= self.document()->Object_0);
        object(members)
    }
}

impl Facts {
    /// What the settings page shows but cannot change.
    pub open spec fn document(self) -> JsonModel {
        JsonModel::Object(
            seq![
                ("summon_hotkey"@, JsonModel::Text(self.summon_hotkey@)),
                ("grab_hotkey"@, JsonModel::Text(self.grab_hotkey@)),
                ("default_save_directory"@, JsonModel::Text(self.default_save_directory@)),
                ("autostart_registered"@, JsonModel::Bool(self.autostart_registered)),
                (
                    "opacity_range"@,
                    pair_model(self.opacity_range.0 as int, self.opacity_range.1 as int),
                ),
                (
                    "filter_range"@,
                    pair_model(self.filter_range.0 as int, self.filter_range.1 as int),
                ),
                ("system_language"@, JsonModel::Text(self.system_language@)),
            ],
        )
    }

    /// What the settings page shows but cannot change.
    pub fn to_json(&self) -> (json: Json)
        ensures
            json.model() == self.document(),
    {
        let mut members: Vec<(String, Json)> = Vec::new();
        push_member(&mut members, "summon_hotkey", words(&self.summon_hotkey));
        push_member(&mut members, "grab_hotkey", words(&self.grab_hotkey));
        push_member(&mut members, "default_save_directory", words(&self.default_save_directory));
        push_member(&mut members, "autostart_registered", Json::Bool(self.autostart_registered));
        push_member(
            &mut members,
            "opacity_range",
            pair(self.opacity_range.0 as i64, self.opacity_range.1 as i64),
        );
        push_member(
            &mut members,
            "filter_range",
            pair(self.filter_range.0 as i64, self.filter_range.1 as i64),
        );
        push_member(&mut members, "system_language", words(&self.system_language));
        assert(json::members_model(members@) =~= self.document()->Object_0);
        object(members)
    }
}

// ---------------------------------------------------------------------------
// Laws.
// ---------------------------------------------------------------------------

/// Whether a page that reads `key` of a document reads `value`.
pub open spec fn tells(json: Json, key: Seq<char>, value: JsonModel) -> bool {
    json.model() matches JsonModel::Object(members) && members.contains((key, value))
}

/// A list with a text put behind what it holds.
pub open spec fn with_address(list: JsonModel, address: Seq<char>) -> JsonModel {
    JsonModel::List(list->List_0.push(JsonModel::Text(address)))
}

/// Whether a document has this many members.
pub open spec fn has_members(json: Json, count: nat) -> bool {
    json.model() matches JsonModel::Object(members) && members.len() == count
}

/// The page reads the rectangle under `rect`, the area it belongs to under `source` and the
/// probe under `probe`, and nothing else.
pub proof fn law_a_selection_tells_its_rectangle(
    payload: &SelectionPayload,
    json: Json,
    rect: Json,
    source: Json,
    probe: Json,
)
    requires
        call_ensures(SelectionPayload::to_json, (payload,), json),
        payload.rect is Some ==> call_ensures(rect_list, (payload.rect->0,), rect),
        payload.rect is None ==> rect.model() == JsonModel::Null,
        call_ensures(maybe_number, (payload.source,), source),
        call_ensures(maybe_number, (payload.probe,), probe),
    ensures
        has_members(json, 3),
        tells(json, "rect"@, rect.model()),
        tells(json, "source"@, source.model()),
        tells(json, "probe"@, probe.model()),
{
    let members = json.model()->Object_0;
    assert(members[0].0 == "rect"@);
    assert(members[1].0 == "source"@);
    assert(members[2].0 == "probe"@);
}

/// The page reads the area that is hovered under `id`, and under `chromeOnly` whether only its
/// frame takes the pointer.
pub proof fn law_what_is_hovered_is_told(
    payload: &HoverPayload,
    json: Json,
    id: Json,
)
    requires
        call_ensures(HoverPayload::to_json, (payload,), json),
        call_ensures(maybe_number, (payload.id,), id),
    ensures
        has_members(json, 2),
        tells(json, "id"@, id.model()),
        tells(json, "chromeOnly"@, JsonModel::Bool(payload.chrome_only)),
{
    let members = json.model()->Object_0;
    assert(members[0].0 == "id"@);
    assert(members[1].0 == "chromeOnly"@);
}

/// The page reads the monitor the pointer is on under `index`.
pub proof fn law_the_active_monitor_is_told(
    payload: &ActiveMonitorPayload,
    json: Json,
    index: Json,
)
    requires
        call_ensures(ActiveMonitorPayload::to_json, (payload,), json),
        call_ensures(maybe_index, (payload.index,), index),
    ensures
        has_members(json, 1),
        tells(json, "index"@, index.model()),
{
    let members = json.model()->Object_0;
    assert(members[0].0 == "index"@);
}

/// The page reads where a row is, what it says, whether it is ticked and whether it opens a
/// list, each under its own name.
pub proof fn law_a_row_tells_what_it_shows(
    payload: &MenuItemView,
    json: Json,
    rect: Json,
)
    requires
        call_ensures(MenuItemView::to_json, (payload,), json),
        call_ensures(rect_list, (payload.rect,), rect),
    ensures
        has_members(json, 4),
        tells(json, "rect"@, rect.model()),
        tells(json, "label"@, JsonModel::Text(payload.label@)),
        tells(json, "checked"@, JsonModel::Bool(payload.checked)),
        tells(json, "parent"@, JsonModel::Bool(payload.parent)),
{
    let members = json.model()->Object_0;
    assert(members[0].0 == "rect"@);
    assert(members[1].0 == "label"@);
    assert(members[2].0 == "checked"@);
    assert(members[3].0 == "parent"@);
}

/// The page reads where the child list is, its rows in their order, the one that is hovered
/// and the row it belongs to.
pub proof fn law_a_child_list_tells_its_rows(
    payload: &ChildMenuView,
    json: Json,
    rect: Json,
    items: Seq<Json>,
    hovered: Json,
    owner: Json,
)
    requires
        call_ensures(ChildMenuView::to_json, (payload,), json),
        call_ensures(rect_list, (payload.rect,), rect),
        items.len() == payload.items@.len(),
        forall|i: int|
            0 <= i < items.len() ==> call_ensures(
                MenuItemView::to_json,
                (&payload.items@[i],),
                #[trigger] items[i],
            ),
        call_ensures(maybe_index, (payload.hovered,), hovered),
        call_ensures(number, (payload.owner as u64,), owner),
    ensures
        has_members(json, 4),
        tells(json, "rect"@, rect.model()),
        tells(json, "items"@, JsonModel::List(Seq::new(items.len(), |i: int| items[i].model()))),
        tells(json, "hovered"@, hovered.model()),
        tells(json, "owner"@, owner.model()),
{
    let members = json.model()->Object_0;
    assert(members[0].0 == "rect"@);
    assert(items_model(payload.items@)->List_0 =~= Seq::new(
        items.len(),
        |i: int| items[i].model(),
    ));
    assert(members[1].0 == "items"@);
    assert(members[2].0 == "hovered"@);
    assert(members[3].0 == "owner"@);
}

/// The page reads where the menu is, its rows in their order, the one that is hovered and the
/// child list, if one is open.
pub proof fn law_a_menu_tells_its_rows(
    payload: &MenuView,
    json: Json,
    rect: Json,
    items: Seq<Json>,
    hovered: Json,
    child: Json,
)
    requires
        call_ensures(MenuView::to_json, (payload,), json),
        call_ensures(rect_list, (payload.rect,), rect),
        items.len() == payload.items@.len(),
        forall|i: int|
            0 <= i < items.len() ==> call_ensures(
                MenuItemView::to_json,
                (&payload.items@[i],),
                #[trigger] items[i],
            ),
        call_ensures(maybe_index, (payload.hovered,), hovered),
        payload.child is Some ==> call_ensures(ChildMenuView::to_json, (&payload.child->0,), child),
        payload.child is None ==> child.model() == JsonModel::Null,
    ensures
        has_members(json, 4),
        tells(json, "rect"@, rect.model()),
        tells(json, "items"@, JsonModel::List(Seq::new(items.len(), |i: int| items[i].model()))),
        tells(json, "hovered"@, hovered.model()),
        tells(json, "child"@, child.model()),
{
    let members = json.model()->Object_0;
    assert(members[0].0 == "rect"@);
    assert(items_model(payload.items@)->List_0 =~= Seq::new(
        items.len(),
        |i: int| items[i].model(),
    ));
    assert(members[1].0 == "items"@);
    assert(members[2].0 == "hovered"@);
    assert(members[3].0 == "child"@);
}

/// The page reads the menu under `menu`, and null where none is open.
pub proof fn law_the_menu_is_told(
    payload: &MenuPayload,
    json: Json,
    menu: Json,
)
    requires
        call_ensures(MenuPayload::to_json, (payload,), json),
        payload.menu is Some ==> call_ensures(MenuView::to_json, (&payload.menu->0,), menu),
        payload.menu is None ==> menu.model() == JsonModel::Null,
    ensures
        has_members(json, 1),
        tells(json, "menu"@, menu.model()),
{
    let members = json.model()->Object_0;
    assert(members[0].0 == "menu"@);
}

/// The page reads the state, the origin, the monitors, what is armed, whether the screen is
/// frozen, the stills and the probe of the freeze, each under its own name.
pub proof fn law_the_state_is_told(
    payload: &StatePayload,
    json: Json,
    origin_first: Json,
    origin_second: Json,
    monitors: Seq<Json>,
    stills: Seq<Json>,
    freeze_probe: Json,
)
    requires
        call_ensures(StatePayload::to_json, (payload,), json),
        call_ensures(signed, (payload.origin.0 as i64,), origin_first),
        call_ensures(signed, (payload.origin.1 as i64,), origin_second),
        monitors.len() == payload.monitors@.len(),
        forall|i: int|
            0 <= i < monitors.len() ==> call_ensures(
                rect_list,
                (payload.monitors@[i],),
                #[trigger] monitors[i],
            ),
        stills.len() == payload.stills@.len(),
        forall|i: int|
            0 <= i < stills.len() ==> call_ensures(
                rect_list,
                (payload.stills@[i].rect,),
                #[trigger] stills[i],
            ),
        call_ensures(maybe_number, (payload.freeze_probe,), freeze_probe),
    ensures
        has_members(json, 7),
        tells(json, "state"@, JsonModel::Text(payload.state@)),
        tells(json, "origin"@, JsonModel::List(seq![origin_first.model(), origin_second.model()])),
        tells(
            json,
            "monitors"@,
            JsonModel::List(Seq::new(monitors.len(), |i: int| monitors[i].model())),
        ),
        payload.armed is None ==> tells(json, "armed"@, JsonModel::Null),
        payload.armed is Some ==> tells(json, "armed"@, JsonModel::Text((payload.armed->0)@)),
        tells(json, "frozen"@, JsonModel::Bool(payload.frozen)),
        tells(
            json,
            "stills"@,
            JsonModel::List(
                Seq::new(
                    stills.len(),
                    |i: int| with_address(stills[i].model(), payload.stills@[i].url@),
                ),
            ),
        ),
        tells(json, "freeze_probe"@, freeze_probe.model()),
{
    let members = json.model()->Object_0;
    assert(members[0].0 == "state"@);
    assert(members[1].0 == "origin"@);
    assert(rects_model(payload.monitors@)->List_0 =~= Seq::new(
        monitors.len(),
        |i: int| monitors[i].model(),
    ));
    assert(members[2].0 == "monitors"@);
    assert(members[3].0 == "armed"@);
    assert(members[4].0 == "frozen"@);
    assert forall|i: int| 0 <= i < stills.len() implies still_model(payload.stills@[i])
        == with_address((#[trigger] stills[i]).model(), payload.stills@[i].url@) by {
        assert(still_model(payload.stills@[i])->List_0 =~= stills[i].model()->List_0.push(
            JsonModel::Text(payload.stills@[i].url@),
        ));
    }
    assert(stills_model(payload.stills@)->List_0 =~= Seq::new(
        stills.len(),
        |i: int| with_address(stills[i].model(), payload.stills@[i].url@),
    ));
    assert(members[5].0 == "stills"@);
    assert(members[6].0 == "freeze_probe"@);
}

/// The page reads which area it is, where it and its close control are, its layer and its
/// type, each under its own name.
pub proof fn law_an_area_tells_what_it_is(
    payload: &AreaPayload,
    json: Json,
    id: Json,
    rect: Json,
    close: Json,
)
    requires
        call_ensures(AreaPayload::to_json, (payload,), json),
        call_ensures(number, (payload.id as u64,), id),
        call_ensures(rect_list, (payload.rect,), rect),
        call_ensures(rect_list, (payload.close,), close),
    ensures
        has_members(json, 5),
        tells(json, "id"@, id.model()),
        tells(json, "rect"@, rect.model()),
        tells(json, "close"@, close.model()),
        tells(json, "layer"@, JsonModel::Text(payload.layer@)),
        tells(json, "kind"@, JsonModel::Text(payload.kind@)),
{
    let members = json.model()->Object_0;
    assert(members[0].0 == "id"@);
    assert(members[1].0 == "rect"@);
    assert(members[2].0 == "close"@);
    assert(members[3].0 == "layer"@);
    assert(members[4].0 == "kind"@);
}

/// The page reads every area under `areas`, in their order.
pub proof fn law_every_area_is_told(
    payload: &AreasPayload,
    json: Json,
    areas: Seq<Json>,
)
    requires
        call_ensures(AreasPayload::to_json, (payload,), json),
        areas.len() == payload.areas@.len(),
        forall|i: int|
            0 <= i < areas.len() ==> call_ensures(
                AreaPayload::to_json,
                (&payload.areas@[i],),
                #[trigger] areas[i],
            ),
    ensures
        has_members(json, 1),
        tells(json, "areas"@, JsonModel::List(Seq::new(areas.len(), |i: int| areas[i].model()))),
{
    let members = json.model()->Object_0;
    assert(areas_model(payload.areas@)->List_0 =~= Seq::new(
        areas.len(),
        |i: int| areas[i].model(),
    ));
    assert(members[0].0 == "areas"@);
}

/// The page reads the area under `id` and which acknowledgement it is under `nonce`.
pub proof fn law_an_acknowledgement_names_its_area(
    payload: &FlashPayload,
    json: Json,
    id: Json,
    nonce: Json,
)
    requires
        call_ensures(FlashPayload::to_json, (payload,), json),
        call_ensures(number, (payload.id as u64,), id),
        call_ensures(number, (payload.nonce as u64,), nonce),
    ensures
        has_members(json, 2),
        tells(json, "id"@, id.model()),
        tells(json, "nonce"@, nonce.model()),
{
    let members = json.model()->Object_0;
    assert(members[0].0 == "id"@);
    assert(members[1].0 == "nonce"@);
}

/// The page reads the area under `id` and where its picture is under `url`.
pub proof fn law_a_picture_names_its_area(
    payload: &PinPayload,
    json: Json,
    id: Json,
)
    requires
        call_ensures(PinPayload::to_json, (payload,), json),
        call_ensures(number, (payload.id as u64,), id),
    ensures
        has_members(json, 2),
        tells(json, "id"@, id.model()),
        tells(json, "url"@, JsonModel::Text(payload.url@)),
{
    let members = json.model()->Object_0;
    assert(members[0].0 == "id"@);
    assert(members[1].0 == "url"@);
}

/// The settings page reads every setting under its own name.
pub proof fn law_every_setting_is_told(
    payload: &Settings,
    json: Json,
    hand_launch_state: &'static str,
    freeze_covers: &'static str,
    held_picture_quality: &'static str,
    area_opacity_percent: Json,
    filter_strength_percent: Json,
    language: &'static str,
)
    requires
        call_ensures(Settings::to_json, (payload,), json),
        call_ensures(HandLaunchState::word, (payload.hand_launch_state,), hand_launch_state),
        call_ensures(FreezeCovers::word, (payload.freeze_covers,), freeze_covers),
        call_ensures(
            HeldPictureQuality::word,
            (payload.held_picture_quality,),
            held_picture_quality,
        ),
        call_ensures(number, (payload.area_opacity_percent as u64,), area_opacity_percent),
        call_ensures(number, (payload.filter_strength_percent as u64,), filter_strength_percent),
        call_ensures(Language::word, (payload.language,), language),
    ensures
        has_members(json, 11),
        tells(json, "start_with_windows"@, JsonModel::Bool(payload.start_with_windows)),
        tells(json, "hand_launch_state"@, JsonModel::Text(hand_launch_state@)),
        payload.save_directory is None ==> tells(json, "save_directory"@, JsonModel::Null),
        payload.save_directory is Some ==> tells(json, "save_directory"@, JsonModel::Text((payload.save_directory->0)@)),
        tells(json, "leave_placing_after_screenshot"@, JsonModel::Bool(payload.leave_placing_after_screenshot)),
        tells(json, "auto_save_screenshots"@, JsonModel::Bool(payload.auto_save_screenshots)),
        tells(json, "freeze_covers"@, JsonModel::Text(freeze_covers@)),
        tells(json, "held_picture_quality"@, JsonModel::Text(held_picture_quality@)),
        tells(json, "show_in_screen_recordings"@, JsonModel::Bool(payload.show_in_screen_recordings)),
        tells(json, "area_opacity_percent"@, area_opacity_percent.model()),
        tells(json, "filter_strength_percent"@, filter_strength_percent.model()),
        tells(json, "language"@, JsonModel::Text(language@)),
{
    let members = json.model()->Object_0;
    assert(members[0].0 == "start_with_windows"@);
    assert(members[1].0 == "hand_launch_state"@);
    assert(members[2].0 == "save_directory"@);
    assert(members[3].0 == "leave_placing_after_screenshot"@);
    assert(members[4].0 == "auto_save_screenshots"@);
    assert(members[5].0 == "freeze_covers"@);
    assert(members[6].0 == "held_picture_quality"@);
    assert(members[7].0 == "show_in_screen_recordings"@);
    assert(members[8].0 == "area_opacity_percent"@);
    assert(members[9].0 == "filter_strength_percent"@);
    assert(members[10].0 == "language"@);
}

/// The settings page reads every fact under its own name.
pub proof fn law_every_fact_is_told(
    payload: &Facts,
    json: Json,
    opacity_range_first: Json,
    opacity_range_second: Json,
    filter_range_first: Json,
    filter_range_second: Json,
)
    requires
        call_ensures(Facts::to_json, (payload,), json),
        call_ensures(signed, (payload.opacity_range.0 as i64,), opacity_range_first),
        call_ensures(signed, (payload.opacity_range.1 as i64,), opacity_range_second),
        call_ensures(signed, (payload.filter_range.0 as i64,), filter_range_first),
        call_ensures(signed, (payload.filter_range.1 as i64,), filter_range_second),
    ensures
        has_members(json, 7),
        tells(json, "summon_hotkey"@, JsonModel::Text(payload.summon_hotkey@)),
        tells(json, "grab_hotkey"@, JsonModel::Text(payload.grab_hotkey@)),
        tells(json, "default_save_directory"@, JsonModel::Text(payload.default_save_directory@)),
        tells(json, "autostart_registered"@, JsonModel::Bool(payload.autostart_registered)),
        tells(json, "opacity_range"@, JsonModel::List(seq![opacity_range_first.model(), opacity_range_second.model()])),
        tells(json, "filter_range"@, JsonModel::List(seq![filter_range_first.model(), filter_range_second.model()])),
        tells(json, "system_language"@, JsonModel::Text(payload.system_language@)),
{
    let members = json.model()->Object_0;
    assert(members[0].0 == "summon_hotkey"@);
    assert(members[1].0 == "grab_hotkey"@);
    assert(members[2].0 == "default_save_directory"@);
    assert(members[3].0 == "autostart_registered"@);
    assert(members[4].0 == "opacity_range"@);
    assert(members[5].0 == "filter_range"@);
    assert(members[6].0 == "system_language"@);
}

} // verus!
