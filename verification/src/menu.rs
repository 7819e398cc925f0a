//! The area menu: the rows it offers, what the pointer hits in it, when a child
//! list opens and closes, and what the page is told to draw.

use vstd::prelude::*;
use crate::area::{AreaId, AreaSummary, AreaType, Input, Layer};
use crate::geometry::{as_tuple, Point, Rect};
use crate::geometry;
use crate::search;

verus! {

/// What choosing a row does.
#[derive(Debug, Clone, Copy, PartialEq, Eq, Structural)]
pub enum MenuAction {
    /// Puts the area on a layer.
    SetLayer(Layer),
    /// Sets who receives clicks on the area's body.
    SetInput(Input),
    /// Opens the row's child list; the menu stays up.
    OpenSubmenu,
    /// Converts the area to a type.
    SetType(AreaType),
    /// Removes the area.
    Dismiss,
    /// Copies a Screenshot area's capture.
    Copy,
    /// Saves a Screenshot area's capture.
    SaveToFile,
}

/// A row before it is laid out.
#[derive(Debug, PartialEq, Eq)]
pub struct MenuRow {
    pub action: MenuAction,
    pub label: &'static str,
    pub checked: bool,
    /// The rows of the list this row opens; empty for an ordinary row.
    pub children: Vec<MenuRow>,
}

/// A row with its place on screen.
#[derive(Debug, PartialEq, Eq)]
pub struct MenuEntry {
    pub rect: Rect,
    pub action: MenuAction,
    pub label: &'static str,
    pub checked: bool,
    pub children: Vec<MenuRow>,
}

/// The child list of an open menu.
#[derive(Debug)]
pub struct Submenu {
    /// The row that owns the list.
    pub parent: usize,
    pub bounds: Rect,
    pub items: Vec<MenuEntry>,
    pub hovered: Option<usize>,
}

/// An open menu and the area it acts on.
#[derive(Debug)]
pub struct AreaMenu {
    pub area: AreaId,
    pub bounds: Rect,
    pub items: Vec<MenuEntry>,
    pub hovered: Option<usize>,
    pub open: Option<Submenu>,
    /// The row the pointer currently argues for opening, and since when, in
    /// milliseconds.
    pub argument: (Option<usize>, u64),
}

/// Which row a point is on: one of the menu itself, or one of its child list.
#[derive(Debug, Clone, Copy, PartialEq, Eq, Structural)]
pub enum MenuHit {
    Row(usize),
    Child(usize),
}

/// Where a list goes on screen: its outline, and one rectangle per row.
#[derive(Debug)]
pub struct MenuLayout {
    pub bounds: Rect,
    pub rows: Vec<Rect>,
}

// ---------------------------------------------------------------------------
// The rows.
// ---------------------------------------------------------------------------

/// The label under which the type list offers a type, if it offers it.
pub open spec fn conversion_text(kind: AreaType) -> Option<&'static str> {
    match kind {
        AreaType::Default => Some("Type: Default"),
        AreaType::Screenshot => Some("Type: Screenshot"),
        AreaType::Filter => Some("Type: Filter"),
        AreaType::Record | AreaType::Ocr | AreaType::Upscale | AreaType::Analysis => None,
    }
}

/// The label under which the type list offers a type; `None` for a type that
/// does nothing yet.
pub fn conversion_label(kind: AreaType) -> (label: Option<&'static str>)
    ensures
        label == conversion_text(kind),
{
    match kind {
        AreaType::Default => Some("Type: Default"),
        AreaType::Screenshot => Some("Type: Screenshot"),
        AreaType::Filter => Some("Type: Filter"),
        AreaType::Record | AreaType::Ocr | AreaType::Upscale | AreaType::Analysis => None,
    }
}

/// Whether `row` is a row without children that holds exactly this.
pub open spec fn is_leaf(
    row: MenuRow,
    action: MenuAction,
    label: &'static str,
    checked: bool,
) -> bool {
    &&& row.action == action
    &&& row.label == label
    &&& row.checked == checked
    &&& row.children@.len() == 0
}

/// A row without children.
pub fn leaf(action: MenuAction, label: &'static str, checked: bool) -> (row: MenuRow)
    ensures
        is_leaf(row, action, label, checked),
{
    MenuRow { action, label, checked, children: Vec::new() }
}

/// The other way an area can take input.
pub open spec fn other_input(input: Input) -> Input {
    match input {
        Input::Interactive => Input::PassThrough,
        Input::PassThrough => Input::Interactive,
    }
}

/// The types of `types` that the type list offers, in order.
pub open spec fn offered(types: Seq<AreaType>) -> Seq<AreaType> {
    types.filter(|kind: AreaType| conversion_text(kind) is Some)
}

/// The types the type list offers.
pub open spec fn offered_types() -> Seq<AreaType> {
    seq![AreaType::Default, AreaType::Screenshot, AreaType::Filter]
}

/// The type list offers exactly the types that have a label, in their order.
pub proof fn lemma_offered_types()
    ensures
        offered(crate::area::all_types()) == offered_types(),
{
    let all = crate::area::all_types();
    lemma_offered_step(all, 0);
    lemma_offered_step(all, 1);
    lemma_offered_step(all, 2);
    lemma_offered_step(all, 3);
    lemma_offered_step(all, 4);
    lemma_offered_step(all, 5);
    lemma_offered_step(all, 6);
    assert(all.take(7) =~= all);
    assert(offered(all.take(0)) =~= Seq::<AreaType>::empty()) by {
        reveal(Seq::filter);
    }
    assert(offered(all) =~= offered_types());
}

/// Whether `rows` has a row for each of `types`, in order, ticked where it is
/// `current`.
pub open spec fn is_type_list(rows: Seq<MenuRow>, types: Seq<AreaType>, current: AreaType) -> bool {
    &&& rows.len() == types.len()
    &&& forall|i: int|
        #![trigger rows[i]]
        0 <= i < rows.len() ==> {
            &&& conversion_text(types[i]) is Some
            &&& is_leaf(
                rows[i],
                MenuAction::SetType(types[i]),
                conversion_text(types[i])->0,
                types[i] == current,
            )
        }
}

/// How many rows the menu of an area of this type has before the type row.
pub open spec fn lead(kind: AreaType) -> int {
    if kind == AreaType::Screenshot {
        2
    } else {
        0
    }
}

/// Whether `rows` is the menu of `area`.
pub open spec fn is_menu_of(rows: Seq<MenuRow>, area: AreaSummary) -> bool {
    let n = lead(area.kind);
    &&& rows.len() == n + 6
    &&& n == 2 ==> is_leaf(rows[0], MenuAction::Copy, "Copy", false)
    &&& n == 2 ==> is_leaf(rows[1], MenuAction::SaveToFile, "Save image", false)
    &&& rows[n].action == MenuAction::OpenSubmenu
    &&& rows[n].label == "Area type"
    &&& !rows[n].checked
    &&& is_type_list(rows[n].children@, offered_types(), area.kind)
    &&& is_leaf(
        rows[n + 1],
        MenuAction::SetLayer(Layer::Front),
        "Always on top",
        area.layer == Layer::Front,
    )
    &&& is_leaf(rows[n + 2], MenuAction::SetLayer(Layer::Auto), "Auto", area.layer == Layer::Auto)
    &&& is_leaf(
        rows[n + 3],
        MenuAction::SetLayer(Layer::Back),
        "Always behind",
        area.layer == Layer::Back,
    )
    &&& is_leaf(
        rows[n + 4],
        MenuAction::SetInput(other_input(area.input)),
        "Click-through",
        area.input == Input::PassThrough,
    )
    &&& is_leaf(rows[n + 5], MenuAction::Dismiss, "Dismiss", false)
}

/// The rows of an area's menu.
pub fn menu_rows(area: &AreaSummary) -> (rows: Vec<MenuRow>)
    ensures
        is_menu_of(rows@, *area),
{
    let toggled_input = match area.input {
        Input::Interactive => Input::PassThrough,
        Input::PassThrough => Input::Interactive,
    };
    let mut rows: Vec<MenuRow> = Vec::with_capacity(8);
    if area.kind == AreaType::Screenshot {
        rows.push(leaf(MenuAction::Copy, "Copy", false));
        rows.push(leaf(MenuAction::SaveToFile, "Save image", false));
    }
    let all = AreaType::all();
    let mut types: Vec<MenuRow> = Vec::new();
    let mut i: usize = 0;
    proof {
        assert(all@.take(0) =~= Seq::empty());
        reveal(Seq::filter);
    }
    while i < 7
        invariant
            i <= 7,
            all@ == crate::area::all_types(),
            is_type_list(types@, offered(all@.take(i as int)), area.kind),
        decreases 7 - i,
    {
        proof {
            lemma_offered_step(all@, i as int);
        }
        let ghost before = types@;
        if let Some(label) = conversion_label(all[i]) {
            types.push(leaf(MenuAction::SetType(all[i]), label, all[i] == area.kind));
            assert forall|k: int| #![trigger types@[k]] 0 <= k < types@.len() implies {
                let kind = offered(all@.take(i + 1))[k];
                &&& conversion_text(kind) is Some
                &&& is_leaf(
                    types@[k],
                    MenuAction::SetType(kind),
                    conversion_text(kind)->0,
                    kind == area.kind,
                )
            } by {
                if k < before.len() {
                    assert(types@[k] == before[k]);
                }
            }
        }
        i += 1;
    }
    proof {
        lemma_offered_types();
        assert(all@.take(7) =~= all@);
    }
    rows.push(
        MenuRow {
            action: MenuAction::OpenSubmenu,
            label: "Area type",
            checked: false,
            children: types,
        },
    );
    rows.push(
        leaf(MenuAction::SetLayer(Layer::Front), "Always on top", area.layer == Layer::Front),
    );
    rows.push(leaf(MenuAction::SetLayer(Layer::Auto), "Auto", area.layer == Layer::Auto));
    rows.push(leaf(MenuAction::SetLayer(Layer::Back), "Always behind", area.layer == Layer::Back));
    rows.push(
        leaf(
            MenuAction::SetInput(toggled_input),
            "Click-through",
            area.input == Input::PassThrough,
        ),
    );
    rows.push(leaf(MenuAction::Dismiss, "Dismiss", false));
    rows
}

/// Extending a list of types by one extends what is offered by at most one.
proof fn lemma_offered_step(types: Seq<AreaType>, i: int)
    requires
        0 <= i < types.len(),
    ensures
        offered(types.take(i + 1)) == if conversion_text(types[i]) is Some {
            offered(types.take(i)).push(types[i])
        } else {
            offered(types.take(i))
        },
{
    let longer = types.take(i + 1);
    assert(longer.drop_last() =~= types.take(i));
    assert(longer.last() == types[i]);
    reveal(Seq::filter);
}

// ---------------------------------------------------------------------------
// The rows on screen.
// ---------------------------------------------------------------------------

/// Whether two rows offer the same thing, child lists and all.
pub open spec fn same_row(a: MenuRow, b: MenuRow) -> bool
    decreases a,
{
    &&& a.action == b.action
    &&& a.label == b.label
    &&& a.checked == b.checked
    &&& a.children@.len() == b.children@.len()
    &&& forall|i: int|
        0 <= i < a.children@.len() ==> same_row(#[trigger] a.children@[i], b.children@[i])
}

/// Whether two lists of rows offer the same things.
pub open spec fn same_rows(a: Seq<MenuRow>, b: Seq<MenuRow>) -> bool {
    &&& a.len() == b.len()
    &&& forall|i: int| 0 <= i < a.len() ==> same_row(#[trigger] a[i], b[i])
}

/// Whether `entry` is `row` placed at `rect`.
pub open spec fn is_placed(entry: MenuEntry, row: MenuRow, rect: Rect) -> bool {
    &&& entry.rect == rect
    &&& entry.action == row.action
    &&& entry.label == row.label
    &&& entry.checked == row.checked
    &&& same_rows(row.children@, entry.children@)
}

/// Whether `entries` are `rows`, each placed at the rectangle of its index.
pub open spec fn are_placed(entries: Seq<MenuEntry>, rows: Seq<MenuRow>, rects: Seq<Rect>) -> bool {
    &&& entries.len() == rows.len()
    &&& forall|i: int| 0 <= i < rows.len() ==> is_placed(#[trigger] entries[i], rows[i], rects[i])
}

/// A second copy of a list of rows.
pub fn copy_rows(rows: &Vec<MenuRow>) -> (copy: Vec<MenuRow>)
    ensures
        same_rows(rows@, copy@),
    decreases rows,
{
    let mut copy: Vec<MenuRow> = Vec::with_capacity(rows.len());
    let mut i: usize = 0;
    while i < rows.len()
        invariant
            i <= rows.len(),
            copy@.len() == i,
            forall|k: int| 0 <= k < i ==> same_row(#[trigger] rows@[k], copy@[k]),
        decreases rows.len() - i,
    {
        let row = &rows[i];
        let children = copy_rows(&row.children);
        copy.push(
            MenuRow { action: row.action, label: row.label, checked: row.checked, children },
        );
        assert(same_row(rows@[i as int], copy@[i as int]));
        i += 1;
    }
    copy
}

/// Places each row at the rectangle of its index.
pub fn laid_out(rows: &Vec<MenuRow>, rects: &Vec<Rect>) -> (entries: Vec<MenuEntry>)
    requires
        rects@.len() == rows@.len(),
    ensures
        are_placed(entries@, rows@, rects@),
{
    let mut entries: Vec<MenuEntry> = Vec::with_capacity(rows.len());
    let mut i: usize = 0;
    while i < rows.len()
        invariant
            i <= rows.len(),
            rects@.len() == rows@.len(),
            entries@.len() == i,
            forall|k: int| 0 <= k < i ==> is_placed(#[trigger] entries@[k], rows@[k], rects@[k]),
        decreases rows.len() - i,
    {
        let row = &rows[i];
        let children = copy_rows(&row.children);
        entries.push(
            MenuEntry {
                rect: rects[i],
                action: row.action,
                label: row.label,
                checked: row.checked,
                children,
            },
        );
        i += 1;
    }
    entries
}

// ---------------------------------------------------------------------------
// The pointer in the menu.
// ---------------------------------------------------------------------------

/// The test "is under `point`".
pub open spec fn under(point: Point) -> spec_fn(MenuEntry) -> bool {
    |entry: MenuEntry| entry.rect.holds(point)
}

/// The test "is under `point` and opens a child list".
pub open spec fn opening_under(point: Point) -> spec_fn(MenuEntry) -> bool {
    |entry: MenuEntry| entry.rect.holds(point) && entry.children@.len() > 0
}

/// The first entry under a point.
fn entry_under(entries: &Vec<MenuEntry>, point: Point) -> (found: Option<usize>)
    ensures
        found == search::first(entries@, under(point)),
{
    let mut i: usize = 0;
    while i < entries.len()
        invariant
            i <= entries.len(),
            search::first_from(entries@, under(point), 0) == search::first_from(
                entries@,
                under(point),
                i as int,
            ),
        decreases entries.len() - i,
    {
        if entries[i].rect.contains(point) {
            return Some(i);
        }
        i += 1;
    }
    None
}

/// Which row of a menu a point is on. The child list is on top: where it covers
/// the point, a row of the menu beneath it is never meant.
pub open spec fn hit_at(menu: AreaMenu, point: Point) -> Option<MenuHit> {
    let row = match search::first(menu.items@, under(point)) {
        Some(index) => Some(MenuHit::Row(index)),
        None => None,
    };
    match menu.open {
        Some(open) => match search::first(open.items@, under(point)) {
            Some(index) => Some(MenuHit::Child(index)),
            None => if open.bounds.holds(point) {
                None
            } else {
                row
            },
        },
        None => row,
    }
}

/// Which row of a menu a point is on.
pub fn menu_hit(menu: &AreaMenu, point: Point) -> (hit: Option<MenuHit>)
    ensures
        hit == hit_at(*menu, point),
{
    if let Some(open) = &menu.open {
        if let Some(index) = entry_under(&open.items, point) {
            return Some(MenuHit::Child(index));
        }
        if open.bounds.contains(point) {
            return None;
        }
    }
    match entry_under(&menu.items, point) {
        Some(index) => Some(MenuHit::Row(index)),
        None => None,
    }
}

/// Whether a point is inside the menu or its child list.
pub open spec fn covers(menu: AreaMenu, point: Point) -> bool {
    menu.bounds.holds(point) || (menu.open is Some && menu.open->0.bounds.holds(point))
}

/// Whether a point is inside the menu or its child list.
pub fn menu_covers(menu: &AreaMenu, point: Point) -> (inside: bool)
    ensures
        inside == covers(*menu, point),
{
    menu.bounds.contains(point) || match &menu.open {
        Some(open) => open.bounds.contains(point),
        None => false,
    }
}

/// The list a hit names, and the entry there.
pub open spec fn entry_of(menu: AreaMenu, hit: MenuHit) -> Option<MenuEntry> {
    match hit {
        MenuHit::Row(index) => if index < menu.items@.len() {
            Some(menu.items@[index as int])
        } else {
            None
        },
        MenuHit::Child(index) => match menu.open {
            Some(open) => if index < open.items@.len() {
                Some(open.items@[index as int])
            } else {
                None
            },
            None => None,
        },
    }
}

/// The entry a hit names, in the list it names.
pub fn entry_at(menu: &AreaMenu, hit: MenuHit) -> (entry: Option<&MenuEntry>)
    ensures
        match entry {
            Some(entry) => entry_of(*menu, hit) == Some(*entry),
            None => entry_of(*menu, hit) is None,
        },
{
    match hit {
        MenuHit::Row(index) => if index < menu.items.len() {
            Some(&menu.items[index])
        } else {
            None
        },
        MenuHit::Child(index) => match &menu.open {
            Some(open) => if index < open.items.len() {
                Some(&open.items[index])
            } else {
                None
            },
            None => None,
        },
    }
}

/// The row of the menu itself that a hit names.
pub open spec fn row_of(hit: Option<MenuHit>) -> Option<usize> {
    match hit {
        Some(MenuHit::Row(index)) => Some(index),
        _ => None,
    }
}

/// The row of the child list that a hit names.
pub open spec fn child_of(hit: Option<MenuHit>) -> Option<usize> {
    match hit {
        Some(MenuHit::Child(index)) => Some(index),
        _ => None,
    }
}

/// The menu with its highlight where `hit` says.
pub open spec fn hovered_at(menu: AreaMenu, hit: Option<MenuHit>) -> AreaMenu {
    AreaMenu {
        hovered: row_of(hit),
        open: match menu.open {
            Some(open) => Some(Submenu { hovered: child_of(hit), ..open }),
            None => None,
        },
        ..menu
    }
}

/// Whether moving the highlight to `hit` changes what is drawn.
pub open spec fn hover_changes(menu: AreaMenu, hit: Option<MenuHit>) -> bool {
    menu.hovered != row_of(hit) || (menu.open is Some && menu.open->0.hovered != child_of(hit))
}

/// Moves the highlight to the row under the pointer, in whichever list holds
/// it, and says whether anything changed.
pub fn apply_menu_hover(menu: &mut AreaMenu, hit: Option<MenuHit>) -> (changed: bool)
    ensures
        *final(menu) == hovered_at(*old(menu), hit),
        changed == hover_changes(*old(menu), hit),
{
    let (row, child): (Option<usize>, Option<usize>) = match hit {
        Some(MenuHit::Child(index)) => (None, Some(index)),
        Some(MenuHit::Row(index)) => (Some(index), None),
        None => (None, None),
    };
    let mut changed = false;
    if menu.hovered != row {
        menu.hovered = row;
        changed = true;
    }
    if let Some(open) = &mut menu.open {
        if open.hovered != child {
            open.hovered = child;
            changed = true;
        }
    }
    changed
}

// ---------------------------------------------------------------------------
// When a child list opens and closes.
// ---------------------------------------------------------------------------

/// How long the pointer rests on a parent row before its list opens.
pub const SUBMENU_OPEN_MS: u64 = 220;

/// How long the pointer may be away before an open list closes. The longer of
/// the two: it is what buys the diagonal travel from a row to its list.
pub const SUBMENU_CLOSE_MS: u64 = 400;

/// What a tick does to the child list.
#[derive(Debug, Clone, Copy, PartialEq, Eq, Structural)]
pub enum SubmenuStep {
    /// Open the list of this row.
    Open(usize),
    /// Close the open list.
    Close,
    /// Leave it.
    Hold,
}

/// What the pointer argues for and since when: the clock restarts whenever the
/// argument changes.
pub open spec fn argued_since(
    now_ms: u64,
    argument: Option<usize>,
    since: (Option<usize>, u64),
) -> (Option<usize>, u64) {
    if since.0 == argument {
        since
    } else {
        (argument, now_ms)
    }
}

/// How long the pointer has argued for `argument`, in milliseconds.
pub open spec fn argued_for(
    now_ms: u64,
    argument: Option<usize>,
    since: (Option<usize>, u64),
) -> int {
    let start = argued_since(now_ms, argument, since).1;
    if now_ms >= start {
        now_ms - start
    } else {
        0
    }
}

/// What a tick does: nothing while the open list is the one argued for; else
/// the list argued for opens after the one delay, and with none argued for the
/// open one closes after the other.
pub open spec fn step_of(
    now_ms: u64,
    argument: Option<usize>,
    open: Option<usize>,
    since: (Option<usize>, u64),
) -> SubmenuStep {
    let waited = argued_for(now_ms, argument, since);
    if argument == open {
        SubmenuStep::Hold
    } else {
        match argument {
            Some(parent) => if waited >= SUBMENU_OPEN_MS {
                SubmenuStep::Open(parent)
            } else {
                SubmenuStep::Hold
            },
            None => if waited >= SUBMENU_CLOSE_MS {
                SubmenuStep::Close
            } else {
                SubmenuStep::Hold
            },
        }
    }
}

/// Decides what a tick does to the child list, and carries the clock on.
pub fn submenu_step(
    now_ms: u64,
    argument: Option<usize>,
    open: Option<usize>,
    since: (Option<usize>, u64),
) -> (result: (SubmenuStep, (Option<usize>, u64)))
    ensures
        result.0 == step_of(now_ms, argument, open, since),
        result.1 == argued_since(now_ms, argument, since),
{
    let carried: (Option<usize>, u64) = if since.0 == argument {
        since
    } else {
        (argument, now_ms)
    };
    if argument == open {
        return (SubmenuStep::Hold, carried);
    }
    let elapsed: u64 = now_ms.saturating_sub(carried.1);
    let step = match argument {
        Some(parent) => if elapsed >= SUBMENU_OPEN_MS {
            SubmenuStep::Open(parent)
        } else {
            SubmenuStep::Hold
        },
        None => if elapsed >= SUBMENU_CLOSE_MS {
            SubmenuStep::Close
        } else {
            SubmenuStep::Hold
        },
    };
    (step, carried)
}

/// The first entry under a point that opens a child list.
fn opening_entry_under(entries: &Vec<MenuEntry>, point: Point) -> (found: Option<usize>)
    ensures
        found == search::first(entries@, opening_under(point)),
{
    let mut i: usize = 0;
    while i < entries.len()
        invariant
            i <= entries.len(),
            search::first_from(entries@, opening_under(point), 0) == search::first_from(
                entries@,
                opening_under(point),
                i as int,
            ),
        decreases entries.len() - i,
    {
        if entries[i].rect.contains(point) && entries[i].children.len() > 0 {
            return Some(i);
        }
        i += 1;
    }
    None
}

/// The row whose list the pointer argues for: the owner of the open list while
/// the pointer is anywhere in it, else the row under the pointer if it opens
/// one.
pub open spec fn argument_at(menu: AreaMenu, point: Point) -> Option<usize> {
    if menu.open is Some && menu.open->0.bounds.holds(point) {
        Some(menu.open->0.parent)
    } else {
        search::first(menu.items@, opening_under(point))
    }
}

/// The row whose list the pointer argues for.
pub fn submenu_argument(menu: &AreaMenu, point: Point) -> (argument: Option<usize>)
    ensures
        argument == argument_at(*menu, point),
{
    if let Some(open) = &menu.open {
        if open.bounds.contains(point) {
            return Some(open.parent);
        }
    }
    opening_entry_under(&menu.items, point)
}

/// The row that owns the open list.
pub open spec fn owner(menu: AreaMenu) -> Option<usize> {
    match menu.open {
        Some(open) => Some(open.parent),
        None => None,
    }
}

/// What one tick found in the menu.
#[derive(Debug, PartialEq, Eq)]
#[must_use]
pub struct MenuPump {
    /// Whether the page has to redraw.
    pub changed: bool,
    /// The row under the pointer.
    pub hit: Option<MenuHit>,
    /// The row whose list is due to open.
    pub to_open: Option<usize>,
}

/// What a tick does to the child list of this menu.
pub open spec fn tick_step(menu: AreaMenu, point: Point, now: u64) -> SubmenuStep {
    step_of(now, argument_at(menu, point), owner(menu), menu.argument)
}

/// The menu after a tick, before any list opens.
pub open spec fn ticked(menu: AreaMenu, point: Point, now: u64) -> AreaMenu {
    let moved = hovered_at(menu, hit_at(menu, point));
    AreaMenu {
        open: if tick_step(menu, point, now) == SubmenuStep::Close {
            None
        } else {
            moved.open
        },
        argument: argued_since(now, argument_at(menu, point), menu.argument),
        ..moved
    }
}

/// The row whose list a tick opens.
pub open spec fn due_to_open(menu: AreaMenu, point: Point, now: u64) -> Option<usize> {
    match tick_step(menu, point, now) {
        SubmenuStep::Open(parent) => Some(parent),
        SubmenuStep::Close | SubmenuStep::Hold => None,
    }
}

/// One tick of the menu: moves the highlight, and lets the child list's clock
/// close the open list or say which one is due.
pub fn menu_pump_step(menu: &mut AreaMenu, point: Point, now: u64) -> (pump: MenuPump)
    ensures
        *final(menu) == ticked(*old(menu), point, now),
        pump.hit == hit_at(*old(menu), point),
        pump.to_open == due_to_open(*old(menu), point, now),
        pump.changed == (hover_changes(*old(menu), hit_at(*old(menu), point)) || tick_step(
            *old(menu),
            point,
            now,
        ) == SubmenuStep::Close),
{
    let hit = menu_hit(menu, point);
    let mut changed = apply_menu_hover(menu, hit);
    let argument = submenu_argument(menu, point);
    let open: Option<usize> = match &menu.open {
        Some(open) => Some(open.parent),
        None => None,
    };
    let (step, since) = submenu_step(now, argument, open, menu.argument);
    menu.argument = since;
    if step == SubmenuStep::Close {
        menu.open = None;
        changed = true;
    }
    let to_open: Option<usize> = match step {
        SubmenuStep::Open(parent) => Some(parent),
        SubmenuStep::Close | SubmenuStep::Hold => None,
    };
    MenuPump { changed, hit, to_open }
}

// ---------------------------------------------------------------------------
// Opening, closing and choosing.
// ---------------------------------------------------------------------------

/// Whether row `parent` has a list that is not already open.
pub open spec fn can_open(menu: Option<AreaMenu>, parent: usize) -> bool {
    &&& menu is Some
    &&& owner(menu->0) != Some(parent)
    &&& parent < menu->0.items@.len()
    &&& menu->0.items@[parent as int].children@.len() > 0
}

/// Whether `layout` has a rectangle for each row of the list of `parent`.
pub open spec fn fits_list(menu: Option<AreaMenu>, parent: usize, layout: MenuLayout) -> bool {
    layout.rows@.len() == menu->0.items@[parent as int].children@.len()
}

/// Whether `after` is `before` with the list of `parent` open at `layout`.
pub open spec fn is_opened(
    before: AreaMenu,
    after: AreaMenu,
    parent: usize,
    layout: MenuLayout,
) -> bool {
    &&& after == AreaMenu { open: after.open, ..before }
    &&& after.open is Some
    &&& after.open->0.parent == parent
    &&& after.open->0.bounds == layout.bounds
    &&& after.open->0.hovered is None
    &&& are_placed(
        after.open->0.items@,
        before.items@[parent as int].children@,
        layout.rows@,
    )
}

/// Opens the list of row `parent` at `layout`, in place of any other list; says
/// whether it did. A row without a list, or whose list is open, is left alone.
pub fn open_submenu(menu: &mut Option<AreaMenu>, parent: usize, layout: &MenuLayout) -> (opened:
    bool)
    requires
        can_open(*old(menu), parent) ==> fits_list(*old(menu), parent, *layout),
    ensures
        opened == can_open(*old(menu), parent),
        !opened ==> *final(menu) == *old(menu),
        opened ==> *final(menu) is Some && is_opened(
            (*old(menu))->0,
            (*final(menu))->0,
            parent,
            *layout,
        ),
{
    if let Some(menu) = menu {
        if let Some(open) = &menu.open {
            if open.parent == parent {
                return false;
            }
        }
        if parent >= menu.items.len() {
            return false;
        }
        if menu.items[parent].children.len() == 0 {
            return false;
        }
        let items = laid_out(&menu.items[parent].children, &layout.rows);
        menu.open = Some(Submenu { parent, bounds: layout.bounds, items, hovered: None });
        true
    } else {
        false
    }
}

/// What one tick of the menu comes to for the poll.
#[derive(Debug, PartialEq, Eq)]
pub struct MenuTick {
    /// The row under the pointer.
    pub hit: Option<MenuHit>,
    /// Whether the page has to redraw the menu.
    pub redraw: bool,
}

/// A list that is due can always be opened.
proof fn lemma_due_can_open(menu: AreaMenu, point: Point, now: u64)
    requires
        due_to_open(menu, point, now) is Some,
        menu.items@.len() <= usize::MAX,
    ensures
        can_open(Some(ticked(menu, point, now)), due_to_open(menu, point, now)->0),
        due_to_open(menu, point, now)->0 < menu.items@.len(),
        menu.items@[due_to_open(menu, point, now)->0 as int].children@.len() > 0,
{
    search::lemma_first_from(menu.items@, opening_under(point), 0);
}

/// The row a list opens beside, and how many rows the list has.
#[derive(Debug, Clone, Copy, PartialEq, Eq, Structural)]
pub struct ListPlace {
    pub row: Rect,
    pub rows: usize,
}

/// Where the list of a row opens.
pub open spec fn place_of(menu: AreaMenu, parent: usize) -> ListPlace {
    ListPlace {
        row: menu.items@[parent as int].rect,
        rows: menu.items@[parent as int].children.len(),
    }
}

/// Where the list opens that a tick will open, if it will open one: what the
/// tick's layout is worked out from.
pub fn list_due(menu: &Option<AreaMenu>, point: Point, now: u64) -> (place: Option<ListPlace>)
    ensures
        place == match *menu {
            Some(menu) => match due_to_open(menu, point, now) {
                Some(parent) => Some(place_of(menu, parent)),
                None => None,
            },
            None => None,
        },
{
    match menu {
        Some(menu) => {
            let argument = submenu_argument(menu, point);
            let open: Option<usize> = match &menu.open {
                Some(open) => Some(open.parent),
                None => None,
            };
            let (step, _) = submenu_step(now, argument, open, menu.argument);
            match step {
                SubmenuStep::Open(parent) => {
                    proof {
                        assert(menu.items@.len() == menu.items.len());
                        lemma_due_can_open(*menu, point, now);
                    }
                    Some(
                        ListPlace {
                            row: menu.items[parent].rect,
                            rows: menu.items[parent].children.len(),
                        },
                    )
                },
                SubmenuStep::Close | SubmenuStep::Hold => None,
            }
        },
        None => None,
    }
}

/// One tick of the open menu, if there is one. `layout` places the list that is
/// due to open, where one is.
pub fn pump_menu(
    menu: &mut Option<AreaMenu>,
    point: Point,
    now: u64,
    layout: &MenuLayout,
) -> (tick: MenuTick)
    requires
        *old(menu) is Some && due_to_open((*old(menu))->0, point, now) is Some ==> fits_list(
            *old(menu),
            due_to_open((*old(menu))->0, point, now)->0,
            *layout,
        ),
    ensures
        match *old(menu) {
            None => *final(menu) is None && tick.hit is None && !tick.redraw,
            Some(before) => {
                &&& *final(menu) is Some
                &&& tick.hit == hit_at(before, point)
                &&& match due_to_open(before, point, now) {
                    Some(parent) => {
                        &&& tick.redraw
                        &&& is_opened(
                            ticked(before, point, now),
                            (*final(menu))->0,
                            parent,
                            *layout,
                        )
                    },
                    None => {
                        &&& (*final(menu))->0 == ticked(before, point, now)
                        &&& tick.redraw == (hover_changes(before, hit_at(before, point))
                            || tick_step(before, point, now) == SubmenuStep::Close)
                    },
                }
            },
        },
{
    let pump = match menu {
        Some(menu) => {
            proof {
                if due_to_open(*menu, point, now) is Some {
                    assert(menu.items@.len() == menu.items.len());
                    lemma_due_can_open(*menu, point, now);
                }
            }
            menu_pump_step(menu, point, now)
        },
        None => {
            return MenuTick { hit: None, redraw: false };
        },
    };
    let mut redraw = pump.changed;
    if let Some(parent) = pump.to_open {
        if open_submenu(menu, parent, layout) {
            redraw = true;
        }
    }
    MenuTick { hit: pump.hit, redraw }
}

/// What the entries on screen offer, as rows.
pub open spec fn rows_of(entries: Seq<MenuEntry>) -> Seq<MenuRow> {
    Seq::new(
        entries.len(),
        |i: int|
            MenuRow {
                action: entries[i].action,
                label: entries[i].label,
                checked: entries[i].checked,
                children: entries[i].children,
            },
    )
}

/// Placing a menu's rows keeps it that area's menu.
proof fn lemma_placed_menu(
    entries: Seq<MenuEntry>,
    rows: Seq<MenuRow>,
    rects: Seq<Rect>,
    area: AreaSummary,
)
    requires
        is_menu_of(rows, area),
        are_placed(entries, rows, rects),
    ensures
        is_menu_of(rows_of(entries), area),
{
    let n = lead(area.kind);
    let shown = rows_of(entries);
    assert forall|i: int| 0 <= i < rows.len() implies {
        &&& shown[i].action == rows[i].action
        &&& shown[i].label == rows[i].label
        &&& shown[i].checked == rows[i].checked
        &&& same_rows(rows[i].children@, shown[i].children@)
    } by {
        assert(is_placed(entries[i], rows[i], rects[i]));
    }
    let list = rows[n].children@;
    let kept = shown[n].children@;
    assert forall|i: int| #![trigger kept[i]] 0 <= i < kept.len() implies {
        &&& conversion_text(offered_types()[i]) is Some
        &&& is_leaf(
            kept[i],
            MenuAction::SetType(offered_types()[i]),
            conversion_text(offered_types()[i])->0,
            offered_types()[i] == area.kind,
        )
    } by {
        assert(same_row(list[i], kept[i]));
    }
}

/// Whether `menu` is the freshly opened menu of `area` at `layout`: nothing
/// hovered, no list open.
pub open spec fn is_fresh_menu(menu: AreaMenu, area: AreaSummary, layout: MenuLayout) -> bool {
    &&& menu.area == area.id
    &&& menu.bounds == layout.bounds
    &&& is_menu_of(rows_of(menu.items@), area)
    &&& forall|i: int|
        0 <= i < menu.items@.len() ==> (#[trigger] menu.items@[i]).rect == layout.rows@[i]
    &&& menu.hovered is None
    &&& menu.open is None
    &&& menu.argument == (None::<usize>, 0u64)
}

/// Opens the menu of the area a right click landed on, in place of any other;
/// a right click on no area closes the menu that is open. Says whether the page
/// has to redraw.
pub fn open_menu(
    menu: &mut Option<AreaMenu>,
    target: Option<AreaSummary>,
    layout: &MenuLayout,
) -> (redraw: bool)
    requires
        target is Some ==> layout.rows@.len() == lead(target->0.kind) + 6,
    ensures
        match target {
            Some(area) => redraw && *final(menu) is Some && is_fresh_menu(
                (*final(menu))->0,
                area,
                *layout,
            ),
            None => redraw == (*old(menu) is Some) && *final(menu) is None,
        },
{
    match target {
        Some(area) => {
            let rows = menu_rows(&area);
            let items = laid_out(&rows, &layout.rows);
            proof {
                lemma_placed_menu(items@, rows@, layout.rows@, area);
            }
            *menu = Some(
                AreaMenu {
                    area: area.id,
                    bounds: layout.bounds,
                    items,
                    hovered: None,
                    open: None,
                    argument: (None, 0),
                },
            );
            true
        },
        None => close_menu(menu),
    }
}

/// Closes the menu if one is open; says whether one was.
pub fn close_menu(menu: &mut Option<AreaMenu>) -> (was_open: bool)
    ensures
        *final(menu) is None,
        was_open == (*old(menu) is Some),
{
    let was_open = menu.is_some();
    *menu = None;
    was_open
}

/// What a row asks to be done to the menu's area.
#[derive(Debug, Clone, Copy, PartialEq, Eq, Structural)]
pub struct MenuCommand {
    pub area: AreaId,
    pub action: MenuAction,
}

/// What a release on a menu row means.
#[derive(Debug, Clone, Copy, PartialEq, Eq, Structural)]
pub enum Activation {
    /// Nothing: the row is gone, or the release is not on it.
    Nothing,
    /// Open the row's list.
    OpenList(usize),
    /// Carry the row's action out.
    Perform(MenuCommand),
}

/// What releasing at `release` after a press on `hit` means.
pub open spec fn activation_of(
    menu: Option<AreaMenu>,
    hit: MenuHit,
    release: Point,
) -> Activation {
    match menu {
        Some(menu) => match entry_of(menu, hit) {
            Some(entry) => if !entry.rect.holds(release) {
                Activation::Nothing
            } else if entry.action == MenuAction::OpenSubmenu {
                match hit {
                    MenuHit::Row(parent) => Activation::OpenList(parent),
                    MenuHit::Child(_) => Activation::Nothing,
                }
            } else {
                Activation::Perform(MenuCommand { area: menu.area, action: entry.action })
            },
            None => Activation::Nothing,
        },
        None => Activation::Nothing,
    }
}

/// What releasing at `release` after a press on `hit` means.
pub fn activation(menu: &Option<AreaMenu>, hit: MenuHit, release: Point) -> (meaning: Activation)
    ensures
        meaning == activation_of(*menu, hit, release),
{
    match menu {
        Some(menu) => match entry_at(menu, hit) {
            Some(entry) => if !entry.rect.contains(release) {
                Activation::Nothing
            } else if entry.action == MenuAction::OpenSubmenu {
                match hit {
                    MenuHit::Row(parent) => Activation::OpenList(parent),
                    MenuHit::Child(_) => Activation::Nothing,
                }
            } else {
                Activation::Perform(MenuCommand { area: menu.area, action: entry.action })
            },
            None => Activation::Nothing,
        },
        None => Activation::Nothing,
    }
}

/// What activating a row came to.
#[derive(Debug, Clone, Copy, PartialEq, Eq, Structural)]
pub struct Activated {
    /// Whether the page has to redraw the menu.
    pub redraw: bool,
    /// What remains to be done to the area.
    pub command: Option<MenuCommand>,
}

/// Acts on a release over the row that was pressed. A row that opens a list
/// opens it and leaves the menu up; any other closes the menu and hands its
/// action on; a release anywhere else does nothing.
pub fn activate_menu_item(
    menu: &mut Option<AreaMenu>,
    hit: MenuHit,
    release: Point,
    layout: &MenuLayout,
) -> (activated: Activated)
    requires
        activation_of(*old(menu), hit, release) matches Activation::OpenList(parent) ==> (can_open(
            *old(menu),
            parent,
        ) ==> fits_list(*old(menu), parent, *layout)),
    ensures
        match activation_of(*old(menu), hit, release) {
            Activation::Nothing => {
                &&& *final(menu) == *old(menu)
                &&& activated == (Activated { redraw: false, command: None })
            },
            Activation::OpenList(parent) => {
                &&& activated.command is None
                &&& activated.redraw == can_open(*old(menu), parent)
                &&& *final(menu) is Some
                &&& !can_open(*old(menu), parent) ==> *final(menu) == *old(menu)
                &&& can_open(*old(menu), parent) ==> is_opened(
                    (*old(menu))->0,
                    (*final(menu))->0,
                    parent,
                    *layout,
                )
            },
            Activation::Perform(command) => {
                &&& *final(menu) is None
                &&& activated == (Activated { redraw: true, command: Some(command) })
            },
        },
{
    match activation(menu, hit, release) {
        Activation::Nothing => Activated { redraw: false, command: None },
        Activation::OpenList(parent) => {
            let redraw = open_submenu(menu, parent, layout);
            Activated { redraw, command: None }
        },
        Activation::Perform(command) => {
            let redraw = close_menu(menu);
            Activated { redraw, command: Some(command) }
        },
    }
}

// ---------------------------------------------------------------------------
// What the page draws.
// ---------------------------------------------------------------------------

/// A row as the page draws it.
#[derive(Debug, PartialEq, Eq)]
pub struct MenuItemView {
    pub rect: (i32, i32, u32, u32),
    pub label: &'static str,
    pub checked: bool,
    /// Whether the row opens a child list.
    pub parent: bool,
}

/// The child list as the page draws it.
#[derive(Debug, PartialEq, Eq)]
pub struct ChildMenuView {
    pub rect: (i32, i32, u32, u32),
    pub items: Vec<MenuItemView>,
    pub hovered: Option<usize>,
    /// The row that owns the list.
    pub owner: usize,
}

/// The menu as the page draws it.
#[derive(Debug, PartialEq, Eq)]
pub struct MenuView {
    pub rect: (i32, i32, u32, u32),
    pub items: Vec<MenuItemView>,
    pub hovered: Option<usize>,
    pub child: Option<ChildMenuView>,
}

/// What the page is told about the menu; nothing while none is open.
#[derive(Debug, PartialEq, Eq)]
pub struct MenuPayload {
    pub menu: Option<MenuView>,
}

/// An entry as the page draws it.
pub open spec fn view_of(entry: MenuEntry) -> MenuItemView {
    MenuItemView {
        rect: geometry::tuple_of(entry.rect),
        label: entry.label,
        checked: entry.checked,
        parent: entry.children@.len() > 0,
    }
}

/// A list of entries as the page draws it.
pub open spec fn views_of(entries: Seq<MenuEntry>) -> Seq<MenuItemView> {
    Seq::new(entries.len(), |i: int| view_of(entries[i]))
}

/// The entries of a list as the page draws them.
pub fn item_views(items: &Vec<MenuEntry>) -> (views: Vec<MenuItemView>)
    ensures
        views@ == views_of(items@),
{
    let mut views: Vec<MenuItemView> = Vec::with_capacity(items.len());
    let mut i: usize = 0;
    while i < items.len()
        invariant
            i <= items.len(),
            views@ == views_of(items@.take(i as int)),
        decreases items.len() - i,
    {
        views.push(
            MenuItemView {
                rect: as_tuple(items[i].rect),
                label: items[i].label,
                checked: items[i].checked,
                parent: items[i].children.len() > 0,
            },
        );
        i += 1;
        assert(views@ =~= views_of(items@.take(i as int)));
    }
    assert(items@.take(i as int) =~= items@);
    views
}

/// Whether `view` shows exactly the child list `open`.
pub open spec fn shows_list(view: ChildMenuView, open: Submenu) -> bool {
    &&& view.rect == geometry::tuple_of(open.bounds)
    &&& view.items@ == views_of(open.items@)
    &&& view.hovered == open.hovered
    &&& view.owner == open.parent
}

/// Whether `view` shows exactly `menu`.
pub open spec fn shows_menu(view: MenuView, menu: AreaMenu) -> bool {
    &&& view.rect == geometry::tuple_of(menu.bounds)
    &&& view.items@ == views_of(menu.items@)
    &&& view.hovered == menu.hovered
    &&& view.child is Some == menu.open is Some
    &&& menu.open is Some ==> shows_list(view.child->0, menu.open->0)
}

/// What the page is told about the menu.
pub fn menu_payload(menu: &Option<AreaMenu>) -> (payload: MenuPayload)
    ensures
        payload.menu is Some == *menu is Some,
        *menu is Some ==> shows_menu(payload.menu->0, (*menu)->0),
{
    match menu {
        Some(menu) => {
            let child = match &menu.open {
                Some(open) => Some(
                    ChildMenuView {
                        rect: as_tuple(open.bounds),
                        items: item_views(&open.items),
                        hovered: open.hovered,
                        owner: open.parent,
                    },
                ),
                None => None,
            };
            MenuPayload {
                menu: Some(
                    MenuView {
                        rect: as_tuple(menu.bounds),
                        items: item_views(&menu.items),
                        hovered: menu.hovered,
                        child,
                    },
                ),
            }
        },
        None => MenuPayload { menu: None },
    }
}

// ---------------------------------------------------------------------------
// Laws.
// ---------------------------------------------------------------------------

/// Exactly one row of a menu opens a list, and no row of that list opens
/// another.
pub proof fn law_one_row_opens_a_list(rows: Seq<MenuRow>, area: AreaSummary, i: int, k: int)
    requires
        is_menu_of(rows, area),
        0 <= i < rows.len(),
        0 <= k < rows[lead(area.kind)].children@.len(),
    ensures
        (rows[i].children@.len() > 0) == (i == lead(area.kind)),
        (rows[i].action == MenuAction::OpenSubmenu) == (i == lead(area.kind)),
        rows[lead(area.kind)].children@[k].children@.len() == 0,
{
    let list = rows[lead(area.kind)].children@;
    assert(is_leaf(
        list[k],
        MenuAction::SetType(offered_types()[k]),
        conversion_text(offered_types()[k])->0,
        offered_types()[k] == area.kind,
    ));
}

/// The top level holds one radio group: exactly the row of the area's own layer
/// is ticked among the layer rows, and no type row is among the rows.
pub proof fn law_one_layer_is_ticked(rows: Seq<MenuRow>, area: AreaSummary, i: int)
    requires
        is_menu_of(rows, area),
        0 <= i < rows.len(),
    ensures
        rows[i].action matches MenuAction::SetLayer(layer) ==> rows[i].checked == (layer
            == area.layer),
        exists|k: int|
            0 <= k < rows.len() && (#[trigger] rows[k]).action == MenuAction::SetLayer(area.layer),
        !(rows[i].action is SetType),
{
    let n = lead(area.kind);
    let own = match area.layer {
        Layer::Front => n + 1,
        Layer::Auto => n + 2,
        Layer::Back => n + 3,
    };
    assert(rows[own].action == MenuAction::SetLayer(area.layer));
}

/// The type list ticks the type the area already is and no other; an area of a
/// type that is not offered has no tick.
pub proof fn law_only_the_own_type_is_ticked(rows: Seq<MenuRow>, area: AreaSummary, k: int)
    requires
        is_menu_of(rows, area),
        0 <= k < rows[lead(area.kind)].children@.len(),
    ensures
        rows[lead(area.kind)].children@[k].action is SetType,
        rows[lead(area.kind)].children@[k].checked == (
        rows[lead(area.kind)].children@[k].action->SetType_0 == area.kind),
        rows[lead(area.kind)].children@[k].checked ==> conversion_text(area.kind) == Some(
            rows[lead(area.kind)].children@[k].label,
        ),
{
    let list = rows[lead(area.kind)].children@;
    assert(is_leaf(
        list[k],
        MenuAction::SetType(offered_types()[k]),
        conversion_text(offered_types()[k])->0,
        offered_types()[k] == area.kind,
    ));
}

/// No two rows of a menu share a label.
pub proof fn law_labels_are_distinct(rows: Seq<MenuRow>, area: AreaSummary, i: int, j: int)
    requires
        is_menu_of(rows, area),
        0 <= i < j < rows.len(),
    ensures
        rows[i].label@ != rows[j].label@,
{
    reveal_strlit("Copy");
    reveal_strlit("Save image");
    reveal_strlit("Area type");
    reveal_strlit("Always on top");
    reveal_strlit("Auto");
    reveal_strlit("Always behind");
    reveal_strlit("Click-through");
    reveal_strlit("Dismiss");
    assert("Copy"@.len() == 4 && "Auto"@.len() == 4 && "Dismiss"@.len() == 7);
    assert("Area type"@.len() == 9 && "Save image"@.len() == 10);
    assert("Always on top"@.len() == 13 && "Always behind"@.len() == 13);
    assert("Click-through"@.len() == 13);
    // Rows of equal length differ in a letter.
    assert("Always on top"@[7] != "Always behind"@[7]);
    assert("Always on top"@[0] != "Click-through"@[0]);
    assert("Always behind"@[0] != "Click-through"@[0]);
    assert("Copy"@[0] != "Auto"@[0]);
}

/// No two rows of the type list share a label.
pub proof fn law_type_labels_are_distinct(a: AreaType, b: AreaType)
    requires
        conversion_text(a) is Some,
        conversion_text(b) is Some,
        a != b,
    ensures
        conversion_text(a)->0@ != conversion_text(b)->0@,
{
    reveal_strlit("Type: Default");
    reveal_strlit("Type: Screenshot");
    reveal_strlit("Type: Filter");
    assert("Type: Default"@.len() == 13);
    assert("Type: Screenshot"@.len() == 16);
    assert("Type: Filter"@.len() == 12);
}

/// A list opens only for the row argued for, only when it is not the open one,
/// and only once the pointer has argued for it, unbroken, for the whole delay.
pub proof fn law_a_list_opens_only_after_its_delay(
    now_ms: u64,
    argument: Option<usize>,
    open: Option<usize>,
    since: (Option<usize>, u64),
)
    ensures
        step_of(now_ms, argument, open, since) matches SubmenuStep::Open(parent) ==> {
            &&& argument == Some(parent)
            &&& open != Some(parent)
            &&& since.0 == Some(parent)
            &&& now_ms - since.1 >= SUBMENU_OPEN_MS
        },
{
}

/// A list closes only once the pointer has argued for none, unbroken, for the
/// whole delay, which is longer than the one that opens a list.
pub proof fn law_a_list_closes_only_after_the_longer_delay(
    now_ms: u64,
    argument: Option<usize>,
    open: Option<usize>,
    since: (Option<usize>, u64),
)
    ensures
        step_of(now_ms, argument, open, since) == SubmenuStep::Close ==> {
            &&& argument is None
            &&& open is Some
            &&& since.0 is None
            &&& now_ms - since.1 >= SUBMENU_CLOSE_MS
        },
        SUBMENU_CLOSE_MS > SUBMENU_OPEN_MS,
{
}

/// A pointer anywhere in an open list holds it open, for however long.
pub proof fn law_resting_in_an_open_list_holds_it(menu: AreaMenu, point: Point, now: u64)
    requires
        menu.open is Some,
        menu.open->0.bounds.holds(point),
    ensures
        tick_step(menu, point, now) == SubmenuStep::Hold,
        owner(ticked(menu, point, now)) == owner(menu),
{
}

/// A tick leaves the area, the outline, the rows and the open list's owner as
/// they are, except that a list may close.
pub proof fn law_a_tick_only_moves_the_highlight(menu: AreaMenu, point: Point, now: u64)
    ensures
        ticked(menu, point, now).area == menu.area,
        ticked(menu, point, now).bounds == menu.bounds,
        ticked(menu, point, now).items == menu.items,
        tick_step(menu, point, now) != SubmenuStep::Close ==> owner(ticked(menu, point, now))
            == owner(menu),
        tick_step(menu, point, now) == SubmenuStep::Close ==> ticked(menu, point, now).open is None,
{
}

/// A pointer that has not moved changes nothing: after a tick that closed no
/// list, the next tick at the same point leaves the highlight where it is.
pub proof fn law_a_still_pointer_changes_nothing(menu: AreaMenu, point: Point, now: u64)
    requires
        tick_step(menu, point, now) != SubmenuStep::Close,
    ensures
        hit_at(ticked(menu, point, now), point) == hit_at(menu, point),
        !hover_changes(ticked(menu, point, now), hit_at(menu, point)),
{
}

/// Whether every row of a menu lies inside the outline of its list.
pub open spec fn rows_inside(menu: AreaMenu) -> bool {
    &&& forall|i: int|
        0 <= i < menu.items@.len() ==> menu.bounds.encloses((#[trigger] menu.items@[i]).rect)
    &&& menu.open is Some ==> forall|i: int|
        0 <= i < menu.open->0.items@.len() ==> menu.open->0.bounds.encloses(
            (#[trigger] menu.open->0.items@[i]).rect,
        )
}

/// A press on a row is a press inside the menu.
pub proof fn law_a_hit_is_inside_the_menu(menu: AreaMenu, point: Point)
    requires
        rows_inside(menu),
        menu.items@.len() <= usize::MAX,
        menu.open is Some ==> menu.open->0.items@.len() <= usize::MAX,
        hit_at(menu, point) is Some,
    ensures
        covers(menu, point),
{
    search::lemma_first_from(menu.items@, under(point), 0);
    if menu.open is Some {
        search::lemma_first_from(menu.open->0.items@, under(point), 0);
    }
}

/// A point on the child list never resolves to the row beneath it.
pub proof fn law_the_child_list_is_on_top(menu: AreaMenu, point: Point)
    requires
        menu.open is Some,
        menu.open->0.bounds.holds(point),
    ensures
        !(hit_at(menu, point) matches Some(MenuHit::Row(_))),
{
}

/// Choosing a row that opens a list leaves the menu up and asks nothing of the
/// area; choosing any other row of the menu closes it.
pub proof fn law_only_a_parent_row_keeps_the_menu(
    menu: Option<AreaMenu>,
    hit: MenuHit,
    release: Point,
)
    ensures
        activation_of(menu, hit, release) matches Activation::Perform(command) ==> command.action
            != MenuAction::OpenSubmenu && command.area == menu->0.area,
        activation_of(menu, hit, release) is OpenList ==> menu is Some && entry_of(menu->0, hit)
            is Some && entry_of(menu->0, hit)->0.action == MenuAction::OpenSubmenu,
        menu is Some && entry_of(menu->0, hit) is Some && !entry_of(menu->0, hit)->0.rect.holds(
            release,
        ) ==> activation_of(menu, hit, release) == Activation::Nothing,
{
}

/// The labels of a menu are all different texts.
proof fn lemma_labels_differ()
    ensures
        forall|a: int, b: int|
            0 <= a < b < 8 ==> #[trigger] label_no(a)@ != #[trigger] label_no(b)@,
{
    reveal_strlit("Copy");
    reveal_strlit("Save image");
    reveal_strlit("Area type");
    reveal_strlit("Always on top");
    reveal_strlit("Auto");
    reveal_strlit("Always behind");
    reveal_strlit("Click-through");
    reveal_strlit("Dismiss");
    assert("Copy"@.len() == 4 && "Auto"@.len() == 4 && "Dismiss"@.len() == 7);
    assert("Area type"@.len() == 9 && "Save image"@.len() == 10);
    assert("Always on top"@.len() == 13 && "Always behind"@.len() == 13);
    assert("Click-through"@.len() == 13);
    assert("Always on top"@[7] != "Always behind"@[7]);
    assert("Always on top"@[0] != "Click-through"@[0]);
    assert("Always behind"@[0] != "Click-through"@[0]);
    assert("Copy"@[0] != "Auto"@[0]);
}

/// The labels, numbered.
spec fn label_no(n: int) -> &'static str {
    if n == 0 {
        "Copy"
    } else if n == 1 {
        "Save image"
    } else if n == 2 {
        "Area type"
    } else if n == 3 {
        "Always on top"
    } else if n == 4 {
        "Auto"
    } else if n == 5 {
        "Always behind"
    } else if n == 6 {
        "Click-through"
    } else {
        "Dismiss"
    }
}

/// A row does what its label names, in the menu of any area.
pub proof fn law_a_label_names_what_its_row_does(area: AreaSummary, rows: Vec<MenuRow>, i: int)
    requires
        call_ensures(menu_rows, (&area,), rows),
        0 <= i < rows@.len(),
    ensures
        rows@[i].label@ == "Copy"@ <==> rows@[i].action == MenuAction::Copy,
        rows@[i].label@ == "Save image"@ <==> rows@[i].action == MenuAction::SaveToFile,
        rows@[i].label@ == "Area type"@ <==> rows@[i].action == MenuAction::OpenSubmenu,
        rows@[i].label@ == "Always on top"@ <==> rows@[i].action == MenuAction::SetLayer(
            Layer::Front,
        ),
        rows@[i].label@ == "Auto"@ <==> rows@[i].action == MenuAction::SetLayer(Layer::Auto),
        rows@[i].label@ == "Always behind"@ <==> rows@[i].action == MenuAction::SetLayer(
            Layer::Back,
        ),
        rows@[i].label@ == "Click-through"@ <==> rows@[i].action is SetInput,
        rows@[i].label@ == "Dismiss"@ <==> rows@[i].action == MenuAction::Dismiss,
{
    lemma_labels_differ();
    assert(label_no(0)@ != label_no(1)@ && label_no(0)@ != label_no(2)@ && label_no(0)@ != label_no(
        3,
    )@);
    assert(label_no(4)@ != label_no(5)@ && label_no(6)@ != label_no(7)@);
}

/// A menu offers its rows in this order: of a Screenshot area first what is done with
/// its picture, then the type, the layers, the click-through, and last the dismissal.
pub proof fn law_what_a_menu_offers(area: AreaSummary, rows: Vec<MenuRow>)
    requires
        call_ensures(menu_rows, (&area,), rows),
    ensures
        ({
            let n = if area.kind == AreaType::Screenshot {
                2int
            } else {
                0
            };
            &&& rows@.len() == n + 6
            &&& n == 2 ==> rows@[0].action == MenuAction::Copy && rows@[1].action
                == MenuAction::SaveToFile
            &&& rows@[n].action == MenuAction::OpenSubmenu
            &&& rows@[n + 1].action == MenuAction::SetLayer(Layer::Front)
            &&& rows@[n + 2].action == MenuAction::SetLayer(Layer::Auto)
            &&& rows@[n + 3].action == MenuAction::SetLayer(Layer::Back)
            &&& rows@[n + 4].action is SetInput
            &&& rows@[n + 5].action == MenuAction::Dismiss
        }),
{
}

/// A tick says how the area is: at its own layer, and at the click-through while it
/// lets clicks through, which choosing the row then turns round.
pub proof fn law_a_tick_says_how_the_area_is(area: AreaSummary, rows: Vec<MenuRow>, i: int)
    requires
        call_ensures(menu_rows, (&area,), rows),
        0 <= i < rows@.len(),
    ensures
        rows@[i].checked <==> rows@[i].action == MenuAction::SetLayer(area.layer) || (
        rows@[i].action is SetInput && area.input == Input::PassThrough),
        rows@[i].action matches MenuAction::SetInput(input) ==> input != area.input,
{
}

/// The type list converts to what its rows name, ticks what the area is, and offers
/// the three types that do something, in their order.
pub proof fn law_a_type_row_converts_to_what_it_names(
    area: AreaSummary,
    rows: Vec<MenuRow>,
    i: int,
)
    requires
        call_ensures(menu_rows, (&area,), rows),
        0 <= i < rows@.len(),
        rows@[i].action == MenuAction::OpenSubmenu,
    ensures
        ({
            let list = rows@[i].children@;
            &&& list.len() == 3
            &&& list[0].label@ == "Type: Default"@
            &&& list[0].action == MenuAction::SetType(AreaType::Default)
            &&& list[0].checked == (area.kind == AreaType::Default)
            &&& list[1].label@ == "Type: Screenshot"@
            &&& list[1].action == MenuAction::SetType(AreaType::Screenshot)
            &&& list[1].checked == (area.kind == AreaType::Screenshot)
            &&& list[2].label@ == "Type: Filter"@
            &&& list[2].action == MenuAction::SetType(AreaType::Filter)
            &&& list[2].checked == (area.kind == AreaType::Filter)
            &&& list[0].children@.len() == 0 && list[1].children@.len() == 0
                && list[2].children@.len() == 0
        }),
{
    let list = rows@[i].children@;
    assert(i == lead(area.kind));
    assert(list[0].action == MenuAction::SetType(offered_types()[0]));
    assert(list[1].action == MenuAction::SetType(offered_types()[1]));
    assert(list[2].action == MenuAction::SetType(offered_types()[2]));
}

/// The label of a type names it, and exactly the types that do something have one.
pub proof fn law_a_type_is_offered_under_its_name(kind: AreaType, label: Option<&'static str>)
    requires
        call_ensures(conversion_label, (kind,), label),
    ensures
        kind == AreaType::Default ==> label is Some && label->0@ == "Type: Default"@,
        kind == AreaType::Screenshot ==> label is Some && label->0@ == "Type: Screenshot"@,
        kind == AreaType::Filter ==> label is Some && label->0@ == "Type: Filter"@,
        label is Some <==> kind == AreaType::Default || kind == AreaType::Screenshot || kind
            == AreaType::Filter,
{
}

/// Laying rows out puts each at the rectangle of its own index, and changes nothing of
/// what it is.
pub proof fn law_a_row_is_put_at_its_own_place(
    rows: &Vec<MenuRow>,
    rects: &Vec<Rect>,
    entries: Vec<MenuEntry>,
    i: int,
    k: int,
)
    requires
        call_ensures(laid_out, (rows, rects), entries),
        0 <= i < rows@.len(),
    ensures
        entries@.len() == rows@.len(),
        entries@[i].rect == rects@[i],
        entries@[i].action == rows@[i].action,
        entries@[i].label == rows@[i].label,
        entries@[i].checked == rows@[i].checked,
        entries@[i].children@.len() == rows@[i].children@.len(),
        0 <= k < rows@[i].children@.len() ==> {
            &&& entries@[i].children@[k].action == rows@[i].children@[k].action
            &&& entries@[i].children@[k].label == rows@[i].children@[k].label
            &&& entries@[i].children@[k].checked == rows@[i].children@[k].checked
        },
{
    assert(is_placed(entries@[i], rows@[i], rects@[i]));
    if 0 <= k < rows@[i].children@.len() {
        assert(same_row(rows@[i].children@[k], entries@[i].children@[k]));
    }
}

/// A point on a row of the menu hits that row, where no child list lies over it.
pub proof fn law_a_point_on_a_row_hits_it(
    menu: AreaMenu,
    point: Point,
    hit: Option<MenuHit>,
    i: int,
)
    requires
        call_ensures(menu_hit, (&menu, point), hit),
        menu.items@.len() <= usize::MAX,
        0 <= i < menu.items@.len(),
        menu.items@[i].rect.holds(point),
        forall|k: int| 0 <= k < i ==> !(#[trigger] menu.items@[k]).rect.holds(point),
        menu.open is Some ==> {
            &&& menu.open->0.items@.len() <= usize::MAX
            &&& !menu.open->0.bounds.holds(point)
            &&& forall|k: int|
                0 <= k < menu.open->0.items@.len() ==> !(
                #[trigger] menu.open->0.items@[k]).rect.holds(point)
        },
    ensures
        hit == Some(MenuHit::Row(i as usize)),
{
    search::lemma_first_from(menu.items@, under(point), 0);
    assert(under(point)(menu.items@[i]));
    if menu.open is Some {
        search::lemma_first_from(menu.open->0.items@, under(point), 0);
    }
}

/// A point on a row of the child list hits that row, whatever lies beneath it.
pub proof fn law_a_point_on_a_child_row_hits_it(
    menu: AreaMenu,
    point: Point,
    hit: Option<MenuHit>,
    i: int,
)
    requires
        call_ensures(menu_hit, (&menu, point), hit),
        menu.open is Some,
        menu.open->0.items@.len() <= usize::MAX,
        0 <= i < menu.open->0.items@.len(),
        menu.open->0.items@[i].rect.holds(point),
        forall|k: int| 0 <= k < i ==> !(#[trigger] menu.open->0.items@[k]).rect.holds(point),
    ensures
        hit == Some(MenuHit::Child(i as usize)),
{
    search::lemma_first_from(menu.open->0.items@, under(point), 0);
    assert(under(point)(menu.open->0.items@[i]));
}

/// A row that is hit is under the point.
pub proof fn law_a_hit_is_under_the_point(menu: AreaMenu, point: Point, hit: Option<MenuHit>)
    requires
        call_ensures(menu_hit, (&menu, point), hit),
        menu.items@.len() <= usize::MAX,
        menu.open is Some ==> menu.open->0.items@.len() <= usize::MAX,
    ensures
        hit matches Some(MenuHit::Row(i)) ==> i < menu.items@.len() && menu.items@[i as int].rect.holds(
            point,
        ),
        hit matches Some(MenuHit::Child(i)) ==> menu.open is Some && i < menu.open->0.items@.len()
            && menu.open->0.items@[i as int].rect.holds(point),
{
    search::lemma_first_from(menu.items@, under(point), 0);
    if menu.open is Some {
        search::lemma_first_from(menu.open->0.items@, under(point), 0);
    }
}

/// The menu covers its own outline and that of its child list, and nothing else.
pub proof fn law_a_menu_covers_its_outlines(menu: AreaMenu, point: Point, inside: bool)
    requires
        call_ensures(menu_covers, (&menu, point), inside),
    ensures
        menu.bounds.holds(point) ==> inside,
        menu.open matches Some(open) ==> (open.bounds.holds(point) ==> inside),
        inside ==> menu.bounds.holds(point) || (menu.open matches Some(open)
            && open.bounds.holds(point)),
{
}

/// The highlight is at the row under the pointer, in the list that has it, and in the
/// other list nowhere; nothing else of the menu changes, and the page is told only
/// where the highlight did.
pub proof fn law_the_highlight_is_under_the_pointer(
    menu: &mut AreaMenu,
    hit: Option<MenuHit>,
    changed: bool,
)
    requires
        call_ensures(apply_menu_hover, (menu, hit), changed),
    ensures
        forall|i: usize| final(menu).hovered == Some(i) <==> hit == Some(#[trigger] row_hit(i)),
        old(menu).open is Some <==> final(menu).open is Some,
        final(menu).open is Some ==> forall|i: usize|
            final(menu).open->0.hovered == Some(i) <==> hit == Some(#[trigger] child_hit(i)),
        final(menu).area == old(menu).area,
        final(menu).bounds == old(menu).bounds,
        final(menu).items == old(menu).items,
        final(menu).argument == old(menu).argument,
        final(menu).open is Some ==> final(menu).open->0.items == old(menu).open->0.items
            && final(menu).open->0.bounds == old(menu).open->0.bounds && final(menu).open->0.parent
            == old(menu).open->0.parent,
        changed <==> final(menu).hovered != old(menu).hovered || (final(menu).open is Some
            && final(menu).open->0.hovered != old(menu).open->0.hovered),
{
}

/// A row of the menu, as what is hit.
pub open spec fn row_hit(i: usize) -> MenuHit {
    MenuHit::Row(i)
}

/// A row of the child list, as what is hit.
pub open spec fn child_hit(i: usize) -> MenuHit {
    MenuHit::Child(i)
}

/// A list opens once the pointer has argued for it for 220 milliseconds, closes once it
/// has argued for none for 400, and is otherwise left; a change of mind starts the time
/// again.
pub proof fn law_a_list_opens_and_closes_on_time(
    now_ms: u64,
    argument: Option<usize>,
    open: Option<usize>,
    since: (Option<usize>, u64),
    result: (SubmenuStep, (Option<usize>, u64)),
)
    requires
        call_ensures(submenu_step, (now_ms, argument, open, since), result),
    ensures
        argument != since.0 ==> result == (SubmenuStep::Hold, (argument, now_ms)),
        argument == since.0 ==> result.1 == since,
        argument == open ==> result.0 == SubmenuStep::Hold,
        argument == since.0 && argument != open && argument is Some ==> (result.0
            == SubmenuStep::Open(argument->0) <==> now_ms >= since.1 + 220) && !(result.0 is Close),
        argument == since.0 && argument != open && argument is None ==> (result.0
            == SubmenuStep::Close <==> now_ms >= since.1 + 400) && !(result.0 is Open),
{
}

/// The pointer argues for the list it is in, and outside of that for the list of the
/// row it is on, if that row has one.
pub proof fn law_the_pointer_argues_for_what_it_is_on(
    menu: AreaMenu,
    point: Point,
    argument: Option<usize>,
    i: int,
)
    requires
        call_ensures(submenu_argument, (&menu, point), argument),
        menu.items@.len() <= usize::MAX,
        0 <= i < menu.items@.len(),
    ensures
        menu.open matches Some(open) ==> (open.bounds.holds(point) ==> argument == Some(
            open.parent,
        )),
        !(menu.open matches Some(open) && open.bounds.holds(point)) ==> {
            &&& argument is None ==> !(menu.items@[i].rect.holds(point)
                && menu.items@[i].children@.len() > 0)
            &&& argument matches Some(row) ==> row < menu.items@.len()
                && menu.items@[row as int].rect.holds(point) && menu.items@[row as int].children@.len()
                > 0
        },
{
    search::lemma_first_from(menu.items@, opening_under(point), 0);
    assert(opening_under(point)(menu.items@[i]) == (menu.items@[i].rect.holds(point)
        && menu.items@[i].children@.len() > 0));
}

/// One tick moves the highlight as hovering does, and opens or closes as the list's
/// clock says.
pub proof fn law_a_tick_follows_the_clock(
    menu: &mut AreaMenu,
    point: Point,
    now: u64,
    pump: MenuPump,
    hit: Option<MenuHit>,
    argument: Option<usize>,
    open: Option<usize>,
    clock: (SubmenuStep, (Option<usize>, u64)),
)
    requires
        call_ensures(menu_pump_step, (menu, point, now), pump),
        call_ensures(menu_hit, (&*old(menu), point), hit),
        call_ensures(submenu_argument, (&*old(menu), point), argument),
        open is Some <==> old(menu).open is Some,
        open is Some ==> open->0 == old(menu).open->0.parent,
        call_ensures(submenu_step, (now, argument, open, old(menu).argument), clock),
    ensures
        pump.hit == hit,
        forall|i: usize| pump.to_open == Some(i) <==> clock.0 == #[trigger] opening(i),
        clock.0 == SubmenuStep::Close ==> final(menu).open is None && pump.changed,
        clock.0 != SubmenuStep::Close ==> (final(menu).open is Some <==> old(menu).open is Some),
        final(menu).argument == clock.1,
        forall|i: usize| final(menu).hovered == Some(i) <==> hit == Some(#[trigger] row_hit(i)),
        final(menu).open is Some ==> forall|i: usize|
            final(menu).open->0.hovered == Some(i) <==> hit == Some(#[trigger] child_hit(i)),
        final(menu).items == old(menu).items,
        final(menu).area == old(menu).area,
        final(menu).hovered != old(menu).hovered ==> pump.changed,
{
    assert(open == owner(*old(menu)));
}

/// Opening the list of a row, as a step of the clock.
pub open spec fn opening(i: usize) -> SubmenuStep {
    SubmenuStep::Open(i)
}

/// Opening a row's list shows the rows it has, each at its place, and leaves the menu
/// as it is; a row without a list, or whose list is open, opens none.
pub proof fn law_a_list_shows_the_rows_of_its_owner(
    menu: &mut Option<AreaMenu>,
    parent: usize,
    layout: &MenuLayout,
    opened: bool,
    k: int,
)
    requires
        call_ensures(open_submenu, (menu, parent, layout), opened),
        *old(menu) is Some,
        parent < (*old(menu))->0.items@.len(),
        0 <= k < (*old(menu))->0.items@[parent as int].children@.len(),
    ensures
        ({
            let before = (*old(menu))->0;
            let row = before.items@[parent as int].children@[k];
            let is_open = before.open matches Some(open) && open.parent == parent;
            &&& opened <==> !is_open
            &&& !opened ==> *final(menu) == *old(menu)
            &&& opened ==> {
                let after = (*final(menu))->0;
                &&& *final(menu) is Some
                &&& after.area == before.area
                &&& after.items == before.items
                &&& after.open is Some
                &&& after.open->0.parent == parent
                &&& after.open->0.bounds == layout.bounds
                &&& after.open->0.hovered is None
                &&& after.open->0.items@.len() == before.items@[parent as int].children@.len()
                &&& after.open->0.items@[k].rect == layout.rows@[k]
                &&& after.open->0.items@[k].action == row.action
                &&& after.open->0.items@[k].label == row.label
                &&& after.open->0.items@[k].checked == row.checked
            }
        }),
{
    let before = (*old(menu))->0;
    if opened {
        assert(is_placed(
            (*final(menu))->0.open->0.items@[k],
            before.items@[parent as int].children@[k],
            layout.rows@[k],
        ));
    }
}

/// A row that has no list opens none, and neither does a row there is not.
pub proof fn law_only_a_parent_row_has_a_list(
    menu: &mut Option<AreaMenu>,
    parent: usize,
    layout: &MenuLayout,
    opened: bool,
)
    requires
        call_ensures(open_submenu, (menu, parent, layout), opened),
        *old(menu) matches Some(before) ==> parent >= before.items@.len()
            || before.items@[parent as int].children@.len() == 0,
    ensures
        !opened,
        *final(menu) == *old(menu),
{
}

/// The menu that opens on an area is that area's: it acts on it, offers its rows, each
/// at its place, and has nothing hovered and no list open.
pub proof fn law_the_menu_that_opens_is_the_areas_own(
    menu: &mut Option<AreaMenu>,
    area: AreaSummary,
    layout: &MenuLayout,
    redraw: bool,
    rows: Vec<MenuRow>,
    i: int,
)
    requires
        call_ensures(open_menu, (menu, Some(area), layout), redraw),
        call_ensures(menu_rows, (&area,), rows),
        0 <= i < rows@.len(),
    ensures
        ({
            let opened = (*final(menu))->0;
            &&& redraw
            &&& *final(menu) is Some
            &&& opened.area == area.id
            &&& opened.bounds == layout.bounds
            &&& opened.items@.len() == rows@.len()
            &&& opened.items@[i].rect == layout.rows@[i]
            &&& opened.items@[i].action == rows@[i].action
            &&& opened.items@[i].label == rows@[i].label
            &&& opened.items@[i].checked == rows@[i].checked
            &&& opened.items@[i].children@.len() == rows@[i].children@.len()
            &&& opened.hovered is None
            &&& opened.open is None
        }),
{
    let shown = rows_of((*final(menu))->0.items@);
    assert(shown[i].action == (*final(menu))->0.items@[i].action);
}

/// A right click on no area closes the menu that is open, and says so.
pub proof fn law_a_right_click_on_no_area_closes_the_menu(
    menu: &mut Option<AreaMenu>,
    layout: &MenuLayout,
    redraw: bool,
)
    requires
        call_ensures(open_menu, (menu, None::<AreaSummary>, layout), redraw),
    ensures
        *final(menu) is None,
        redraw <==> *old(menu) is Some,
{
}

/// Choosing a row of the menu, or of its list, asks for that row's action on the menu's
/// area and closes the menu, if the release is on the row that was pressed.
pub proof fn law_choosing_a_row_does_what_it_says(
    menu: &mut Option<AreaMenu>,
    hit: MenuHit,
    release: Point,
    layout: &MenuLayout,
    activated: Activated,
    entry: MenuEntry,
)
    requires
        call_ensures(activate_menu_item, (menu, hit, release, layout), activated),
        *old(menu) is Some,
        match hit {
            MenuHit::Row(i) => i < (*old(menu))->0.items@.len() && entry
                == (*old(menu))->0.items@[i as int],
            MenuHit::Child(i) => (*old(menu))->0.open is Some && i
                < (*old(menu))->0.open->0.items@.len() && entry
                == (*old(menu))->0.open->0.items@[i as int],
        },
        entry.action != MenuAction::OpenSubmenu,
    ensures
        entry.rect.holds(release) ==> {
            &&& activated.command == Some(
                MenuCommand { area: (*old(menu))->0.area, action: entry.action },
            )
            &&& activated.redraw
            &&& *final(menu) is None
        },
        !entry.rect.holds(release) ==> {
            &&& activated.command is None
            &&& !activated.redraw
            &&& *final(menu) == *old(menu)
        },
{
}

/// Choosing the row that opens a list asks nothing of the area and leaves the menu up,
/// with that list open.
pub proof fn law_choosing_a_parent_row_opens_its_list(
    menu: &mut Option<AreaMenu>,
    parent: usize,
    release: Point,
    layout: &MenuLayout,
    activated: Activated,
)
    requires
        call_ensures(
            activate_menu_item,
            (menu, MenuHit::Row(parent), release, layout),
            activated,
        ),
        *old(menu) is Some,
        parent < (*old(menu))->0.items@.len(),
        (*old(menu))->0.items@[parent as int].action == MenuAction::OpenSubmenu,
        (*old(menu))->0.items@[parent as int].children@.len() > 0,
        (*old(menu))->0.items@[parent as int].rect.holds(release),
    ensures
        activated.command is None,
        *final(menu) is Some,
        (*final(menu))->0.area == (*old(menu))->0.area,
        (*final(menu))->0.items == (*old(menu))->0.items,
        (*final(menu))->0.open is Some,
        (*final(menu))->0.open->0.parent == parent,
{
}

/// A row that is gone does nothing.
pub proof fn law_a_row_that_is_gone_does_nothing(
    menu: &mut Option<AreaMenu>,
    hit: MenuHit,
    release: Point,
    layout: &MenuLayout,
    activated: Activated,
)
    requires
        call_ensures(activate_menu_item, (menu, hit, release, layout), activated),
        *old(menu) matches Some(menu) ==> match hit {
            MenuHit::Row(i) => i >= menu.items@.len(),
            MenuHit::Child(i) => menu.open is None || i >= menu.open->0.items@.len(),
        },
    ensures
        activated.command is None,
        !activated.redraw,
        *final(menu) == *old(menu),
{
}

/// The page draws each row where it is, with its label and its tick, and marks the ones
/// that open a list.
pub proof fn law_the_page_draws_the_rows_there_are(
    items: &Vec<MenuEntry>,
    views: Vec<MenuItemView>,
    i: int,
)
    requires
        call_ensures(item_views, (items,), views),
        0 <= i < items@.len(),
    ensures
        views@.len() == items@.len(),
        views@[i].rect.0 == items@[i].rect.origin.x,
        views@[i].rect.1 == items@[i].rect.origin.y,
        views@[i].rect.2 == items@[i].rect.size.width,
        views@[i].rect.3 == items@[i].rect.size.height,
        views@[i].label == items@[i].label,
        views@[i].checked == items@[i].checked,
        views@[i].parent <==> items@[i].children@.len() > 0,
{
}

/// The page is told of the menu that is open, and of none where none is: its outline,
/// its rows, its highlight, and the same of its child list, with the row that owns it.
pub proof fn law_the_page_draws_the_menu_there_is(
    menu: Option<AreaMenu>,
    payload: MenuPayload,
    rows: Vec<MenuItemView>,
    children: Vec<MenuItemView>,
)
    requires
        call_ensures(menu_payload, (&menu,), payload),
        menu matches Some(menu) ==> call_ensures(item_views, (&menu.items,), rows) && (
        menu.open matches Some(open) ==> call_ensures(item_views, (&open.items,), children)),
    ensures
        payload.menu is Some <==> menu is Some,
        menu matches Some(menu) ==> {
            let view = payload.menu->0;
            &&& view.rect == (
                menu.bounds.origin.x,
                menu.bounds.origin.y,
                menu.bounds.size.width,
                menu.bounds.size.height,
            )
            &&& view.items@ == rows@
            &&& view.hovered == menu.hovered
            &&& view.child is Some <==> menu.open is Some
            &&& menu.open matches Some(open) ==> {
                &&& view.child->0.rect == (
                    open.bounds.origin.x,
                    open.bounds.origin.y,
                    open.bounds.size.width,
                    open.bounds.size.height,
                )
                &&& view.child->0.items@ == children@
                &&& view.child->0.hovered == open.hovered
                &&& view.child->0.owner == open.parent
            }
        },
{
}

/// A closed menu is gone, and closing says whether there was one.
pub proof fn law_closing_closes(menu: &mut Option<AreaMenu>, was_open: bool)
    requires
        call_ensures(close_menu, (menu,), was_open),
    ensures
        *final(menu) is None,
        was_open <==> *old(menu) is Some,
{
}

/// A tick of the open menu opens the list that is due, beside the row that owns it, and
/// tells the page; without a menu it does nothing.
pub proof fn law_a_tick_opens_the_list_that_is_due(
    menu: &mut Option<AreaMenu>,
    point: Point,
    now: u64,
    layout: &MenuLayout,
    tick: MenuTick,
    place: Option<ListPlace>,
    argument: Option<usize>,
    open: Option<usize>,
    clock: (SubmenuStep, (Option<usize>, u64)),
    hit: Option<MenuHit>,
)
    requires
        call_ensures(pump_menu, (menu, point, now, layout), tick),
        call_ensures(list_due, (&*old(menu), point, now), place),
        *old(menu) matches Some(before) ==> {
            &&& before.items@.len() <= usize::MAX
            &&& call_ensures(menu_hit, (&before, point), hit)
            &&& call_ensures(submenu_argument, (&before, point), argument)
            &&& open is Some <==> before.open is Some
            &&& open is Some ==> open->0 == before.open->0.parent
            &&& call_ensures(submenu_step, (now, argument, open, before.argument), clock)
        },
    ensures
        *old(menu) is None ==> *final(menu) is None && tick.hit is None && !tick.redraw && place
            is None,
        *old(menu) matches Some(before) ==> {
            &&& *final(menu) is Some
            &&& tick.hit == hit
            &&& (*final(menu))->0.items == before.items
            &&& (*final(menu))->0.area == before.area
            &&& clock.0 matches SubmenuStep::Open(parent) ==> {
                &&& parent < before.items@.len()
                &&& place == Some(
                    ListPlace {
                        row: before.items@[parent as int].rect,
                        rows: before.items@[parent as int].children.len(),
                    },
                )
                &&& tick.redraw
                &&& (*final(menu))->0.open is Some
                &&& (*final(menu))->0.open->0.parent == parent
                &&& (*final(menu))->0.open->0.bounds == layout.bounds
            }
            &&& clock.0 == SubmenuStep::Close ==> place is None && tick.redraw
                && (*final(menu))->0.open is None
            &&& clock.0 == SubmenuStep::Hold ==> place is None && ((*final(menu))->0.open is Some
                <==> before.open is Some) && (tick.redraw <==> (*final(menu))->0.hovered
                != before.hovered || (before.open is Some && (*final(menu))->0.open->0.hovered
                != before.open->0.hovered))
        },
{
    if *old(menu) is Some {
        let before = (*old(menu))->0;
        assert(open == owner(before));
        if due_to_open(before, point, now) is Some {
            lemma_due_can_open(before, point, now);
        }
    }
}

/// A row that opens no list does what it was made for, under its label.
pub proof fn law_a_leaf_is_what_it_was_made(
    action: MenuAction,
    label: &'static str,
    checked: bool,
    row: MenuRow,
)
    requires
        call_ensures(leaf, (action, label, checked), row),
    ensures
        row.action == action,
        row.label@ == label@,
        row.checked == checked,
        row.children@.len() == 0,
{
}

/// A copy of some rows has the same rows in the same order, with the same lists under them.
pub proof fn law_a_copy_is_the_same_rows(rows: &Vec<MenuRow>, copy: Vec<MenuRow>, i: int, k: int)
    requires
        call_ensures(copy_rows, (rows,), copy),
    ensures
        copy@.len() == rows@.len(),
        0 <= i < rows@.len() ==> copy@[i].action == rows@[i].action && copy@[i].label@
            == rows@[i].label@ && copy@[i].checked == rows@[i].checked && copy@[i].children@.len()
            == rows@[i].children@.len(),
        0 <= i < rows@.len() && 0 <= k < rows@[i].children@.len() ==> copy@[i].children@[k].action
            == rows@[i].children@[k].action && copy@[i].children@[k].label@
            == rows@[i].children@[k].label@ && copy@[i].children@[k].checked
            == rows@[i].children@[k].checked,
{
    if 0 <= i < rows@.len() {
        assert(same_row(rows@[i], copy@[i]));
        if 0 <= k < rows@[i].children@.len() {
            assert(same_row(rows@[i].children@[k], copy@[i].children@[k]));
        }
    }
}

/// The row that was hit is the one at its index, in the list it was hit in.
pub proof fn law_a_hit_names_its_row(menu: &AreaMenu, hit: MenuHit, entry: Option<&MenuEntry>)
    requires
        call_ensures(entry_at, (menu, hit), entry),
    ensures
        hit matches MenuHit::Row(i) ==> (entry is Some <==> i < menu.items@.len()) && (entry is Some
            ==> *entry->0 == menu.items@[i as int]),
        hit matches MenuHit::Child(i) ==> (entry is Some <==> menu.open is Some && i
            < menu.open->0.items@.len()) && (entry is Some ==> *entry->0
            == menu.open->0.items@[i as int]),
{
}

/// A release on the row that was pressed asks for what the row does, to the area of the
/// menu; on a row that has a list it asks for the list; anywhere else for nothing.
pub proof fn law_a_release_asks_for_what_its_row_does(
    menu: &Option<AreaMenu>,
    hit: MenuHit,
    release: Point,
    meaning: Activation,
    entry: Option<&MenuEntry>,
    inside: bool,
)
    requires
        call_ensures(activation, (menu, hit, release), meaning),
        menu is Some ==> call_ensures(entry_at, (&menu->0, hit), entry),
        menu is Some && entry is Some ==> call_ensures(
            Rect::contains,
            (&(entry->0).rect, release),
            inside,
        ),
    ensures
        menu is None || entry is None || !inside ==> meaning == Activation::Nothing,
        menu is Some && entry is Some && inside && (entry->0).action != MenuAction::OpenSubmenu
            ==> meaning == Activation::Perform(
            MenuCommand { area: menu->0.area, action: (entry->0).action },
        ),
        menu is Some && entry is Some && inside && (entry->0).action == MenuAction::OpenSubmenu
            ==> match hit {
            MenuHit::Row(i) => meaning == Activation::OpenList(i),
            MenuHit::Child(_) => meaning == Activation::Nothing,
        },
{
}

} // verus!
