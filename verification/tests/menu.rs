//! The area menu: its rows, its child list, and what the page is told.

use uptake::area::{AreaId, AreaSummary, AreaType, Input, Layer};
use uptake::geometry::{Point, Rect};
use uptake::gesture::{captures_on_create, classify_press, menu_gesture, Gesture};
use uptake::json::Json;
use uptake::menu::{
    activate_menu_item, apply_menu_hover, close_menu, conversion_label, copy_rows, entry_at,
    item_views, laid_out, list_due, menu_covers, menu_hit, menu_payload, menu_pump_step, menu_rows,
    open_menu, open_submenu, pump_menu, submenu_argument, submenu_step, Activated, AreaMenu,
    ListPlace, MenuAction, MenuCommand, MenuEntry, MenuHit, MenuLayout, MenuRow, SubmenuStep,
    SUBMENU_CLOSE_MS, SUBMENU_OPEN_MS,
};
use uptake::overlay::kind_name;

const WIDTH: u32 = 176;
const ROW: u32 = 28;
const PADDING: u32 = 4;

fn summary(kind: AreaType, layer: Layer, input: Input) -> AreaSummary {
    AreaSummary { id: AreaId::new(1), layer, input, kind }
}

fn labels(rows: &[MenuRow]) -> Vec<&'static str> {
    rows.iter().map(|row| row.label).collect()
}

/// A list of `count` rows with its corner at `(x, y)`.
fn layout_at(x: i32, y: i32, count: usize) -> MenuLayout {
    let rows = (0..count)
        .map(|i| Rect::new(x, y + (PADDING + ROW * i as u32) as i32, WIDTH, ROW))
        .collect();
    MenuLayout { bounds: Rect::new(x, y, WIDTH, 2 * PADDING + ROW * count as u32), rows }
}

/// A list of `count` rows beside `row`, its first row level with it.
fn layout_beside(row: Rect, count: usize) -> MenuLayout {
    layout_at(row.right() as i32, row.origin.y - PADDING as i32, count)
}

fn no_layout() -> MenuLayout {
    layout_at(0, 0, 0)
}

fn open_menu_over_default() -> AreaMenu {
    open_menu_over(AreaType::Default)
}

fn open_menu_over(kind: AreaType) -> AreaMenu {
    let area = summary(kind, Layer::Auto, Input::Interactive);
    let layout = layout_at(400, 300, menu_rows(&area).len());
    let mut menu = None;
    assert!(open_menu(&mut menu, Some(area), &layout));
    match menu {
        Some(menu) => menu,
        None => panic!("the menu was just opened"),
    }
}

fn parent_index(menu: &AreaMenu) -> usize {
    let Some(index) = menu.items.iter().position(|item| item.action == MenuAction::OpenSubmenu)
    else {
        panic!("the menu has a type parent row")
    };
    index
}

fn with_type_list_open(menu: &mut AreaMenu) -> usize {
    let parent = parent_index(menu);
    let layout = layout_beside(menu.items[parent].rect, menu.items[parent].children.len());
    let held = std::mem::replace(menu, open_menu_over_default());
    let mut slot = Some(held);
    assert!(open_submenu(&mut slot, parent, &layout));
    match slot {
        Some(opened) => *menu = opened,
        None => panic!("opening a list keeps the menu"),
    }
    parent
}

fn centre(rect: Rect) -> Point {
    Point::new(
        rect.origin.x + (rect.size.width / 2) as i32,
        rect.origin.y + (rect.size.height / 2) as i32,
    )
}

#[test]
fn a_child_list_opens_only_once_the_hover_delay_has_passed() {
    let start = (Some(2), 1_000);
    assert_eq!(
        submenu_step(1_000 + SUBMENU_OPEN_MS - 1, Some(2), None, start).0,
        SubmenuStep::Hold
    );
    assert_eq!(
        submenu_step(1_000 + SUBMENU_OPEN_MS, Some(2), None, start).0,
        SubmenuStep::Open(2)
    );
}

#[test]
fn a_child_list_closes_only_once_the_longer_delay_has_passed() {
    let start = (None, 1_000);
    assert_eq!(
        submenu_step(1_000 + SUBMENU_CLOSE_MS - 1, None, Some(2), start).0,
        SubmenuStep::Hold
    );
    assert_eq!(
        submenu_step(1_000 + SUBMENU_CLOSE_MS, None, Some(2), start).0,
        SubmenuStep::Close
    );
}

#[test]
fn the_close_delay_is_the_longer_of_the_two() {
    assert!(SUBMENU_CLOSE_MS > SUBMENU_OPEN_MS);
    assert_eq!(SUBMENU_OPEN_MS, 220);
    assert_eq!(SUBMENU_CLOSE_MS, 400);
}

#[test]
fn a_pointer_resting_in_an_open_list_never_re_opens_it() {
    assert_eq!(
        submenu_step(u64::MAX, Some(2), Some(2), (Some(2), 0)).0,
        SubmenuStep::Hold
    );
}

#[test]
fn crossing_the_rows_between_a_parent_and_its_list_does_not_close_it() {
    let parent = 2;
    let mut since = (Some(parent), 0);
    let mut open = None;

    for now in [0, 100, SUBMENU_OPEN_MS] {
        let (step, next) = submenu_step(now, Some(parent), open, since);
        since = next;
        if let SubmenuStep::Open(index) = step {
            open = Some(index);
        }
    }
    assert_eq!(open, Some(parent), "the list never opened");

    let departure = SUBMENU_OPEN_MS;
    for elapsed in 1..SUBMENU_CLOSE_MS {
        let (step, next) = submenu_step(departure + elapsed, None, open, since);
        since = next;
        assert_eq!(step, SubmenuStep::Hold, "closed after {elapsed} ms of travel");
    }

    let (step, _) = submenu_step(departure + SUBMENU_CLOSE_MS - 1, Some(parent), open, since);
    assert_eq!(step, SubmenuStep::Hold);
    assert_eq!(open, Some(parent), "the list did not survive the journey");
}

#[test]
fn a_pointer_that_leaves_and_stays_away_does_close_the_list() {
    let mut since = (Some(2), 0);
    let mut closed = false;
    for elapsed in 1..=SUBMENU_CLOSE_MS + 1 {
        let (step, next) = submenu_step(elapsed, None, Some(2), since);
        since = next;
        closed |= step == SubmenuStep::Close;
    }
    assert!(closed, "the list stayed open forever");
}

#[test]
fn a_clock_that_runs_backwards_opens_and_closes_nothing() {
    assert_eq!(submenu_step(10, Some(2), None, (Some(2), 1_000)).0, SubmenuStep::Hold);
    assert_eq!(submenu_step(10, None, Some(2), (None, 1_000)).0, SubmenuStep::Hold);
}

#[test]
fn a_changed_argument_restarts_the_clock() {
    assert_eq!(
        submenu_step(5_000, Some(3), None, (Some(2), 0)),
        (SubmenuStep::Hold, (Some(3), 5_000))
    );
    assert_eq!(
        submenu_step(5_000, Some(3), Some(2), (Some(3), 4_000)),
        (SubmenuStep::Open(3), (Some(3), 4_000))
    );
}

#[test]
fn a_point_on_a_child_row_resolves_to_that_row_and_not_the_one_beneath_it() {
    let mut menu = open_menu_over_default();
    let parent = with_type_list_open(&mut menu);
    let Some(list) = menu.open.as_ref() else { panic!("the list was just opened") };
    for (index, item) in list.items.iter().enumerate() {
        assert_eq!(menu_hit(&menu, centre(item.rect)), Some(MenuHit::Child(index)));
    }
    assert_eq!(menu_hit(&menu, centre(menu.items[parent].rect)), Some(MenuHit::Row(parent)));
}

#[test]
fn a_list_drawn_over_the_menu_hides_the_rows_beneath_it() {
    let mut menu = open_menu_over_default();
    with_type_list_open(&mut menu);
    let bounds = menu.bounds;
    let Some(list) = menu.open.as_mut() else { panic!("the list was just opened") };
    list.bounds = bounds;
    let rows: Vec<Rect> = menu.items.iter().map(|item| item.rect).collect();
    for row in rows {
        assert_eq!(menu_hit(&menu, centre(row)), None);
    }
}

#[test]
fn a_press_on_a_child_row_is_inside_the_menu() {
    let mut menu = open_menu_over_default();
    with_type_list_open(&mut menu);
    let child_row = {
        let Some(list) = menu.open.as_ref() else { panic!("the list was just opened") };
        centre(list.items[0].rect)
    };
    assert!(
        !menu.bounds.contains(child_row),
        "the two lists overlap, so this test proves nothing"
    );
    assert!(menu_covers(&menu, child_row));
    assert!(!menu_covers(&menu, Point::new(10, 10)));
}

#[test]
fn the_production_site_anchors_the_child_list_to_its_parent_row() {
    let menu = open_menu_over_default();
    let parent = parent_index(&menu);
    let parent_rect = menu.items[parent].rect;
    let layout = layout_beside(parent_rect, menu.items[parent].children.len());
    let expected = layout.bounds;
    let mut slot = Some(menu);

    assert!(open_submenu(&mut slot, parent, &layout), "it opened");
    let opened = {
        let Some(menu) = slot.as_ref() else { panic!("the menu is open") };
        let Some(list) = menu.open.as_ref() else { panic!("the list is open") };
        (list.parent, list.bounds, list.items.len(), list.items[0].rect)
    };
    assert_eq!(opened.0, parent);
    assert_eq!(opened.1, expected, "the child list is not where it belongs");
    assert_eq!(opened.2, 3);
    assert_eq!(i64::from(opened.1.origin.x), parent_rect.right());
    assert_eq!(opened.3.origin.y, parent_rect.origin.y);

    assert!(!open_submenu(&mut slot, parent, &layout));
    assert!(!open_submenu(&mut slot, parent + 1, &no_layout()), "a leaf opens nothing");
    assert!(!open_submenu(&mut slot, 99, &no_layout()), "a row that is not there opens nothing");
    assert!(!open_submenu(&mut None, parent, &layout));
}

#[test]
fn a_row_that_opens_a_list_is_marked_for_the_frontend_and_no_other_is() {
    let menu = open_menu_over_default();
    let views = item_views(&menu.items);
    let marked: Vec<usize> = views
        .iter()
        .enumerate()
        .filter(|(_, view)| view.parent)
        .map(|(index, _)| index)
        .collect();
    assert_eq!(marked, vec![parent_index(&menu)]);
    let mut menu = menu;
    with_type_list_open(&mut menu);
    let Some(list) = menu.open.as_ref() else { panic!("the list was just opened") };
    assert!(item_views(&list.items).iter().all(|view| !view.parent));
}

#[test]
fn a_hit_resolves_in_the_list_it_names_and_not_the_other_one() {
    let mut menu = open_menu_over_default();
    with_type_list_open(&mut menu);
    {
        let Some(row) = entry_at(&menu, MenuHit::Row(0)) else { panic!("row 0 exists") };
        let Some(child) = entry_at(&menu, MenuHit::Child(0)) else { panic!("child 0 exists") };
        assert_eq!(row.label, "Area type");
        assert_eq!(child.label, "Type: Default");
        assert_ne!(row.rect, child.rect, "the two lists are separate targets");
    }

    let beyond = menu.items.len() - 1;
    assert!(entry_at(&menu, MenuHit::Child(beyond)).is_none());

    menu.open = None;
    assert!(entry_at(&menu, MenuHit::Child(0)).is_none());
}

#[test]
fn hover_names_the_row_under_the_pointer_in_whichever_list_holds_it() {
    let mut menu = open_menu_over_default();
    let parent = with_type_list_open(&mut menu);
    let child_centre = {
        let Some(list) = menu.open.as_ref() else { panic!("the list was just opened") };
        centre(list.items[1].rect)
    };

    let hit = menu_hit(&menu, child_centre);
    apply_menu_hover(&mut menu, hit);
    assert_eq!(menu.hovered, None);
    assert_eq!(menu.open.as_ref().and_then(|open| open.hovered), Some(1));

    let Some(other) = menu.items.iter().position(|item| item.children.is_empty()) else {
        panic!("the menu has a leaf row")
    };
    let hit = menu_hit(&menu, centre(menu.items[other].rect));
    apply_menu_hover(&mut menu, hit);
    assert_eq!(menu.hovered, Some(other));
    assert_ne!(menu.hovered, Some(parent));

    apply_menu_hover(&mut menu, None);
    assert_eq!(menu.hovered, None);
    assert_eq!(menu.open.as_ref().and_then(|open| open.hovered), None);
}

#[test]
fn the_open_list_names_its_owner_whatever_the_hover_is_doing() {
    let mut menu = open_menu_over_default();
    let parent = with_type_list_open(&mut menu);
    let Some(other) = menu.items.iter().position(|item| item.children.is_empty()) else {
        panic!("the menu has a leaf row")
    };
    for (hit, row, child) in [
        (None, None, None),
        (Some(MenuHit::Row(other)), Some(other), None),
        (Some(MenuHit::Child(0)), None, Some(0)),
    ] {
        apply_menu_hover(&mut menu, hit);
        assert_eq!(
            menu.open.as_ref().map(|open| open.parent),
            Some(parent),
            "the list lost its owner with hit {hit:?}"
        );
        assert_eq!(menu.hovered, row, "the top-level hover with hit {hit:?}");
        assert_eq!(
            menu.open.as_ref().and_then(|open| open.hovered),
            child,
            "the child hover with hit {hit:?}"
        );
    }
}

#[test]
fn one_whole_gesture_opens_holds_and_closes_the_child_list() {
    let mut menu = open_menu_over_default();
    let parent = parent_index(&menu);
    let on_parent = centre(menu.items[parent].rect);

    let step = menu_pump_step(&mut menu, on_parent, 1_000);
    assert_eq!(step.to_open, None, "it opened before the delay was served");
    assert_eq!(step.hit, Some(MenuHit::Row(parent)));
    assert!(menu.open.is_none());

    let step = menu_pump_step(&mut menu, on_parent, 1_000 + SUBMENU_OPEN_MS);
    assert_eq!(step.to_open, Some(parent), "the list never opened");
    assert!(!step.changed, "the step claimed a change of its own");

    let opened = with_type_list_open(&mut menu);
    assert_eq!(opened, parent);

    let Some(other) = menu
        .items
        .iter()
        .enumerate()
        .find(|(index, item)| *index != parent && item.children.is_empty())
        .map(|(index, _)| index)
    else {
        panic!("the menu has a leaf row that is not the parent")
    };
    let travelling = centre(menu.items[other].rect);
    let mut now = 1_000 + SUBMENU_OPEN_MS;
    for tick in 1..SUBMENU_CLOSE_MS {
        now += 1;
        let step = menu_pump_step(&mut menu, travelling, now);
        assert!(
            menu.open.is_some(),
            "the list closed {tick} ms into the diagonal travel, before SUBMENU_CLOSE_MS"
        );
        assert_eq!(step.to_open, None, "it re-opened while travelling away");
    }

    let inside = {
        let Some(list) = menu.open.as_ref() else { panic!("the list is open") };
        centre(list.items[0].rect)
    };
    now += 1;
    let step = menu_pump_step(&mut menu, inside, now);
    assert!(menu.open.is_some(), "the list closed after the pointer arrived in it");
    assert_eq!(step.hit, Some(MenuHit::Child(0)));

    let away = Point::new(10, 10);
    let departure = now;
    let mut closed_at = None;
    for _ in 0..=(SUBMENU_CLOSE_MS * 2) {
        now += 1;
        let _ = menu_pump_step(&mut menu, away, now);
        if menu.open.is_none() {
            closed_at = Some(now);
            break;
        }
    }
    let Some(closed_at) = closed_at else {
        panic!("the list never closed, {}ms after the pointer left", now - departure)
    };
    assert!(
        closed_at - departure >= SUBMENU_CLOSE_MS,
        "the list closed {}ms after the pointer left, inside SUBMENU_CLOSE_MS ({}ms)",
        closed_at - departure,
        SUBMENU_CLOSE_MS
    );
}

#[test]
fn a_tick_that_changes_nothing_says_so() {
    let mut menu = open_menu_over_default();
    let resting = centre(menu.items[parent_index(&menu)].rect);
    assert!(menu_pump_step(&mut menu, resting, 1_000).changed);
    for now in [1_001, 1_002, 1_003] {
        let step = menu_pump_step(&mut menu, resting, now);
        assert!(
            !step.changed,
            "a still pointer reported a change at {now}, so the menu re-emits every tick"
        );
    }
}

#[test]
fn clicking_a_parent_row_opens_its_list_and_leaves_the_menu_up() {
    let menu = open_menu_over_default();
    let parent = parent_index(&menu);
    let row = menu.items[parent].rect;
    let layout = layout_beside(row, menu.items[parent].children.len());
    let mut slot = Some(menu);

    let activated = activate_menu_item(&mut slot, MenuHit::Row(parent), centre(row), &layout);
    assert_eq!(activated, Activated { redraw: true, command: None });
    let Some(menu) = slot.as_ref() else { panic!("the menu closed under its own list") };
    assert_eq!(menu.open.as_ref().map(|open| open.parent), Some(parent));

    // A second click on the row finds its list open and redraws nothing.
    let activated = activate_menu_item(&mut slot, MenuHit::Row(parent), centre(row), &layout);
    assert_eq!(activated, Activated { redraw: false, command: None });
    assert!(slot.is_some());

    // An ordinary row closes the menu and hands its action on.
    let (dismiss, rect) = {
        let Some(menu) = slot.as_ref() else { panic!("the menu is open") };
        let last = menu.items.len() - 1;
        (last, menu.items[last].rect)
    };
    let activated = activate_menu_item(&mut slot, MenuHit::Row(dismiss), centre(rect), &layout);
    assert_eq!(
        activated,
        Activated {
            redraw: true,
            command: Some(MenuCommand { area: AreaId::new(1), action: MenuAction::Dismiss }),
        }
    );
    assert!(slot.is_none());
}

#[test]
fn a_release_beside_the_pressed_row_does_nothing() {
    let mut slot = Some(open_menu_over_default());
    let activated =
        activate_menu_item(&mut slot, MenuHit::Row(5), Point::new(0, 0), &no_layout());
    assert_eq!(activated, Activated { redraw: false, command: None });
    assert!(slot.is_some());
    let activated =
        activate_menu_item(&mut slot, MenuHit::Row(50), Point::new(0, 0), &no_layout());
    assert_eq!(activated, Activated { redraw: false, command: None });
    let activated =
        activate_menu_item(&mut None, MenuHit::Row(0), Point::new(0, 0), &no_layout());
    assert_eq!(activated, Activated { redraw: false, command: None });
}

#[test]
fn choosing_a_type_converts_the_area_the_menu_was_opened_for() {
    let mut menu = open_menu_over_default();
    with_type_list_open(&mut menu);
    let filter = {
        let Some(list) = menu.open.as_ref() else { panic!("the list was just opened") };
        centre(list.items[2].rect)
    };
    let mut slot = Some(menu);
    let activated = activate_menu_item(&mut slot, MenuHit::Child(2), filter, &no_layout());
    assert_eq!(
        activated.command,
        Some(MenuCommand {
            area: AreaId::new(1),
            action: MenuAction::SetType(AreaType::Filter),
        })
    );
    assert!(slot.is_none());
}

#[test]
fn pump_menu_composes_the_step_it_is_given() {
    let menu = open_menu_over_default();
    let parent = parent_index(&menu);
    let row = menu.items[parent].rect;
    let rows = menu.items[parent].children.len();
    let layout = layout_beside(row, rows);
    let mut slot = Some(menu);

    // The first tick on the row moves the highlight, which is a redraw.
    assert_eq!(list_due(&slot, centre(row), 1_000), None);
    let tick = pump_menu(&mut slot, centre(row), 1_000, &no_layout());
    assert_eq!(tick.hit, Some(MenuHit::Row(parent)));
    assert!(tick.redraw);

    // A still pointer redraws nothing until the delay has passed.
    let tick = pump_menu(&mut slot, centre(row), 1_100, &no_layout());
    assert!(!tick.redraw);

    // Then the list opens, and that is one redraw.
    let due = 1_000 + SUBMENU_OPEN_MS;
    assert_eq!(list_due(&slot, centre(row), due), Some(ListPlace { row, rows }));
    let tick = pump_menu(&mut slot, centre(row), due, &layout);
    assert!(tick.redraw);
    let opened = slot.as_ref().and_then(|menu| menu.open.as_ref()).map(|open| open.parent);
    assert_eq!(opened, Some(parent));
    assert_eq!(list_due(&slot, centre(row), due + 1), None);
    assert!(!pump_menu(&mut slot, centre(row), due + 1, &layout).redraw);

    // Away for long enough, it closes, and that is one redraw too.
    let away = Point::new(10, 10);
    assert!(pump_menu(&mut slot, away, due + 2, &layout).redraw, "the highlight left");
    assert!(!pump_menu(&mut slot, away, due + 3, &layout).redraw);
    assert!(pump_menu(&mut slot, away, due + 2 + SUBMENU_CLOSE_MS, &layout).redraw);
    assert!(slot.as_ref().is_some_and(|menu| menu.open.is_none()));

    // Without a menu there is nothing to tick.
    let tick = pump_menu(&mut None, away, 0, &layout);
    assert_eq!((tick.hit, tick.redraw), (None, false));
}

#[test]
fn the_wire_names_the_row_that_owns_the_open_list() {
    let mut menu = open_menu_over(AreaType::Screenshot);
    let parent = with_type_list_open(&mut menu);
    assert_ne!(parent, 0, "the fixture puts the parent row off index zero");
    let Some(other) = menu.items.iter().position(|item| item.children.is_empty()) else {
        panic!("the menu has a leaf row")
    };
    assert_ne!(other, parent);
    apply_menu_hover(&mut menu, Some(MenuHit::Row(other)));

    let payload = menu_payload(&Some(menu));
    let Some(view) = payload.menu else { panic!("the payload carries the open menu") };
    let Some(child) = view.child else { panic!("the payload carries the open child list") };
    assert_eq!(child.owner, parent, "the wire lost the row that owns the list");
    assert_eq!(view.hovered, Some(other), "the wire lost the hovered row");
}

#[test]
fn an_absent_menu_reaches_the_wire_as_an_absent_menu() {
    let payload = menu_payload(&None);
    assert!(payload.menu.is_none());
    assert_eq!(payload.to_json(), Json::Object(vec![("menu".to_string(), Json::Null)]));
}

#[test]
fn being_anywhere_in_an_open_list_argues_for_keeping_it_open() {
    let mut menu = open_menu_over_default();
    let parent = with_type_list_open(&mut menu);
    let Some(list) = menu.open.as_ref() else { panic!("the list was just opened") };
    let list_bounds = list.bounds;
    let padding = Point::new(centre(list_bounds).x, list_bounds.origin.y);
    assert_eq!(submenu_argument(&menu, padding), Some(parent));
    assert_eq!(menu_hit(&menu, padding), None);
    assert_eq!(submenu_argument(&menu, Point::new(10, 10)), None);
}

fn type_rows(rows: &[MenuRow]) -> &[MenuRow] {
    let Some(parent) = rows.iter().find(|row| row.action == MenuAction::OpenSubmenu) else {
        panic!("the menu has a type parent row")
    };
    &parent.children
}

#[test]
fn the_top_level_menu_holds_one_radio_group_and_the_types_are_not_in_it() {
    let rows = menu_rows(&summary(AreaType::Default, Layer::Auto, Input::Interactive));
    assert_eq!(
        labels(&rows),
        vec![
            "Area type",
            "Always on top",
            "Auto",
            "Always behind",
            "Click-through",
            "Dismiss",
        ]
    );
    let radio_ticks = rows
        .iter()
        .filter(|row| matches!(row.action, MenuAction::SetLayer(_)) && row.checked)
        .count();
    assert_eq!(radio_ticks, 1);
    assert!(
        !rows.iter().any(|row| matches!(row.action, MenuAction::SetType(_))),
        "a type row escaped back into the top level"
    );
}

#[test]
fn click_through_is_ticked_and_offers_the_other_way_round() {
    let through = menu_rows(&summary(AreaType::Default, Layer::Back, Input::PassThrough));
    assert!(through[4].checked);
    assert_eq!(through[4].action, MenuAction::SetInput(Input::Interactive));
    let solid = menu_rows(&summary(AreaType::Default, Layer::Back, Input::Interactive));
    assert!(!solid[4].checked);
    assert_eq!(solid[4].action, MenuAction::SetInput(Input::PassThrough));
}

#[test]
fn the_type_list_offers_the_three_types_that_do_something() {
    let rows = menu_rows(&summary(AreaType::Default, Layer::Auto, Input::Interactive));
    assert_eq!(
        labels(type_rows(&rows)),
        vec!["Type: Default", "Type: Screenshot", "Type: Filter"]
    );
}

#[test]
fn exactly_one_row_opens_a_list_and_no_child_opens_another() {
    for kind in AreaType::all() {
        let rows = menu_rows(&summary(kind, Layer::Auto, Input::Interactive));
        let parents = rows.iter().filter(|row| !row.children.is_empty()).count();
        assert_eq!(parents, 1, "{kind:?}");
        for child in type_rows(&rows) {
            assert!(child.children.is_empty(), "{kind:?} {}", child.label);
        }
    }
}

#[test]
fn the_type_rows_tick_the_type_the_area_already_is_and_no_other() {
    for kind in AreaType::all() {
        let rows = menu_rows(&summary(kind, Layer::Auto, Input::Interactive));
        let ticked: Vec<&'static str> = type_rows(&rows)
            .iter()
            .filter(|row| matches!(row.action, MenuAction::SetType(_)) && row.checked)
            .map(|row| row.label)
            .collect();
        match conversion_label(kind) {
            Some(label) => assert_eq!(ticked, vec![label], "{kind:?}"),
            None => assert!(ticked.is_empty(), "{kind:?}"),
        }
    }
}

#[test]
fn the_parent_row_itself_is_never_ticked() {
    for kind in AreaType::all() {
        let rows = menu_rows(&summary(kind, Layer::Auto, Input::Interactive));
        let Some(parent) = rows.iter().find(|row| row.action == MenuAction::OpenSubmenu) else {
            panic!("the menu has a type parent row")
        };
        assert!(!parent.checked, "{kind:?}");
    }
}

#[test]
fn a_screenshots_menu_still_leads_with_copy_and_save() {
    let rows = menu_rows(&summary(AreaType::Screenshot, Layer::Auto, Input::Interactive));
    assert_eq!(labels(&rows)[..3], ["Copy", "Save image", "Area type"]);
}

#[test]
fn no_two_rows_of_one_list_share_a_label() {
    let unique = |rows: &[MenuRow], what: &str, kind: AreaType| {
        let mut seen = labels(rows);
        let before = seen.len();
        seen.sort_unstable();
        seen.dedup();
        assert_eq!(seen.len(), before, "{kind:?} {what}");
    };
    for kind in AreaType::all() {
        let rows = menu_rows(&summary(kind, Layer::Front, Input::PassThrough));
        unique(&rows, "top level", kind);
        unique(type_rows(&rows), "type list", kind);
    }
}

#[test]
fn converting_to_a_type_that_captures_is_exactly_screenshot() {
    for kind in AreaType::all() {
        assert_eq!(captures_on_create(kind), kind == AreaType::Screenshot, "{kind:?}");
    }
}

#[test]
fn each_type_row_is_labelled_with_its_own_type() {
    for kind in AreaType::all() {
        if let Some(label) = conversion_label(kind) {
            assert_eq!(
                label.to_ascii_lowercase(),
                format!("type: {}", kind_name(kind)),
                "{kind:?}"
            );
        }
    }
}

#[test]
fn a_copied_row_is_the_row() {
    let rows = menu_rows(&summary(AreaType::Filter, Layer::Auto, Input::Interactive));
    assert_eq!(copy_rows(&rows), rows);
    let placed: Vec<MenuEntry> = laid_out(&rows, &layout_at(3, 4, rows.len()).rows);
    assert_eq!(placed[1].rect, Rect::new(3, 36, WIDTH, ROW));
    assert_eq!(placed[1].label, "Always on top");
    assert_eq!(placed[0].children, rows[0].children);
}

#[test]
fn a_right_click_on_no_area_closes_the_menu_that_is_open() {
    let mut slot = Some(open_menu_over_default());
    assert!(open_menu(&mut slot, None, &no_layout()));
    assert!(slot.is_none());
    assert!(!open_menu(&mut slot, None, &no_layout()));
    assert!(!close_menu(&mut slot));
}

#[test]
fn a_press_in_the_menu_is_the_menus_and_one_beside_it_closes_it() {
    let mut slot = Some(open_menu_over_default());
    let row = slot.as_ref().map(|menu| menu.items[1].rect);
    let Some(row) = row else { panic!("the menu is open") };
    let padding = Point::new(centre(row).x, 300);
    assert_eq!(
        menu_gesture(&slot, centre(row)),
        Some(Gesture::MenuItem { hit: MenuHit::Row(1) })
    );
    assert_eq!(menu_gesture(&slot, padding), Some(Gesture::Inert));
    assert_eq!(menu_gesture(&slot, Point::new(0, 0)), None);
    assert_eq!(classify_press(&mut slot, padding, None), (Gesture::Inert, false));
    assert!(slot.is_some());
    assert_eq!(classify_press(&mut slot, Point::new(0, 0), None), (Gesture::Inert, true));
    assert!(slot.is_none());
    assert_eq!(classify_press(&mut slot, Point::new(0, 0), None), (Gesture::Create, false));
}
