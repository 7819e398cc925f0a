//! The hook: gestures, the wheel, the hover, and how the hook comes and goes.

use uptake::area::{AreaId, AreaSummary, AreaType, Handle, Input, Layer, Resize};
use uptake::geometry::{index_at, saturating_difference, Point, Rect, Size};
use uptake::gesture::{
    all_shapes, area_handle_at, gesture_cursor, gesture_rect, grip_gesture,
    interactive_area_handle_at, overridden_cursors, AreaProbe, CursorShape, Gesture, GesturePlan,
    Grip, CURSOR_SNAPSHOT_LEN,
};
use uptake::json::{member, Json};
use uptake::menu::{
    menu_rows, ChildMenuView, ListPlace, MenuAction, MenuCommand, MenuItemView, MenuLayout,
    MenuPayload, MenuView,
};
use uptake::mouse::{
    after_change, after_create, after_relocate, handle_mouse, layout_need, pointer_target,
    shadowed_by_another_window, wheel_notches, LayoutNeed, MouseEvent, Target, World, WHEEL_STEP,
    WM_LBUTTONDOWN, WM_LBUTTONUP, WM_MOUSEMOVE, WM_MOUSEWHEEL, WM_RBUTTONDOWN, WM_RBUTTONUP,
    Z_ORDER_WALK_LIMIT,
};
use uptake::overlay::HoverPayload;
use uptake::payload_keys::{assert_keys, assert_payload_coverage};
use uptake::placement::{
    arm, armed, cancel_drag, clear_cursor_residue, disarm, dragged_area,
    enter_living_on_main_thread, enter_placement_on_main_thread, exit_on_main_thread,
    hook_installed, is_dragging, pending_rect, reinstall_on_main_thread, set_cursor,
    set_living_cursor, teardown, Action, HookState, Mode, WheelResidue,
};
use uptake::poll::{
    living_hover, next_warm_point, pump_gesture, pump_hook_health, pump_hover, pump_precapture,
    record_latency, resync_warm_off_thread, take_latency, LatencySamples, Look, PumpState,
    SelectionPayload, WarmSlot, NO_HOVER, REINSTALL_COOLDOWN_TICKS,
};
use uptake::precapture::{CaptureJob, Precapture};
use windows_sys::Win32::UI::WindowsAndMessaging as messages;

#[test]
fn the_hover_payload_reaches_the_frontend_as_camel_case() {
    let document = HoverPayload { id: Some(7), chrome_only: true }.to_json();
    assert_eq!(member(&document, "chromeOnly"), Some(&Json::Bool(true)));
    assert_eq!(
        member(&document, "chrome_only"),
        None,
        "the snake_case name must not reach the wire"
    );
    assert_eq!(member(&document, "id"), Some(&Json::Number("7".to_string())));
}

#[test]
fn a_live_gesture_freezes_the_hover_rather_than_clearing_it() {
    let pressed = (Some(7), true);

    assert_eq!(
        living_hover(false, true, NO_HOVER, pressed),
        pressed,
        "a gesture holds whatever was hovered when it began"
    );
    assert_eq!(
        living_hover(false, true, (Some(9), true), pressed),
        pressed,
        "a live gesture ignores what is under the pointer now"
    );
}

#[test]
fn an_open_menu_owns_the_pointer_and_outranks_a_live_gesture() {
    assert_eq!(living_hover(true, false, (Some(7), false), NO_HOVER), NO_HOVER);
    assert_eq!(living_hover(true, true, (Some(7), false), (Some(9), true)), NO_HOVER);
}

#[test]
fn an_idle_pointer_reports_what_was_resolved() {
    assert_eq!(
        living_hover(false, false, (Some(7), true), (Some(9), false)),
        (Some(7), true)
    );
    assert_eq!(living_hover(false, false, NO_HOVER, (Some(9), false)), NO_HOVER);
}

fn fn_body(source: &str, signature: &str) -> String {
    let production = production_of(source);
    let Some((_, after)) = production.split_once(signature) else {
        panic!(
            "`{signature}` not found in production code -- renamed? An unfound function \
             must not read as a pass"
        )
    };
    let Some((body, _)) = after.split_once("\nfn ") else {
        panic!(
            "`{signature}` has no following top-level `fn` to slice to -- the fixture or \
             the file lost its terminator, which is not the same as the signature being \
             absent"
        )
    };
    strip_comments(body)
}

fn strip_comments(source: &str) -> String {
    strip_strings(&strip_comment_syntax(source))
}

fn strip_strings(source: &str) -> String {
    let mut out = String::with_capacity(source.len());
    let mut chars = source.chars();
    while let Some(c) = chars.next() {
        if c != '"' {
            out.push(c);
            continue;
        }
        out.push('"');
        let mut escaped = false;
        for inner in chars.by_ref() {
            if escaped {
                escaped = false;
            } else if inner == '\\' {
                escaped = true;
            } else if inner == '"' {
                break;
            }
        }
        out.push('"');
    }
    out
}

fn strip_comment_syntax(source: &str) -> String {
    let mut out = String::with_capacity(source.len());
    let mut rest = source;
    loop {
        let line = rest.find("//");
        let block = rest.find("/*");
        match (line, block) {
            (None, None) => {
                out.push_str(rest);
                return out;
            }
            (Some(at), None) => {
                out.push_str(&rest[..at]);
                rest = rest[at..].find('\n').map_or("", |end| &rest[at + end..]);
            }
            (None, Some(at)) => {
                out.push_str(&rest[..at]);
                rest = rest[at..].find("*/").map_or("", |end| &rest[at + end + 2..]);
            }
            (Some(l), Some(b)) if l < b => {
                out.push_str(&rest[..l]);
                rest = rest[l..].find('\n').map_or("", |end| &rest[l + end..]);
            }
            (Some(_), Some(b)) => {
                out.push_str(&rest[..b]);
                rest = rest[b..].find("*/").map_or("", |end| &rest[b + end + 2..]);
            }
        }
    }
}

fn production_of(source: &str) -> &str {
    source.split_once("\n#[cfg(test)]").map_or(source, |(head, _)| head)
}

#[test]
fn a_commented_out_call_is_not_a_call() {
    assert_eq!(strip_comments("a();\n// b();\nc();\n"), "a();\n\nc();\n");
    assert_eq!(strip_comments("a(); /* b(); */ c();"), "a();  c();");
    assert!(!strip_comments("    // emit_menu(app);\n").contains("emit_menu"));
    assert!(strip_comments("// note\nemit_menu(app);\n").contains("emit_menu(app);"));
}

fn signature_only_in_the_test_module(signature: &str) -> String {
    format!(
        "fn other() {{}}\n#[cfg(test)]\nmod tests {{\n    {signature}\n        assert!(true);\n    }}\n}}\nfn after() {{}}\n"
    )
}

#[test]
#[should_panic(expected = "not found in production code")]
fn fn_body_refuses_to_read_the_test_module() {
    let signature = "fn target(app: &AppHandle) {";
    let _ = fn_body(&signature_only_in_the_test_module(signature), signature);
}

#[test]
#[should_panic(expected = "no following top-level")]
fn fn_body_says_so_when_it_has_nothing_to_slice_to() {
    let signature = "fn target(app: &AppHandle) {";
    let _ = fn_body(&format!("{signature}\n    let x = 1;\n}}\n"), signature);
}

#[test]
fn fn_body_reads_production_code_with_its_comments_removed() {
    let signature = "fn target(app: &AppHandle) {";
    let commented =
        format!("{signature}\n    // emit_menu(app);\n    let x = 1;\n}}\nfn after() {{}}\n");
    let body = fn_body(&commented, signature);
    assert!(
        !body.contains("emit_menu"),
        "`fn_body` returned a commented-out call as if it were live code: {body:?}"
    );
    let live = format!("{signature}\n    // note\n    emit_menu(app);\n}}\nfn after() {{}}\n");
    assert!(
        fn_body(&live, signature).contains("emit_menu(app);"),
        "`fn_body` ate a live call that merely followed a comment"
    );
}

#[test]
fn every_payload_this_module_emits_keeps_the_keys_the_frontend_reads() {
    let insist = |verdict: Result<(), String>| assert_eq!(verdict, Ok(()));
    insist(assert_keys(
        "SelectionPayload",
        &SelectionPayload { rect: None, source: None, probe: None }.to_json(),
        &["rect", "source", "probe"],
    ));
    let item = || MenuItemView {
        rect: (1, 2, 3, 4),
        label: "Area type",
        checked: false,
        parent: true,
    };
    insist(assert_keys(
        "MenuItemView",
        &item().to_json(),
        &["rect", "label", "checked", "parent"],
    ));
    let child = ChildMenuView { rect: (5, 6, 7, 8), items: vec![item()], hovered: None, owner: 0 };
    insist(assert_keys(
        "ChildMenuView",
        &child.to_json(),
        &["rect", "items", "hovered", "owner"],
    ));
    let view = MenuView {
        rect: (1, 2, 3, 4),
        items: vec![item()],
        hovered: Some(0),
        child: Some(child),
    };
    insist(assert_keys("MenuView", &view.to_json(), &["rect", "items", "hovered", "child"]));
    insist(assert_keys("MenuPayload", &MenuPayload { menu: Some(view) }.to_json(), &["menu"]));
    insist(assert_keys(
        "HoverPayload",
        &HoverPayload { id: Some(7), chrome_only: true }.to_json(),
        &["id", "chromeOnly"],
    ));
}

#[test]
fn a_selection_reaches_the_page_as_numbers() {
    let document =
        SelectionPayload { rect: Some((-1, 2, 3, 4)), source: None, probe: Some(5) }.to_json();
    let number = |n: &str| Json::Number(n.to_string());
    assert_eq!(
        document,
        Json::Object(vec![
            (
                "rect".to_string(),
                Json::List(vec![number("-1"), number("2"), number("3"), number("4")]),
            ),
            ("source".to_string(), Json::Null),
            ("probe".to_string(), number("5")),
        ])
    );
}

#[test]
fn placement_no_payload_in_this_module_escapes_the_key_table() {
    let mut source = String::new();
    for name in
        ["SelectionPayload", "MenuPayload", "MenuView", "ChildMenuView", "MenuItemView"]
    {
        source.push_str(&format!("#[derive(Serialize, Clone)]\nstruct {name} {{\n}}\n"));
    }
    source.push_str(
        "#[derive(Serialize, Clone)]\n#[serde(rename_all = \"camelCase\")]\nstruct HoverPayload {\n}\n",
    );
    let verdict = assert_payload_coverage(
        "placement.rs",
        &source,
        &[
            "SelectionPayload",
            "MenuPayload",
            "MenuView",
            "ChildMenuView",
            "MenuItemView",
            "HoverPayload",
        ],
        &[],
    );
    assert_eq!(verdict, Ok(()));
}

fn wheel(delta: i16) -> u32 {
    ((delta as u32) << 16) | 0xFFFF
}

fn fresh_wheel() -> WheelResidue {
    WheelResidue { area: 0, turned: 0 }
}

#[test]
fn a_notched_wheel_gives_one_notch_per_click() {
    let mut residue = fresh_wheel();
    let step = WHEEL_STEP as i16;
    assert_eq!(wheel_notches(&mut residue, 1, wheel(step)), 1);
    assert_eq!(wheel_notches(&mut residue, 1, wheel(-step)), -1);
    assert_eq!(wheel_notches(&mut residue, 1, wheel(step * 3)), 3);
}

#[test]
fn fractions_of_a_notch_accumulate_into_one() {
    let mut residue = fresh_wheel();
    let id = 2;
    assert_eq!(wheel_notches(&mut residue, id, wheel(40)), 0);
    assert_eq!(wheel_notches(&mut residue, id, wheel(40)), 0);
    assert_eq!(wheel_notches(&mut residue, id, wheel(40)), 1, "40 * 3 == WHEEL_DELTA");
    assert_eq!(wheel_notches(&mut residue, id, wheel(40)), 0);
}

#[test]
fn residue_does_not_cross_from_one_area_to_another() {
    let mut residue = fresh_wheel();
    assert_eq!(wheel_notches(&mut residue, 3, wheel(80)), 0);
    assert_eq!(wheel_notches(&mut residue, 4, wheel(80)), 0, "starts fresh");
    assert_eq!(wheel_notches(&mut residue, 4, wheel(40)), 1);
}

#[test]
fn a_backward_turn_keeps_its_sign() {
    let mut residue = fresh_wheel();
    assert_eq!(wheel_notches(&mut residue, 5, wheel(-130)), -1);
    assert_eq!(residue, WheelResidue { area: 5, turned: -10 });
    assert_eq!(wheel_notches(&mut residue, 5, wheel(i16::MIN)), -273);
    assert_eq!(residue.turned, -18);
    assert_eq!(WHEEL_STEP as u32, messages::WHEEL_DELTA);
}

#[test]
fn every_shape_sits_at_its_own_index() {
    let shapes = all_shapes();
    for shape in shapes {
        assert_eq!(
            shapes[shape.index()],
            shape,
            "{shape:?} reads back as {:?}, `index()` and `all_shapes` disagree",
            shapes[shape.index()]
        );
    }
}

#[test]
fn the_snapshot_has_a_slot_for_every_shape() {
    assert_eq!(CURSOR_SNAPSHOT_LEN, all_shapes().len());
}

#[test]
fn the_cursors_have_the_systems_numbers() {
    let numbers: Vec<usize> = all_shapes().iter().map(|shape| shape.idc() as usize).collect();
    assert_eq!(
        numbers,
        vec![
            messages::IDC_CROSS as usize,
            messages::IDC_SIZEALL as usize,
            messages::IDC_SIZENS as usize,
            messages::IDC_SIZEWE as usize,
            messages::IDC_SIZENWSE as usize,
            messages::IDC_SIZENESW as usize,
            messages::IDC_HAND as usize,
            messages::IDC_ARROW as usize,
        ]
    );
    assert_eq!(
        overridden_cursors(),
        [
            messages::OCR_NORMAL,
            messages::OCR_IBEAM,
            messages::OCR_WAIT,
            messages::OCR_CROSS,
            messages::OCR_UP,
            messages::OCR_SIZENWSE,
            messages::OCR_SIZENESW,
            messages::OCR_SIZEWE,
            messages::OCR_SIZENS,
            messages::OCR_SIZEALL,
            messages::OCR_NO,
            messages::OCR_HAND,
            messages::OCR_APPSTARTING,
        ]
    );
    assert_eq!(
        CursorShape::SizeNESW.unloaded_line(),
        "placement: could not load the SizeNESW cursor; leaving the system cursor as-is"
    );
}

#[test]
fn the_events_have_the_systems_numbers() {
    assert_eq!(
        [
            WM_MOUSEMOVE,
            WM_LBUTTONDOWN,
            WM_LBUTTONUP,
            WM_RBUTTONDOWN,
            WM_RBUTTONUP,
            WM_MOUSEWHEEL,
        ],
        [
            messages::WM_MOUSEMOVE,
            messages::WM_LBUTTONDOWN,
            messages::WM_LBUTTONUP,
            messages::WM_RBUTTONDOWN,
            messages::WM_RBUTTONUP,
            messages::WM_MOUSEWHEEL,
        ]
    );
}

// ---------------------------------------------------------------------------
// The hook, event by event.
// ---------------------------------------------------------------------------

fn event(message: u32, x: i32, y: i32) -> MouseEvent {
    MouseEvent { message, point: Point::new(x, y), data: 0 }
}

fn target(kind: AreaType, zoomable: bool) -> Target {
    Target {
        area: AreaSummary { id: AreaId::new(5), layer: Layer::Auto, input: Input::Interactive, kind },
        zoomable,
    }
}

fn layout(rows: usize) -> MenuLayout {
    MenuLayout {
        bounds: Rect::new(0, 0, 100, 20 * rows as u32),
        rows: (0..rows).map(|row| Rect::new(0, 20 * row as i32, 100, 20)).collect(),
    }
}

fn empty_world() -> World {
    World {
        shadowed: false,
        areas: Vec::new(),
        any: None,
        interactive: None,
        monitors: vec![Rect::new(0, 0, 1920, 1080)],
        pending: None,
        layout: layout(0),
    }
}

fn probe(id: u64, interactive: bool, handle: Option<Handle>) -> AreaProbe {
    AreaProbe {
        id: AreaId::new(id),
        bounds: Rect::new(10, 10, 100, 100),
        interactive,
        handle,
        control: Rect::new(100, 10, 10, 10),
    }
}

fn placing() -> HookState {
    let mut state = HookState::default();
    let mut actions = Vec::new();
    enter_placement_on_main_thread(&mut state, None, &mut actions);
    assert_eq!(
        actions,
        vec![Action::InstallHook, Action::OverrideCursors(CursorShape::Cross)]
    );
    hook_installed(&mut state, true);
    state
}

fn living() -> HookState {
    let mut state = HookState::default();
    let mut actions = Vec::new();
    enter_living_on_main_thread(&mut state, &mut actions);
    hook_installed(&mut state, true);
    state
}

#[test]
fn drawing_an_area_takes_the_press_and_its_release() {
    let mut state = placing();
    let mut pre = Precapture::default();
    let mut world = empty_world();
    let down = handle_mouse(&mut state, &mut pre, event(WM_LBUTTONDOWN, 10, 20), &world);
    assert!(down.swallow && down.actions.is_empty());
    assert!(is_dragging(&state));
    assert_eq!(
        pending_rect(&state, true),
        Some(GesturePlan::Draw {
            anchor: Point::new(10, 20),
            pointer: Point::new(10, 20),
            free: true,
        })
    );
    let moved = handle_mouse(&mut state, &mut pre, event(WM_MOUSEMOVE, 60, 70), &world);
    assert!(!moved.swallow && moved.actions.is_empty());
    world.pending = Some(Rect::new(10, 20, 50, 50));
    let up = handle_mouse(&mut state, &mut pre, event(WM_LBUTTONUP, 60, 70), &world);
    assert!(up.swallow);
    assert_eq!(
        up.actions,
        vec![Action::Create { kind: AreaType::Default, rect: Rect::new(10, 20, 50, 50) }]
    );
    assert!(!is_dragging(&state) && !state.left_pending);
    assert_eq!(state.hook_events, 3);
}

#[test]
fn an_armed_drag_captures_and_spends_its_arming() {
    let mut state = placing();
    let mut pre = Precapture::default();
    let mut world = empty_world();
    arm(&mut state, AreaType::Screenshot);
    assert_eq!(armed(&state), Some(AreaType::Screenshot));
    let down = handle_mouse(&mut state, &mut pre, event(WM_LBUTTONDOWN, 10, 20), &world);
    let job = CaptureJob { monitor: Rect::new(0, 0, 1920, 1080), generation: 1 };
    assert_eq!(down.actions, vec![Action::StartCapture(job)]);
    assert!(pre.in_flight);
    world.pending = Some(Rect::new(10, 20, 50, 50));
    let up = handle_mouse(&mut state, &mut pre, event(WM_LBUTTONUP, 60, 70), &world);
    assert_eq!(
        up.actions,
        vec![Action::Create { kind: AreaType::Screenshot, rect: Rect::new(10, 20, 50, 50) }]
    );
    assert_eq!(armed(&state), None);
    assert_eq!(
        after_create(&mut pre, AreaType::Screenshot, Some((AreaId::new(1), Rect::new(10, 20, 50, 50)))),
        vec![
            Action::CaptureInto { id: AreaId::new(1), rect: Rect::new(10, 20, 50, 50) },
            Action::AreaCreated(AreaType::Screenshot),
            Action::EmitAreas,
        ]
    );
    assert_eq!(pre.target, None);
}

#[test]
fn a_cancelled_drag_creates_nothing_but_takes_its_release() {
    let mut state = placing();
    let mut pre = Precapture::default();
    let mut world = empty_world();
    arm(&mut state, AreaType::Filter);
    handle_mouse(&mut state, &mut pre, event(WM_LBUTTONDOWN, 10, 20), &world);
    cancel_drag(&mut state, &mut pre);
    assert_eq!(pending_rect(&state, false), None);
    world.pending = Some(Rect::new(10, 20, 50, 50));
    let up = handle_mouse(&mut state, &mut pre, event(WM_LBUTTONUP, 60, 70), &world);
    assert!(up.swallow && up.actions.is_empty());
    assert_eq!(armed(&state), Some(AreaType::Filter));
    disarm(&mut state);
    assert_eq!(armed(&state), None);
}

#[test]
fn a_press_over_another_window_is_let_through() {
    for mut state in [placing(), living()] {
        let mut pre = Precapture::default();
        let world = World {
            shadowed: true,
            areas: vec![probe(1, true, Some(Handle::Body))],
            interactive: Some(target(AreaType::Default, true)),
            any: Some(target(AreaType::Default, true)),
            ..empty_world()
        };
        for message in [WM_LBUTTONDOWN, WM_RBUTTONDOWN, WM_LBUTTONUP, WM_RBUTTONUP, WM_MOUSEWHEEL] {
            let response = handle_mouse(&mut state, &mut pre, event(message, 20, 20), &world);
            assert!(!response.swallow && response.actions.is_empty(), "{message:#x}");
        }
        assert!(!state.left_pending && !state.right_pending);
    }
}

#[test]
fn a_hidden_overlay_takes_nothing() {
    let mut state = HookState::default();
    let mut pre = Precapture::default();
    let world = World { any: Some(target(AreaType::Default, true)), ..empty_world() };
    for message in [WM_LBUTTONDOWN, WM_RBUTTONDOWN, WM_MOUSEWHEEL, WM_LBUTTONUP, 0x0207] {
        assert!(!handle_mouse(&mut state, &mut pre, event(message, 1, 1), &world).swallow);
    }
}

#[test]
fn living_takes_hold_of_what_it_raises() {
    let mut state = living();
    let mut pre = Precapture::default();
    let mut world = World {
        areas: vec![
            probe(1, false, Some(Handle::Body)),
            probe(2, true, Some(Handle::Body)),
            probe(3, false, Some(Handle::Resize(Resize::East))),
        ],
        ..empty_world()
    };
    let down = handle_mouse(&mut state, &mut pre, event(WM_LBUTTONDOWN, 20, 20), &world);
    assert!(down.swallow, "a pass-through body is passed through to the area below it");
    assert_eq!(down.actions, vec![Action::Raise(AreaId::new(2))]);
    assert_eq!(dragged_area(&state), Some(2));
    world.pending = Some(Rect::new(30, 30, 100, 100));
    let up = handle_mouse(&mut state, &mut pre, event(WM_LBUTTONUP, 40, 40), &world);
    assert_eq!(
        up.actions,
        vec![Action::Relocate { id: AreaId::new(2), rect: Rect::new(30, 30, 100, 100) }]
    );
    assert_eq!(
        after_relocate(AreaId::new(2), true),
        vec![Action::RefreshMagnification(AreaId::new(2)), Action::EmitAreas]
    );
    assert!(after_relocate(AreaId::new(2), false).is_empty());

    world.areas = vec![probe(1, false, Some(Handle::Body))];
    let down = handle_mouse(&mut state, &mut pre, event(WM_LBUTTONDOWN, 20, 20), &world);
    assert!(!down.swallow, "the application underneath gets the press");
    world.areas = vec![probe(3, false, Some(Handle::Resize(Resize::East)))];
    let down = handle_mouse(&mut state, &mut pre, event(WM_LBUTTONDOWN, 20, 20), &world);
    assert!(down.swallow, "chrome is grabbable on a pass-through area");
}

#[test]
fn a_close_control_acts_only_if_released_on_it() {
    for (x, expected) in [(105, vec![Action::Dismiss(AreaId::new(1))]), (50, Vec::new())] {
        let mut state = placing();
        let mut pre = Precapture::default();
        let world =
            World { areas: vec![probe(1, true, Some(Handle::Close))], ..empty_world() };
        handle_mouse(&mut state, &mut pre, event(WM_LBUTTONDOWN, 105, 15), &world);
        let up = handle_mouse(&mut state, &mut pre, event(WM_LBUTTONUP, x, 15), &world);
        assert_eq!(up.actions, expected);
    }
    assert_eq!(after_change(true), vec![Action::EmitAreas]);
    assert!(after_change(false).is_empty());
}

#[test]
fn a_right_click_opens_the_menu_and_a_row_acts_on_its_area() {
    let mut state = living();
    let mut pre = Precapture::default();
    let on_area = target(AreaType::Screenshot, true);
    let rows = menu_rows(&on_area.area).len();
    assert_eq!(rows, 8);
    let mut world = World { interactive: Some(on_area), layout: layout(rows), ..empty_world() };
    let down = handle_mouse(&mut state, &mut pre, event(WM_RBUTTONDOWN, 5, 5), &world);
    assert!(down.swallow && down.actions.is_empty());
    let release = event(WM_RBUTTONUP, 5, 5);
    assert_eq!(
        layout_need(&state, release, world.any, world.interactive),
        LayoutNeed::Menu(on_area.area)
    );
    let up = handle_mouse(&mut state, &mut pre, release, &world);
    assert!(up.swallow);
    assert_eq!(up.actions, vec![Action::EmitMenu]);
    assert!(state.menu.is_some());

    // The row that opens a list needs a place for it, and leaves the menu up.
    handle_mouse(&mut state, &mut pre, event(WM_LBUTTONDOWN, 5, 45), &world);
    let release = event(WM_LBUTTONUP, 5, 45);
    assert_eq!(
        layout_need(&state, release, world.any, world.interactive),
        LayoutNeed::List(ListPlace { row: Rect::new(0, 40, 100, 20), rows: 3 })
    );
    world.layout = MenuLayout {
        bounds: Rect::new(100, 40, 100, 60),
        rows: (0..3).map(|row| Rect::new(100, 40 + 20 * row, 100, 20)).collect(),
    };
    let up = handle_mouse(&mut state, &mut pre, release, &world);
    assert_eq!(up.actions, vec![Action::EmitMenu]);
    assert!(state.menu.as_ref().is_some_and(|menu| menu.open.is_some()));

    // Choosing from the list converts the area.
    handle_mouse(&mut state, &mut pre, event(WM_LBUTTONDOWN, 105, 85), &world);
    let release = event(WM_LBUTTONUP, 105, 85);
    assert_eq!(
        layout_need(&state, release, world.any, world.interactive),
        LayoutNeed::Nothing
    );
    let up = handle_mouse(&mut state, &mut pre, release, &world);
    assert_eq!(
        up.actions,
        vec![
            Action::EmitMenu,
            Action::Command(MenuCommand {
                area: AreaId::new(5),
                action: MenuAction::SetType(AreaType::Filter),
            }),
        ]
    );
    assert!(state.menu.is_none());
}

#[test]
fn a_press_beside_an_open_menu_only_closes_it() {
    let mut state = living();
    let mut pre = Precapture::default();
    let on_area = target(AreaType::Default, true);
    let world = World { interactive: Some(on_area), layout: layout(6), ..empty_world() };
    handle_mouse(&mut state, &mut pre, event(WM_RBUTTONDOWN, 5, 5), &world);
    handle_mouse(&mut state, &mut pre, event(WM_RBUTTONUP, 5, 5), &world);
    let down = handle_mouse(&mut state, &mut pre, event(WM_LBUTTONDOWN, 500, 500), &world);
    assert!(down.swallow);
    assert_eq!(down.actions, vec![Action::EmitMenu]);
    assert!(!is_dragging(&state) && state.left_pending);
    let up = handle_mouse(&mut state, &mut pre, event(WM_LBUTTONUP, 500, 500), &world);
    assert!(up.swallow && up.actions.is_empty());
}

#[test]
fn the_wheel_zooms_what_can_be_zoomed() {
    let mut state = living();
    let mut pre = Precapture::default();
    let turn = MouseEvent { message: WM_MOUSEWHEEL, point: Point::new(1, 1), data: wheel(240) };
    let zoomable =
        World { interactive: Some(target(AreaType::Screenshot, true)), ..empty_world() };
    let response = handle_mouse(&mut state, &mut pre, turn, &zoomable);
    assert!(response.swallow);
    assert_eq!(response.actions, vec![Action::Zoom { id: AreaId::new(5), notches: 2 }]);
    let part = MouseEvent { data: wheel(40), ..turn };
    let response = handle_mouse(&mut state, &mut pre, part, &zoomable);
    assert!(response.swallow && response.actions.is_empty());
    let fixed = World { interactive: Some(target(AreaType::Filter, false)), ..empty_world() };
    assert!(!handle_mouse(&mut state, &mut pre, turn, &fixed).swallow);
    assert!(!handle_mouse(&mut state, &mut pre, turn, &empty_world()).swallow);
}

#[test]
fn placement_and_living_look_for_different_areas() {
    let (any, live) = (target(AreaType::Filter, false), target(AreaType::Default, true));
    assert_eq!(pointer_target(Mode::Placement, Some(any), Some(live)), Some(any));
    assert_eq!(pointer_target(Mode::Living, Some(any), Some(live)), Some(live));
    assert_eq!(pointer_target(Mode::Hidden, Some(any), Some(live)), None);
}

#[test]
fn the_window_order_is_walked_no_further_than_its_limit() {
    assert!(!shadowed_by_another_window(1, None, &[]));
    assert!(!shadowed_by_another_window(1, Some(1), &[]));
    assert!(shadowed_by_another_window(1, Some(2), &[3, 4]));
    assert!(!shadowed_by_another_window(1, Some(2), &[3, 1]));
    let long = vec![9; Z_ORDER_WALK_LIMIT];
    assert!(!shadowed_by_another_window(1, Some(2), &long));
    assert!(shadowed_by_another_window(1, Some(2), &long[1..]));
}

#[test]
fn hiding_waits_for_a_release_that_is_owed() {
    let mut state = placing();
    let mut pre = Precapture::default();
    let world = empty_world();
    handle_mouse(&mut state, &mut pre, event(WM_LBUTTONDOWN, 10, 20), &world);
    let mut actions = Vec::new();
    exit_on_main_thread(&mut state, &mut actions);
    assert!(actions.is_empty() && state.hook && state.want_teardown);
    let up = handle_mouse(&mut state, &mut pre, event(WM_LBUTTONUP, 10, 20), &world);
    assert!(up.swallow, "the release is not leaked to the application underneath");
    assert_eq!(up.actions, vec![Action::RemoveHook, Action::RestoreCursors]);
    assert!(!state.hook && !state.want_teardown);
}

#[test]
fn coming_back_calls_a_teardown_off() {
    let mut state = placing();
    let mut pre = Precapture::default();
    handle_mouse(&mut state, &mut pre, event(WM_LBUTTONDOWN, 10, 20), &empty_world());
    let mut actions = Vec::new();
    exit_on_main_thread(&mut state, &mut actions);
    enter_placement_on_main_thread(&mut state, Some(Point::new(7, 8)), &mut actions);
    assert!(!state.want_teardown && state.mode == Mode::Placement);
    assert_eq!(state.current, Point::new(7, 8));
    assert!(actions.is_empty(), "the hook and the cursor are still there");
    teardown(&mut state, &mut actions);
    assert_eq!(actions, vec![Action::RemoveHook, Action::RestoreCursors]);
}

#[test]
fn living_puts_the_cursors_of_placement_back() {
    let mut state = placing();
    arm(&mut state, AreaType::Filter);
    let mut actions = Vec::new();
    enter_living_on_main_thread(&mut state, &mut actions);
    assert_eq!(actions, vec![Action::RestoreCursors]);
    assert_eq!(armed(&state), None, "arming never outlives Placement");
    set_living_cursor(&mut state, Some(CursorShape::Move), &mut actions);
    set_living_cursor(&mut state, Some(CursorShape::Move), &mut actions);
    set_living_cursor(&mut state, None, &mut actions);
    assert_eq!(
        actions[1..],
        [
            Action::OverrideArrow(CursorShape::Move),
            Action::OverrideArrow(CursorShape::Arrow),
        ]
    );
    clear_cursor_residue(&mut actions);
    assert_eq!(actions.last(), Some(&Action::RestoreCursors));
}

#[test]
fn a_shown_cursor_is_not_shown_again() {
    let mut state = placing();
    let mut actions = Vec::new();
    set_cursor(&mut state, CursorShape::Cross, &mut actions);
    assert!(actions.is_empty());
    set_cursor(&mut state, CursorShape::Hand, &mut actions);
    assert_eq!(actions, vec![Action::OverrideCursors(CursorShape::Hand)]);
}

#[test]
fn a_replaced_hook_starts_from_what_is_pressed() {
    let mut state = placing();
    state.dragging = true;
    state.gesture = Some(Gesture::Create);
    state.left_pending = true;
    let mut actions = Vec::new();
    reinstall_on_main_thread(&mut state, false, true, &mut actions);
    assert_eq!(actions, vec![Action::RemoveHook, Action::InstallHook]);
    assert!(!state.dragging && !state.left_pending && state.right_pending);
}

#[test]
fn gestures_have_their_rectangles_and_cursors() {
    let start = Rect::new(10, 10, 100, 100);
    let id = AreaId::new(1);
    let (from, to) = (Point::new(0, 0), Point::new(5, -7));
    assert_eq!(
        gesture_rect(Gesture::Move { id, start }, from, to, false),
        Some(GesturePlan::Shift { start, dx: 5, dy: -7, free: false })
    );
    let resize = Resize::SouthWest;
    assert_eq!(
        gesture_rect(Gesture::Resize { id, resize, start }, from, to, true),
        Some(GesturePlan::Stretch { start, resize, dx: 5, dy: -7, free: true })
    );
    assert_eq!(gesture_rect(Gesture::Inert, from, to, true), None);
    let far = Point::new(i32::MAX, i32::MIN);
    assert_eq!(
        gesture_rect(Gesture::Move { id, start }, Point::new(-1, 1), far, false),
        Some(GesturePlan::Shift { start, dx: i32::MAX, dy: i32::MIN, free: false })
    );
    assert_eq!(saturating_difference(i32::MIN, 1), i32::MIN);
    assert_eq!(gesture_cursor(Gesture::Create), CursorShape::Cross);
    assert_eq!(gesture_cursor(Gesture::Move { id, start }), CursorShape::Move);
    assert_eq!(
        gesture_cursor(Gesture::Resize { id, resize, start }),
        CursorShape::SizeNESW
    );
    assert_eq!(CursorShape::for_handle(Handle::Close), CursorShape::Hand);
}

#[test]
fn the_topmost_area_under_the_pointer_is_taken() {
    let areas = [
        probe(1, true, None),
        probe(2, false, Some(Handle::Body)),
        probe(3, true, Some(Handle::Close)),
    ];
    let Some(grip) = area_handle_at(&areas) else { panic!("an area is under the pointer") };
    assert_eq!((grip.id, grip.handle), (AreaId::new(2), Handle::Body));
    let Some(grip) = interactive_area_handle_at(&areas) else {
        panic!("an area takes the press")
    };
    assert_eq!(grip.id, AreaId::new(3));
    assert_eq!(
        grip_gesture(grip),
        Gesture::Close { id: AreaId::new(3), control: Rect::new(100, 10, 10, 10) }
    );
    let body = Grip { handle: Handle::Body, ..grip };
    assert_eq!(
        grip_gesture(body),
        Gesture::Move { id: AreaId::new(3), start: Rect::new(10, 10, 100, 100) }
    );
    assert!(area_handle_at(&areas[..1]).is_none());
}

// ---------------------------------------------------------------------------
// The poll.
// ---------------------------------------------------------------------------

#[test]
fn a_hook_that_misses_three_moves_is_replaced_once() {
    let mut pump = PumpState::default();
    let at = |x| Some(Point::new(x, 0));
    assert!(!pump_hook_health(&mut pump, Mode::Living, 4, at(0)));
    assert!(!pump_hook_health(&mut pump, Mode::Living, 4, at(1)));
    assert!(!pump_hook_health(&mut pump, Mode::Living, 4, at(2)));
    assert!(pump_hook_health(&mut pump, Mode::Living, 4, at(3)));
    for tick in 0..REINSTALL_COOLDOWN_TICKS {
        assert!(!pump_hook_health(&mut pump, Mode::Living, 4, at(4 + tick as i32)));
    }
    assert!(!pump_hook_health(&mut pump, Mode::Living, 4, at(100)));
    assert!(!pump_hook_health(&mut pump, Mode::Living, 5, at(101)), "an event arrived");
    assert!(!pump_hook_health(&mut pump, Mode::Hidden, 5, at(102)));
}

#[test]
fn a_drag_is_told_until_it_ends_and_then_once_more() {
    let mut pump = PumpState::default();
    let mut frames = 0;
    let rect = Rect::new(1, 2, 3, 4);
    assert_eq!(pump_gesture(&mut pump, &mut frames, None, None, true, 50), None);
    assert_eq!(
        pump_gesture(&mut pump, &mut frames, Some(rect), Some(7), true, 50),
        Some(SelectionPayload { rect: Some((1, 2, 3, 4)), source: Some(7), probe: Some(50) })
    );
    for _ in 1..8 {
        let payload = pump_gesture(&mut pump, &mut frames, Some(rect), None, true, 51);
        assert!(payload.is_some_and(|payload| payload.probe.is_none()));
    }
    let payload = pump_gesture(&mut pump, &mut frames, Some(rect), None, true, 52);
    assert!(payload.is_some_and(|payload| payload.probe == Some(52)), "one frame in eight");
    assert_eq!(
        pump_gesture(&mut pump, &mut frames, None, None, true, 53),
        Some(SelectionPayload { rect: None, source: None, probe: None })
    );
    assert_eq!(pump_gesture(&mut pump, &mut frames, None, None, true, 54), None);
    assert_eq!(frames, 9);
}

#[test]
fn the_poll_tells_the_page_only_what_it_does_not_know() {
    let mut state = placing();
    let mut pump = PumpState::default();
    let look = Look {
        hovered: NO_HOVER,
        grabbed: None,
        grip: Some((AreaId::new(4), Handle::Resize(Resize::North))),
        monitor: Some(1),
    };
    let actions = pump_hover(&mut state, &mut pump, 0, &layout(0), &look);
    assert_eq!(
        actions,
        vec![
            Action::EmitActiveMonitor(Some(1)),
            Action::ResyncWarm(Point::new(0, 0)),
            Action::OverrideCursors(CursorShape::SizeNS),
            Action::EmitHover { hovered: Some(4), chrome_only: false },
        ]
    );
    assert!(pump_hover(&mut state, &mut pump, 1, &layout(0), &look).is_empty());
    let mut hidden = HookState::default();
    assert!(pump_hover(&mut hidden, &mut pump, 2, &layout(0), &look).is_empty());

    let mut state = living();
    let mut pump = PumpState::default();
    let look = Look {
        hovered: (Some(9), true),
        grabbed: Some(Handle::Close),
        grip: None,
        monitor: None,
    };
    assert_eq!(
        pump_hover(&mut state, &mut pump, 0, &layout(0), &look),
        vec![
            Action::OverrideArrow(CursorShape::Hand),
            Action::EmitHover { hovered: Some(9), chrome_only: true },
        ]
    );
}

#[test]
fn the_frame_is_renewed_only_for_a_drag_that_captures() {
    let mut pre = Precapture { target: Some(Rect::new(0, 0, 9, 9)), ..Precapture::default() };
    let mut state = placing();
    assert_eq!(pump_precapture(&state, &mut pre, 0), None);
    state.dragging = true;
    state.gesture = Some(Gesture::Create);
    assert_eq!(pump_precapture(&state, &mut pre, 0), None, "nothing is armed");
    state.armed = Some(AreaType::Filter);
    assert_eq!(pump_precapture(&state, &mut pre, 0), None);
    state.armed = Some(AreaType::Screenshot);
    assert!(pump_precapture(&state, &mut pre, 0).is_some());
}

#[test]
fn latency_is_summed_up_and_taken_once() {
    let mut samples = LatencySamples::default();
    assert_eq!(take_latency(&mut samples), None);
    record_latency(&mut samples, 100, 40);
    record_latency(&mut samples, 100, 90);
    record_latency(&mut samples, 100, 200);
    let taken = take_latency(&mut samples);
    assert_eq!(taken, Some(LatencySamples { count: 3, total_nanos: 70, max_nanos: 60 }));
    assert_eq!(take_latency(&mut samples), None);
}

#[test]
fn the_warm_captures_go_to_the_newest_point() {
    let mut slot = WarmSlot::default();
    assert!(resync_warm_off_thread(&mut slot, Point::new(1, 1)));
    assert!(!resync_warm_off_thread(&mut slot, Point::new(2, 2)));
    assert_eq!(next_warm_point(&mut slot), Some(Point::new(2, 2)));
    assert_eq!(next_warm_point(&mut slot), None);
    assert!(resync_warm_off_thread(&mut slot, Point::new(3, 3)));
}

#[test]
fn a_rectangle_ends_before_its_right_and_bottom_edges() {
    let rect = Rect::new(-5, -5, 10, 10);
    assert!(rect.contains(Point::new(-5, -5)) && rect.contains(Point::new(4, 4)));
    assert!(!rect.contains(Point::new(5, 0)) && !rect.contains(Point::new(0, 5)));
    assert_eq!((rect.right(), rect.bottom()), (5, 5));
    assert_eq!(Rect::new(i32::MAX, 0, u32::MAX, 1).right(), 6_442_450_942);
    assert_eq!(rect.size, Size::new(10, 10));
    assert_eq!(index_at(&[rect, rect], Point::new(0, 0)), Some(0));
}
