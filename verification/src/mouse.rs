//! What the hook does with one mouse event.

use vstd::prelude::*;
use crate::area::{AreaId, AreaSummary, AreaType, Handle};
use crate::geometry::{Point, Rect};
use crate::geometry;
use crate::gesture::{
    area_handle_at, captures_on_create, classify_press, grip_gesture, interactive_area_handle_at,
    menu_gesture, AreaProbe, Gesture,
};
use crate::gesture;
use crate::menu::{
    activate_menu_item, activation, open_menu, Activation, AreaMenu, ListPlace, MenuLayout,
};
use crate::menu;
use crate::placement::{close_menu, maybe_finish_teardown, Action, HookState, Mode, WheelResidue};
use crate::placement;
use crate::precapture::{monitor_holding, CaptureJob, Precapture};
use crate::precapture;
use crate::search;

verus! {

pub const WM_MOUSEMOVE: u32 = 0x0200;

pub const WM_LBUTTONDOWN: u32 = 0x0201;

pub const WM_LBUTTONUP: u32 = 0x0202;

pub const WM_RBUTTONDOWN: u32 = 0x0204;

pub const WM_RBUTTONUP: u32 = 0x0205;

pub const WM_MOUSEWHEEL: u32 = 0x020A;

/// An event the hook receives.
#[derive(Debug, Clone, Copy, PartialEq, Eq, Structural)]
pub struct MouseEvent {
    /// The window message.
    pub message: u32,
    pub point: Point,
    /// For the wheel, how far it turned, in the high word.
    pub data: u32,
}

/// An area the menu or the wheel may act on.
#[derive(Debug, Clone, Copy, PartialEq, Eq, Structural)]
pub struct Target {
    pub area: AreaSummary,
    /// Whether areas of its type can be zoomed.
    pub zoomable: bool,
}

/// What lies around the pointer when an event arrives.
#[derive(Debug)]
pub struct World {
    /// Whether another window lies above the overlay at the pointer.
    pub shadowed: bool,
    /// The areas from the top down, and which part of each is under the pointer.
    pub areas: Vec<AreaProbe>,
    /// The topmost area under the pointer.
    pub any: Option<Target>,
    /// The topmost area under the pointer that takes input in `Living`.
    pub interactive: Option<Target>,
    /// The monitors.
    pub monitors: Vec<Rect>,
    /// The rectangle the live gesture asks for at the pointer.
    pub pending: Option<Rect>,
    /// Where a list that opens now goes.
    pub layout: MenuLayout,
}

/// What becomes of an event.
#[derive(Debug)]
pub struct Response {
    /// Whether the event is taken from the applications.
    pub swallow: bool,
    /// What is to be done, in order.
    pub actions: Vec<Action>,
}

// ---------------------------------------------------------------------------
// The window order.
// ---------------------------------------------------------------------------

/// How far up the window order the hook looks. It bounds a corrupted order and
/// nothing else.
pub const Z_ORDER_WALK_LIMIT: usize = 8192;

/// Whether the window under the pointer lies above the overlay. `root` is that
/// window, and `above` the windows over it, nearest first. Whatever cannot be
/// resolved, an order longer than the limit among it, counts as not above.
pub open spec fn lies_above(ours: usize, root: Option<usize>, above: Seq<usize>) -> bool {
    &&& root is Some
    &&& root->0 != ours
    &&& above.len() < Z_ORDER_WALK_LIMIT
    &&& !above.contains(ours)
}

/// Whether another window lies above the overlay at the pointer, and the press
/// is therefore its own.
pub fn shadowed_by_another_window(ours: usize, root: Option<usize>, above: &[usize]) -> (yes: bool)
    ensures
        yes == lies_above(ours, root, above@),
{
    match root {
        Some(root) => {
            if root == ours {
                return false;
            }
        },
        None => {
            return false;
        },
    }
    let mut i: usize = 0;
    while i < Z_ORDER_WALK_LIMIT
        invariant
            i <= Z_ORDER_WALK_LIMIT,
            i <= above.len(),
            root is Some && root->0 != ours,
            forall|k: int| 0 <= k < i ==> above@[k] != ours,
        decreases Z_ORDER_WALK_LIMIT - i,
    {
        if i >= above.len() {
            assert(!above@.contains(ours));
            return true;
        }
        if above[i] == ours {
            assert(above@[i as int] == ours);
            return false;
        }
        i += 1;
    }
    false
}

// ---------------------------------------------------------------------------
// The wheel.
// ---------------------------------------------------------------------------

/// What one notch of a notched wheel turns.
pub const WHEEL_STEP: i32 = 120;

/// How far the wheel turned: the high word, signed.
pub open spec fn turned(data: u32) -> int {
    let high = data as int / 0x1_0000;
    if high >= 0x8000 {
        high - 0x1_0000
    } else {
        high
    }
}

/// Everything turned over an area so far: what was carried, if it was carried
/// for this area, and what is new.
pub open spec fn wheel_total(residue: WheelResidue, area: u64, data: u32) -> int {
    let carried = if residue.area == area {
        residue.turned as int
    } else {
        0
    };
    let total = carried + turned(data);
    if total > i32::MAX {
        i32::MAX as int
    } else if total < i32::MIN {
        i32::MIN as int
    } else {
        total
    }
}

/// The whole notches in a turn, toward zero.
pub open spec fn whole_notches(total: int) -> int {
    if total >= 0 {
        total / (WHEEL_STEP as int)
    } else {
        -((-total) / (WHEEL_STEP as int))
    }
}

/// What remains of a turn once its whole notches are taken out.
pub open spec fn left_over(total: int) -> int {
    total - whole_notches(total) * WHEEL_STEP
}

/// Takes a turn of the wheel over an area and gives the whole notches it
/// completes; the rest is carried to the next turn over the same area.
pub fn wheel_notches(residue: &mut WheelResidue, area: u64, data: u32) -> (notches: i32)
    ensures
        notches == whole_notches(wheel_total(*old(residue), area, data)),
        final(residue).area == area,
        final(residue).turned == left_over(wheel_total(*old(residue), area, data)),
{
    let high: u32 = data / 0x1_0000;
    let delta: i64 = if high >= 0x8000 {
        high as i64 - 0x1_0000
    } else {
        high as i64
    };
    let carried: i64 = if residue.area == area {
        residue.turned as i64
    } else {
        0
    };
    let sum: i64 = carried + delta;
    let total: i64 = if sum > i32::MAX as i64 {
        i32::MAX as i64
    } else if sum < i32::MIN as i64 {
        i32::MIN as i64
    } else {
        sum
    };
    let size: u64 = if total >= 0 {
        total as u64
    } else {
        (-total) as u64
    };
    let whole: i64 = (size / 120) as i64;
    let rest: i64 = (size % 120) as i64;
    residue.area = area;
    if total >= 0 {
        residue.turned = rest as i32;
        whole as i32
    } else {
        residue.turned = (-rest) as i32;
        (-whole) as i32
    }
}

// ---------------------------------------------------------------------------
// What the menu and the wheel act on.
// ---------------------------------------------------------------------------

/// The area the menu and the wheel act on: in `Placement` whichever is on top,
/// in `Living` only one that takes input there.
pub open spec fn target_of(mode: Mode, any: Option<Target>, interactive: Option<Target>) -> Option<
    Target,
> {
    match mode {
        Mode::Placement => any,
        Mode::Living => interactive,
        Mode::Hidden => None,
    }
}

/// The area the menu and the wheel act on.
pub fn pointer_target(
    mode: Mode,
    any: Option<Target>,
    interactive: Option<Target>,
) -> (target: Option<Target>)
    ensures
        target == target_of(mode, any, interactive),
{
    match mode {
        Mode::Placement => any,
        Mode::Living => interactive,
        Mode::Hidden => None,
    }
}

// ---------------------------------------------------------------------------
// Presses.
// ---------------------------------------------------------------------------

/// The monitor a press starts capturing, if it does: it draws an area of a type
/// that captures, on a monitor that is known.
pub open spec fn captured_monitor(
    armed: Option<AreaType>,
    gesture: Gesture,
    point: Point,
    monitors: Seq<Rect>,
) -> Option<Rect> {
    if gesture == Gesture::Create && armed is Some && gesture::captures(armed->0) {
        match search::first(monitors, geometry::holding(point)) {
            Some(index) => Some(monitors[index as int]),
            None => None,
        }
    } else {
        None
    }
}

/// Starts capturing the monitor a drag begins on, if the drag will capture.
pub fn start_precapture(
    pre: &mut Precapture,
    armed: Option<AreaType>,
    gesture: Gesture,
    point: Point,
    monitors: &Vec<Rect>,
) -> (job: Option<CaptureJob>)
    ensures
        match captured_monitor(armed, gesture, point, monitors@) {
            Some(monitor) => {
                &&& *final(pre) == precapture::begun(*old(pre), monitor)
                &&& job == precapture::job_for(
                    *old(pre),
                    monitor,
                    precapture::next_generation(old(pre).generation),
                )
            },
            None => *final(pre) == *old(pre) && job is None,
        },
{
    if gesture != Gesture::Create {
        return None;
    }
    let capturing = match armed {
        Some(kind) => captures_on_create(kind),
        None => false,
    };
    if !capturing {
        return None;
    }
    match monitor_holding(monitors.as_slice(), point) {
        Some(monitor) => precapture::begin(pre, monitor),
        None => None,
    }
}

/// The state once a press at `point` has begun `gesture`.
pub open spec fn pressed(state: HookState, point: Point, gesture: Gesture) -> HookState {
    HookState {
        start: point,
        current: point,
        gesture: Some(gesture),
        dragging: true,
        left_pending: true,
        ..state
    }
}

/// Starting a capture, as an action.
pub open spec fn job_actions(job: Option<CaptureJob>) -> Seq<Action> {
    match job {
        Some(job) => seq![Action::StartCapture(job)],
        None => seq![],
    }
}

/// What a left press in `Placement` comes to: it is always taken.
pub open spec fn placement_press(
    state: HookState,
    pre: Precapture,
    point: Point,
    world: World,
    after: HookState,
    pre_after: Precapture,
    response: Response,
) -> bool {
    let grip = gesture::top_grip(world.areas@, 0);
    let meaning = gesture::press_meaning(state.menu, point, grip);
    let closes = state.menu is Some && !gesture::in_menu(state.menu, point);
    let monitor = captured_monitor(state.armed, meaning, point, world.monitors@);
    let job = match monitor {
        Some(monitor) => precapture::job_for(
            pre,
            monitor,
            precapture::next_generation(pre.generation),
        ),
        None => None,
    };
    &&& after == pressed(
        HookState {
            menu: if closes {
                None
            } else {
                state.menu
            },
            ..state
        },
        point,
        meaning,
    )
    &&& pre_after == match monitor {
        Some(monitor) => precapture::begun(pre, monitor),
        None => pre,
    }
    &&& response.swallow
    &&& response.actions@ == (if closes {
        seq![Action::EmitMenu]
    } else {
        seq![]
    }) + job_actions(job)
}

/// A left press in `Placement`.
fn placement_lbutton_down(
    state: &mut HookState,
    pre: &mut Precapture,
    point: Point,
    world: &World,
) -> (response: Response)
    ensures
        placement_press(
            *old(state),
            *old(pre),
            point,
            *world,
            *final(state),
            *final(pre),
            response,
        ),
{
    let mut actions: Vec<Action> = Vec::new();
    state.start = point;
    state.current = point;
    let grip = area_handle_at(world.areas.as_slice());
    let (meaning, closed) = classify_press(&mut state.menu, point, grip);
    if closed {
        actions.push(Action::EmitMenu);
    }
    let job = start_precapture(pre, state.armed, meaning, point, &world.monitors);
    if let Some(job) = job {
        actions.push(Action::StartCapture(job));
    }
    state.gesture = Some(meaning);
    state.dragging = true;
    state.left_pending = true;
    assert(actions@ =~= (if closed {
        seq![Action::EmitMenu]
    } else {
        seq![]
    }) + job_actions(job));
    Response { swallow: true, actions }
}

/// What a left press in `Living` comes to. An open menu owns it: inside, it
/// presses the row; outside, it closes the menu. Otherwise the topmost area
/// that takes presses is raised and taken hold of, and a press on none is left
/// to the applications.
pub open spec fn living_press(
    state: HookState,
    point: Point,
    world: World,
    after: HookState,
    response: Response,
) -> bool {
    if gesture::in_menu(state.menu, point) {
        &&& after == HookState {
            gesture: Some(gesture::menu_press(state.menu->0, point)),
            dragging: true,
            left_pending: true,
            ..state
        }
        &&& response.swallow
        &&& response.actions@ == Seq::<Action>::empty()
    } else if state.menu is Some {
        &&& after == HookState { menu: None, left_pending: true, ..state }
        &&& response.swallow
        &&& response.actions@ == seq![Action::EmitMenu]
    } else {
        match gesture::top_living_grip(world.areas@, 0) {
            Some(grip) => {
                &&& after == pressed(state, point, gesture::gesture_on(grip))
                &&& response.swallow
                &&& response.actions@ == seq![Action::Raise(grip.id)]
            },
            None => {
                &&& after == state
                &&& !response.swallow
                &&& response.actions@ == Seq::<Action>::empty()
            },
        }
    }
}

/// A left press in `Living`.
pub fn living_lbutton_down(state: &mut HookState, point: Point, world: &World) -> (response:
    Response)
    ensures
        living_press(*old(state), point, *world, *final(state), response),
{
    let mut actions: Vec<Action> = Vec::new();
    if let Some(gesture) = menu_gesture(&state.menu, point) {
        state.gesture = Some(gesture);
        state.dragging = true;
        state.left_pending = true;
        return Response { swallow: true, actions };
    }
    if close_menu(state, &mut actions) {
        state.left_pending = true;
        assert(actions@ =~= seq![Action::EmitMenu]);
        return Response { swallow: true, actions };
    }
    assert(actions@ =~= Seq::<Action>::empty());
    match interactive_area_handle_at(world.areas.as_slice()) {
        Some(grip) => {
            state.start = point;
            state.current = point;
            actions.push(Action::Raise(grip.id));
            state.gesture = Some(grip_gesture(grip));
            state.dragging = true;
            state.left_pending = true;
            assert(actions@ =~= seq![Action::Raise(grip.id)]);
            Response { swallow: true, actions }
        },
        None => Response { swallow: false, actions },
    }
}

// ---------------------------------------------------------------------------
// Releases.
// ---------------------------------------------------------------------------

/// What finishing the live gesture at `release` asks for; `pending` is the
/// rectangle it asks for there.
pub open spec fn release_actions(
    state: HookState,
    release: Point,
    pending: Option<Rect>,
) -> Seq<Action> {
    match state.gesture {
        Some(Gesture::Create) => match pending {
            Some(rect) => seq![
                Action::Create {
                    kind: match state.armed {
                        Some(kind) => kind,
                        None => AreaType::Default,
                    },
                    rect,
                },
            ],
            None => seq![],
        },
        Some(Gesture::Move { id, .. }) => match pending {
            Some(rect) => seq![Action::Relocate { id, rect }],
            None => seq![],
        },
        Some(Gesture::Resize { id, .. }) => match pending {
            Some(rect) => seq![Action::Relocate { id, rect }],
            None => seq![],
        },
        Some(Gesture::Close { id, control }) => if control.holds(release) {
            seq![Action::Dismiss(id)]
        } else {
            seq![]
        },
        Some(Gesture::MenuItem { hit }) => match menu::activation_of(state.menu, hit, release) {
            Activation::Nothing => seq![],
            Activation::OpenList(parent) => if menu::can_open(state.menu, parent) {
                seq![Action::EmitMenu]
            } else {
                seq![]
            },
            Activation::Perform(command) => seq![Action::EmitMenu, Action::Command(command)],
        },
        Some(Gesture::Inert) => seq![],
        None => seq![],
    }
}

/// Whether `menu` is what finishing the live gesture leaves of the menu: only a
/// release on a menu row touches it.
pub open spec fn menu_after_release(
    state: HookState,
    release: Point,
    layout: MenuLayout,
    menu: Option<AreaMenu>,
) -> bool {
    match state.gesture {
        Some(Gesture::MenuItem { hit }) => match menu::activation_of(state.menu, hit, release) {
            Activation::Nothing => menu == state.menu,
            Activation::OpenList(parent) => if menu::can_open(state.menu, parent) {
                menu is Some && menu::is_opened(state.menu->0, menu->0, parent, layout)
            } else {
                menu == state.menu
            },
            Activation::Perform(_) => menu is None,
        },
        _ => menu == state.menu,
    }
}

/// The state once the live gesture is finished: drawing an area spends the
/// armed type.
pub open spec fn after_gesture(
    state: HookState,
    pending: Option<Rect>,
    menu: Option<AreaMenu>,
) -> HookState {
    HookState {
        gesture: None,
        armed: if state.gesture == Some(Gesture::Create) && pending is Some {
            None
        } else {
            state.armed
        },
        menu,
        ..state
    }
}

/// Whether `layout` places whatever list a release on a menu row opens.
pub open spec fn release_fits(state: HookState, release: Point, layout: MenuLayout) -> bool {
    state.gesture matches Some(Gesture::MenuItem { hit }) ==> (menu::activation_of(
        state.menu,
        hit,
        release,
    ) matches Activation::OpenList(parent) ==> (menu::can_open(state.menu, parent)
        ==> menu::fits_list(state.menu, parent, layout)))
}

/// Finishes the live gesture at `release`; `pending` is the rectangle it asks
/// for there.
pub fn finish_gesture(
    state: &mut HookState,
    release: Point,
    pending: Option<Rect>,
    layout: &MenuLayout,
) -> (actions: Vec<Action>)
    requires
        release_fits(*old(state), release, *layout),
    ensures
        *final(state) == after_gesture(*old(state), pending, final(state).menu),
        menu_after_release(*old(state), release, *layout, final(state).menu),
        actions@ == release_actions(*old(state), release, pending),
{
    let mut actions: Vec<Action> = Vec::new();
    let gesture = state.gesture;
    state.gesture = None;
    match gesture {
        Some(Gesture::Create) => {
            if let Some(rect) = pending {
                let kind = match state.armed {
                    Some(kind) => kind,
                    None => AreaType::Default,
                };
                state.armed = None;
                actions.push(Action::Create { kind, rect });
            }
        },
        Some(Gesture::Move { id, .. }) => {
            if let Some(rect) = pending {
                actions.push(Action::Relocate { id, rect });
            }
        },
        Some(Gesture::Resize { id, .. }) => {
            if let Some(rect) = pending {
                actions.push(Action::Relocate { id, rect });
            }
        },
        Some(Gesture::Close { id, control }) => {
            if control.contains(release) {
                actions.push(Action::Dismiss(id));
            }
        },
        Some(Gesture::MenuItem { hit }) => {
            let activated = activate_menu_item(&mut state.menu, hit, release, layout);
            if activated.redraw {
                actions.push(Action::EmitMenu);
            }
            if let Some(command) = activated.command {
                actions.push(Action::Command(command));
                assert(actions@ =~= seq![Action::EmitMenu, Action::Command(command)]);
            }
        },
        Some(Gesture::Inert) => {},
        None => {},
    }
    actions
}

/// The state a left release finishes from: nothing is owed and nothing is
/// dragged any more.
pub open spec fn released(state: HookState, point: Point) -> HookState {
    HookState {
        left_pending: false,
        dragging: false,
        current: if state.dragging {
            point
        } else {
            state.current
        },
        gesture: if state.dragging {
            state.gesture
        } else {
            None
        },
        ..state
    }
}

/// What a left release comes to: taken exactly if its press was. A live gesture
/// is finished; one that was abandoned is not.
pub open spec fn left_release(
    state: HookState,
    point: Point,
    world: World,
    after: HookState,
    response: Response,
) -> bool {
    if state.left_pending {
        let up = released(state, point);
        let done = after_gesture(up, world.pending, after.menu);
        &&& menu_after_release(up, point, world.layout, after.menu)
        &&& after == placement::settled(done)
        &&& response.swallow
        &&& response.actions@ == release_actions(up, point, world.pending)
            + placement::settling_actions(done)
    } else {
        passed(state, after, response)
    }
}

/// A left release.
fn lbutton_up(state: &mut HookState, point: Point, world: &World) -> (response: Response)
    requires
        old(state).left_pending ==> release_fits(released(*old(state), point), point, world.layout),
    ensures
        left_release(*old(state), point, *world, *final(state), response),
{
    if !state.left_pending {
        return Response { swallow: false, actions: Vec::new() };
    }
    state.left_pending = false;
    let mut actions: Vec<Action> = if state.dragging {
        state.dragging = false;
        state.current = point;
        finish_gesture(state, point, world.pending, &world.layout)
    } else {
        Vec::new()
    };
    state.gesture = None;
    maybe_finish_teardown(state, &mut actions);
    Response { swallow: true, actions }
}

/// What a right release comes to: taken exactly if its press was. It opens the
/// menu of the area under the pointer, or closes the one that is open.
pub open spec fn right_release(
    state: HookState,
    world: World,
    after: HookState,
    response: Response,
) -> bool {
    if state.right_pending {
        let target = target_of(state.mode, world.any, world.interactive);
        let done = HookState { right_pending: false, menu: after.menu, ..state };
        let shown = state.mode != Mode::Hidden;
        &&& after == placement::settled(done)
        &&& response.swallow
        &&& if !shown {
            after.menu == state.menu
        } else if target is Some {
            after.menu is Some && menu::is_fresh_menu(
                after.menu->0,
                target->0.area,
                world.layout,
            )
        } else {
            after.menu is None
        }
        &&& response.actions@ == (if shown && (target is Some || state.menu is Some) {
            seq![Action::EmitMenu]
        } else {
            seq![]
        }) + placement::settling_actions(done)
    } else {
        passed(state, after, response)
    }
}

/// Whether `layout` places the menu a right release opens.
pub open spec fn menu_fits(state: HookState, world: World) -> bool {
    target_of(state.mode, world.any, world.interactive) matches Some(target)
        ==> world.layout.rows@.len() == menu::lead(target.area.kind) + 6
}

/// A right release.
fn rbutton_up(state: &mut HookState, world: &World) -> (response: Response)
    requires
        old(state).right_pending ==> menu_fits(*old(state), *world),
    ensures
        right_release(*old(state), *world, *final(state), response),
{
    if !state.right_pending {
        return Response { swallow: false, actions: Vec::new() };
    }
    state.right_pending = false;
    let mut actions: Vec<Action> = Vec::new();
    if state.mode != Mode::Hidden {
        let target = match pointer_target(state.mode, world.any, world.interactive) {
            Some(target) => Some(target.area),
            None => None,
        };
        if open_menu(&mut state.menu, target, &world.layout) {
            actions.push(Action::EmitMenu);
        }
    }
    maybe_finish_teardown(state, &mut actions);
    Response { swallow: true, actions }
}

/// What a right press comes to. `Placement` takes every one; `Living` takes one
/// the release will act on: over an area the menu opens for, or while a menu
/// is open.
pub open spec fn right_press(
    state: HookState,
    world: World,
    after: HookState,
    response: Response,
) -> bool {
    let claimed = match state.mode {
        Mode::Hidden => false,
        Mode::Placement => true,
        Mode::Living => state.menu is Some || target_of(
            state.mode,
            world.any,
            world.interactive,
        ) is Some,
    };
    &&& after == HookState { right_pending: claimed || state.right_pending, ..state }
    &&& response.swallow == claimed
    &&& response.actions@ == Seq::<Action>::empty()
}

/// A right press.
fn rbutton_down(state: &mut HookState, world: &World) -> (response: Response)
    ensures
        right_press(*old(state), *world, *final(state), response),
{
    let claimed = match state.mode {
        Mode::Hidden => false,
        Mode::Placement => true,
        Mode::Living => state.menu.is_some() || pointer_target(
            state.mode,
            world.any,
            world.interactive,
        ).is_some(),
    };
    if claimed {
        state.right_pending = true;
    }
    Response { swallow: claimed, actions: Vec::new() }
}

/// What a turn of the wheel comes to: over an area that can be zoomed it is
/// taken, whether or not it completes a notch; everywhere else it is left to
/// the applications.
pub open spec fn wheel_turn(
    state: HookState,
    data: u32,
    world: World,
    after: HookState,
    response: Response,
) -> bool {
    match target_of(state.mode, world.any, world.interactive) {
        Some(target) => if target.zoomable && !world.shadowed {
            let total = wheel_total(state.wheel, target.area.id.raw, data);
            &&& after == HookState {
                wheel: WheelResidue {
                    area: target.area.id.raw,
                    turned: left_over(total) as i32,
                },
                ..state
            }
            &&& response.swallow
            &&& response.actions@ == if whole_notches(total) != 0 {
                seq![Action::Zoom { id: target.area.id, notches: whole_notches(total) as i32 }]
            } else {
                seq![]
            }
        } else {
            passed(state, after, response)
        },
        None => passed(state, after, response),
    }
}

/// A turn of the wheel.
fn mousewheel(state: &mut HookState, data: u32, world: &World) -> (response: Response)
    ensures
        wheel_turn(*old(state), data, *world, *final(state), response),
{
    let mut actions: Vec<Action> = Vec::new();
    match pointer_target(state.mode, world.any, world.interactive) {
        Some(target) => {
            if !target.zoomable || world.shadowed {
                return Response { swallow: false, actions };
            }
            let notches: i32 = wheel_notches(&mut state.wheel, target.area.id.get(), data);
            if notches != 0 {
                actions.push(Action::Zoom { id: target.area.id, notches });
            }
            Response { swallow: true, actions }
        },
        None => Response { swallow: false, actions },
    }
}

// ---------------------------------------------------------------------------
// The hook.
// ---------------------------------------------------------------------------

/// The state once one more event has been seen.
pub open spec fn counted(state: HookState) -> HookState {
    HookState {
        hook_events: if state.hook_events == u64::MAX {
            0
        } else {
            (state.hook_events + 1) as u64
        },
        ..state
    }
}

/// What an event comes to.
pub open spec fn outcome(
    state: HookState,
    pre: Precapture,
    event: MouseEvent,
    world: World,
    after: HookState,
    pre_after: Precapture,
    response: Response,
) -> bool {
    let seen = counted(state);
    if event.message == WM_LBUTTONDOWN && !world.shadowed && state.mode == Mode::Placement {
        placement_press(seen, pre, event.point, world, after, pre_after, response)
    } else {
        &&& pre_after == pre
        &&& if event.message == WM_LBUTTONDOWN && !world.shadowed && state.mode == Mode::Living {
            living_press(seen, event.point, world, after, response)
        } else if event.message == WM_RBUTTONDOWN && !world.shadowed {
            right_press(seen, world, after, response)
        } else if event.message == WM_MOUSEMOVE {
            &&& after == HookState { current: event.point, ..seen }
            &&& !response.swallow
            &&& response.actions@ == Seq::<Action>::empty()
        } else if event.message == WM_LBUTTONUP {
            left_release(seen, event.point, world, after, response)
        } else if event.message == WM_RBUTTONUP {
            right_release(seen, world, after, response)
        } else if event.message == WM_MOUSEWHEEL {
            wheel_turn(seen, event.data, world, after, response)
        } else {
            passed(seen, after, response)
        }
    }
}

/// Whether the layout at hand places whatever list the event opens.
pub open spec fn layout_fits(state: HookState, event: MouseEvent, world: World) -> bool {
    &&& event.message == WM_LBUTTONUP && state.left_pending ==> release_fits(
        released(state, event.point),
        event.point,
        world.layout,
    )
    &&& event.message == WM_RBUTTONUP && state.right_pending ==> menu_fits(state, world)
}

/// What an event's layout has to place.
#[derive(Debug, Clone, Copy, PartialEq, Eq, Structural)]
pub enum LayoutNeed {
    Nothing,
    /// The menu of an area.
    Menu(AreaSummary),
    /// The list of a row.
    List(ListPlace),
}

/// What an event's layout has to place.
pub open spec fn need_of(
    state: HookState,
    event: MouseEvent,
    any: Option<Target>,
    interactive: Option<Target>,
) -> LayoutNeed {
    if event.message == WM_LBUTTONUP && state.left_pending && state.dragging {
        match state.gesture {
            Some(Gesture::MenuItem { hit }) => match menu::activation_of(
                state.menu,
                hit,
                event.point,
            ) {
                Activation::OpenList(parent) => if menu::can_open(state.menu, parent) {
                    LayoutNeed::List(menu::place_of(state.menu->0, parent))
                } else {
                    LayoutNeed::Nothing
                },
                _ => LayoutNeed::Nothing,
            },
            _ => LayoutNeed::Nothing,
        }
    } else if event.message == WM_RBUTTONUP && state.right_pending {
        match target_of(state.mode, any, interactive) {
            Some(target) => LayoutNeed::Menu(target.area),
            None => LayoutNeed::Nothing,
        }
    } else {
        LayoutNeed::Nothing
    }
}

/// What an event's layout has to place, so that it can be worked out before the
/// event is handled.
pub fn layout_need(
    state: &HookState,
    event: MouseEvent,
    any: Option<Target>,
    interactive: Option<Target>,
) -> (need: LayoutNeed)
    ensures
        need == need_of(*state, event, any, interactive),
{
    if event.message == WM_LBUTTONUP && state.left_pending && state.dragging {
        if let Some(Gesture::MenuItem { hit }) = state.gesture {
            if let Activation::OpenList(parent) = activation(&state.menu, hit, event.point) {
                if let Some(menu) = &state.menu {
                    let open: Option<usize> = match &menu.open {
                        Some(open) => Some(open.parent),
                        None => None,
                    };
                    if open != Some(parent) && menu.items[parent].children.len() > 0 {
                        return LayoutNeed::List(
                            ListPlace {
                                row: menu.items[parent].rect,
                                rows: menu.items[parent].children.len(),
                            },
                        );
                    }
                }
            }
        }
        return LayoutNeed::Nothing;
    }
    if event.message == WM_RBUTTONUP && state.right_pending {
        if let Some(target) = pointer_target(state.mode, any, interactive) {
            return LayoutNeed::Menu(target.area);
        }
    }
    LayoutNeed::Nothing
}

/// Handles one event: decides whether it is taken, and what it does. A press
/// belongs to whatever is on top at its point, so one over another window is
/// let through in every mode.
pub fn handle_mouse(
    state: &mut HookState,
    pre: &mut Precapture,
    event: MouseEvent,
    world: &World,
) -> (response: Response)
    requires
        layout_fits(*old(state), event, *world),
    ensures
        outcome(
            *old(state),
            *old(pre),
            event,
            *world,
            *final(state),
            *final(pre),
            response,
        ),
{
    state.hook_events = state.hook_events.wrapping_add(1);
    let press = event.message == WM_LBUTTONDOWN || event.message == WM_RBUTTONDOWN;
    if press && world.shadowed {
        return Response { swallow: false, actions: Vec::new() };
    }
    if event.message == WM_LBUTTONDOWN {
        match state.mode {
            Mode::Hidden => Response { swallow: false, actions: Vec::new() },
            Mode::Placement => placement_lbutton_down(state, pre, event.point, world),
            Mode::Living => living_lbutton_down(state, event.point, world),
        }
    } else if event.message == WM_MOUSEMOVE {
        state.current = event.point;
        Response { swallow: false, actions: Vec::new() }
    } else if event.message == WM_LBUTTONUP {
        lbutton_up(state, event.point, world)
    } else if event.message == WM_RBUTTONDOWN {
        rbutton_down(state, world)
    } else if event.message == WM_MOUSEWHEEL {
        mousewheel(state, event.data, world)
    } else if event.message == WM_RBUTTONUP {
        rbutton_up(state, world)
    } else {
        Response { swallow: false, actions: Vec::new() }
    }
}

/// Whether an event was let through with nothing done.
pub open spec fn passed(state: HookState, after: HookState, response: Response) -> bool {
    &&& after == state
    &&& !response.swallow
    &&& response.actions@ == Seq::<Action>::empty()
}

// ---------------------------------------------------------------------------
// What follows from what was done.
// ---------------------------------------------------------------------------

/// What creating an area comes to, once it is known whether one was created:
/// a type that captures captures, and any other lets the frame go. Nothing was
/// created where the rectangle was too small.
pub fn after_create(
    pre: &mut Precapture,
    kind: AreaType,
    created: Option<(AreaId, Rect)>,
) -> (actions: Vec<Action>)
    ensures
        *final(pre) == if created is Some && gesture::captures(kind) {
            precapture::ended(*old(pre))
        } else {
            precapture::discarded(*old(pre))
        },
        actions@ == match created {
            Some((id, rect)) => if gesture::captures(kind) {
                seq![
                    Action::CaptureInto { id, rect },
                    Action::AreaCreated(kind),
                    Action::EmitAreas,
                ]
            } else {
                seq![Action::AreaCreated(kind), Action::EmitAreas]
            },
            None => seq![],
        },
{
    let mut actions: Vec<Action> = Vec::new();
    match created {
        Some((id, rect)) => {
            if captures_on_create(kind) {
                actions.push(Action::CaptureInto { id, rect });
                precapture::end_drag(pre);
            } else {
                precapture::discard(pre);
            }
            actions.push(Action::AreaCreated(kind));
            actions.push(Action::EmitAreas);
        },
        None => {
            precapture::discard(pre);
        },
    }
    actions
}

/// What moving or resizing an area comes to.
pub fn after_relocate(id: AreaId, moved: bool) -> (actions: Vec<Action>)
    ensures
        actions@ == if moved {
            seq![Action::RefreshMagnification(id), Action::EmitAreas]
        } else {
            seq![]
        },
{
    let mut actions: Vec<Action> = Vec::new();
    if moved {
        actions.push(Action::RefreshMagnification(id));
        actions.push(Action::EmitAreas);
    }
    actions
}

/// What any other change to the areas comes to.
pub fn after_change(changed: bool) -> (actions: Vec<Action>)
    ensures
        actions@ == if changed {
            seq![Action::EmitAreas]
        } else {
            seq![]
        },
{
    let mut actions: Vec<Action> = Vec::new();
    if changed {
        actions.push(Action::EmitAreas);
    }
    actions
}

// ---------------------------------------------------------------------------
// Laws.
// ---------------------------------------------------------------------------

/// A layout with a rectangle for each row that is needed fits its event.
pub proof fn law_a_layout_for_what_is_needed_fits(
    state: HookState,
    event: MouseEvent,
    world: World,
)
    requires
        match need_of(state, event, world.any, world.interactive) {
            LayoutNeed::Nothing => true,
            LayoutNeed::Menu(area) => world.layout.rows@.len() == menu::lead(area.kind) + 6,
            LayoutNeed::List(place) => world.layout.rows@.len() == place.rows,
        },
    ensures
        layout_fits(state, event, world),
{
}

/// No event leaves a consistent state inconsistent.
pub proof fn law_events_keep_the_state_consistent(
    state: HookState,
    pre: Precapture,
    event: MouseEvent,
    world: World,
    after: HookState,
    pre_after: Precapture,
    response: Response,
)
    requires
        placement::consistent(state),
        outcome(state, pre, event, world, after, pre_after, response),
    ensures
        placement::consistent(after),
{
}

/// The two halves of a click go together: a press that is taken is owed its
/// release, one that is let through owes nothing new, and a release is taken
/// exactly if it was owed.
pub proof fn law_a_release_goes_with_its_press(
    state: HookState,
    pre: Precapture,
    event: MouseEvent,
    world: World,
    after: HookState,
    pre_after: Precapture,
    response: Response,
)
    requires
        outcome(state, pre, event, world, after, pre_after, response),
    ensures
        event.message == WM_LBUTTONDOWN ==> after.left_pending == (state.left_pending
            || response.swallow) && after.right_pending == state.right_pending,
        event.message == WM_RBUTTONDOWN ==> after.right_pending == (state.right_pending
            || response.swallow) && after.left_pending == state.left_pending,
        event.message == WM_LBUTTONUP ==> response.swallow == state.left_pending
            && !after.left_pending,
        event.message == WM_RBUTTONUP ==> response.swallow == state.right_pending
            && !after.right_pending,
{
}

/// Moves are never taken, and do nothing but move the last seen point.
pub proof fn law_a_move_is_let_through(
    state: HookState,
    pre: Precapture,
    event: MouseEvent,
    world: World,
    after: HookState,
    pre_after: Precapture,
    response: Response,
)
    requires
        event.message == WM_MOUSEMOVE,
        outcome(state, pre, event, world, after, pre_after, response),
    ensures
        !response.swallow,
        response.actions@.len() == 0,
        after == (HookState { current: event.point, ..counted(state) }),
        pre_after == pre,
{
}

/// A press under another window is let through in every mode, with nothing
/// done.
pub proof fn law_a_shadowed_press_is_let_through(
    state: HookState,
    pre: Precapture,
    event: MouseEvent,
    world: World,
    after: HookState,
    pre_after: Precapture,
    response: Response,
)
    requires
        event.message == WM_LBUTTONDOWN || event.message == WM_RBUTTONDOWN,
        world.shadowed,
        outcome(state, pre, event, world, after, pre_after, response),
    ensures
        passed(counted(state), after, response),
        pre_after == pre,
{
}

/// A hidden overlay takes no press and no turn of the wheel.
pub proof fn law_a_hidden_overlay_takes_no_press(
    state: HookState,
    pre: Precapture,
    event: MouseEvent,
    world: World,
    after: HookState,
    pre_after: Precapture,
    response: Response,
)
    requires
        state.mode == Mode::Hidden,
        event.message == WM_LBUTTONDOWN || event.message == WM_RBUTTONDOWN || event.message
            == WM_MOUSEWHEEL,
        outcome(state, pre, event, world, after, pre_after, response),
    ensures
        !response.swallow,
        response.actions@.len() == 0,
{
}

/// A cancelled drag commits nothing: its release is taken, and creates, moves
/// and removes no area.
pub proof fn law_a_cancelled_drag_commits_nothing(
    state: HookState,
    pre: Precapture,
    event: MouseEvent,
    world: World,
    after: HookState,
    pre_after: Precapture,
    response: Response,
)
    requires
        event.message == WM_LBUTTONUP,
        state.left_pending,
        outcome(placement::without_gesture(state), pre, event, world, after, pre_after, response),
    ensures
        response.swallow,
        response.actions@ == placement::settling_actions(
            HookState { left_pending: false, ..placement::without_gesture(state) },
        ),
{
    let abandoned = placement::without_gesture(state);
    assert(response.actions@ =~= placement::settling_actions(
        HookState { left_pending: false, ..abandoned },
    ));
}

/// What a right press claims, the release acts on: with nothing changed in
/// between, a press taken in `Living` opens a menu or closes one.
pub proof fn law_a_claimed_right_press_acts(
    state: HookState,
    world: World,
    between: HookState,
    press: Response,
    after: HookState,
    release: Response,
)
    requires
        state.mode == Mode::Living,
        right_press(state, world, between, press),
        press.swallow,
        right_release(between, world, after, release),
    ensures
        release.swallow,
        release.actions@.len() > 0,
        release.actions@[0] == Action::EmitMenu,
        after.menu is Some || state.menu is Some,
{
}

/// Nothing the wheel turns is lost: what is carried and what is new is the
/// notches given and the rest carried on.
pub proof fn law_the_wheel_loses_nothing(residue: WheelResidue, area: u64, data: u32)
    requires
        residue.area == area ==> -WHEEL_STEP < residue.turned < WHEEL_STEP,
    ensures
        ({
            let total = wheel_total(residue, area, data);
            &&& whole_notches(total) * WHEEL_STEP + left_over(total) == total
            &&& -WHEEL_STEP < left_over(total) < WHEEL_STEP
            &&& residue.area == area ==> total == residue.turned + turned(data)
        }),
{
}

/// What was turned over one area does not count for another.
pub proof fn law_the_wheel_starts_fresh_over_another_area(
    residue: WheelResidue,
    area: u64,
    data: u32,
)
    requires
        residue.area != area,
    ensures
        wheel_total(residue, area, data) == turned(data),
{
}

/// In `Placement` every left press that no other window shadows is taken, and a press on
/// no area, with no menu open, begins drawing one where it is.
pub proof fn law_a_press_in_placement_draws(
    state: &mut HookState,
    pre: &mut Precapture,
    event: MouseEvent,
    world: &World,
    response: Response,
)
    requires
        call_ensures(handle_mouse, (state, pre, event, world), response),
        event.message == WM_LBUTTONDOWN,
        old(state).mode == Mode::Placement,
        !world.shadowed,
    ensures
        response.swallow,
        final(state).left_pending,
        final(state).dragging,
        final(state).start == event.point,
        final(state).current == event.point,
        old(state).menu is None && (forall|k: int|
            0 <= k < world.areas@.len() ==> (#[trigger] world.areas@[k]).handle is None)
            ==> final(state).gesture == Some(Gesture::Create),
        final(state).armed == old(state).armed,
        final(state).mode == Mode::Placement,
        final(state).right_pending == old(state).right_pending,
{
    if forall|k: int| 0 <= k < world.areas@.len() ==> (#[trigger] world.areas@[k]).handle is None {
        lemma_none_of(world.areas@, 0);
    }
}

/// In `Placement` a press on an area, with no menu open, takes hold of the topmost one
/// there by the part that was pressed.
pub proof fn law_a_press_in_placement_takes_hold(
    state: &mut HookState,
    pre: &mut Precapture,
    event: MouseEvent,
    world: &World,
    response: Response,
    i: int,
)
    requires
        call_ensures(handle_mouse, (state, pre, event, world), response),
        event.message == WM_LBUTTONDOWN,
        old(state).mode == Mode::Placement,
        !world.shadowed,
        old(state).menu is None,
        0 <= i < world.areas@.len(),
        world.areas@[i].handle is Some,
        forall|k: int| 0 <= k < i ==> (#[trigger] world.areas@[k]).handle is None,
    ensures
        ({
            let area = world.areas@[i];
            final(state).gesture == Some(
                match area.handle->0 {
                    Handle::Close => Gesture::Close { id: area.id, control: area.control },
                    Handle::Body => Gesture::Move { id: area.id, start: area.bounds },
                    Handle::Resize(resize) => Gesture::Resize {
                        id: area.id,
                        resize,
                        start: area.bounds,
                    },
                },
            )
        }),
        response.swallow,
        response.actions@.len() == 0,
        *final(pre) == *old(pre),
{
    lemma_top_of(world.areas@, 0, i);
}

/// The grip on the topmost area under the pointer.
proof fn lemma_top_of(areas: Seq<AreaProbe>, start: int, i: int)
    requires
        0 <= start <= i < areas.len(),
        areas[i].handle is Some,
        forall|k: int| 0 <= k < i ==> (#[trigger] areas[k]).handle is None,
    ensures
        gesture::top_grip(areas, start) == gesture::grip_on(areas[i]),
    decreases i - start,
{
    if start < i {
        lemma_top_of(areas, start + 1, i);
    }
}

/// No grip where no area is under the pointer.
proof fn lemma_none_of(areas: Seq<AreaProbe>, start: int)
    requires
        0 <= start <= areas.len(),
        forall|k: int| 0 <= k < areas.len() ==> (#[trigger] areas[k]).handle is None,
    ensures
        gesture::top_grip(areas, start) is None,
    decreases areas.len() - start,
{
    if start < areas.len() {
        lemma_none_of(areas, start + 1);
    }
}

/// A box is dragged out: pressed on no area in `Placement`, moved and released, it asks
/// for an area of the armed type, or a plain one, with the rectangle the drag came to,
/// and the arming is spent.
pub proof fn law_a_drag_in_placement_creates_an_area(
    state: &mut HookState,
    pre: &mut Precapture,
    down: MouseEvent,
    at_down: &World,
    pressed: Response,
    later: &mut HookState,
    pre_later: &mut Precapture,
    up: MouseEvent,
    at_up: &World,
    released: Response,
)
    requires
        call_ensures(handle_mouse, (state, pre, down, at_down), pressed),
        down.message == WM_LBUTTONDOWN,
        old(state).mode == Mode::Placement,
        old(state).menu is None,
        !at_down.shadowed,
        forall|k: int| 0 <= k < at_down.areas@.len() ==> (#[trigger] at_down.areas@[k]).handle
            is None,
        *old(later) == (HookState { current: old(later).current, ..*final(state) }),
        call_ensures(handle_mouse, (later, pre_later, up, at_up), released),
        up.message == WM_LBUTTONUP,
        !old(state).want_teardown,
    ensures
        released.swallow,
        at_up.pending matches Some(rect) ==> {
            &&& released.actions@ == seq![
                Action::Create {
                    kind: if old(state).armed is Some {
                        old(state).armed->0
                    } else {
                        AreaType::Default
                    },
                    rect,
                },
            ]
            &&& final(later).armed is None
        },
        at_up.pending is None ==> released.actions@.len() == 0 && final(later).armed
            == old(state).armed,
        !final(later).dragging,
        final(later).gesture is None,
        !final(later).left_pending,
        final(later).current == up.point,
{
    lemma_none_of(at_down.areas@, 0);
    assert(final(state).gesture == Some(Gesture::Create));
    if at_up.pending is Some {
        assert(released.actions@ =~= seq![
            Action::Create {
                kind: if old(state).armed is Some {
                    old(state).armed->0
                } else {
                    AreaType::Default
                },
                rect: at_up.pending->0,
            },
        ]);
    }
}

/// Releasing an area that is moved or resized puts it where the drag came to; releasing
/// on its close control dismisses it, and elsewhere does not.
pub proof fn law_a_release_carries_the_gesture_out(
    state: &mut HookState,
    pre: &mut Precapture,
    event: MouseEvent,
    world: &World,
    response: Response,
)
    requires
        call_ensures(handle_mouse, (state, pre, event, world), response),
        event.message == WM_LBUTTONUP,
        old(state).left_pending,
        old(state).dragging,
        !old(state).want_teardown,
    ensures
        response.swallow,
        old(state).gesture matches Some(Gesture::Move { id, start }) ==> response.actions@
            == if world.pending is Some {
            seq![Action::Relocate { id, rect: world.pending->0 }]
        } else {
            Seq::<Action>::empty()
        },
        old(state).gesture matches Some(Gesture::Resize { id, resize, start })
            ==> response.actions@ == if world.pending is Some {
            seq![Action::Relocate { id, rect: world.pending->0 }]
        } else {
            Seq::<Action>::empty()
        },
        old(state).gesture matches Some(Gesture::Close { id, control }) ==> response.actions@
            == if control.holds(event.point) {
            seq![Action::Dismiss(id)]
        } else {
            Seq::<Action>::empty()
        },
        old(state).gesture == Some(Gesture::Inert) ==> response.actions@.len() == 0,
        !(old(state).gesture is Some && old(state).gesture->0 is Create) ==> final(state).armed
            == old(state).armed,
        !(old(state).gesture is Some && old(state).gesture->0 is MenuItem) ==> final(state).menu
            == old(state).menu,
        final(state).gesture is None,
        !final(state).dragging,
        *final(pre) == *old(pre),
{
    assert(response.actions@ =~= release_actions(
        released(counted(*old(state)), event.point),
        event.point,
        world.pending,
    ));
}

/// Releasing on the menu row that was pressed has the row's action carried out on the
/// menu's area, once the page was told that the menu is gone.
pub proof fn law_a_release_on_a_menu_row_chooses_it(
    state: &mut HookState,
    pre: &mut Precapture,
    event: MouseEvent,
    world: &World,
    response: Response,
    row: usize,
)
    requires
        call_ensures(handle_mouse, (state, pre, event, world), response),
        event.message == WM_LBUTTONUP,
        old(state).left_pending,
        old(state).dragging,
        !old(state).want_teardown,
        old(state).menu is Some,
        row < old(state).menu->0.items@.len(),
        old(state).gesture == Some(Gesture::MenuItem { hit: menu::MenuHit::Row(row) }),
        old(state).menu->0.items@[row as int].action != menu::MenuAction::OpenSubmenu,
    ensures
        ({
            let entry = old(state).menu->0.items@[row as int];
            let command = menu::MenuCommand {
                area: old(state).menu->0.area,
                action: entry.action,
            };
            &&& entry.rect.holds(event.point) ==> response.actions@ == seq![
                Action::EmitMenu,
                Action::Command(command),
            ] && final(state).menu is None
            &&& !entry.rect.holds(event.point) ==> response.actions@.len() == 0
                && final(state).menu == old(state).menu
        }),
{
    assert(response.actions@ =~= release_actions(
        released(counted(*old(state)), event.point),
        event.point,
        world.pending,
    ));
}

/// In `Placement` every right press that no other window shadows is taken and owed its
/// release.
pub proof fn law_placement_takes_every_right_press(
    state: &mut HookState,
    pre: &mut Precapture,
    event: MouseEvent,
    world: &World,
    response: Response,
)
    requires
        call_ensures(handle_mouse, (state, pre, event, world), response),
        event.message == WM_RBUTTONDOWN,
        old(state).mode == Mode::Placement,
        !world.shadowed,
    ensures
        response.swallow,
        final(state).right_pending,
        response.actions@.len() == 0,
        final(state).menu == old(state).menu,
        final(state).gesture == old(state).gesture,
        final(state).left_pending == old(state).left_pending,
{
}

/// In `Living` a right press is taken exactly over an area that takes input, or while a
/// menu is open; every other is left to the application.
pub proof fn law_living_takes_a_right_press_it_acts_on(
    state: &mut HookState,
    pre: &mut Precapture,
    event: MouseEvent,
    world: &World,
    response: Response,
)
    requires
        call_ensures(handle_mouse, (state, pre, event, world), response),
        event.message == WM_RBUTTONDOWN,
        old(state).mode == Mode::Living,
        !world.shadowed,
    ensures
        response.swallow <==> world.interactive is Some || old(state).menu is Some,
        response.actions@.len() == 0,
        final(state).menu == old(state).menu,
{
}

/// A right click opens a menu: pressed and released over an area, in `Placement` over
/// any and in `Living` over one that takes input, it leaves that area's menu open and
/// has the page told.
pub proof fn law_a_right_click_opens_the_areas_menu(
    state: &mut HookState,
    pre: &mut Precapture,
    down: MouseEvent,
    at_down: &World,
    pressed: Response,
    later: &mut HookState,
    pre_later: &mut Precapture,
    up: MouseEvent,
    at_up: &World,
    released: Response,
    area: AreaSummary,
)
    requires
        call_ensures(handle_mouse, (state, pre, down, at_down), pressed),
        down.message == WM_RBUTTONDOWN,
        !at_down.shadowed,
        *old(later) == *final(state),
        call_ensures(handle_mouse, (later, pre_later, up, at_up), released),
        up.message == WM_RBUTTONUP,
        !old(state).want_teardown,
        old(state).mode == Mode::Placement ==> at_down.any is Some && at_up.any is Some
            && at_up.any->0.area == area,
        old(state).mode == Mode::Living ==> at_down.interactive is Some && at_up.interactive is Some
            && at_up.interactive->0.area == area,
        old(state).mode != Mode::Hidden,
    ensures
        pressed.swallow,
        released.swallow,
        released.actions@ == seq![Action::EmitMenu],
        final(later).menu is Some,
        final(later).menu->0.area == area.id,
        final(later).menu->0.bounds == at_up.layout.bounds,
        final(later).menu->0.open is None,
        !final(later).right_pending,
        exists|i: int|
            0 <= i < final(later).menu->0.items@.len()
                && (#[trigger] final(later).menu->0.items@[i]).action == menu::MenuAction::Dismiss,
        forall|i: int|
            0 <= i < final(later).menu->0.items@.len() ==> (
            #[trigger] final(later).menu->0.items@[i]).rect == at_up.layout.rows@[i],
{
    assert(released.actions@ =~= seq![Action::EmitMenu]);
    let shown = menu::rows_of(final(later).menu->0.items@);
    let last = menu::lead(area.kind) + 5;
    assert(shown[last].action == menu::MenuAction::Dismiss);
    assert(final(later).menu->0.items@[last].action == menu::MenuAction::Dismiss);
}

/// A right click on no area closes the menu that is open, and the page is told exactly
/// where one was.
pub proof fn law_a_right_click_beside_closes_the_menu(
    state: &mut HookState,
    pre: &mut Precapture,
    event: MouseEvent,
    world: &World,
    response: Response,
)
    requires
        call_ensures(handle_mouse, (state, pre, event, world), response),
        event.message == WM_RBUTTONUP,
        old(state).right_pending,
        !old(state).want_teardown,
        old(state).mode == Mode::Placement ==> world.any is None,
        old(state).mode == Mode::Living ==> world.interactive is None,
        old(state).mode != Mode::Hidden,
    ensures
        response.swallow,
        final(state).menu is None,
        response.actions@ == if old(state).menu is Some {
            seq![Action::EmitMenu]
        } else {
            Seq::<Action>::empty()
        },
{
    assert(response.actions@ =~= if old(state).menu is Some {
        seq![Action::EmitMenu]
    } else {
        Seq::<Action>::empty()
    });
}

/// In `Living`, with no menu open, a press on an area that takes it raises that area and
/// takes hold of it by the part that was pressed.
pub proof fn law_a_press_in_living_takes_hold(
    state: &mut HookState,
    pre: &mut Precapture,
    event: MouseEvent,
    world: &World,
    response: Response,
    i: int,
)
    requires
        call_ensures(handle_mouse, (state, pre, event, world), response),
        event.message == WM_LBUTTONDOWN,
        old(state).mode == Mode::Living,
        !world.shadowed,
        old(state).menu is None,
        0 <= i < world.areas@.len(),
        world.areas@[i].handle is Some,
        world.areas@[i].interactive || world.areas@[i].handle->0 != Handle::Body,
        forall|k: int|
            0 <= k < i ==> (#[trigger] world.areas@[k]).handle is None || (
            !world.areas@[k].interactive && world.areas@[k].handle->0 == Handle::Body),
    ensures
        ({
            let area = world.areas@[i];
            &&& final(state).gesture == Some(
                match area.handle->0 {
                    Handle::Close => Gesture::Close { id: area.id, control: area.control },
                    Handle::Body => Gesture::Move { id: area.id, start: area.bounds },
                    Handle::Resize(resize) => Gesture::Resize {
                        id: area.id,
                        resize,
                        start: area.bounds,
                    },
                },
            )
            &&& response.actions@ == seq![Action::Raise(area.id)]
        }),
        response.swallow,
        final(state).dragging,
        final(state).left_pending,
        final(state).start == event.point,
        final(state).current == event.point,
{
    lemma_living_top_of(world.areas@, 0, i);
}

/// The grip on the topmost area that takes a press in `Living`.
proof fn lemma_living_top_of(areas: Seq<AreaProbe>, start: int, i: int)
    requires
        0 <= start <= i < areas.len(),
        gesture::takes_press(areas[i]),
        forall|k: int| 0 <= k < i ==> !gesture::takes_press(#[trigger] areas[k]),
    ensures
        gesture::top_living_grip(areas, start) == gesture::grip_on(areas[i]),
    decreases i - start,
{
    if start < i {
        lemma_living_top_of(areas, start + 1, i);
    }
}

/// In `Living`, with no menu open, a press on no area that takes it is left to the
/// application, and nothing changes.
pub proof fn law_living_lets_a_press_through(
    state: &mut HookState,
    pre: &mut Precapture,
    event: MouseEvent,
    world: &World,
    response: Response,
)
    requires
        call_ensures(handle_mouse, (state, pre, event, world), response),
        event.message == WM_LBUTTONDOWN,
        old(state).mode == Mode::Living,
        old(state).menu is None,
        forall|k: int|
            0 <= k < world.areas@.len() ==> (#[trigger] world.areas@[k]).handle is None || (
            !world.areas@[k].interactive && world.areas@[k].handle->0 == Handle::Body),
    ensures
        !response.swallow,
        response.actions@.len() == 0,
        final(state).gesture == old(state).gesture,
        final(state).dragging == old(state).dragging,
        final(state).left_pending == old(state).left_pending,
{
    lemma_living_none_of(world.areas@, 0);
}

/// No grip where no area takes the press.
proof fn lemma_living_none_of(areas: Seq<AreaProbe>, start: int)
    requires
        0 <= start <= areas.len(),
        forall|k: int| 0 <= k < areas.len() ==> !gesture::takes_press(#[trigger] areas[k]),
    ensures
        gesture::top_living_grip(areas, start) is None,
    decreases areas.len() - start,
{
    if start < areas.len() {
        lemma_living_none_of(areas, start + 1);
    }
}

/// An open menu owns a left press in either mode: on a row it presses the row and the
/// menu stays; outside it closes the menu, has the page told, and nothing is drawn,
/// moved or raised.
pub proof fn law_a_press_with_a_menu_open(
    state: &mut HookState,
    pre: &mut Precapture,
    event: MouseEvent,
    world: &World,
    response: Response,
    inside: bool,
    hit: Option<menu::MenuHit>,
)
    requires
        call_ensures(handle_mouse, (state, pre, event, world), response),
        event.message == WM_LBUTTONDOWN,
        old(state).mode != Mode::Hidden,
        !world.shadowed,
        old(state).menu is Some,
        call_ensures(menu::menu_covers, (&old(state).menu->0, event.point), inside),
        call_ensures(menu::menu_hit, (&old(state).menu->0, event.point), hit),
    ensures
        response.swallow,
        final(state).left_pending,
        inside ==> {
            &&& final(state).menu == old(state).menu
            &&& response.actions@.len() == 0
            &&& final(state).gesture == Some(
                if hit is Some {
                    Gesture::MenuItem { hit: hit->0 }
                } else {
                    Gesture::Inert
                },
            )
        },
        !inside ==> {
            &&& final(state).menu is None
            &&& response.actions@ == seq![Action::EmitMenu]
            &&& old(state).mode == Mode::Placement ==> final(state).gesture == Some(Gesture::Inert)
            &&& old(state).mode == Mode::Living ==> final(state).gesture == old(state).gesture
        },
        *final(pre) == *old(pre),
{
    assert(inside == gesture::in_menu(old(state).menu, event.point));
    if !inside {
        assert(response.actions@ =~= seq![Action::EmitMenu]);
    } else {
        assert(response.actions@ =~= Seq::<Action>::empty());
    }
}

/// A drag that will capture starts capturing the monitor it begins on: armed with a
/// type that captures, pressed on no area, in `Placement`; and no other press does.
pub proof fn law_a_drag_that_will_capture_starts_capturing(
    pre: &mut Precapture,
    armed: Option<AreaType>,
    gesture: Gesture,
    point: Point,
    monitors: &Vec<Rect>,
    job: Option<CaptureJob>,
    i: int,
)
    requires
        call_ensures(start_precapture, (pre, armed, gesture, point, monitors), job),
        monitors@.len() <= usize::MAX,
        0 <= i < monitors@.len(),
        monitors@[i].holds(point),
        forall|k: int| 0 <= k < i ==> !(#[trigger] monitors@[k]).holds(point),
    ensures
        gesture == Gesture::Create && armed == Some(AreaType::Screenshot) ==> {
            &&& final(pre).target == Some(monitors@[i])
            &&& final(pre).held is None
            &&& final(pre).in_flight
            &&& final(pre).generation != old(pre).generation
            &&& job is None <==> old(pre).in_flight
            &&& job is Some ==> job->0.monitor == monitors@[i] && job->0.generation
                == final(pre).generation
        },
        !(gesture == Gesture::Create && armed == Some(AreaType::Screenshot)) ==> job is None
            && *final(pre) == *old(pre),
{
    search::lemma_first_from(monitors@, geometry::holding(point), 0);
    assert(geometry::holding(point)(monitors@[i]));
}

/// Turning the wheel over an area that can be zoomed zooms that area by the notches it
/// completes, away from the user being up; anywhere else it is left to the application.
pub proof fn law_the_wheel_zooms_the_area_under_it(
    state: &mut HookState,
    pre: &mut Precapture,
    event: MouseEvent,
    world: &World,
    response: Response,
    target: Option<Target>,
)
    requires
        call_ensures(handle_mouse, (state, pre, event, world), response),
        event.message == WM_MOUSEWHEEL,
        target == match old(state).mode {
            Mode::Placement => world.any,
            Mode::Living => world.interactive,
            Mode::Hidden => None,
        },
    ensures
        response.swallow <==> !world.shadowed && target is Some && target->0.zoomable,
        !response.swallow ==> response.actions@.len() == 0 && final(state).wheel
            == old(state).wheel,
        response.swallow ==> {
            let id = target->0.area.id;
            let high = event.data as int / 0x1_0000;
            let delta = if high >= 0x8000 {
                high - 0x1_0000
            } else {
                high
            };
            let carried = if old(state).wheel.area == id.raw {
                old(state).wheel.turned as int
            } else {
                0
            };
            -120 < carried < 120 ==> {
                &&& final(state).wheel.area == id.raw
                &&& -120 < final(state).wheel.turned < 120
                &&& response.actions@.len() <= 1
                &&& response.actions@.len() == 0 ==> final(state).wheel.turned == carried + delta
                &&& response.actions@.len() == 1 ==> (response.actions@[0] matches Action::Zoom {
                    id: zoomed,
                    notches,
                } && zoomed == id && notches != 0 && 120 * notches + final(state).wheel.turned
                    == carried + delta)
                &&& carried + delta >= 0 ==> final(state).wheel.turned >= 0
                &&& carried + delta <= 0 ==> final(state).wheel.turned <= 0
            }
        },
{
}

/// What a turn comes to is what was turned: a full notch in one turn is one notch, up or
/// down, and nothing is carried.
pub proof fn law_notches_add_up(residue: &mut WheelResidue, area: u64, data: u32, notches: i32)
    requires
        call_ensures(wheel_notches, (residue, area, data), notches),
        old(residue).area == area ==> -120 < old(residue).turned < 120,
    ensures
        final(residue).area == area,
        -120 < final(residue).turned < 120,
        ({
            let high = data as int / 0x1_0000;
            let delta = if high >= 0x8000 {
                high - 0x1_0000
            } else {
                high
            };
            let carried = if old(residue).area == area {
                old(residue).turned as int
            } else {
                0
            };
            &&& 120 * notches + final(residue).turned == carried + delta
            &&& carried + delta >= 0 ==> final(residue).turned >= 0
            &&& carried + delta <= 0 ==> final(residue).turned <= 0
        }),
{
}

/// The menu and the wheel act on the topmost area in `Placement`, in `Living` on the
/// topmost that takes input, and on none while hidden.
pub proof fn law_what_the_pointer_acts_on(
    mode: Mode,
    any: Option<Target>,
    interactive: Option<Target>,
    target: Option<Target>,
)
    requires
        call_ensures(pointer_target, (mode, any, interactive), target),
    ensures
        mode == Mode::Placement ==> target == any,
        mode == Mode::Living ==> target == interactive,
        mode == Mode::Hidden ==> target is None,
{
}

/// A window shadows the overlay exactly where it is another one, and the overlay is
/// nowhere above it, in an order that is not too long to be one.
pub proof fn law_a_window_above_shadows(
    ours: usize,
    root: Option<usize>,
    above: &[usize],
    yes: bool,
)
    requires
        call_ensures(shadowed_by_another_window, (ours, root, above), yes),
    ensures
        yes <==> root is Some && root != Some(ours) && above@.len() < 8192 && forall|i: int|
            0 <= i < above@.len() ==> #[trigger] above@[i] != ours,
{
    if root is Some && root != Some(ours) && above@.len() < 8192 {
        if above@.contains(ours) {
            let i = choose|i: int| 0 <= i < above@.len() && above@[i] == ours;
            assert(above@[i] == ours);
        }
    }
}

/// A new area is captured into if its type captures, and the overlay and the page hear of
/// it; the frame of the drag stays for the capture, and otherwise goes.
pub proof fn law_a_new_screenshot_is_captured_into(
    pre: &mut Precapture,
    kind: AreaType,
    created: Option<(AreaId, Rect)>,
    actions: Vec<Action>,
)
    requires
        call_ensures(after_create, (pre, kind, created), actions),
    ensures
        created is None ==> actions@.len() == 0 && final(pre).held is None,
        created matches Some((id, rect)) ==> {
            &&& kind == AreaType::Screenshot ==> actions@ == seq![
                Action::CaptureInto { id, rect },
                Action::AreaCreated(kind),
                Action::EmitAreas,
            ] && final(pre).held == old(pre).held
            &&& kind != AreaType::Screenshot ==> actions@ == seq![
                Action::AreaCreated(kind),
                Action::EmitAreas,
            ] && final(pre).held is None
        },
        final(pre).target is None,
        final(pre).generation != old(pre).generation,
{
}

/// A moved area has its magnification taken again and the page told; one that did not
/// move has neither.
pub proof fn law_a_moved_area_is_shown_anew(id: AreaId, moved: bool, actions: Vec<Action>)
    requires
        call_ensures(after_relocate, (id, moved), actions),
    ensures
        moved ==> actions@ == seq![Action::RefreshMagnification(id), Action::EmitAreas],
        !moved ==> actions@.len() == 0,
{
}

/// The page is told of a change to the areas, and of nothing else.
pub proof fn law_a_change_is_told(changed: bool, actions: Vec<Action>)
    requires
        call_ensures(after_change, (changed,), actions),
    ensures
        changed ==> actions@ == seq![Action::EmitAreas],
        !changed ==> actions@.len() == 0,
{
}

/// Every event counts, and moves nothing of the hook itself: neither its mode, nor
/// whether it is installed, nor what the poll shows.
pub proof fn law_every_event_counts(
    state: &mut HookState,
    pre: &mut Precapture,
    event: MouseEvent,
    world: &World,
    response: Response,
)
    requires
        call_ensures(handle_mouse, (state, pre, event, world), response),
    ensures
        old(state).hook_events < u64::MAX ==> final(state).hook_events == old(state).hook_events
            + 1,
        final(state).mode == old(state).mode,
        !old(state).want_teardown ==> final(state).hook == old(state).hook
            && final(state).applied_cursor == old(state).applied_cursor
            && final(state).living_cursor == old(state).living_cursor,
        event.message == WM_MOUSEMOVE ==> final(state).current == event.point && !response.swallow
            && final(state).gesture == old(state).gesture && final(state).start == old(state).start,
{
}

/// A press under another window, and any event that is not the mouse's buttons, wheel or
/// movement, is let through with nothing done.
pub proof fn law_what_is_not_for_the_overlay_is_let_through(
    state: &mut HookState,
    pre: &mut Precapture,
    event: MouseEvent,
    world: &World,
    response: Response,
)
    requires
        call_ensures(handle_mouse, (state, pre, event, world), response),
        ((event.message == WM_LBUTTONDOWN || event.message == WM_RBUTTONDOWN) && world.shadowed)
            || !(0x0200 <= event.message <= 0x020A),
    ensures
        !response.swallow,
        response.actions@.len() == 0,
        final(state).gesture == old(state).gesture,
        final(state).left_pending == old(state).left_pending,
        final(state).right_pending == old(state).right_pending,
        final(state).menu == old(state).menu,
        *final(pre) == *old(pre),
{
}

/// A release that is the last owed takes the hook down where that was put off.
pub proof fn law_the_last_release_takes_the_hook_down(
    state: &mut HookState,
    pre: &mut Precapture,
    event: MouseEvent,
    world: &World,
    response: Response,
)
    requires
        call_ensures(handle_mouse, (state, pre, event, world), response),
        old(state).want_teardown,
        (event.message == WM_LBUTTONUP && old(state).left_pending && !old(state).right_pending) || (
        event.message == WM_RBUTTONUP && old(state).right_pending && !old(state).left_pending),
    ensures
        response.swallow,
        !final(state).hook,
        !final(state).want_teardown,
        !final(state).left_pending,
        !final(state).right_pending,
        response.actions@.len() > 0,
        response.actions@.last() == Action::RestoreCursors,
        old(state).hook ==> response.actions@.contains(Action::RemoveHook),
{
    if old(state).hook {
        let n = response.actions@.len();
        assert(response.actions@[n - 2] == Action::RemoveHook);
    }
}

/// A Screenshot area that is drawn is captured from the press on: its monitor is asked
/// for at once, unless a capture is still under way.
pub proof fn law_a_screenshot_drag_asks_for_its_monitor(
    state: &mut HookState,
    pre: &mut Precapture,
    event: MouseEvent,
    world: &World,
    response: Response,
    i: int,
)
    requires
        call_ensures(handle_mouse, (state, pre, event, world), response),
        event.message == WM_LBUTTONDOWN,
        old(state).mode == Mode::Placement,
        !world.shadowed,
        old(state).menu is None,
        forall|k: int| 0 <= k < world.areas@.len() ==> (#[trigger] world.areas@[k]).handle is None,
        world.monitors@.len() <= usize::MAX,
        0 <= i < world.monitors@.len(),
        world.monitors@[i].holds(event.point),
        forall|k: int| 0 <= k < i ==> !(#[trigger] world.monitors@[k]).holds(event.point),
    ensures
        old(state).armed == Some(AreaType::Screenshot) ==> {
            &&& final(pre).target == Some(world.monitors@[i])
            &&& final(pre).held is None
            &&& !old(pre).in_flight ==> response.actions@ == seq![
                Action::StartCapture(
                    CaptureJob {
                        monitor: world.monitors@[i],
                        generation: final(pre).generation,
                    },
                ),
            ]
            &&& old(pre).in_flight ==> response.actions@.len() == 0
        },
        old(state).armed != Some(AreaType::Screenshot) ==> response.actions@.len() == 0
            && *final(pre) == *old(pre),
{
    lemma_none_of(world.areas@, 0);
    search::lemma_first_from(world.monitors@, geometry::holding(event.point), 0);
    assert(geometry::holding(event.point)(world.monitors@[i]));
    if old(state).armed == Some(AreaType::Screenshot) && !old(pre).in_flight {
        assert(response.actions@ =~= seq![
            Action::StartCapture(
                CaptureJob { monitor: world.monitors@[i], generation: final(pre).generation },
            ),
        ]);
    } else {
        assert(response.actions@ =~= Seq::<Action>::empty());
    }
}

/// A layout is worked out for the menu of the area a right release is on, and for the
/// list of a row that is chosen, and for nothing where no menu and no list opens.
pub proof fn law_a_layout_is_for_what_opens(
    state: HookState,
    event: MouseEvent,
    any: Option<Target>,
    interactive: Option<Target>,
    need: LayoutNeed,
)
    requires
        call_ensures(layout_need, (&state, event, any, interactive), need),
    ensures
        event.message == WM_RBUTTONUP && state.right_pending && state.mode == Mode::Placement
            ==> need == if any is Some {
            LayoutNeed::Menu(any->0.area)
        } else {
            LayoutNeed::Nothing
        },
        event.message == WM_RBUTTONUP && state.right_pending && state.mode == Mode::Living ==> need
            == if interactive is Some {
            LayoutNeed::Menu(interactive->0.area)
        } else {
            LayoutNeed::Nothing
        },
        need matches LayoutNeed::List(place) ==> {
            &&& event.message == WM_LBUTTONUP
            &&& state.menu is Some
            &&& state.gesture matches Some(Gesture::MenuItem { hit: menu::MenuHit::Row(row) }) && row
                < state.menu->0.items@.len() && place.row == state.menu->0.items@[row as int].rect
                && place.rows == state.menu->0.items@[row as int].children@.len()
                && place.row.holds(event.point)
        },
        event.message != WM_LBUTTONUP && event.message != WM_RBUTTONUP ==> need
            == LayoutNeed::Nothing,
{
}

} // verus!
