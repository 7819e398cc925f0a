//! The mouse hook: which events it takes, what they do, and how the hook and
//! the cursors come and go with the overlay's mode.
//!
//! A press that is taken is remembered until its release, so that release is
//! taken too, whatever has happened to the gesture in between; and the hook
//! outlives the overlay for exactly as long as such a release is owed.

use vstd::prelude::*;
use crate::area::{AreaId, AreaType};
use crate::geometry::{Point, Rect};
use crate::gesture::{gesture_rect, CursorShape, Gesture, GesturePlan};
use crate::gesture;
use crate::menu::{AreaMenu, MenuCommand};
use crate::menu;
use crate::precapture::{CaptureJob, Precapture};
use crate::precapture;

verus! {

/// The event the page hears the selection on.
pub const SELECTION_EVENT: &'static str = "placement://selection";

/// The event the page hears the menu on.
pub const MENU_EVENT: &'static str = "overlay://menu";

/// The event the page hears the hover on.
pub const HOVER_EVENT: &'static str = "overlay://hover";

/// Which mode the hook works in.
#[derive(Debug, Clone, Copy, PartialEq, Eq, Structural)]
pub enum Mode {
    Hidden,
    Living,
    Placement,
}

/// What the wheel has turned without completing a notch, and over which area.
#[derive(Debug, Clone, Copy, PartialEq, Eq, Structural)]
pub struct WheelResidue {
    pub area: u64,
    pub turned: i32,
}

/// Everything the hook and the poll share.
#[derive(Debug)]
pub struct HookState {
    /// Whether the hook is installed.
    pub hook: bool,
    pub mode: Mode,
    /// Whether a gesture is live.
    pub dragging: bool,
    /// Whether a left press was taken whose release is still owed.
    pub left_pending: bool,
    /// Whether a right press was taken whose release is still owed.
    pub right_pending: bool,
    /// Whether the hook goes as soon as no release is owed.
    pub want_teardown: bool,
    /// Where the last drag was begun.
    pub start: Point,
    /// Where the pointer was last seen.
    pub current: Point,
    pub gesture: Option<Gesture>,
    /// The type the next created area gets.
    pub armed: Option<AreaType>,
    pub menu: Option<AreaMenu>,
    /// The shape that overrides every system cursor, in `Placement`.
    pub applied_cursor: Option<CursorShape>,
    /// The shape that overrides the arrow, in `Living`.
    pub living_cursor: Option<CursorShape>,
    /// How many events the hook has seen.
    pub hook_events: u64,
    pub wheel: WheelResidue,
}

/// The state at startup.
pub open spec fn at_rest() -> HookState {
    HookState {
        hook: false,
        mode: Mode::Hidden,
        dragging: false,
        left_pending: false,
        right_pending: false,
        want_teardown: false,
        start: Point { x: 0, y: 0 },
        current: Point { x: 0, y: 0 },
        gesture: None,
        armed: None,
        menu: None,
        applied_cursor: None,
        living_cursor: None,
        hook_events: 0,
        wheel: WheelResidue { area: 0, turned: 0 },
    }
}

impl Default for HookState {
    /// Nothing installed, nothing pressed, nothing shown.
    fn default() -> (state: Self)
        ensures
            state == at_rest(),
    {
        HookState {
            hook: false,
            mode: Mode::Hidden,
            dragging: false,
            left_pending: false,
            right_pending: false,
            want_teardown: false,
            start: Point { x: 0, y: 0 },
            current: Point { x: 0, y: 0 },
            gesture: None,
            armed: None,
            menu: None,
            applied_cursor: None,
            living_cursor: None,
            hook_events: 0,
            wheel: WheelResidue { area: 0, turned: 0 },
        }
    }
}

/// What the hook and the poll ask to be done, in order.
#[derive(Debug, Clone, Copy, PartialEq, Eq, Structural)]
pub enum Action {
    /// Tell the page about the menu.
    EmitMenu,
    /// Tell the page about the areas.
    EmitAreas,
    /// Capture a monitor for the drag that has begun.
    StartCapture(CaptureJob),
    /// Put an area on top of its layer.
    Raise(AreaId),
    /// Create an area.
    Create { kind: AreaType, rect: Rect },
    /// Move or resize an area.
    Relocate { id: AreaId, rect: Rect },
    /// Remove an area.
    Dismiss(AreaId),
    /// Carry out what a menu row asks.
    Command(MenuCommand),
    /// Zoom an area by some notches.
    Zoom { id: AreaId, notches: i32 },
    /// Capture the pixels under a new area into it.
    CaptureInto { id: AreaId, rect: Rect },
    /// Apply what creating an area of this type does to the overlay.
    AreaCreated(AreaType),
    /// Take a magnified area's capture again.
    RefreshMagnification(AreaId),
    /// Install the mouse hook.
    InstallHook,
    /// Remove the mouse hook.
    RemoveHook,
    /// Put every system cursor back.
    RestoreCursors,
    /// Override every system cursor with a shape.
    OverrideCursors(CursorShape),
    /// Override the arrow alone with a shape.
    OverrideArrow(CursorShape),
    /// Tell the page what is hovered.
    EmitHover { hovered: Option<u64>, chrome_only: bool },
    /// Tell the page which monitor the pointer is on.
    EmitActiveMonitor(Option<usize>),
    /// Have the warm captures follow the pointer.
    ResyncWarm(Point),
}

// ---------------------------------------------------------------------------
// Small reads and writes.
// ---------------------------------------------------------------------------

/// Whether a drag is in progress.
#[must_use]
pub fn is_dragging(state: &HookState) -> (dragging: bool)
    ensures
        dragging == state.dragging,
{
    state.dragging
}

/// The state with its gesture abandoned. The release of its button is still
/// owed.
pub open spec fn without_gesture(state: HookState) -> HookState {
    HookState { dragging: false, gesture: None, ..state }
}

/// Cancels a drag: nothing is created, the captured frame is dropped, and the
/// release of its button will still be taken.
pub fn cancel_drag(state: &mut HookState, pre: &mut Precapture)
    ensures
        *final(state) == without_gesture(*old(state)),
        *final(pre) == precapture::discarded(*old(pre)),
{
    state.dragging = false;
    state.gesture = None;
    precapture::discard(pre);
}

/// Arms a type: the next area created is of it.
pub fn arm(state: &mut HookState, kind: AreaType)
    ensures
        *final(state) == (HookState { armed: Some(kind), ..*old(state) }),
{
    state.armed = Some(kind);
}

/// The armed type.
#[must_use]
pub fn armed(state: &HookState) -> (kind: Option<AreaType>)
    ensures
        kind == state.armed,
{
    state.armed
}

/// Disarms.
pub fn disarm(state: &mut HookState)
    ensures
        *final(state) == (HookState { armed: None, ..*old(state) }),
{
    state.armed = None;
}

/// The area a drag moves or resizes.
pub open spec fn dragged(state: HookState) -> Option<u64> {
    if state.dragging {
        match state.gesture {
            Some(Gesture::Move { id, .. }) => Some(id.raw),
            Some(Gesture::Resize { id, .. }) => Some(id.raw),
            _ => None,
        }
    } else {
        None
    }
}

/// The area a drag moves or resizes.
pub fn dragged_area(state: &HookState) -> (id: Option<u64>)
    ensures
        id == dragged(*state),
{
    if !state.dragging {
        return None;
    }
    match state.gesture {
        Some(Gesture::Move { id, .. }) => Some(id.get()),
        Some(Gesture::Resize { id, .. }) => Some(id.get()),
        _ => None,
    }
}

/// How the rectangle of the live drag is worked out.
pub open spec fn pending_plan(state: HookState, free: bool) -> Option<GesturePlan> {
    if state.dragging && state.gesture is Some {
        gesture::plan_of(state.gesture->0, state.start, state.current, free)
    } else {
        None
    }
}

/// How the rectangle of the live drag is worked out; none while there is no
/// drag, or one without a rectangle.
pub fn pending_rect(state: &HookState, free: bool) -> (plan: Option<GesturePlan>)
    ensures
        plan == pending_plan(*state, free),
{
    if !state.dragging {
        return None;
    }
    match state.gesture {
        Some(gesture) => gesture_rect(gesture, state.start, state.current, free),
        None => None,
    }
}

// ---------------------------------------------------------------------------
// Cursors.
// ---------------------------------------------------------------------------

/// Whether two optional shapes are the same.
fn same_shape(a: Option<CursorShape>, b: Option<CursorShape>) -> (same: bool)
    ensures
        same == (a == b),
{
    match (a, b) {
        (Some(a), Some(b)) => a == b,
        (None, None) => true,
        _ => false,
    }
}

/// What showing a shape in `Placement` asks for: nothing if it is shown.
pub open spec fn cursor_actions(state: HookState, shape: CursorShape) -> Seq<Action> {
    if state.applied_cursor == Some(shape) {
        seq![]
    } else {
        seq![Action::OverrideCursors(shape)]
    }
}

/// Shows a shape in `Placement`.
pub fn set_cursor(state: &mut HookState, shape: CursorShape, actions: &mut Vec<Action>)
    ensures
        *final(state) == (HookState { applied_cursor: Some(shape), ..*old(state) }),
        final(actions)@ == old(actions)@ + cursor_actions(*old(state), shape),
{
    if !same_shape(state.applied_cursor, Some(shape)) {
        actions.push(Action::OverrideCursors(shape));
        state.applied_cursor = Some(shape);
    }
    assert(actions@ =~= old(actions)@ + cursor_actions(*old(state), shape));
}

/// What showing a shape, or the plain arrow for none, in `Living` asks for:
/// nothing if it is shown.
pub open spec fn living_cursor_actions(
    state: HookState,
    shape: Option<CursorShape>,
) -> Seq<Action> {
    if state.living_cursor == shape {
        seq![]
    } else {
        seq![
            Action::OverrideArrow(
                match shape {
                    Some(shape) => shape,
                    None => CursorShape::Arrow,
                },
            ),
        ]
    }
}

/// Shows a shape, or the plain arrow for none, in `Living`.
pub fn set_living_cursor(
    state: &mut HookState,
    shape: Option<CursorShape>,
    actions: &mut Vec<Action>,
)
    ensures
        *final(state) == (HookState { living_cursor: shape, ..*old(state) }),
        final(actions)@ == old(actions)@ + living_cursor_actions(*old(state), shape),
{
    if !same_shape(state.living_cursor, shape) {
        let shown = match shape {
            Some(shape) => shape,
            None => CursorShape::Arrow,
        };
        actions.push(Action::OverrideArrow(shown));
        state.living_cursor = shape;
    }
    assert(actions@ =~= old(actions)@ + living_cursor_actions(*old(state), shape));
}

/// Puts back cursors a process that ended badly may have left overridden.
pub fn clear_cursor_residue(actions: &mut Vec<Action>)
    ensures
        final(actions)@ == old(actions)@.push(Action::RestoreCursors),
{
    actions.push(Action::RestoreCursors);
}

// ---------------------------------------------------------------------------
// Coming and going.
// ---------------------------------------------------------------------------

/// What making sure of the hook asks for.
pub open spec fn hook_actions(state: HookState) -> Seq<Action> {
    if state.hook {
        seq![]
    } else {
        seq![Action::InstallHook]
    }
}

/// Asks for the hook unless it is installed.
fn ensure_hook(state: &HookState, actions: &mut Vec<Action>)
    ensures
        final(actions)@ == old(actions)@ + hook_actions(*state),
{
    if !state.hook {
        actions.push(Action::InstallHook);
    }
    assert(actions@ =~= old(actions)@ + hook_actions(*state));
}

/// Notes whether the hook that was asked for could be installed.
pub fn hook_installed(state: &mut HookState, installed: bool)
    ensures
        *final(state) == (HookState { hook: installed, ..*old(state) }),
{
    state.hook = installed;
}

/// What closing the menu asks for.
pub open spec fn close_actions(menu: Option<AreaMenu>) -> Seq<Action> {
    if menu is Some {
        seq![Action::EmitMenu]
    } else {
        seq![]
    }
}

/// Closes the menu, and tells the page if one was open.
pub fn close_menu(state: &mut HookState, actions: &mut Vec<Action>) -> (was_open: bool)
    ensures
        *final(state) == (HookState { menu: None, ..*old(state) }),
        final(actions)@ == old(actions)@ + close_actions(old(state).menu),
        was_open == (old(state).menu is Some),
{
    let was_open = menu::close_menu(&mut state.menu);
    if was_open {
        actions.push(Action::EmitMenu);
    }
    assert(actions@ =~= old(actions)@ + close_actions(old(state).menu));
    was_open
}

/// The state once the hook is gone.
pub open spec fn torn_down(state: HookState) -> HookState {
    HookState {
        hook: false,
        want_teardown: false,
        left_pending: false,
        right_pending: false,
        dragging: false,
        gesture: None,
        armed: None,
        applied_cursor: None,
        living_cursor: None,
        ..state
    }
}

/// What taking the hook down asks for.
pub open spec fn teardown_actions(state: HookState) -> Seq<Action> {
    if state.hook {
        seq![Action::RemoveHook, Action::RestoreCursors]
    } else {
        seq![Action::RestoreCursors]
    }
}

/// Takes the hook down and puts the cursors back.
pub fn teardown(state: &mut HookState, actions: &mut Vec<Action>)
    ensures
        *final(state) == torn_down(*old(state)),
        final(actions)@ == old(actions)@ + teardown_actions(*old(state)),
{
    if state.hook {
        actions.push(Action::RemoveHook);
        state.hook = false;
    }
    state.want_teardown = false;
    state.left_pending = false;
    state.right_pending = false;
    state.dragging = false;
    state.gesture = None;
    state.armed = None;
    actions.push(Action::RestoreCursors);
    state.applied_cursor = None;
    state.living_cursor = None;
    assert(actions@ =~= old(actions)@ + teardown_actions(*old(state)));
}

/// Whether a deferred teardown is due: it is wanted, and no release is owed.
pub open spec fn teardown_due(state: HookState) -> bool {
    state.want_teardown && !state.left_pending && !state.right_pending
}

/// The state once a teardown that is due has been carried out.
pub open spec fn settled(state: HookState) -> HookState {
    if teardown_due(state) {
        torn_down(state)
    } else {
        state
    }
}

/// What a teardown that is due asks for.
pub open spec fn settling_actions(state: HookState) -> Seq<Action> {
    if teardown_due(state) {
        teardown_actions(state)
    } else {
        seq![]
    }
}

/// Carries out a deferred teardown once it is due.
pub fn maybe_finish_teardown(state: &mut HookState, actions: &mut Vec<Action>)
    ensures
        *final(state) == settled(*old(state)),
        final(actions)@ == old(actions)@ + settling_actions(*old(state)),
{
    if state.want_teardown && !state.left_pending && !state.right_pending {
        teardown(state, actions);
    }
    assert(actions@ =~= old(actions)@ + settling_actions(*old(state)));
}

/// The state on entering `Placement`. The last seen point is where the pointer
/// is, if that could be read.
pub open spec fn in_placement(state: HookState, cursor: Option<Point>) -> HookState {
    HookState {
        mode: Mode::Placement,
        want_teardown: false,
        applied_cursor: Some(CursorShape::Cross),
        living_cursor: None,
        menu: if state.mode == Mode::Placement {
            state.menu
        } else {
            None
        },
        current: match cursor {
            Some(point) => point,
            None => state.current,
        },
        ..state
    }
}

/// What entering `Placement` asks for.
pub open spec fn placement_actions(state: HookState) -> Seq<Action> {
    hook_actions(state) + cursor_actions(state, CursorShape::Cross) + if state.mode
        == Mode::Placement {
        seq![]
    } else {
        close_actions(state.menu)
    }
}

/// Enters `Placement`: the hook in, the cross shown, a menu left open by
/// another mode closed.
pub fn enter_placement_on_main_thread(
    state: &mut HookState,
    cursor: Option<Point>,
    actions: &mut Vec<Action>,
)
    ensures
        *final(state) == in_placement(*old(state), cursor),
        final(actions)@ == old(actions)@ + placement_actions(*old(state)),
{
    let previous = state.mode;
    ensure_hook(state, actions);
    state.mode = Mode::Placement;
    state.want_teardown = false;
    set_cursor(state, CursorShape::Cross, actions);
    if previous != Mode::Placement {
        close_menu(state, actions);
    }
    state.living_cursor = None;
    if let Some(point) = cursor {
        state.current = point;
    }
    assert(actions@ =~= old(actions)@ + placement_actions(*old(state)));
}

/// The state on entering `Living`.
pub open spec fn in_living(state: HookState) -> HookState {
    HookState {
        mode: Mode::Living,
        want_teardown: false,
        dragging: false,
        gesture: None,
        armed: None,
        menu: None,
        applied_cursor: None,
        living_cursor: None,
        ..state
    }
}

/// What entering `Living` asks for.
pub open spec fn living_actions(state: HookState) -> Seq<Action> {
    hook_actions(state) + close_actions(state.menu) + if state.applied_cursor is Some {
        seq![Action::RestoreCursors]
    } else {
        seq![]
    }
}

/// Enters `Living`: the hook in; the gesture, the armed type, the menu and the
/// overridden cursors gone.
pub fn enter_living_on_main_thread(state: &mut HookState, actions: &mut Vec<Action>)
    ensures
        *final(state) == in_living(*old(state)),
        final(actions)@ == old(actions)@ + living_actions(*old(state)),
{
    ensure_hook(state, actions);
    state.mode = Mode::Living;
    state.want_teardown = false;
    state.dragging = false;
    state.gesture = None;
    state.armed = None;
    close_menu(state, actions);
    if state.applied_cursor.is_some() {
        state.applied_cursor = None;
        actions.push(Action::RestoreCursors);
    }
    state.living_cursor = None;
    assert(actions@ =~= old(actions)@ + living_actions(*old(state)));
}

/// The state on leaving for `Hidden`, before the hook goes.
pub open spec fn hiding(state: HookState) -> HookState {
    HookState {
        mode: Mode::Hidden,
        dragging: false,
        gesture: None,
        armed: None,
        menu: None,
        ..state
    }
}

/// Whether a release is owed.
pub open spec fn owes_release(state: HookState) -> bool {
    state.left_pending || state.right_pending
}

/// The state once the overlay is hidden: the hook goes at once unless a release
/// is owed, and then as soon as it is not.
pub open spec fn hidden(state: HookState) -> HookState {
    if owes_release(state) {
        HookState { want_teardown: true, ..hiding(state) }
    } else {
        torn_down(hiding(state))
    }
}

/// What hiding asks for.
pub open spec fn hiding_actions(state: HookState) -> Seq<Action> {
    close_actions(state.menu) + if owes_release(state) {
        seq![]
    } else {
        teardown_actions(state)
    }
}

/// Leaves for `Hidden`.
pub fn exit_on_main_thread(state: &mut HookState, actions: &mut Vec<Action>)
    ensures
        *final(state) == hidden(*old(state)),
        final(actions)@ == old(actions)@ + hiding_actions(*old(state)),
{
    state.mode = Mode::Hidden;
    state.dragging = false;
    state.gesture = None;
    state.armed = None;
    close_menu(state, actions);
    if state.left_pending || state.right_pending {
        state.want_teardown = true;
    } else {
        teardown(state, actions);
    }
    assert(actions@ =~= old(actions)@ + hiding_actions(*old(state)));
}

/// The state once a dead hook has been replaced: the gesture is gone, and what
/// is owed is what is physically held.
pub open spec fn reinstalled(state: HookState, left_down: bool, right_down: bool) -> HookState {
    HookState {
        hook: false,
        left_pending: left_down,
        right_pending: right_down,
        want_teardown: false,
        dragging: false,
        gesture: None,
        ..state
    }
}

/// What replacing a dead hook asks for.
pub open spec fn reinstall_actions(state: HookState) -> Seq<Action> {
    (if state.hook {
        seq![Action::RemoveHook]
    } else {
        seq![]
    }) + if state.mode == Mode::Hidden {
        seq![]
    } else {
        seq![Action::InstallHook]
    }
}

/// Replaces a hook that has stopped delivering events; `left_down` and
/// `right_down` say which buttons are held now.
pub fn reinstall_on_main_thread(
    state: &mut HookState,
    left_down: bool,
    right_down: bool,
    actions: &mut Vec<Action>,
)
    ensures
        *final(state) == reinstalled(*old(state), left_down, right_down),
        final(actions)@ == old(actions)@ + reinstall_actions(*old(state)),
{
    if state.hook {
        actions.push(Action::RemoveHook);
        state.hook = false;
    }
    state.left_pending = left_down;
    state.right_pending = right_down;
    state.want_teardown = false;
    state.dragging = false;
    state.gesture = None;
    if state.mode != Mode::Hidden {
        actions.push(Action::InstallHook);
    }
    assert(actions@ =~= old(actions)@ + reinstall_actions(*old(state)));
}

// ---------------------------------------------------------------------------
// Laws.
// ---------------------------------------------------------------------------

/// What holds of the state between events.
pub open spec fn consistent(state: HookState) -> bool {
    // A drag is live exactly while there is a gesture, and its release is owed.
    &&& state.dragging == (state.gesture is Some)
    &&& state.dragging ==> state.left_pending
    // A teardown is deferred only while hidden, and only for a release.
    &&& state.want_teardown ==> state.mode == Mode::Hidden && owes_release(state)
    // A hidden overlay has nothing on screen, and keeps its hook only for that.
    &&& state.mode == Mode::Hidden ==> !state.dragging && state.menu is None
    &&& state.mode == Mode::Hidden && state.hook ==> state.want_teardown
    // Arming never outlives `Placement`.
    &&& state.armed is Some ==> state.mode == Mode::Placement
}

/// The state at startup is consistent.
pub proof fn law_rest_is_consistent()
    ensures
        consistent(at_rest()),
{
}

/// Entering, leaving, tearing down, replacing the hook and cancelling a drag
/// each leave a consistent state consistent.
pub proof fn law_transitions_keep_the_state_consistent(
    state: HookState,
    cursor: Option<Point>,
    left_down: bool,
    right_down: bool,
)
    requires
        consistent(state),
    ensures
        consistent(in_placement(state, cursor)),
        consistent(in_living(state)),
        consistent(hidden(state)),
        consistent(torn_down(state)),
        consistent(settled(state)),
        consistent(reinstalled(state, left_down, right_down)),
        consistent(without_gesture(state)),
{
}

/// Arming in `Placement`, and disarming anywhere, leave a consistent state
/// consistent.
pub proof fn law_arming_keeps_the_state_consistent(state: HookState, kind: AreaType)
    requires
        consistent(state),
    ensures
        state.mode == Mode::Placement ==> consistent(HookState { armed: Some(kind), ..state }),
        consistent(HookState { armed: None, ..state }),
{
}

/// Hiding never loses a release that is owed: the hook stays for it, and goes
/// with it.
pub proof fn law_hiding_waits_for_the_release(state: HookState)
    requires
        owes_release(state),
    ensures
        hidden(state).hook == state.hook,
        hidden(state).left_pending == state.left_pending,
        hidden(state).right_pending == state.right_pending,
        settled(hidden(state)) == hidden(state),
        !settled(HookState { left_pending: false, right_pending: false, ..hidden(state) }).hook,
{
}

/// Entering a visible mode cancels a teardown that was deferred.
pub proof fn law_entering_cancels_the_teardown(state: HookState, cursor: Option<Point>)
    ensures
        settled(in_placement(state, cursor)) == in_placement(state, cursor),
        settled(in_living(state)) == in_living(state),
{
}

/// Entering `Placement` again while in it leaves the menu, the gesture and the
/// armed type alone, and asks for nothing once the hook and the cross are
/// there.
pub proof fn law_entering_placement_twice_is_entering_once(
    state: HookState,
    cursor: Option<Point>,
)
    requires
        state.hook,
    ensures
        in_placement(in_placement(state, cursor), cursor) == in_placement(state, cursor),
        placement_actions(in_placement(state, cursor)) == Seq::<Action>::empty(),
{
    assert(placement_actions(in_placement(state, cursor)) =~= Seq::<Action>::empty());
}

/// Showing the shape that is shown asks for nothing.
pub proof fn law_a_shown_cursor_is_not_shown_again(state: HookState, shape: CursorShape)
    ensures
        cursor_actions(HookState { applied_cursor: Some(shape), ..state }, shape) == Seq::<
            Action,
        >::empty(),
        living_cursor_actions(HookState { living_cursor: Some(shape), ..state }, Some(shape))
            == Seq::<Action>::empty(),
{
}

/// While a box is dragged out it spans from where the press was to where the pointer is;
/// without a drag there is none.
pub proof fn law_the_box_spans_from_press_to_pointer(
    state: HookState,
    free: bool,
    plan: Option<GesturePlan>,
)
    requires
        call_ensures(pending_rect, (&state, free), plan),
    ensures
        state.dragging && state.gesture == Some(Gesture::Create) ==> plan == Some(
            GesturePlan::Draw { anchor: state.start, pointer: state.current, free },
        ),
        !state.dragging || state.gesture is None ==> plan is None,
{
}

/// An area that is dragged is worked out from the press, the pointer and the gesture, as
/// the gesture alone would be.
pub proof fn law_a_drag_is_measured_from_its_press(
    state: HookState,
    free: bool,
    plan: Option<GesturePlan>,
    alone: Option<GesturePlan>,
)
    requires
        call_ensures(pending_rect, (&state, free), plan),
        state.dragging,
        state.gesture is Some,
        call_ensures(gesture_rect, (state.gesture->0, state.start, state.current, free), alone),
    ensures
        plan == alone,
{
}

/// The dragged area is the one that is moved or resized, while it is.
pub proof fn law_the_dragged_area_is_the_one_that_moves(state: HookState, id: Option<u64>)
    requires
        call_ensures(dragged_area, (&state,), id),
    ensures
        state.dragging ==> (state.gesture matches Some(Gesture::Move { id: moved, start }) ==> id
            == Some(moved.raw)),
        state.dragging ==> (state.gesture matches Some(Gesture::Resize { id: sized, resize, start })
            ==> id == Some(sized.raw)),
        id is Some ==> state.dragging && state.gesture is Some && (state.gesture->0 is Move
            || state.gesture->0 is Resize),
{
}

/// Arming a type makes it the armed one, disarming leaves none, and neither changes
/// anything else.
pub proof fn law_what_is_armed_is_read_back(
    state: &mut HookState,
    kind: AreaType,
    read: Option<AreaType>,
    later: &mut HookState,
    after: Option<AreaType>,
)
    requires
        call_ensures(arm, (state, kind), ()),
        call_ensures(armed, (&*final(state),), read),
        *old(later) == *final(state),
        call_ensures(disarm, (later,), ()),
        call_ensures(armed, (&*final(later),), after),
    ensures
        read == Some(kind),
        after is None,
        *final(later) == (HookState { armed: None, ..*old(state) }),
{
}

/// Cancelling a drag ends it and drops its frame; the release is still owed, and the
/// arming is kept.
pub proof fn law_a_cancelled_drag_is_over(
    state: &mut HookState,
    pre: &mut Precapture,
    dragging: bool,
)
    requires
        call_ensures(cancel_drag, (state, pre), ()),
        call_ensures(is_dragging, (&*final(state),), dragging),
    ensures
        !dragging,
        final(state).gesture is None,
        final(state).left_pending == old(state).left_pending,
        final(state).right_pending == old(state).right_pending,
        final(state).armed == old(state).armed,
        final(state).menu == old(state).menu,
        final(state).mode == old(state).mode,
        final(pre).held is None,
        final(pre).target is None,
        final(pre).generation != old(pre).generation,
{
}

/// The cursor of `Placement` is the shape that was asked for, and is put up exactly where
/// it was another.
pub proof fn law_a_shape_is_put_up_once(
    state: &mut HookState,
    shape: CursorShape,
    actions: &mut Vec<Action>,
)
    requires
        call_ensures(set_cursor, (state, shape, actions), ()),
    ensures
        final(state).applied_cursor == Some(shape),
        final(actions)@ == if old(state).applied_cursor == Some(shape) {
            old(actions)@
        } else {
            old(actions)@.push(Action::OverrideCursors(shape))
        },
        *final(state) == (HookState { applied_cursor: Some(shape), ..*old(state) }),
{
    assert(final(actions)@ =~= if old(state).applied_cursor == Some(shape) {
        old(actions)@
    } else {
        old(actions)@.push(Action::OverrideCursors(shape))
    });
}

/// The cursor of `Living` stands in for the arrow alone, and for none it is the arrow
/// itself; it is put up exactly where it was another.
pub proof fn law_living_overrides_the_arrow_alone(
    state: &mut HookState,
    shape: Option<CursorShape>,
    actions: &mut Vec<Action>,
)
    requires
        call_ensures(set_living_cursor, (state, shape, actions), ()),
    ensures
        *final(state) == (HookState { living_cursor: shape, ..*old(state) }),
        final(actions)@ == if old(state).living_cursor == shape {
            old(actions)@
        } else {
            old(actions)@.push(
                Action::OverrideArrow(
                    if shape is Some {
                        shape->0
                    } else {
                        CursorShape::Arrow
                    },
                ),
            )
        },
{
    assert(final(actions)@ =~= if old(state).living_cursor == shape {
        old(actions)@
    } else {
        old(actions)@.push(
            Action::OverrideArrow(
                if shape is Some {
                    shape->0
                } else {
                    CursorShape::Arrow
                },
            ),
        )
    });
}

/// Entering `Placement` has the hook in and the cross shown, closes a menu that another
/// mode left, keeps what is armed and dragged, and calls off a teardown.
pub proof fn law_entering_placement(
    state: &mut HookState,
    cursor: Option<Point>,
    actions: &mut Vec<Action>,
)
    requires
        call_ensures(enter_placement_on_main_thread, (state, cursor, actions), ()),
        old(actions)@.len() == 0,
    ensures
        final(state).mode == Mode::Placement,
        !final(state).want_teardown,
        final(state).applied_cursor == Some(CursorShape::Cross),
        final(state).living_cursor is None,
        cursor matches Some(point) ==> final(state).current == point,
        cursor is None ==> final(state).current == old(state).current,
        final(state).armed == old(state).armed,
        final(state).gesture == old(state).gesture,
        final(state).left_pending == old(state).left_pending,
        final(state).right_pending == old(state).right_pending,
        old(state).mode == Mode::Placement ==> final(state).menu == old(state).menu,
        old(state).mode != Mode::Placement ==> final(state).menu is None,
        final(actions)@.contains(Action::InstallHook) <==> !old(state).hook,
        final(actions)@.contains(Action::OverrideCursors(CursorShape::Cross))
            <==> old(state).applied_cursor != Some(CursorShape::Cross),
        final(actions)@.contains(Action::EmitMenu) <==> old(state).mode != Mode::Placement
            && old(state).menu is Some,
        final(actions)@.len() <= 3,
{
    let all = final(actions)@;
    let a = hook_actions(*old(state));
    let b = cursor_actions(*old(state), CursorShape::Cross);
    if !old(state).hook {
        assert(all[0] == Action::InstallHook);
    }
    if b.len() == 1 {
        assert(all[a.len() as int] == Action::OverrideCursors(CursorShape::Cross));
    }
    if old(state).mode != Mode::Placement && old(state).menu is Some {
        assert(all[(a.len() + b.len()) as int] == Action::EmitMenu);
    }
}

/// Entering `Living` has the hook in, ends the gesture, the arming and the menu, and puts
/// back the cursors of `Placement`; releases that are owed stay owed.
pub proof fn law_entering_living(state: &mut HookState, actions: &mut Vec<Action>)
    requires
        call_ensures(enter_living_on_main_thread, (state, actions), ()),
        old(actions)@.len() == 0,
    ensures
        final(state).mode == Mode::Living,
        !final(state).want_teardown,
        !final(state).dragging,
        final(state).gesture is None,
        final(state).armed is None,
        final(state).menu is None,
        final(state).applied_cursor is None,
        final(state).living_cursor is None,
        final(state).left_pending == old(state).left_pending,
        final(state).right_pending == old(state).right_pending,
        final(actions)@.contains(Action::InstallHook) <==> !old(state).hook,
        final(actions)@.contains(Action::EmitMenu) <==> old(state).menu is Some,
        final(actions)@.contains(Action::RestoreCursors) <==> old(state).applied_cursor is Some,
        final(actions)@.len() <= 3,
{
    let all = final(actions)@;
    let a = hook_actions(*old(state));
    let b = close_actions(old(state).menu);
    if !old(state).hook {
        assert(all[0] == Action::InstallHook);
    }
    if old(state).menu is Some {
        assert(all[a.len() as int] == Action::EmitMenu);
    }
    if old(state).applied_cursor is Some {
        assert(all[(a.len() + b.len()) as int] == Action::RestoreCursors);
    }
}

/// Hiding takes the hook down at once where no release is owed, and otherwise leaves it
/// for that release; either way nothing is dragged, armed or open any more.
pub proof fn law_hiding(state: &mut HookState, actions: &mut Vec<Action>)
    requires
        call_ensures(exit_on_main_thread, (state, actions), ()),
        old(actions)@.len() == 0,
    ensures
        ({
            let owed = old(state).left_pending || old(state).right_pending;
            &&& final(state).mode == Mode::Hidden
            &&& !final(state).dragging
            &&& final(state).gesture is None
            &&& final(state).armed is None
            &&& final(state).menu is None
            &&& final(state).want_teardown == owed
            &&& final(state).left_pending == old(state).left_pending
            &&& final(state).right_pending == old(state).right_pending
            &&& owed ==> final(state).hook == old(state).hook
            &&& !owed ==> !final(state).hook && final(state).applied_cursor is None
                && final(state).living_cursor is None
            &&& final(actions)@.contains(Action::EmitMenu) <==> old(state).menu is Some
            &&& final(actions)@.contains(Action::RestoreCursors) <==> !owed
            &&& final(actions)@.contains(Action::RemoveHook) <==> !owed && old(state).hook
        }),
{
    let all = final(actions)@;
    let a = close_actions(old(state).menu);
    let owed = old(state).left_pending || old(state).right_pending;
    if old(state).menu is Some {
        assert(all[0] == Action::EmitMenu);
    }
    if !owed {
        assert(all.last() == Action::RestoreCursors);
        if old(state).hook {
            assert(all[a.len() as int] == Action::RemoveHook);
        }
    }
}

/// Tearing down removes the hook if there is one, puts every cursor back, and leaves
/// nothing owed, dragged or armed.
pub proof fn law_tearing_down(state: &mut HookState, actions: &mut Vec<Action>)
    requires
        call_ensures(teardown, (state, actions), ()),
    ensures
        !final(state).hook,
        !final(state).want_teardown,
        !final(state).left_pending,
        !final(state).right_pending,
        !final(state).dragging,
        final(state).gesture is None,
        final(state).armed is None,
        final(state).applied_cursor is None,
        final(state).living_cursor is None,
        final(state).mode == old(state).mode,
        final(state).menu == old(state).menu,
        final(actions)@ == if old(state).hook {
            old(actions)@.push(Action::RemoveHook).push(Action::RestoreCursors)
        } else {
            old(actions)@.push(Action::RestoreCursors)
        },
{
    assert(final(actions)@ =~= if old(state).hook {
        old(actions)@.push(Action::RemoveHook).push(Action::RestoreCursors)
    } else {
        old(actions)@.push(Action::RestoreCursors)
    });
}

/// A teardown that was put off is carried out exactly once no release is owed, as it
/// would have been at once.
pub proof fn law_a_teardown_waits_for_what_is_owed(
    state: &mut HookState,
    actions: &mut Vec<Action>,
    now: &mut HookState,
    done: &mut Vec<Action>,
)
    requires
        call_ensures(maybe_finish_teardown, (state, actions), ()),
        *old(now) == *old(state),
        old(done)@ == old(actions)@,
        call_ensures(teardown, (now, done), ()),
    ensures
        old(state).want_teardown && !old(state).left_pending && !old(state).right_pending ==> {
            &&& *final(state) == *final(now)
            &&& final(actions)@ == final(done)@
        },
        !old(state).want_teardown || old(state).left_pending || old(state).right_pending ==> {
            &&& *final(state) == *old(state)
            &&& final(actions)@ == old(actions)@
        },
{
    assert(final(actions)@ =~= old(actions)@ + settling_actions(*old(state)));
    if !(old(state).want_teardown && !old(state).left_pending && !old(state).right_pending) {
        assert(final(actions)@ =~= old(actions)@);
    }
}

/// A dead hook is replaced: removed if it is there, installed again unless hidden; the
/// gesture is gone, and what is owed is what is held down.
pub proof fn law_a_dead_hook_is_replaced(
    state: &mut HookState,
    left_down: bool,
    right_down: bool,
    actions: &mut Vec<Action>,
)
    requires
        call_ensures(reinstall_on_main_thread, (state, left_down, right_down, actions), ()),
        old(actions)@.len() == 0,
    ensures
        final(state).left_pending == left_down,
        final(state).right_pending == right_down,
        !final(state).dragging,
        final(state).gesture is None,
        !final(state).want_teardown,
        !final(state).hook,
        final(state).mode == old(state).mode,
        final(state).armed == old(state).armed,
        final(actions)@ == (if old(state).hook {
            seq![Action::RemoveHook]
        } else {
            Seq::<Action>::empty()
        }) + if old(state).mode != Mode::Hidden {
            seq![Action::InstallHook]
        } else {
            Seq::<Action>::empty()
        },
{
    assert(final(actions)@ =~= (if old(state).hook {
        seq![Action::RemoveHook]
    } else {
        Seq::<Action>::empty()
    }) + if old(state).mode != Mode::Hidden {
        seq![Action::InstallHook]
    } else {
        Seq::<Action>::empty()
    });
}

/// Closing the menu has the page told exactly where one was open.
pub proof fn law_a_closed_menu_is_told(
    state: &mut HookState,
    actions: &mut Vec<Action>,
    was_open: bool,
)
    requires
        call_ensures(close_menu, (state, actions), was_open),
    ensures
        *final(state) == (HookState { menu: None, ..*old(state) }),
        was_open <==> old(state).menu is Some,
        final(actions)@ == if was_open {
            old(actions)@.push(Action::EmitMenu)
        } else {
            old(actions)@
        },
{
    assert(final(actions)@ =~= if was_open {
        old(actions)@.push(Action::EmitMenu)
    } else {
        old(actions)@
    });
}

/// The hook is there exactly where installing it worked.
pub proof fn law_the_hook_is_there_if_it_went_in(state: &mut HookState, installed: bool)
    requires
        call_ensures(hook_installed, (state, installed), ()),
    ensures
        *final(state) == (HookState { hook: installed, ..*old(state) }),
{
}

/// Putting the system's cursors back is asked for once, after whatever was asked for before.
pub proof fn law_the_systems_cursors_are_put_back(actions: &mut Vec<Action>)
    requires
        call_ensures(clear_cursor_residue, (actions,), ()),
    ensures
        final(actions)@.len() == old(actions)@.len() + 1,
        final(actions)@.last() == Action::RestoreCursors,
        final(actions)@.drop_last() == old(actions)@,
{
    assert(final(actions)@.drop_last() =~= old(actions)@);
}

/// At the start nothing is installed, pressed, owed, armed or shown, and the overlay is
/// hidden.
pub proof fn law_the_start_is_at_rest(state: HookState)
    requires
        call_ensures(HookState::default, (), state),
    ensures
        !state.hook,
        state.mode == Mode::Hidden,
        !state.dragging,
        !state.left_pending,
        !state.right_pending,
        !state.want_teardown,
        state.gesture is None,
        state.armed is None,
        state.menu is None,
        state.applied_cursor is None,
        state.living_cursor is None,
        state.hook_events == 0,
        state.start.x == 0 && state.start.y == 0,
        state.current.x == 0 && state.current.y == 0,
        state.wheel.area == 0 && state.wheel.turned == 0,
{
}

} // verus!
