//! The poll: what each tick finds out and tells the page.

use vstd::prelude::*;
use crate::area::{AreaId, Handle};
use crate::geometry::{as_tuple, Point, Rect};
use crate::geometry;
use crate::gesture::{captures_on_create, gesture_cursor, CursorShape, Gesture};
use crate::gesture;
use crate::menu::{pump_menu, MenuHit, MenuLayout};
use crate::menu;
use crate::placement::{set_cursor, set_living_cursor, Action, HookState, Mode};
use crate::placement;
use crate::precapture::{refresh, CaptureJob, Precapture};
use crate::precapture;

verus! {

/// What the poll remembers from tick to tick.
#[derive(Debug)]
pub struct PumpState {
    /// Whether the page is showing a selection.
    pub was_dragging: bool,
    /// The area the page was last told is hovered.
    pub hovered_area: Option<u64>,
    /// Whether only that area's chrome is.
    pub hovered_chrome_only: bool,
    /// Where the pointer was at the last tick.
    pub last_cursor: Option<Point>,
    /// How many events the hook had seen by the last tick.
    pub last_events: u64,
    /// For how many ticks the pointer has moved without the hook seeing it.
    pub silent_ticks: u32,
    /// For how many ticks the hook is not replaced again.
    pub reinstall_cooldown: u32,
    /// The monitor the page was last told the pointer is on.
    pub active_monitor: Option<Option<usize>>,
}

impl Default for PumpState {
    fn default() -> (pump: Self)
        ensures
            pump == (PumpState {
                was_dragging: false,
                hovered_area: None,
                hovered_chrome_only: false,
                last_cursor: None,
                last_events: 0,
                silent_ticks: 0,
                reinstall_cooldown: 0,
                active_monitor: None,
            }),
            sound(pump),
    {
        PumpState {
            was_dragging: false,
            hovered_area: None,
            hovered_chrome_only: false,
            last_cursor: None,
            last_events: 0,
            silent_ticks: 0,
            reinstall_cooldown: 0,
            active_monitor: None,
        }
    }
}

// ---------------------------------------------------------------------------
// The health of the hook.
// ---------------------------------------------------------------------------

/// For how many ticks a replaced hook is left alone.
pub const REINSTALL_COOLDOWN_TICKS: u32 = 60;

/// How many silent ticks it takes to call the hook dead.
pub const SILENT_TICKS_BEFORE_REINSTALL: u32 = 3;

/// The count of silent ticks never reaches the one that acts.
pub open spec fn sound(pump: PumpState) -> bool {
    pump.silent_ticks < SILENT_TICKS_BEFORE_REINSTALL
}

/// Whether the pointer moved between two readings, both of which succeeded.
pub open spec fn moved(now: Option<Point>, before: Option<Point>) -> bool {
    now is Some && before is Some && now->0 != before->0
}

/// How many ticks in a row the pointer has moved without the hook seeing it.
pub open spec fn silence(pump: PumpState, events: u64, cursor: Option<Point>) -> int {
    if moved(cursor, pump.last_cursor) && events == pump.last_events {
        pump.silent_ticks + 1
    } else {
        0
    }
}

/// Whether the hook counts as dead: it has been silent for long enough, while
/// visible, and was not replaced a moment ago.
pub open spec fn hook_is_dead(
    pump: PumpState,
    mode: Mode,
    events: u64,
    cursor: Option<Point>,
) -> bool {
    &&& mode != Mode::Hidden
    &&& pump.reinstall_cooldown == 0
    &&& silence(pump, events, cursor) >= SILENT_TICKS_BEFORE_REINSTALL
}

/// What the poll remembers after looking at the hook.
pub open spec fn after_health(
    pump: PumpState,
    mode: Mode,
    events: u64,
    cursor: Option<Point>,
) -> PumpState {
    if mode == Mode::Hidden {
        PumpState { silent_ticks: 0, ..pump }
    } else {
        PumpState {
            last_cursor: cursor,
            last_events: events,
            silent_ticks: if pump.reinstall_cooldown > 0 || hook_is_dead(
                pump,
                mode,
                events,
                cursor,
            ) {
                0
            } else {
                silence(pump, events, cursor) as u32
            },
            reinstall_cooldown: if pump.reinstall_cooldown > 0 {
                (pump.reinstall_cooldown - 1) as u32
            } else if hook_is_dead(pump, mode, events, cursor) {
                REINSTALL_COOLDOWN_TICKS
            } else {
                0
            },
            ..pump
        }
    }
}

/// Watches for a hook that has stopped delivering: the pointer moves and no
/// event arrives. Says when to replace it.
pub fn pump_hook_health(
    pump: &mut PumpState,
    mode: Mode,
    events: u64,
    cursor: Option<Point>,
) -> (reinstall: bool)
    requires
        old(pump).silent_ticks < u32::MAX,
    ensures
        reinstall == hook_is_dead(*old(pump), mode, events, cursor),
        *final(pump) == after_health(*old(pump), mode, events, cursor),
        sound(*final(pump)),
{
    if mode == Mode::Hidden {
        pump.silent_ticks = 0;
        return false;
    }
    if pump.reinstall_cooldown > 0 {
        pump.reinstall_cooldown = pump.reinstall_cooldown - 1;
        pump.last_cursor = cursor;
        pump.last_events = events;
        pump.silent_ticks = 0;
        return false;
    }
    let has_moved = match (cursor, pump.last_cursor) {
        (Some(now), Some(before)) => now != before,
        _ => false,
    };
    pump.last_cursor = cursor;
    if has_moved && events == pump.last_events {
        pump.silent_ticks = pump.silent_ticks + 1;
    } else {
        pump.silent_ticks = 0;
    }
    pump.last_events = events;
    if pump.silent_ticks >= SILENT_TICKS_BEFORE_REINSTALL {
        pump.silent_ticks = 0;
        pump.reinstall_cooldown = REINSTALL_COOLDOWN_TICKS;
        return true;
    }
    false
}

// ---------------------------------------------------------------------------
// The selection.
// ---------------------------------------------------------------------------

/// The rectangle a drag shows, and which area it is of.
#[derive(Debug, Clone, Copy, PartialEq, Eq)]
pub struct SelectionPayload {
    pub rect: Option<(i32, i32, u32, u32)>,
    pub source: Option<u64>,
    /// The time it was sent, on the frames whose latency is sampled.
    pub probe: Option<u64>,
}

/// One frame in this many is sampled.
pub const LATENCY_SAMPLE_EVERY: u64 = 8;

/// The probe a frame carries.
pub open spec fn probe_of(frame: u64, probing: bool, now_nanos: u64) -> Option<u64> {
    if probing && frame % LATENCY_SAMPLE_EVERY == 0 {
        Some(now_nanos)
    } else {
        None
    }
}

/// The number of the next frame.
pub open spec fn next_frame(frame: u64) -> u64 {
    if frame == u64::MAX {
        0
    } else {
        (frame + 1) as u64
    }
}

/// Tells the page about the drag: its rectangle while there is one, and once
/// that there is none any more.
pub fn pump_gesture(
    pump: &mut PumpState,
    frames: &mut u64,
    pending: Option<Rect>,
    source: Option<u64>,
    probing: bool,
    now_nanos: u64,
) -> (payload: Option<SelectionPayload>)
    ensures
        payload == match pending {
            Some(rect) => Some(
                SelectionPayload {
                    rect: Some(geometry::tuple_of(rect)),
                    source,
                    probe: probe_of(*old(frames), probing, now_nanos),
                },
            ),
            None => if old(pump).was_dragging {
                Some(SelectionPayload { rect: None, source: None, probe: None })
            } else {
                None
            },
        },
        *final(pump) == (PumpState { was_dragging: pending is Some, ..*old(pump) }),
        *final(frames) == if pending is Some {
            next_frame(*old(frames))
        } else {
            *old(frames)
        },
{
    match pending {
        Some(rect) => {
            let frame: u64 = *frames;
            *frames = frame.wrapping_add(1);
            let probe: Option<u64> = if probing && frame % LATENCY_SAMPLE_EVERY == 0 {
                Some(now_nanos)
            } else {
                None
            };
            pump.was_dragging = true;
            Some(SelectionPayload { rect: Some(as_tuple(rect)), source, probe })
        },
        None => {
            if pump.was_dragging {
                pump.was_dragging = false;
                Some(SelectionPayload { rect: None, source: None, probe: None })
            } else {
                None
            }
        },
    }
}

/// Whether a drag is drawing an area of a type that captures.
pub open spec fn drawing_a_capture(state: HookState) -> bool {
    &&& state.dragging
    &&& state.gesture == Some(Gesture::Create)
    &&& state.armed is Some
    &&& gesture::captures(state.armed->0)
}

/// Renews the frame held for a drag that will capture.
pub fn pump_precapture(state: &HookState, pre: &mut Precapture, now: u64) -> (job: Option<
    CaptureJob,
>)
    ensures
        drawing_a_capture(*state) && precapture::refresh_due(*old(pre), now) ==> {
            &&& job == Some(
                CaptureJob { monitor: old(pre).target->0, generation: old(pre).generation },
            )
            &&& *final(pre) == precapture::claimed(*old(pre))
        },
        !(drawing_a_capture(*state) && precapture::refresh_due(*old(pre), now)) ==> {
            &&& job is None
            &&& *final(pre) == *old(pre)
        },
{
    if !state.dragging {
        return None;
    }
    match state.gesture {
        Some(Gesture::Create) => {},
        _ => {
            return None;
        },
    }
    match state.armed {
        Some(kind) => {
            if !captures_on_create(kind) {
                return None;
            }
        },
        None => {
            return None;
        },
    }
    refresh(pre, now)
}

// ---------------------------------------------------------------------------
// The hover.
// ---------------------------------------------------------------------------

/// Nothing hovered.
pub const NO_HOVER: (Option<u64>, bool) = (None, false);

/// What is hovered in `Living`: nothing under an open menu, what was hovered
/// when a gesture began, and else what is under the pointer.
pub open spec fn hovered_in_living(
    menu_open: bool,
    gesture_live: bool,
    resolved: (Option<u64>, bool),
    previous: (Option<u64>, bool),
) -> (Option<u64>, bool) {
    if menu_open {
        (None, false)
    } else if gesture_live {
        previous
    } else {
        resolved
    }
}

/// What is hovered in `Living`.
pub fn living_hover(
    menu_open: bool,
    gesture_live: bool,
    resolved: (Option<u64>, bool),
    previous: (Option<u64>, bool),
) -> (hover: (Option<u64>, bool))
    ensures
        hover == hovered_in_living(menu_open, gesture_live, resolved, previous),
{
    if menu_open {
        return (None, false);
    }
    if gesture_live {
        return previous;
    }
    resolved
}

/// What the tick finds under the pointer.
#[derive(Debug, Clone, Copy, PartialEq, Eq)]
pub struct Look {
    /// In `Living`: the hovered area, and whether only its chrome is hovered.
    pub hovered: (Option<u64>, bool),
    /// In `Living`: the part of an area that a press would take.
    pub grabbed: Option<Handle>,
    /// In `Placement`: the topmost area, and which part of it.
    pub grip: Option<(AreaId, Handle)>,
    /// In `Placement`: the monitor.
    pub monitor: Option<usize>,
}

/// What telling the page about the hover asks for: nothing if it knows.
pub open spec fn hover_actions(pump: PumpState, hover: (Option<u64>, bool)) -> Seq<Action> {
    if (pump.hovered_area, pump.hovered_chrome_only) == hover {
        seq![]
    } else {
        seq![Action::EmitHover { hovered: hover.0, chrome_only: hover.1 }]
    }
}

/// Tells the page about the hover, if it does not know.
fn tell_hover(pump: &mut PumpState, hover: (Option<u64>, bool), actions: &mut Vec<Action>)
    ensures
        *final(pump) == (PumpState {
            hovered_area: hover.0,
            hovered_chrome_only: hover.1,
            ..*old(pump)
        }),
        final(actions)@ == old(actions)@ + hover_actions(*old(pump), hover),
{
    if pump.hovered_area != hover.0 || pump.hovered_chrome_only != hover.1 {
        pump.hovered_area = hover.0;
        pump.hovered_chrome_only = hover.1;
        actions.push(Action::EmitHover { hovered: hover.0, chrome_only: hover.1 });
    }
    assert(actions@ =~= old(actions)@ + hover_actions(*old(pump), hover));
}

/// The hover a tick in `Living` comes to.
pub open spec fn living_tick_hover(state: HookState, pump: PumpState, look: Look) -> (
    Option<u64>,
    bool,
) {
    hovered_in_living(
        state.menu is Some,
        state.gesture is Some,
        look.hovered,
        (pump.hovered_area, pump.hovered_chrome_only),
    )
}

/// The shape a tick in `Living` shows: the gesture's while there is one, and
/// else the one for what a press would take, which is nothing under an open
/// menu.
pub open spec fn living_tick_shape(state: HookState, look: Look) -> Option<CursorShape> {
    match state.gesture {
        Some(gesture) => Some(gesture::shape_during(gesture)),
        None => if state.menu is Some {
            None
        } else {
            match look.grabbed {
                Some(handle) => Some(gesture::shape_for(handle)),
                None => None,
            }
        },
    }
}

/// A tick in `Living`, once the menu has had its own.
fn living_tick(
    state: &mut HookState,
    pump: &mut PumpState,
    look: &Look,
    actions: &mut Vec<Action>,
)
    ensures
        *final(state) == (HookState {
            living_cursor: living_tick_shape(*old(state), *look),
            ..*old(state)
        }),
        *final(pump) == ({
            let hover = living_tick_hover(*old(state), *old(pump), *look);
            PumpState {
                active_monitor: None,
                hovered_area: hover.0,
                hovered_chrome_only: hover.1,
                ..*old(pump)
            }
        }),
        final(actions)@ == old(actions)@ + placement::living_cursor_actions(
            *old(state),
            living_tick_shape(*old(state), *look),
        ) + hover_actions(*old(pump), living_tick_hover(*old(state), *old(pump), *look)),
{
    pump.active_monitor = None;
    let menu_open = state.menu.is_some();
    let gesture_live = state.gesture.is_some();
    let previous: (Option<u64>, bool) = (pump.hovered_area, pump.hovered_chrome_only);
    let hover = living_hover(menu_open, gesture_live, look.hovered, previous);
    let shape = match state.gesture {
        Some(gesture) => Some(gesture_cursor(gesture)),
        None => if menu_open {
            None
        } else {
            match look.grabbed {
                Some(handle) => Some(CursorShape::for_handle(handle)),
                None => None,
            }
        },
    };
    set_living_cursor(state, shape, actions);
    tell_hover(pump, hover, actions);
}

/// What telling the page about the monitor asks for: nothing if it knows. The
/// warm captures follow the pointer to another monitor.
pub open spec fn monitor_actions(
    pump: PumpState,
    monitor: Option<usize>,
    point: Point,
) -> Seq<Action> {
    if pump.active_monitor == Some(monitor) {
        seq![]
    } else {
        seq![Action::EmitActiveMonitor(monitor), Action::ResyncWarm(point)]
    }
}

/// The area a tick in `Placement` reports hovered: none under an open menu.
pub open spec fn placement_tick_hover(state: HookState, look: Look) -> Option<u64> {
    if state.menu is Some {
        None
    } else {
        match look.grip {
            Some((id, _)) => Some(id.raw),
            None => None,
        }
    }
}

/// The shape a tick in `Placement` shows: the gesture's while there is one;
/// else a hand on a menu row, the one for the part of an area, or the cross.
pub open spec fn placement_tick_shape(
    state: HookState,
    look: Look,
    row: Option<MenuHit>,
) -> CursorShape {
    match state.gesture {
        Some(gesture) => gesture::shape_during(gesture),
        None => if state.menu is Some {
            if row is Some {
                CursorShape::Hand
            } else {
                CursorShape::Cross
            }
        } else {
            match look.grip {
                Some((_, handle)) => gesture::shape_for(handle),
                None => CursorShape::Cross,
            }
        },
    }
}

/// Whether the page was last told of this monitor.
fn knows_monitor(pump: &PumpState, monitor: Option<usize>) -> (known: bool)
    ensures
        known == (pump.active_monitor == Some(monitor)),
{
    match pump.active_monitor {
        Some(told) => match (told, monitor) {
            (Some(told), Some(monitor)) => told == monitor,
            (None, None) => true,
            _ => false,
        },
        None => false,
    }
}

/// A tick in `Placement`, once the menu has had its own.
fn placement_tick(
    state: &mut HookState,
    pump: &mut PumpState,
    row: Option<MenuHit>,
    look: &Look,
    actions: &mut Vec<Action>,
)
    ensures
        *final(state) == (HookState {
            applied_cursor: Some(placement_tick_shape(*old(state), *look, row)),
            ..*old(state)
        }),
        *final(pump) == (PumpState {
            active_monitor: Some(look.monitor),
            hovered_area: placement_tick_hover(*old(state), *look),
            hovered_chrome_only: false,
            ..*old(pump)
        }),
        final(actions)@ == old(actions)@ + monitor_actions(
            *old(pump),
            look.monitor,
            old(state).current,
        ) + placement::cursor_actions(
            *old(state),
            placement_tick_shape(*old(state), *look, row),
        ) + hover_actions(*old(pump), (placement_tick_hover(*old(state), *look), false)),
{
    if !knows_monitor(pump, look.monitor) {
        pump.active_monitor = Some(look.monitor);
        actions.push(Action::EmitActiveMonitor(look.monitor));
        actions.push(Action::ResyncWarm(state.current));
    }
    assert(actions@ =~= old(actions)@ + monitor_actions(
        *old(pump),
        look.monitor,
        old(state).current,
    ));
    let (resting, hovered): (CursorShape, Option<u64>) = if state.menu.is_some() {
        (
            if row.is_some() {
                CursorShape::Hand
            } else {
                CursorShape::Cross
            },
            None,
        )
    } else {
        match look.grip {
            Some((id, handle)) => (CursorShape::for_handle(handle), Some(id.get())),
            None => (CursorShape::Cross, None),
        }
    };
    let shape = match state.gesture {
        Some(gesture) => gesture_cursor(gesture),
        None => resting,
    };
    set_cursor(state, shape, actions);
    tell_hover(pump, (hovered, false), actions);
}

/// Whether the layout at hand places the list that is due to open.
pub open spec fn tick_fits(state: HookState, now: u64, layout: MenuLayout) -> bool {
    state.menu is Some && menu::due_to_open(state.menu->0, state.current, now) is Some
        ==> menu::fits_list(
        state.menu,
        menu::due_to_open(state.menu->0, state.current, now)->0,
        layout,
    )
}

/// The row a tick finds under the pointer.
pub open spec fn tick_row(state: HookState) -> Option<MenuHit> {
    match state.menu {
        Some(menu) => menu::hit_at(menu, state.current),
        None => None,
    }
}

/// Whether `menu` is what a tick leaves of the menu.
pub open spec fn menu_after_tick(
    state: HookState,
    now: u64,
    layout: MenuLayout,
    menu: Option<menu::AreaMenu>,
) -> bool {
    match state.menu {
        Some(before) => {
            &&& menu is Some
            &&& match menu::due_to_open(before, state.current, now) {
                Some(parent) => menu::is_opened(
                    menu::ticked(before, state.current, now),
                    menu->0,
                    parent,
                    layout,
                ),
                None => menu->0 == menu::ticked(before, state.current, now),
            }
        },
        None => menu is None,
    }
}

/// Whether a tick changes how the menu looks.
pub open spec fn menu_redraws(state: HookState, now: u64) -> bool {
    match state.menu {
        Some(before) => {
            ||| menu::due_to_open(before, state.current, now) is Some
            ||| menu::hover_changes(before, menu::hit_at(before, state.current))
            ||| menu::tick_step(before, state.current, now) == menu::SubmenuStep::Close
        },
        None => false,
    }
}

/// What a tick's menu asks for.
pub open spec fn menu_tick_actions(state: HookState, now: u64) -> Seq<Action> {
    if menu_redraws(state, now) {
        seq![Action::EmitMenu]
    } else {
        seq![]
    }
}

/// One tick of the hover: the menu, the cursor, and what the page is told is
/// hovered. While hidden it does nothing.
pub fn pump_hover(
    state: &mut HookState,
    pump: &mut PumpState,
    now: u64,
    layout: &MenuLayout,
    look: &Look,
) -> (actions: Vec<Action>)
    requires
        tick_fits(*old(state), now, *layout),
    ensures
        old(state).mode == Mode::Hidden ==> {
            &&& *final(state) == *old(state)
            &&& *final(pump) == *old(pump)
            &&& actions@ == Seq::<Action>::empty()
        },
        old(state).mode != Mode::Hidden ==> menu_after_tick(
            *old(state),
            now,
            *layout,
            final(state).menu,
        ),
        old(state).mode == Mode::Living ==> {
            let hover = living_tick_hover(*old(state), *old(pump), *look);
            let shape = living_tick_shape(*old(state), *look);
            &&& *final(state) == (HookState {
                menu: final(state).menu,
                living_cursor: shape,
                ..*old(state)
            })
            &&& *final(pump) == (PumpState {
                active_monitor: None,
                hovered_area: hover.0,
                hovered_chrome_only: hover.1,
                ..*old(pump)
            })
            &&& actions@ == menu_tick_actions(*old(state), now) + placement::living_cursor_actions(
                *old(state),
                shape,
            ) + hover_actions(*old(pump), hover)
        },
        old(state).mode == Mode::Placement ==> {
            let hover = placement_tick_hover(*old(state), *look);
            let shape = placement_tick_shape(*old(state), *look, tick_row(*old(state)));
            &&& *final(state) == (HookState {
                menu: final(state).menu,
                applied_cursor: Some(shape),
                ..*old(state)
            })
            &&& *final(pump) == (PumpState {
                active_monitor: Some(look.monitor),
                hovered_area: hover,
                hovered_chrome_only: false,
                ..*old(pump)
            })
            &&& actions@ == menu_tick_actions(*old(state), now) + monitor_actions(
                *old(pump),
                look.monitor,
                old(state).current,
            ) + placement::cursor_actions(*old(state), shape) + hover_actions(
                *old(pump),
                (hover, false),
            )
        },
{
    let mut actions: Vec<Action> = Vec::new();
    if state.mode == Mode::Hidden {
        return actions;
    }
    let tick = pump_menu(&mut state.menu, state.current, now, layout);
    if tick.redraw {
        actions.push(Action::EmitMenu);
    }
    assert(actions@ =~= menu_tick_actions(*old(state), now));
    if state.mode == Mode::Placement {
        placement_tick(state, pump, tick.hit, look, &mut actions);
    } else {
        living_tick(state, pump, look, &mut actions);
    }
    actions
}

// ---------------------------------------------------------------------------
// Latency.
// ---------------------------------------------------------------------------

/// What the sampled frames took to come back.
#[derive(Debug, Clone, Copy, PartialEq, Eq, Structural)]
pub struct LatencySamples {
    pub count: u32,
    pub total_nanos: u128,
    pub max_nanos: u64,
}

/// No samples.
pub open spec fn no_samples() -> LatencySamples {
    LatencySamples { count: 0, total_nanos: 0, max_nanos: 0 }
}

impl Default for LatencySamples {
    fn default() -> (samples: Self)
        ensures
            samples == no_samples(),
    {
        LatencySamples { count: 0, total_nanos: 0, max_nanos: 0 }
    }
}

/// Takes in a probe that came back: it was sent at `probe_nanos`.
pub fn record_latency(samples: &mut LatencySamples, now_nanos: u64, probe_nanos: u64)
    ensures
        ({
            let elapsed = precapture::age(probe_nanos, now_nanos);
            &&& final(samples).count == if old(samples).count == u32::MAX {
                u32::MAX as int
            } else {
                old(samples).count + 1
            }
            &&& final(samples).total_nanos == if old(samples).total_nanos + elapsed > u128::MAX {
                u128::MAX as int
            } else {
                old(samples).total_nanos + elapsed
            }
            &&& final(samples).max_nanos == if elapsed > old(samples).max_nanos {
                elapsed
            } else {
                old(samples).max_nanos as int
            }
        }),
{
    let elapsed: u64 = now_nanos.saturating_sub(probe_nanos);
    samples.count = samples.count.saturating_add(1);
    samples.total_nanos = samples.total_nanos.saturating_add(elapsed as u128);
    if elapsed > samples.max_nanos {
        samples.max_nanos = elapsed;
    }
}

/// Takes the samples out, if there are any, and starts afresh.
pub fn take_latency(samples: &mut LatencySamples) -> (taken: Option<LatencySamples>)
    ensures
        *final(samples) == if old(samples).count == 0 {
            *old(samples)
        } else {
            no_samples()
        },
        taken == if old(samples).count == 0 {
            None
        } else {
            Some(*old(samples))
        },
{
    if samples.count == 0 {
        return None;
    }
    let taken = *samples;
    *samples = LatencySamples { count: 0, total_nanos: 0, max_nanos: 0 };
    Some(taken)
}

// ---------------------------------------------------------------------------
// Warm captures.
// ---------------------------------------------------------------------------

/// Where the warm captures are wanted, and whether something is bringing them
/// there. One place, not a queue: a newer point replaces one not yet served.
#[derive(Debug, Clone, Copy, PartialEq, Eq)]
pub struct WarmSlot {
    pub wanted: Option<Point>,
    pub running: bool,
}

/// A point that is wanted is always being brought about.
pub open spec fn served(slot: WarmSlot) -> bool {
    slot.wanted is Some ==> slot.running
}

impl Default for WarmSlot {
    fn default() -> (slot: Self)
        ensures
            slot == (WarmSlot { wanted: None, running: false }),
            served(slot),
    {
        WarmSlot { wanted: None, running: false }
    }
}

/// Asks for the warm captures at `point`; says whether a worker has to be
/// started, as none is running.
pub fn resync_warm_off_thread(slot: &mut WarmSlot, point: Point) -> (start: bool)
    ensures
        *final(slot) == (WarmSlot { wanted: Some(point), running: true }),
        start == !old(slot).running,
        served(*final(slot)),
{
    slot.wanted = Some(point);
    let start = !slot.running;
    slot.running = true;
    start
}

/// What the worker does next: bring the captures to a point, or stop.
pub fn next_warm_point(slot: &mut WarmSlot) -> (next: Option<Point>)
    ensures
        next == old(slot).wanted,
        *final(slot) == (WarmSlot {
            wanted: None,
            running: old(slot).wanted is Some && old(slot).running,
        }),
        served(*final(slot)),
{
    match slot.wanted.take() {
        Some(point) => Some(point),
        None => {
            slot.running = false;
            None
        },
    }
}

// ---------------------------------------------------------------------------
// Laws.
// ---------------------------------------------------------------------------

/// A replaced hook is left alone for the whole cooldown.
pub proof fn law_a_replaced_hook_is_left_alone(
    pump: PumpState,
    mode: Mode,
    events: u64,
    cursor: Option<Point>,
)
    ensures
        hook_is_dead(pump, mode, events, cursor) ==> after_health(
            pump,
            mode,
            events,
            cursor,
        ).reinstall_cooldown == REINSTALL_COOLDOWN_TICKS,
        pump.reinstall_cooldown > 0 ==> !hook_is_dead(pump, mode, events, cursor),
        pump.reinstall_cooldown > 0 && mode != Mode::Hidden ==> after_health(
            pump,
            mode,
            events,
            cursor,
        ).reinstall_cooldown == pump.reinstall_cooldown - 1,
{
}

/// A hook that sees events is never replaced, nor is one under a pointer that
/// rests or cannot be read.
pub proof fn law_a_live_hook_is_not_replaced(
    pump: PumpState,
    mode: Mode,
    events: u64,
    cursor: Option<Point>,
)
    requires
        events != pump.last_events || cursor is None || cursor == pump.last_cursor,
    ensures
        !hook_is_dead(pump, mode, events, cursor),
{
}

/// An open menu owns the pointer: nothing is hovered under it, whatever is
/// there and whatever gesture is live.
pub proof fn law_a_menu_owns_the_pointer(
    gesture_live: bool,
    resolved: (Option<u64>, bool),
    previous: (Option<u64>, bool),
)
    ensures
        hovered_in_living(true, gesture_live, resolved, previous) == (None::<u64>, false),
{
}

/// A live gesture freezes the hover: what is under the pointer does not matter.
pub proof fn law_a_gesture_freezes_the_hover(
    resolved: (Option<u64>, bool),
    previous: (Option<u64>, bool),
)
    ensures
        hovered_in_living(false, true, resolved, previous) == previous,
{
}

/// A tick leaves a consistent state consistent.
pub proof fn law_a_tick_keeps_the_state_consistent(state: HookState, after: HookState)
    requires
        placement::consistent(state),
        state.mode != Mode::Hidden,
        after == (HookState {
            menu: after.menu,
            applied_cursor: after.applied_cursor,
            living_cursor: after.living_cursor,
            ..state
        }),
    ensures
        placement::consistent(after),
{
}

/// The hook is called dead on the third tick in a row on which the pointer moved and no
/// event arrived, and never while hidden or a moment after it was replaced.
pub proof fn law_a_hook_is_dead_after_three_silent_ticks(
    pump: &mut PumpState,
    mode: Mode,
    events: u64,
    cursor: Option<Point>,
    reinstall: bool,
)
    requires
        call_ensures(pump_hook_health, (pump, mode, events, cursor), reinstall),
    ensures
        ({
            let silent = events == old(pump).last_events && cursor is Some
                && old(pump).last_cursor is Some && cursor != old(pump).last_cursor;
            &&& reinstall <==> mode != Mode::Hidden && old(pump).reinstall_cooldown == 0 && silent
                && old(pump).silent_ticks >= 2
            &&& reinstall ==> final(pump).reinstall_cooldown == 60 && final(pump).silent_ticks == 0
            &&& mode != Mode::Hidden && old(pump).reinstall_cooldown == 0 && !reinstall
                ==> final(pump).silent_ticks == if silent {
                old(pump).silent_ticks + 1
            } else {
                0
            }
            &&& mode != Mode::Hidden ==> final(pump).last_cursor == cursor
                && final(pump).last_events == events
            &&& mode != Mode::Hidden && old(pump).reinstall_cooldown > 0
                ==> final(pump).reinstall_cooldown == old(pump).reinstall_cooldown - 1
                && final(pump).silent_ticks == 0
            &&& mode == Mode::Hidden ==> final(pump).silent_ticks == 0
                && final(pump).reinstall_cooldown == old(pump).reinstall_cooldown
            &&& final(pump).was_dragging == old(pump).was_dragging
            &&& final(pump).hovered_area == old(pump).hovered_area
        }),
{
}

/// The page is told the rectangle of a drag on every tick, with the area it is of, and
/// once that there is none any more.
pub proof fn law_the_page_follows_the_drag(
    pump: &mut PumpState,
    frames: &mut u64,
    pending: Option<Rect>,
    source: Option<u64>,
    probing: bool,
    now_nanos: u64,
    payload: Option<SelectionPayload>,
)
    requires
        call_ensures(
            pump_gesture,
            (pump, frames, pending, source, probing, now_nanos),
            payload,
        ),
    ensures
        payload is Some <==> pending is Some || old(pump).was_dragging,
        pending matches Some(rect) ==> {
            &&& payload->0.rect == Some(
                (rect.origin.x, rect.origin.y, rect.size.width, rect.size.height),
            )
            &&& payload->0.source == source
            &&& payload->0.probe == if probing && *old(frames) % 8 == 0 {
                Some(now_nanos)
            } else {
                None
            }
            &&& *old(frames) < u64::MAX ==> *final(frames) == *old(frames) + 1
        },
        pending is None ==> *final(frames) == *old(frames) && (payload is Some ==> payload->0
            == (SelectionPayload { rect: None, source: None, probe: None })),
        final(pump).was_dragging <==> pending is Some,
        final(pump).hovered_area == old(pump).hovered_area,
        final(pump).silent_ticks == old(pump).silent_ticks,
{
}

/// The frame of a drag is renewed exactly while a Screenshot area is being drawn, and as
/// renewing it alone would.
pub proof fn law_a_frame_is_renewed_for_a_screenshot_drag(
    state: HookState,
    pre: &mut Precapture,
    now: u64,
    job: Option<CaptureJob>,
    alone: &mut Precapture,
    renewed: Option<CaptureJob>,
)
    requires
        call_ensures(pump_precapture, (&state, pre, now), job),
        *old(alone) == *old(pre),
        call_ensures(refresh, (alone, now), renewed),
    ensures
        state.dragging && state.gesture == Some(Gesture::Create) && state.armed == Some(
            crate::area::AreaType::Screenshot,
        ) ==> job == renewed && *final(pre) == *final(alone),
        !(state.dragging && state.gesture == Some(Gesture::Create) && state.armed == Some(
            crate::area::AreaType::Screenshot,
        )) ==> job is None && *final(pre) == *old(pre),
{
}

/// What is hovered in `Living` is what is under the pointer, but for a menu, which hides
/// it, and a gesture, which keeps what was hovered when it began.
pub proof fn law_what_is_hovered_in_living(
    menu_open: bool,
    gesture_live: bool,
    resolved: (Option<u64>, bool),
    previous: (Option<u64>, bool),
    hover: (Option<u64>, bool),
)
    requires
        call_ensures(living_hover, (menu_open, gesture_live, resolved, previous), hover),
    ensures
        !menu_open && !gesture_live ==> hover == resolved,
        !menu_open && gesture_live ==> hover == previous,
        menu_open ==> hover.0 is None && !hover.1,
{
}

/// In `Living` the page knows after a tick what is hovered, and is told exactly where
/// that is new; the cursor is the one for what a press would take.
pub proof fn law_a_tick_in_living(
    state: &mut HookState,
    pump: &mut PumpState,
    now: u64,
    layout: &MenuLayout,
    look: &Look,
    actions: Vec<Action>,
    hover: (Option<u64>, bool),
    during: CursorShape,
    over: CursorShape,
)
    requires
        call_ensures(pump_hover, (state, pump, now, layout, look), actions),
        old(state).mode == Mode::Living,
        call_ensures(
            living_hover,
            (
                old(state).menu is Some,
                old(state).gesture is Some,
                look.hovered,
                (old(pump).hovered_area, old(pump).hovered_chrome_only),
            ),
            hover,
        ),
        old(state).gesture is Some ==> call_ensures(
            gesture_cursor,
            (old(state).gesture->0,),
            during,
        ),
        look.grabbed is Some ==> call_ensures(
            CursorShape::for_handle,
            (look.grabbed->0,),
            over,
        ),
    ensures
        final(pump).hovered_area == hover.0,
        final(pump).hovered_chrome_only == hover.1,
        final(pump).active_monitor is None,
        actions@.contains(Action::EmitHover { hovered: hover.0, chrome_only: hover.1 }) <==> (
        old(pump).hovered_area,
            old(pump).hovered_chrome_only,
        ) != hover,
        final(state).living_cursor == if old(state).gesture is Some {
            Some(during)
        } else if old(state).menu is Some || look.grabbed is None {
            None
        } else {
            Some(over)
        },
        final(state).applied_cursor == old(state).applied_cursor,
        final(state).gesture == old(state).gesture,
        final(state).armed == old(state).armed,
        old(state).menu is Some <==> final(state).menu is Some,
        forall|i: int|
            0 <= i < actions@.len() ==> !((#[trigger] actions@[i]) is EmitActiveMonitor)
                && !(actions@[i] is OverrideCursors),
{
    let shape = living_tick_shape(*old(state), *look);
    let a = menu_tick_actions(*old(state), now);
    let b = placement::living_cursor_actions(*old(state), shape);
    let c = hover_actions(*old(pump), hover);
    if c.len() == 1 {
        assert(actions@[(a.len() + b.len()) as int] == c[0]);
    }
}

/// In `Placement` the page knows after a tick which area and which monitor the pointer is
/// on, and is told exactly where that is new; the warm captures follow to a new monitor,
/// and the cursor is the one for what a press would do.
pub proof fn law_a_tick_in_placement(
    state: &mut HookState,
    pump: &mut PumpState,
    now: u64,
    layout: &MenuLayout,
    look: &Look,
    actions: Vec<Action>,
    during: CursorShape,
    over: CursorShape,
    row: Option<MenuHit>,
)
    requires
        call_ensures(pump_hover, (state, pump, now, layout, look), actions),
        old(state).mode == Mode::Placement,
        old(state).gesture is Some ==> call_ensures(
            gesture_cursor,
            (old(state).gesture->0,),
            during,
        ),
        look.grip is Some ==> call_ensures(CursorShape::for_handle, ((look.grip->0).1,), over),
        old(state).menu is Some ==> call_ensures(
            menu::menu_hit,
            (&old(state).menu->0, old(state).current),
            row,
        ),
    ensures
        ({
            let hovered = if old(state).menu is Some || look.grip is None {
                None
            } else {
                Some((look.grip->0).0.raw)
            };
            let shape = if old(state).gesture is Some {
                during
            } else if old(state).menu is Some {
                if row is Some {
                    CursorShape::Hand
                } else {
                    CursorShape::Cross
                }
            } else if look.grip is Some {
                over
            } else {
                CursorShape::Cross
            };
            &&& final(pump).hovered_area == hovered
            &&& !final(pump).hovered_chrome_only
            &&& final(pump).active_monitor == Some(look.monitor)
            &&& final(state).applied_cursor == Some(shape)
            &&& final(state).living_cursor == old(state).living_cursor
            &&& final(state).gesture == old(state).gesture
            &&& final(state).armed == old(state).armed
            &&& actions@ == (if old(state).menu is Some && actions@.len() > 0 && actions@[0]
                == Action::EmitMenu {
                seq![Action::EmitMenu]
            } else {
                Seq::<Action>::empty()
            }) + (if old(pump).active_monitor != Some(look.monitor) {
                seq![
                    Action::EmitActiveMonitor(look.monitor),
                    Action::ResyncWarm(old(state).current),
                ]
            } else {
                Seq::<Action>::empty()
            }) + (if old(state).applied_cursor != Some(shape) {
                seq![Action::OverrideCursors(shape)]
            } else {
                Seq::<Action>::empty()
            }) + (if old(pump).hovered_area != hovered || old(pump).hovered_chrome_only {
                seq![Action::EmitHover { hovered, chrome_only: false }]
            } else {
                Seq::<Action>::empty()
            })
        }),
{
    let hovered = placement_tick_hover(*old(state), *look);
    let shape = placement_tick_shape(*old(state), *look, tick_row(*old(state)));
    let a = menu_tick_actions(*old(state), now);
    let rest = monitor_actions(*old(pump), look.monitor, old(state).current)
        + placement::cursor_actions(*old(state), shape) + hover_actions(
        *old(pump),
        (hovered, false),
    );
    assert(actions@ =~= a + rest);
    assert(rest.len() > 0 ==> rest[0] != Action::EmitMenu);
}

/// A tick has the page draw the menu anew exactly where the menu's own tick says so, and
/// while hidden does nothing at all.
pub proof fn law_a_tick_has_the_menu_drawn(
    state: &mut HookState,
    pump: &mut PumpState,
    now: u64,
    layout: &MenuLayout,
    look: &Look,
    actions: Vec<Action>,
    menu: &mut Option<menu::AreaMenu>,
    tick: menu::MenuTick,
)
    requires
        call_ensures(pump_hover, (state, pump, now, layout, look), actions),
        *old(menu) == old(state).menu,
        call_ensures(pump_menu, (menu, old(state).current, now, layout), tick),
    ensures
        old(state).mode == Mode::Hidden ==> actions@.len() == 0 && *final(state) == *old(state)
            && *final(pump) == *old(pump),
        old(state).mode != Mode::Hidden ==> (actions@.contains(Action::EmitMenu) <==> tick.redraw),
        old(state).mode != Mode::Hidden && tick.redraw ==> actions@[0] == Action::EmitMenu,
{
    if old(state).mode != Mode::Hidden && tick.redraw {
        assert(menu_tick_actions(*old(state), now).len() == 1);
        assert(actions@[0] == Action::EmitMenu);
    }
}

/// A probe that came back counts once, with the time it took: into the number, the sum
/// and the longest.
pub proof fn law_a_probe_counts_with_the_time_it_took(
    samples: &mut LatencySamples,
    now_nanos: u64,
    probe_nanos: u64,
)
    requires
        call_ensures(record_latency, (samples, now_nanos, probe_nanos), ()),
        old(samples).count < u32::MAX,
        old(samples).total_nanos <= u64::MAX,
        probe_nanos <= now_nanos,
    ensures
        final(samples).count == old(samples).count + 1,
        final(samples).total_nanos - old(samples).total_nanos == now_nanos - probe_nanos,
        final(samples).max_nanos >= old(samples).max_nanos,
        final(samples).max_nanos >= now_nanos - probe_nanos,
        final(samples).max_nanos == old(samples).max_nanos || final(samples).max_nanos == now_nanos
            - probe_nanos,
{
}

/// Samples are taken out whole, and once.
pub proof fn law_samples_are_taken_once(
    samples: &mut LatencySamples,
    taken: Option<LatencySamples>,
    later: &mut LatencySamples,
    again: Option<LatencySamples>,
)
    requires
        call_ensures(take_latency, (samples,), taken),
        *old(later) == *final(samples),
        call_ensures(take_latency, (later,), again),
    ensures
        taken is Some <==> old(samples).count > 0,
        taken is Some ==> taken->0 == *old(samples),
        again is None,
{
}

/// The warm captures are brought to the point that was asked for last, by one worker: one
/// is started exactly where none runs, and it stops once nothing is asked for.
pub proof fn law_the_last_point_is_served(
    slot: &mut WarmSlot,
    point: Point,
    start: bool,
    later: &mut WarmSlot,
    next: Option<Point>,
    idle: &mut WarmSlot,
    none: Option<Point>,
)
    requires
        call_ensures(resync_warm_off_thread, (slot, point), start),
        *old(later) == *final(slot),
        call_ensures(next_warm_point, (later,), next),
        *old(idle) == *final(later),
        call_ensures(next_warm_point, (idle,), none),
    ensures
        start <==> !old(slot).running,
        next == Some(point),
        final(later).running,
        none is None,
        !final(idle).running,
{
}

/// At the start nothing is dragged or hovered and no tick was silent, there is no sample, and
/// no capture is asked for or running.
pub proof fn law_the_pump_starts_empty(
    pump: PumpState,
    samples: LatencySamples,
    slot: WarmSlot,
)
    requires
        call_ensures(PumpState::default, (), pump),
        call_ensures(LatencySamples::default, (), samples),
        call_ensures(WarmSlot::default, (), slot),
    ensures
        !pump.was_dragging,
        pump.hovered_area is None,
        !pump.hovered_chrome_only,
        pump.last_cursor is None,
        pump.last_events == 0,
        pump.silent_ticks == 0,
        pump.reinstall_cooldown == 0,
        pump.active_monitor is None,
        samples.count == 0,
        samples.total_nanos == 0,
        samples.max_nanos == 0,
        slot.wanted is None,
        !slot.running,
{
}

} // verus!
