//! The overlay itself: what each state asks of the window, what `Esc` backs out
//! of, the frozen view, and what the page is told.

use vstd::prelude::*;
use crate::area::{AreaId, AreaType, Layer};
use crate::geometry::{as_tuple, index_at, Point, Rect, Size};
use crate::geometry;
use crate::overlay_state::{next, Event, OverlayState};
use crate::overlay_state;
use crate::placement::{arm, armed, cancel_drag, close_menu, disarm, is_dragging, Action, HookState};
use crate::placement;
use crate::precapture::Precapture;
use crate::precapture;
use crate::search;
use crate::text::{push_decimal, push_signed, same_text};
use crate::text;

verus! {

/// The overlay window's label.
pub const WINDOW_LABEL: &'static str = "overlay";

/// The event the page hears the state on.
pub const STATE_EVENT: &'static str = "overlay://state";

/// The event the page hears the areas on.
pub const AREAS_EVENT: &'static str = "overlay://areas";

/// The event the page hears pictures on.
pub const PIN_EVENT: &'static str = "overlay://pin";

/// The event the page hears the pointer's monitor on.
pub const ACTIVE_MONITOR_EVENT: &'static str = "overlay://active-monitor";

/// The event the page hears acknowledgements on.
pub const FLASH_EVENT: &'static str = "overlay://flash";

// ---------------------------------------------------------------------------
// The window's bounds and the monitors.
// ---------------------------------------------------------------------------

/// Whether the window's bounds have to be written. Writing them raises an event
/// that leads back here, so bounds that fit are left alone.
pub fn needs_write(current: Rect, desired: Rect) -> (write: bool)
    ensures
        write == (current != desired),
{
    !(current == desired)
}

/// The bounds the overlay is to have: those of the whole desktop.
pub fn desired_bounds(desktop: Option<Rect>) -> (bounds: Result<Rect, String>)
    ensures
        match desktop {
            Some(desktop) => bounds == Ok::<Rect, String>(desktop),
            None => bounds is Err && bounds->Err_0@
                == "No display detected — the overlay needs at least one monitor."@,
        },
{
    match desktop {
        Some(desktop) => Ok(desktop),
        None => Err(
            "No display detected — the overlay needs at least one monitor.".to_owned(),
        ),
    }
}

/// The bounds a display change has written to the window, if any are: a hidden
/// window is left alone, for it is fitted when it is shown.
pub fn sync_bounds(visible: bool, current: Rect, desired: Rect) -> (write: Option<Rect>)
    ensures
        write == if visible && current != desired {
            Some(desired)
        } else {
            None
        },
{
    if visible && needs_write(current, desired) {
        Some(desired)
    } else {
        None
    }
}

/// A monitor: where it is, and its scale factor by the bits of the `f64`.
#[derive(Debug, Clone, Copy)]
pub struct Monitor {
    pub bounds: Rect,
    pub scale: u64,
}

/// The bits of a scale factor of three and a half, which no monitor has.
pub const PERTURBED_SCALE: u64 = 0x400c_0000_0000_0000;

/// The sign bit of an `f64`: what is below it is the magnitude.
pub const SIGN_BIT: u64 = 0x8000_0000_0000_0000;

/// The bits of infinity: a magnitude above it is no number.
pub const INFINITY_BITS: u64 = 0x7ff0_0000_0000_0000;

/// Whether some bits are those of no number.
pub open spec fn is_nan(bits: u64) -> bool {
    bits % SIGN_BIT > INFINITY_BITS
}

/// Whether some bits are those of a zero, of either sign.
pub open spec fn is_zero(bits: u64) -> bool {
    bits % SIGN_BIT == 0
}

/// Whether two scale factors, given by their bits, are equal as numbers: what is
/// no number equals nothing, itself included, and the two zeros are equal.
pub open spec fn same_scale(a: u64, b: u64) -> bool {
    !is_nan(a) && !is_nan(b) && (a == b || is_zero(a) && is_zero(b))
}

/// Whether two monitors are the same.
pub open spec fn same_monitor(a: Monitor, b: Monitor) -> bool {
    a.bounds == b.bounds && same_scale(a.scale, b.scale)
}

/// Whether two lists of monitors are the same.
pub open spec fn same_monitors(a: Seq<Monitor>, b: Seq<Monitor>) -> bool {
    a.len() == b.len() && forall|i: int|
        0 <= i < a.len() ==> #[trigger] same_monitor(a[i], b[i])
}

impl PartialEq for Monitor {
    fn eq(&self, other: &Self) -> (same: bool) {
        let a: u64 = self.scale % SIGN_BIT;
        let b: u64 = other.scale % SIGN_BIT;
        self.bounds == other.bounds && a <= INFINITY_BITS && b <= INFINITY_BITS && (self.scale
            == other.scale || a == 0 && b == 0)
    }
}

impl vstd::std_specs::cmp::PartialEqSpecImpl for Monitor {
    open spec fn obeys_eq_spec() -> bool {
        true
    }

    open spec fn eq_spec(&self, other: &Self) -> bool {
        same_monitor(*self, *other)
    }
}

/// Whether two lists of monitors are the same.
fn lists_agree(a: &Vec<Monitor>, b: &Vec<Monitor>) -> (same: bool)
    ensures
        same == same_monitors(a@, b@),
{
    if a.len() != b.len() {
        return false;
    }
    let mut i: usize = 0;
    while i < a.len()
        invariant
            i <= a.len(),
            a.len() == b.len(),
            forall|k: int| 0 <= k < i ==> #[trigger] same_monitor(a@[k], b@[k]),
        decreases a.len() - i,
    {
        if !(a[i] == b[i]) {
            assert(!same_monitor(a@[i as int], b@[i as int]));
            return false;
        }
        i += 1;
    }
    true
}

/// Replaces the monitors that are remembered if they changed, and says whether
/// they did. A list that could not be read changes nothing.
pub fn refresh_monitor_cache(cache: &mut Vec<Monitor>, fresh: Option<Vec<Monitor>>) -> (changed:
    bool)
    ensures
        changed == (fresh is Some && !same_monitors(old(cache)@, fresh->0@)),
        final(cache)@ == if changed {
            fresh->0@
        } else {
            old(cache)@
        },
{
    match fresh {
        Some(fresh) => {
            if lists_agree(cache, &fresh) {
                return false;
            }
            *cache = fresh;
            true
        },
        None => false,
    }
}

/// What the warm captures are told after a display change: nothing unless the
/// monitors changed, and then whether the overlay is in `Placement`.
pub fn sync_monitors(
    cache: &mut Vec<Monitor>,
    fresh: Option<Vec<Monitor>>,
    state: OverlayState,
) -> (resync: Option<bool>)
    ensures
        resync == if fresh is Some && !same_monitors(old(cache)@, fresh->0@) {
            Some(state == OverlayState::Placement)
        } else {
            None
        },
        final(cache)@ == if resync is Some {
            fresh->0@
        } else {
            old(cache)@
        },
{
    if refresh_monitor_cache(cache, fresh) {
        Some(state == OverlayState::Placement)
    } else {
        None
    }
}

/// Some monitors, the first with a scale no monitor has.
pub open spec fn perturbed_scale(monitors: Seq<Monitor>) -> Seq<Monitor> {
    monitors.update(0, Monitor { scale: PERTURBED_SCALE, ..monitors[0] })
}

/// Gives the first monitor that is remembered a scale no monitor has, so that
/// the next refresh sees a change. Says which monitor, and its scale before and
/// after.
pub fn dev_perturb_cached_scale(cache: &mut Vec<Monitor>) -> (perturbed: Option<(Rect, u64, u64)>)
    ensures
        perturbed == if old(cache)@.len() > 0 {
            Some((old(cache)@[0].bounds, old(cache)@[0].scale, PERTURBED_SCALE))
        } else {
            None
        },
        final(cache)@ == if old(cache)@.len() > 0 {
            perturbed_scale(old(cache)@)
        } else {
            old(cache)@
        },
{
    if cache.len() == 0 {
        return None;
    }
    let first = cache[0];
    cache.set(0, Monitor { bounds: first.bounds, scale: PERTURBED_SCALE });
    Some((first.bounds, first.scale, PERTURBED_SCALE))
}

/// Where some monitors are.
pub open spec fn rects_of(monitors: Seq<Monitor>) -> Seq<Rect> {
    Seq::new(monitors.len(), |i: int| monitors[i].bounds)
}

/// Where the monitors are.
pub fn monitor_rects(cache: &Vec<Monitor>) -> (rects: Vec<Rect>)
    ensures
        rects@ == rects_of(cache@),
{
    let mut rects: Vec<Rect> = Vec::with_capacity(cache.len());
    let mut i: usize = 0;
    while i < cache.len()
        invariant
            i <= cache.len(),
            rects@ == rects_of(cache@.take(i as int)),
        decreases cache.len() - i,
    {
        rects.push(cache[i].bounds);
        i += 1;
        assert(rects@ =~= rects_of(cache@.take(i as int)));
    }
    assert(cache@.take(i as int) =~= cache@);
    rects
}

/// The monitor a point is on, by its index.
pub fn monitor_index_at(cache: &Vec<Monitor>, point: Point) -> (index: Option<usize>)
    ensures
        index == search::first(rects_of(cache@), geometry::holding(point)),
{
    let rects = monitor_rects(cache);
    index_at(&rects, point)
}

/// The bounds that chrome at a point is placed in.
pub open spec fn chrome_bounds(
    monitors: Seq<Rect>,
    desktop: Option<Rect>,
    point: Point,
) -> Rect {
    match search::first(monitors, geometry::holding(point)) {
        Some(found) => monitors[found as int],
        None => match desktop {
            Some(desktop) => desktop,
            None => Rect { origin: point, size: Size { width: 1, height: 1 } },
        },
    }
}

/// The bounds of the monitor a point is on; between monitors those of the whole
/// desktop, and without one a single pixel at the point.
pub fn monitor_bounds_at(monitors: &[Rect], desktop: Option<Rect>, point: Point) -> (bounds: Rect)
    ensures
        bounds == chrome_bounds(monitors@, desktop, point),
{
    proof {
        search::lemma_first_from(monitors@, geometry::holding(point), 0);
    }
    match index_at(monitors, point) {
        Some(found) => monitors[found],
        None => match desktop {
            Some(desktop) => desktop,
            None => Rect { origin: point, size: Size { width: 1, height: 1 } },
        },
    }
}

// ---------------------------------------------------------------------------
// The states.
// ---------------------------------------------------------------------------

/// What a change of state has done, in order. The first that fails is the last.
#[derive(Debug, Clone, Copy, PartialEq, Eq, Structural)]
pub enum Effect {
    /// Drop the frozen view.
    Thaw,
    /// Have the warm captures run, in `Placement`, or stop.
    SyncWarm { placing: bool },
    /// Show the window over the whole desktop.
    Show,
    /// Hide the window.
    Hide,
    /// Have the hook work in `Placement`.
    Enter,
    /// Have the hook work in `Living`.
    EnterLiving,
    /// Have the hook go.
    Exit,
    /// Tell the page the state.
    EmitState,
    /// Tell the page the areas.
    EmitAreas,
}

/// What entering a state has done.
pub open spec fn effects_of(state: OverlayState) -> Seq<Effect> {
    match state {
        OverlayState::Hidden => seq![
            Effect::Thaw,
            Effect::SyncWarm { placing: false },
            Effect::EmitState,
            Effect::Exit,
            Effect::Hide,
        ],
        OverlayState::Placement => seq![
            Effect::Thaw,
            Effect::SyncWarm { placing: true },
            Effect::Show,
            Effect::Enter,
            Effect::EmitState,
            Effect::EmitAreas,
        ],
        OverlayState::Living => seq![
            Effect::Thaw,
            Effect::SyncWarm { placing: false },
            Effect::Show,
            Effect::EnterLiving,
            Effect::EmitState,
            Effect::EmitAreas,
        ],
    }
}

/// What entering a state has done, in order.
pub fn apply(state: OverlayState) -> (effects: Vec<Effect>)
    ensures
        effects@ == effects_of(state),
{
    let mut effects: Vec<Effect> = Vec::new();
    effects.push(Effect::Thaw);
    effects.push(Effect::SyncWarm { placing: state == OverlayState::Placement });
    match state {
        OverlayState::Hidden => {
            effects.push(Effect::EmitState);
            effects.push(Effect::Exit);
            effects.push(Effect::Hide);
        },
        OverlayState::Placement => {
            effects.push(Effect::Show);
            effects.push(Effect::Enter);
            effects.push(Effect::EmitState);
            effects.push(Effect::EmitAreas);
        },
        OverlayState::Living => {
            effects.push(Effect::Show);
            effects.push(Effect::EnterLiving);
            effects.push(Effect::EmitState);
            effects.push(Effect::EmitAreas);
        },
    }
    assert(effects@ =~= effects_of(state));
    effects
}

/// What a page that has just loaded is told.
pub fn overlay_request_state() -> (effects: Vec<Effect>)
    ensures
        effects@ == seq![Effect::EmitState, Effect::EmitAreas],
{
    let mut effects: Vec<Effect> = Vec::new();
    effects.push(Effect::EmitState);
    effects.push(Effect::EmitAreas);
    assert(effects@ =~= seq![Effect::EmitState, Effect::EmitAreas]);
    effects
}

/// Moves the overlay by an event, and says which state is entered: also the one
/// it was in, which is then entered again.
pub fn drive(cell: &mut OverlayState, event: Event, has_areas: bool) -> (entered: OverlayState)
    ensures
        *final(cell) == overlay_state::next_state(*old(cell), event, has_areas),
        entered == *final(cell),
{
    *cell = next(*cell, event, has_areas);
    *cell
}

/// The tray, a relaunch or startup brings the overlay up.
pub fn summon(cell: &mut OverlayState, has_areas: bool) -> (entered: OverlayState)
    ensures
        *final(cell) == OverlayState::Placement,
        entered == *final(cell),
{
    drive(cell, Event::Summon, has_areas)
}

/// The hotkey.
pub fn toggle(cell: &mut OverlayState, has_areas: bool) -> (entered: OverlayState)
    ensures
        *final(cell) == overlay_state::next_state(*old(cell), Event::Toggle, has_areas),
        entered == *final(cell),
{
    drive(cell, Event::Toggle, has_areas)
}

/// What `Esc` backs out of.
#[derive(Debug, Clone, Copy, PartialEq, Eq, Structural)]
pub enum Rung {
    Menu,
    Drag,
    Armed,
    State,
}

/// What `Esc` backs out of: the innermost thing the user can see.
pub open spec fn rung(hook: HookState) -> Rung {
    if hook.menu is Some {
        Rung::Menu
    } else if hook.dragging {
        Rung::Drag
    } else if hook.armed is Some {
        Rung::Armed
    } else {
        Rung::State
    }
}

/// The hook after `Esc`.
pub open spec fn escaped_hook(hook: HookState) -> HookState {
    match rung(hook) {
        Rung::Menu => HookState { menu: None, ..hook },
        Rung::Drag => placement::without_gesture(hook),
        Rung::Armed => HookState { armed: None, ..hook },
        Rung::State => hook,
    }
}

/// The captured frame after `Esc`.
pub open spec fn escaped_frame(hook: HookState, pre: Precapture) -> Precapture {
    if rung(hook) == Rung::Drag {
        precapture::discarded(pre)
    } else {
        pre
    }
}

/// The state after `Esc`. While something inside it was backed out of, the state
/// is kept as it is in the middle of a drag.
pub open spec fn escaped_state(
    state: OverlayState,
    hook: HookState,
    has_areas: bool,
) -> OverlayState {
    match rung(hook) {
        Rung::Menu => state,
        Rung::Drag | Rung::Armed => overlay_state::next_state(
            state,
            Event::Escape { mid_drag: true },
            has_areas,
        ),
        Rung::State => overlay_state::next_state(
            state,
            Event::Escape { mid_drag: false },
            has_areas,
        ),
    }
}

/// `Esc`: backs out of one thing, innermost first, and says which state is
/// entered. A menu is closed without one.
pub fn escape(
    cell: &mut OverlayState,
    hook: &mut HookState,
    pre: &mut Precapture,
    has_areas: bool,
    actions: &mut Vec<Action>,
) -> (entered: Option<OverlayState>)
    ensures
        *final(hook) == escaped_hook(*old(hook)),
        *final(pre) == escaped_frame(*old(hook), *old(pre)),
        *final(cell) == escaped_state(*old(cell), *old(hook), has_areas),
        final(actions)@ == old(actions)@ + placement::close_actions(old(hook).menu),
        entered == if old(hook).menu is Some {
            None
        } else {
            Some(*final(cell))
        },
{
    if close_menu(hook, actions) {
        return None;
    }
    if is_dragging(hook) {
        cancel_drag(hook, pre);
        return Some(drive(cell, Event::Escape { mid_drag: true }, has_areas));
    }
    let inner = armed(hook).is_some();
    if inner {
        disarm(hook);
    }
    Some(drive(cell, Event::Escape { mid_drag: inner }, has_areas))
}

/// Hides the overlay when the last area goes in `Living`, where there would be
/// nothing left to see. Says which state is entered.
pub fn collapse_living_if_empty(cell: &mut OverlayState, has_areas: bool) -> (entered: Option<
    OverlayState,
>)
    ensures
        *final(cell) == overlay_state::collapsed(*old(cell), has_areas),
        entered == if *final(cell) != *old(cell) {
            Some(*final(cell))
        } else {
            None
        },
{
    if !(*cell == OverlayState::Living) || has_areas {
        return None;
    }
    *cell = OverlayState::Hidden;
    Some(OverlayState::Hidden)
}

/// What removing an area leads to.
#[derive(Debug, Clone, Copy, PartialEq, Eq)]
pub struct Dismissed {
    /// Whether what was captured for the area is forgotten.
    pub forget: bool,
    /// The state that is entered, if one is.
    pub entered: Option<OverlayState>,
}

/// What removing an area leads to: nothing if there was none to remove.
pub fn dismiss_area(cell: &mut OverlayState, removed: bool, has_areas: bool) -> (dismissed:
    Dismissed)
    ensures
        dismissed.forget == removed,
        *final(cell) == if removed {
            overlay_state::collapsed(*old(cell), has_areas)
        } else {
            *old(cell)
        },
        dismissed.entered == if *final(cell) != *old(cell) {
            Some(*final(cell))
        } else {
            None
        },
{
    let entered = if removed {
        collapse_living_if_empty(cell, has_areas)
    } else {
        None
    };
    Dismissed { forget: removed, entered }
}

/// `Delete` over the overlay: once the area under the pointer is gone, the menu
/// goes with it and the page is told.
pub fn overlay_dismiss_focused(hook: &mut HookState, removed: bool, actions: &mut Vec<Action>)
    ensures
        *final(hook) == if removed {
            HookState { menu: None, ..*old(hook) }
        } else {
            *old(hook)
        },
        final(actions)@ == if removed {
            old(actions)@ + placement::close_actions(old(hook).menu) + seq![Action::EmitAreas]
        } else {
            old(actions)@
        },
{
    if removed {
        close_menu(hook, actions);
        actions.push(Action::EmitAreas);
        assert(actions@ =~= old(actions)@ + placement::close_actions(old(hook).menu)
            + seq![Action::EmitAreas]);
    }
}

/// The state after an area was created: a type that leaves `Placement` backs out
/// of it as `Esc` does, and any other keeps it.
pub fn area_created(cell: &mut OverlayState, exits_placement: bool, has_areas: bool) -> (entered:
    OverlayState)
    ensures
        *final(cell) == overlay_state::next_state(
            *old(cell),
            Event::Escape { mid_drag: !exits_placement },
            has_areas,
        ),
        entered == *final(cell),
{
    drive(cell, Event::Escape { mid_drag: !exits_placement }, has_areas)
}

// ---------------------------------------------------------------------------
// Names.
// ---------------------------------------------------------------------------

/// The page's name for a state.
pub open spec fn state_text(state: OverlayState) -> Seq<char> {
    match state {
        OverlayState::Hidden => "hidden"@,
        OverlayState::Placement => "placement"@,
        OverlayState::Living => "living"@,
    }
}

/// The page's name for a state.
pub fn state_name(state: OverlayState) -> (name: &'static str)
    ensures
        name@ == state_text(state),
{
    match state {
        OverlayState::Hidden => "hidden",
        OverlayState::Placement => "placement",
        OverlayState::Living => "living",
    }
}

/// The page's name for an area type.
pub open spec fn kind_text(kind: AreaType) -> Seq<char> {
    match kind {
        AreaType::Default => "default"@,
        AreaType::Screenshot => "screenshot"@,
        AreaType::Record => "record"@,
        AreaType::Ocr => "ocr"@,
        AreaType::Upscale => "upscale"@,
        AreaType::Analysis => "analysis"@,
        AreaType::Filter => "filter"@,
    }
}

/// The page's name for an area type.
pub fn kind_name(kind: AreaType) -> (name: &'static str)
    ensures
        name@ == kind_text(kind),
{
    match kind {
        AreaType::Default => "default",
        AreaType::Screenshot => "screenshot",
        AreaType::Record => "record",
        AreaType::Ocr => "ocr",
        AreaType::Upscale => "upscale",
        AreaType::Analysis => "analysis",
        AreaType::Filter => "filter",
    }
}

/// The page's name for a layer.
pub open spec fn layer_text(layer: Layer) -> Seq<char> {
    match layer {
        Layer::Front => "front"@,
        Layer::Auto => "auto"@,
        Layer::Back => "back"@,
    }
}

/// The page's name for a layer.
pub fn layer_name(layer: Layer) -> (name: &'static str)
    ensures
        name@ == layer_text(layer),
{
    match layer {
        Layer::Front => "front",
        Layer::Auto => "auto",
        Layer::Back => "back",
    }
}

/// Whether a key arms a type.
pub open spec fn has_key(kind: AreaType) -> bool {
    kind == AreaType::Screenshot || kind == AreaType::Filter
}

/// The type a name arms. A type that no key arms has none, though it has a name.
pub fn armable_type(name: &str) -> (kind: Option<AreaType>)
    ensures
        match kind {
            Some(kind) => has_key(kind) && kind_text(kind) == name@,
            None => forall|kind: AreaType| has_key(kind) ==> #[trigger] kind_text(kind) != name@,
        },
{
    if same_text(name, "screenshot") {
        Some(AreaType::Screenshot)
    } else if same_text(name, "filter") {
        Some(AreaType::Filter)
    } else {
        None
    }
}

/// A key arms the type of the next drag. Only `Placement` has one.
pub fn overlay_arm_type(state: OverlayState, hook: &mut HookState, name: &str) -> (result: Result<
    (),
    String,
>)
    ensures
        match result {
            Ok(_) => {
                &&& state == OverlayState::Placement
                &&& exists|kind: AreaType|
                    has_key(kind) && #[trigger] kind_text(kind) == name@ && *final(hook)
                        == (HookState { armed: Some(kind), ..*old(hook) })
            },
            Err(error) => {
                &&& *final(hook) == *old(hook)
                &&& if exists|kind: AreaType| has_key(kind) && #[trigger] kind_text(kind) == name@ {
                    state != OverlayState::Placement && error@
                        == "arming is only meaningful in placement"@
                } else {
                    error@ == name@ + " is not an armable area type"@
                }
            },
        },
{
    match armable_type(name) {
        Some(kind) => {
            if !(state == OverlayState::Placement) {
                assert(has_key(kind) && kind_text(kind) == name@);
                return Err("arming is only meaningful in placement".to_owned());
            }
            arm(hook, kind);
            assert(has_key(kind) && kind_text(kind) == name@);
            Ok(())
        },
        None => {
            let mut error = name.to_owned();
            error.append(" is not an armable area type");
            Err(error)
        },
    }
}

// ---------------------------------------------------------------------------
// The frozen view.
// ---------------------------------------------------------------------------

/// What toggling the frozen view does.
#[derive(Debug, PartialEq, Eq)]
pub enum FreezeToggle {
    /// Nothing, outside `Placement`, but for a line in the log.
    Ignore(String),
    /// Drop the stills, and tell the page at once.
    Thaw,
    /// Capture away from the event loop, and tell the page once the stills are
    /// there.
    Freeze,
}

/// A state as the log has it.
pub open spec fn logged_state(state: OverlayState) -> Seq<char> {
    match state {
        OverlayState::Hidden => "Hidden"@,
        OverlayState::Placement => "Placement"@,
        OverlayState::Living => "Living"@,
    }
}

/// Toggles the frozen view.
pub fn toggle_freeze(state: OverlayState, frozen: bool) -> (toggle: FreezeToggle)
    ensures
        match toggle {
            FreezeToggle::Ignore(line) => state != OverlayState::Placement && line@
                == "overlay: freeze toggle ignored outside Placement (state "@ + logged_state(state)
                + ")"@,
            FreezeToggle::Thaw => state == OverlayState::Placement && frozen,
            FreezeToggle::Freeze => state == OverlayState::Placement && !frozen,
        },
{
    match state {
        OverlayState::Placement => if frozen {
            FreezeToggle::Thaw
        } else {
            FreezeToggle::Freeze
        },
        other => {
            let mut line = "overlay: freeze toggle ignored outside Placement (state ".to_owned();
            line.append(
                match other {
                    OverlayState::Hidden => "Hidden",
                    OverlayState::Placement => "Placement",
                    OverlayState::Living => "Living",
                },
            );
            line.append(")");
            FreezeToggle::Ignore(line)
        },
    }
}

/// What freezing one monitor cost.
#[derive(Debug, Clone, Copy, PartialEq, Eq)]
pub struct MonitorCost {
    pub rect: Rect,
    pub capture_ms: u128,
    pub encode_ms: u128,
    pub encoded_bytes: usize,
    pub served_warm: bool,
}

/// What a freeze cost.
#[derive(Debug, PartialEq, Eq)]
pub struct FreezeReport {
    /// How many monitors were frozen.
    pub count: usize,
    pub elapsed_ms: u128,
    /// How many of them a warm capture served.
    pub warm_served: usize,
    pub slowest_capture_ms: u128,
    pub slowest_encode_ms: u128,
    pub per_monitor: Vec<MonitorCost>,
}

/// The log's line on a freeze.
pub open spec fn freeze_text(report: FreezeReport, in_scope: nat, desktop: nat) -> Seq<char> {
    "freeze: froze "@ + text::decimal(report.count as nat) + "/"@ + text::decimal(in_scope)
        + " monitor(s) in scope, "@ + text::decimal(report.count as nat) + " of "@ + text::decimal(
        desktop,
    ) + " on the desktop, in "@ + text::decimal(report.elapsed_ms as nat) + " ms — warm "@
        + text::decimal(report.warm_served as nat) + "/"@ + text::decimal(report.count as nat)
        + ", slowest monitor: capture "@ + text::decimal(report.slowest_capture_ms as nat)
        + " ms, encode "@ + text::decimal(report.slowest_encode_ms as nat) + " ms"@
}

/// The log's line on what one monitor cost.
pub open spec fn cost_text(cost: MonitorCost) -> Seq<char> {
    "freeze:   "@ + text::decimal(cost.rect.size.width as nat) + "x"@ + text::decimal(
        cost.rect.size.height as nat,
    ) + " at ("@ + text::signed_decimal(cost.rect.origin.x as int) + ", "@ + text::signed_decimal(
        cost.rect.origin.y as int,
    ) + ") — capture "@ + text::decimal(cost.capture_ms as nat) + " ms, encode "@ + text::decimal(
        cost.encode_ms as nat,
    ) + " ms, "@ + text::decimal(cost.encoded_bytes as nat) + " bytes, "@ + if cost.served_warm {
        "warm"@
    } else {
        "cold"@
    }
}

/// The log's line on a freeze.
fn freeze_line(report: &FreezeReport, in_scope: usize, desktop: usize) -> (line: String)
    ensures
        line@ == freeze_text(*report, in_scope as nat, desktop as nat),
{
    let mut line = "freeze: froze ".to_owned();
    push_decimal(&mut line, report.count as u128);
    line.append("/");
    push_decimal(&mut line, in_scope as u128);
    line.append(" monitor(s) in scope, ");
    push_decimal(&mut line, report.count as u128);
    line.append(" of ");
    push_decimal(&mut line, desktop as u128);
    line.append(" on the desktop, in ");
    push_decimal(&mut line, report.elapsed_ms);
    line.append(" ms — warm ");
    push_decimal(&mut line, report.warm_served as u128);
    line.append("/");
    push_decimal(&mut line, report.count as u128);
    line.append(", slowest monitor: capture ");
    push_decimal(&mut line, report.slowest_capture_ms);
    line.append(" ms, encode ");
    push_decimal(&mut line, report.slowest_encode_ms);
    line.append(" ms");
    line
}

/// The log's line on what one monitor cost.
fn cost_line(cost: &MonitorCost) -> (line: String)
    ensures
        line@ == cost_text(*cost),
{
    let mut line = "freeze:   ".to_owned();
    push_decimal(&mut line, cost.rect.size.width as u128);
    line.append("x");
    push_decimal(&mut line, cost.rect.size.height as u128);
    line.append(" at (");
    push_signed(&mut line, cost.rect.origin.x as i64);
    line.append(", ");
    push_signed(&mut line, cost.rect.origin.y as i64);
    line.append(") — capture ");
    push_decimal(&mut line, cost.capture_ms);
    line.append(" ms, encode ");
    push_decimal(&mut line, cost.encode_ms);
    line.append(" ms, ");
    push_decimal(&mut line, cost.encoded_bytes as u128);
    line.append(" bytes, ");
    line.append(
        if cost.served_warm {
            "warm"
        } else {
            "cold"
        },
    );
    line
}

/// What a finished freeze leads to.
#[derive(Debug, PartialEq, Eq)]
pub struct Frozen {
    /// The lines for the log.
    pub lines: Vec<String>,
    /// Whether the page is told.
    pub emit: bool,
}

/// What the log says of a freeze.
pub open spec fn freeze_log(
    outcome: Result<FreezeReport, String>,
    in_scope: nat,
    desktop: nat,
) -> Seq<Seq<char>> {
    match outcome {
        Ok(report) => seq![freeze_text(report, in_scope, desktop)] + Seq::new(
            report.per_monitor@.len(),
            |i: int| cost_text(report.per_monitor@[i]),
        ),
        Err(skipped) => seq!["freeze: no stills published — "@ + skipped@],
    }
}

/// What some lines say.
pub open spec fn said(lines: Seq<String>) -> Seq<Seq<char>> {
    Seq::new(lines.len(), |i: int| lines[i]@)
}

/// What a finished freeze leads to. One that published no stills is a line in
/// the log and nothing else: the page goes on showing what it shows.
pub fn froze(outcome: &Result<FreezeReport, String>, in_scope: usize, desktop: usize) -> (frozen:
    Frozen)
    ensures
        said(frozen.lines@) == freeze_log(*outcome, in_scope as nat, desktop as nat),
        frozen.emit == (*outcome is Ok),
{
    let mut lines: Vec<String> = Vec::new();
    match outcome {
        Ok(report) => {
            let ghost first = seq![freeze_text(*report, in_scope as nat, desktop as nat)];
            let ghost costs = report.per_monitor@;
            lines.push(freeze_line(report, in_scope, desktop));
            assert(said(lines@) =~= first + Seq::new(0, |i: int| cost_text(costs[i])));
            let mut i: usize = 0;
            while i < report.per_monitor.len()
                invariant
                    i <= report.per_monitor.len(),
                    costs == report.per_monitor@,
                    first.len() == 1,
                    said(lines@) == first + Seq::new(i as nat, |i: int| cost_text(costs[i])),
                decreases report.per_monitor.len() - i,
            {
                let ghost before = said(lines@);
                lines.push(cost_line(&report.per_monitor[i]));
                i += 1;
                assert(said(lines@) =~= before.push(cost_text(costs[i - 1])));
                assert(said(lines@) =~= first + Seq::new(i as nat, |i: int| cost_text(costs[i])));
            }
            Frozen { lines, emit: true }
        },
        Err(skipped) => {
            let mut line = "freeze: no stills published — ".to_owned();
            line.append(skipped);
            lines.push(line);
            assert(said(lines@) =~= freeze_log(*outcome, in_scope as nat, desktop as nat));
            Frozen { lines, emit: false }
        },
    }
}

// ---------------------------------------------------------------------------
// What the page is told.
// ---------------------------------------------------------------------------

/// A monitor's still, as the page reads it: where it goes, and its address.
#[derive(Debug, PartialEq, Eq)]
pub struct Still {
    pub rect: (i32, i32, u32, u32),
    pub url: String,
}

/// The state as the page reads it. Rectangles are physical pixels of the virtual
/// desktop, for the page to convert from `origin` by its own scale.
#[derive(Debug, PartialEq, Eq)]
pub struct StatePayload {
    pub state: &'static str,
    pub origin: (i32, i32),
    /// The monitors to outline, in `Placement`.
    pub monitors: Vec<(i32, i32, u32, u32)>,
    /// The armed type, in `Placement`.
    pub armed: Option<&'static str>,
    pub frozen: bool,
    pub stills: Vec<Still>,
    /// The time the freeze was asked for, on its first frame.
    pub freeze_probe: Option<u64>,
}

/// Some rectangles as the page reads them.
pub open spec fn tuples_of(rects: Seq<Rect>) -> Seq<(i32, i32, u32, u32)> {
    Seq::new(rects.len(), |i: int| geometry::tuple_of(rects[i]))
}

/// Some rectangles as the page reads them.
fn rect_tuples(rects: &[Rect]) -> (tuples: Vec<(i32, i32, u32, u32)>)
    ensures
        tuples@ == tuples_of(rects@),
{
    let mut tuples: Vec<(i32, i32, u32, u32)> = Vec::with_capacity(rects.len());
    let mut i: usize = 0;
    while i < rects.len()
        invariant
            i <= rects.len(),
            tuples@ == tuples_of(rects@.take(i as int)),
        decreases rects.len() - i,
    {
        tuples.push(as_tuple(rects[i]));
        i += 1;
        assert(tuples@ =~= tuples_of(rects@.take(i as int)));
    }
    assert(rects@.take(i as int) =~= rects@);
    tuples
}

/// Whether `shown` are exactly the stills `stills`.
pub open spec fn shows_stills(shown: Seq<Still>, stills: Seq<(Rect, String)>) -> bool {
    &&& shown.len() == stills.len()
    &&& forall|i: int|
        0 <= i < stills.len() ==> (#[trigger] shown[i]).rect == geometry::tuple_of(stills[i].0)
            && shown[i].url@ == stills[i].1@
}

/// Some stills as the page reads them.
fn still_views(stills: &Vec<(Rect, String)>) -> (shown: Vec<Still>)
    ensures
        shows_stills(shown@, stills@),
{
    let mut shown: Vec<Still> = Vec::with_capacity(stills.len());
    let mut i: usize = 0;
    while i < stills.len()
        invariant
            i <= stills.len(),
            shown.len() == i,
            forall|k: int|
                0 <= k < i ==> (#[trigger] shown@[k]).rect == geometry::tuple_of(stills@[k].0)
                    && shown@[k].url@ == stills@[k].1@,
        decreases stills.len() - i,
    {
        shown.push(Still { rect: as_tuple(stills[i].0), url: stills[i].1.clone() });
        i += 1;
    }
    shown
}

/// The state as the page reads it. The monitors and the armed type are of
/// `Placement` alone. The overlay is frozen while there are stills, and the
/// probe goes out with the first of them, once.
pub fn state_payload(
    state: OverlayState,
    origin: (i32, i32),
    monitors: &[Rect],
    armed: Option<AreaType>,
    stills: &Vec<(Rect, String)>,
    probe: &mut Option<u64>,
) -> (payload: StatePayload)
    ensures
        payload.state@ == state_text(state),
        payload.origin == origin,
        payload.monitors@ == if state == OverlayState::Placement {
            tuples_of(monitors@)
        } else {
            Seq::empty()
        },
        payload.armed is Some == (state == OverlayState::Placement && armed is Some),
        payload.armed is Some ==> payload.armed->0@ == kind_text(armed->0),
        payload.frozen == (stills@.len() > 0),
        shows_stills(payload.stills@, stills@),
        payload.freeze_probe == if stills@.len() > 0 {
            *old(probe)
        } else {
            None
        },
        *final(probe) == if stills@.len() > 0 {
            None
        } else {
            *old(probe)
        },
{
    let placing = state == OverlayState::Placement;
    let monitors = if placing {
        rect_tuples(monitors)
    } else {
        Vec::new()
    };
    let armed = match armed {
        Some(kind) => if placing {
            Some(kind_name(kind))
        } else {
            None
        },
        None => None,
    };
    let frozen = stills.len() > 0;
    let freeze_probe = if frozen {
        probe.take()
    } else {
        None
    };
    StatePayload {
        state: state_name(state),
        origin,
        monitors,
        armed,
        frozen,
        stills: still_views(stills),
        freeze_probe,
    }
}

/// An area as it stands: its bounds, and where its close control is.
#[derive(Debug, Clone, Copy, PartialEq, Eq)]
pub struct AreaShown {
    pub id: AreaId,
    pub bounds: Rect,
    pub close: Rect,
    pub layer: Layer,
    pub kind: AreaType,
}

/// An area as the page reads it.
#[derive(Debug, PartialEq, Eq)]
pub struct AreaPayload {
    pub id: u64,
    pub rect: (i32, i32, u32, u32),
    /// Where the close control is.
    pub close: (i32, i32, u32, u32),
    pub layer: &'static str,
    pub kind: &'static str,
}

/// The areas as the page reads them.
#[derive(Debug, PartialEq, Eq)]
pub struct AreasPayload {
    pub areas: Vec<AreaPayload>,
}

/// Whether `payload` is exactly the area `area`.
pub open spec fn shows_area(payload: AreaPayload, area: AreaShown) -> bool {
    &&& payload.id == area.id.raw
    &&& payload.rect == geometry::tuple_of(area.bounds)
    &&& payload.close == geometry::tuple_of(area.close)
    &&& payload.layer@ == layer_text(area.layer)
    &&& payload.kind@ == kind_text(area.kind)
}

/// The areas as the page reads them, in the order they are given.
pub fn areas_payload(areas: &[AreaShown]) -> (payload: AreasPayload)
    ensures
        payload.areas@.len() == areas@.len(),
        forall|i: int| 0 <= i < areas@.len() ==> shows_area(#[trigger] payload.areas@[i], areas@[i]),
{
    let mut payloads: Vec<AreaPayload> = Vec::with_capacity(areas.len());
    let mut i: usize = 0;
    while i < areas.len()
        invariant
            i <= areas.len(),
            payloads.len() == i,
            forall|k: int| 0 <= k < i ==> shows_area(#[trigger] payloads@[k], areas@[k]),
        decreases areas.len() - i,
    {
        let area = areas[i];
        payloads.push(
            AreaPayload {
                id: area.id.get(),
                rect: as_tuple(area.bounds),
                close: as_tuple(area.close),
                layer: layer_name(area.layer),
                kind: kind_name(area.kind),
            },
        );
        i += 1;
    }
    AreasPayload { areas: payloads }
}

/// An acknowledgement as the page reads it.
#[derive(Debug, Clone, Copy, PartialEq, Eq)]
pub struct FlashPayload {
    pub id: u64,
    /// Differs from one acknowledgement to the next, so that the page shows two
    /// in a row as two.
    pub nonce: u64,
}

/// The next nonce.
pub open spec fn after_nonce(nonce: u64) -> u64 {
    if nonce == u64::MAX {
        0
    } else {
        (nonce + 1) as u64
    }
}

/// An acknowledgement for an area.
pub fn flash_payload(nonce: &mut u64, id: AreaId) -> (payload: FlashPayload)
    ensures
        payload == (FlashPayload { id: id.raw, nonce: *old(nonce) }),
        *final(nonce) == after_nonce(*old(nonce)),
{
    let taken: u64 = *nonce;
    *nonce = taken.wrapping_add(1);
    FlashPayload { id: id.get(), nonce: taken }
}

/// Where an area's picture is, as the page reads it.
#[derive(Debug, PartialEq, Eq)]
pub struct PinPayload {
    pub id: u64,
    pub url: String,
}

/// The monitor the pointer is on, as the page reads it.
#[derive(Debug, Clone, Copy, PartialEq, Eq)]
pub struct ActiveMonitorPayload {
    pub index: Option<usize>,
}

/// What is hovered, as the page reads it.
#[derive(Debug, Clone, Copy, PartialEq, Eq)]
pub struct HoverPayload {
    pub id: Option<u64>,
    /// Whether only the area's chrome is.
    pub chrome_only: bool,
}

// ---------------------------------------------------------------------------
// Laws.
// ---------------------------------------------------------------------------

/// `Esc` backs out of exactly one thing: of the menu, the drag, the armed type
/// and the state, whatever lies outside of the innermost is kept.
pub proof fn law_esc_backs_out_of_one_thing(state: OverlayState, hook: HookState, has_areas: bool)
    requires
        state == overlay_state::collapsed(state, has_areas),
    ensures
        ({
            let after = escaped_hook(hook);
            let entered = escaped_state(state, hook, has_areas);
            &&& hook.menu is Some ==> after.menu is None && after.dragging == hook.dragging
                && after.armed == hook.armed && entered == state
            &&& hook.menu is None && hook.dragging ==> !after.dragging && after.armed == hook.armed
                && entered == state
            &&& hook.menu is None && !hook.dragging && hook.armed is Some ==> after.armed is None
                && entered == state
            &&& hook.menu is None && !hook.dragging && hook.armed is None ==> after == hook
        }),
{
}

/// A cancelled drag keeps its arming, so that a misdrawn rectangle can be drawn
/// again.
pub proof fn law_a_cancelled_drag_stays_armed(hook: HookState)
    requires
        hook.menu is None,
        hook.dragging,
    ensures
        escaped_hook(hook).armed == hook.armed,
        rung(escaped_hook(hook)) == if hook.armed is Some {
            Rung::Armed
        } else {
            Rung::State
        },
{
}

/// `Esc`, pressed four times, leaves `Placement` with nothing open, nothing
/// dragged and nothing armed.
pub proof fn law_esc_leads_out_of_placement(hook: HookState, has_areas: bool)
    ensures
        ({
            let once = escaped_hook(hook);
            let twice = escaped_hook(once);
            let thrice = escaped_hook(twice);
            &&& rung(thrice) == Rung::State
            &&& escaped_state(OverlayState::Placement, thrice, has_areas) == if has_areas {
                OverlayState::Living
            } else {
                OverlayState::Hidden
            }
        }),
{
}

/// No effect comes twice, and the page is told the state whichever is entered:
/// before the window goes, and after it came.
pub proof fn law_every_state_is_told(state: OverlayState)
    ensures
        effects_of(state).no_duplicates(),
        effects_of(state).contains(Effect::EmitState),
        effects_of(state)[0] == Effect::Thaw,
        effects_of(state).contains(Effect::Show) == (state != OverlayState::Hidden),
        effects_of(state).contains(Effect::Hide) == (state == OverlayState::Hidden),
{
    let effects = effects_of(state);
    if state == OverlayState::Hidden {
        assert(effects[2] == Effect::EmitState && effects[4] == Effect::Hide);
    } else {
        assert(effects[4] == Effect::EmitState && effects[2] == Effect::Show);
    }
}

/// Removing areas never leaves the overlay up with nothing on it.
pub proof fn law_an_empty_overlay_is_hidden(state: OverlayState)
    ensures
        overlay_state::collapsed(state, false) != OverlayState::Living,
        overlay_state::collapsed(overlay_state::collapsed(state, false), false)
            == overlay_state::collapsed(state, false),
{
}

/// Names are distinct: of states, of area types, and of layers.
pub proof fn law_names_are_distinct()
    ensures
        forall|a: OverlayState, b: OverlayState|
            #[trigger] state_text(a) == #[trigger] state_text(b) ==> a == b,
        forall|a: AreaType, b: AreaType|
            #[trigger] kind_text(a) == #[trigger] kind_text(b) ==> a == b,
        forall|a: Layer, b: Layer| #[trigger] layer_text(a) == #[trigger] layer_text(b) ==> a == b,
{
    reveal_strlit("hidden");
    reveal_strlit("placement");
    reveal_strlit("living");
    assert("hidden"@[0] == 'h' && "placement"@[0] == 'p' && "living"@[0] == 'l');
    reveal_strlit("default");
    reveal_strlit("screenshot");
    reveal_strlit("record");
    reveal_strlit("ocr");
    reveal_strlit("upscale");
    reveal_strlit("analysis");
    reveal_strlit("filter");
    assert("default"@[0] == 'd' && "screenshot"@[0] == 's' && "record"@[0] == 'r');
    assert("ocr"@[0] == 'o' && "upscale"@[0] == 'u' && "analysis"@[0] == 'a');
    assert("filter"@[0] == 'f');
    reveal_strlit("front");
    reveal_strlit("auto");
    reveal_strlit("back");
    assert("front"@[0] == 'f' && "auto"@[0] == 'a' && "back"@[0] == 'b');
}

/// Two acknowledgements in a row differ.
pub proof fn law_two_flashes_differ(nonce: u64)
    ensures
        after_nonce(nonce) != nonce,
{
}

/// Reading the same monitors again is no change, as long as every scale factor is
/// a number.
pub proof fn law_a_steady_desktop_does_not_change(monitors: Seq<Monitor>)
    requires
        forall|i: int| 0 <= i < monitors.len() ==> !is_nan((#[trigger] monitors[i]).scale),
    ensures
        same_monitors(monitors, monitors),
{
}

/// After the scale of the first monitor was tampered with, reading any monitors
/// of which the first does not have that scale is a change.
pub proof fn law_a_perturbed_scale_is_noticed(monitors: Seq<Monitor>, fresh: Seq<Monitor>)
    requires
        monitors.len() > 0,
        fresh.len() > 0 ==> fresh[0].scale != PERTURBED_SCALE,
    ensures
        !same_monitors(perturbed_scale(monitors), fresh),
{
    if fresh.len() > 0 {
        assert(!same_monitor(perturbed_scale(monitors)[0], fresh[0]));
    }
}

/// Entering a state does what the state is for: what is hidden is told, let go and hidden;
/// what is shown is shown, hooked in its mode, and told of the areas; the warm captures run
/// in `Placement` alone, and nothing stays frozen.
pub proof fn law_what_entering_a_state_does(state: OverlayState, effects: Vec<Effect>)
    requires
        call_ensures(apply, (state,), effects),
    ensures
        state == OverlayState::Hidden ==> effects@ == seq![
            Effect::Thaw,
            Effect::SyncWarm { placing: false },
            Effect::EmitState,
            Effect::Exit,
            Effect::Hide,
        ],
        state != OverlayState::Hidden ==> effects@ == seq![
            Effect::Thaw,
            Effect::SyncWarm { placing: state == OverlayState::Placement },
            Effect::Show,
            if state == OverlayState::Placement {
                Effect::Enter
            } else {
                Effect::EnterLiving
            },
            Effect::EmitState,
            Effect::EmitAreas,
        ],
{
    if state != OverlayState::Hidden {
        assert(effects@ =~= seq![
            Effect::Thaw,
            Effect::SyncWarm { placing: state == OverlayState::Placement },
            Effect::Show,
            if state == OverlayState::Placement {
                Effect::Enter
            } else {
                Effect::EnterLiving
            },
            Effect::EmitState,
            Effect::EmitAreas,
        ]);
    }
}

/// A page that has loaded is told the state and the areas.
pub proof fn law_a_page_that_loads_is_told(effects: Vec<Effect>)
    requires
        call_ensures(overlay_request_state, (), effects),
    ensures
        effects@ == seq![Effect::EmitState, Effect::EmitAreas],
{
}

/// The overlay is where the event leads, and that state is the one that is entered.
pub proof fn law_an_event_is_followed(
    cell: &mut OverlayState,
    event: Event,
    has_areas: bool,
    entered: OverlayState,
    led: OverlayState,
)
    requires
        call_ensures(drive, (cell, event, has_areas), entered),
        call_ensures(next, (*old(cell), event, has_areas), led),
    ensures
        *final(cell) == led,
        entered == led,
{
}

/// A summon brings `Placement`, from wherever; the hotkey goes back and forth.
pub proof fn law_summon_and_hotkey(
    summoned: &mut OverlayState,
    has_areas: bool,
    up: OverlayState,
    toggled: &mut OverlayState,
    over: OverlayState,
)
    requires
        call_ensures(summon, (summoned, has_areas), up),
        call_ensures(toggle, (toggled, has_areas), over),
    ensures
        up == OverlayState::Placement,
        *final(summoned) == OverlayState::Placement,
        *final(toggled) == over,
        over == OverlayState::Placement <==> *old(toggled) != OverlayState::Placement,
        *old(toggled) == OverlayState::Placement ==> over == if has_areas {
            OverlayState::Living
        } else {
            OverlayState::Hidden
        },
{
}

/// `Esc` closes the menu first and only that; then it cancels the drag and drops its frame,
/// then it disarms, and only with none of these does it leave `Placement`.
pub proof fn law_what_esc_does(
    cell: &mut OverlayState,
    hook: &mut HookState,
    pre: &mut Precapture,
    has_areas: bool,
    actions: &mut Vec<Action>,
    entered: Option<OverlayState>,
)
    requires
        call_ensures(escape, (cell, hook, pre, has_areas, actions), entered),
        *old(cell) == OverlayState::Placement,
    ensures
        old(hook).menu is Some ==> {
            &&& *final(hook) == (HookState { menu: None, ..*old(hook) })
            &&& *final(cell) == OverlayState::Placement
            &&& entered is None
            &&& *final(pre) == *old(pre)
            &&& final(actions)@ == old(actions)@.push(Action::EmitMenu)
        },
        old(hook).menu is None ==> final(actions)@ == old(actions)@ && entered == Some(
            *final(cell),
        ),
        old(hook).menu is None && old(hook).dragging ==> {
            &&& *final(hook) == (HookState { dragging: false, gesture: None, ..*old(hook) })
            &&& *final(cell) == OverlayState::Placement
            &&& final(pre).held is None
            &&& final(pre).target is None
        },
        old(hook).menu is None && !old(hook).dragging ==> *final(pre) == *old(pre),
        old(hook).menu is None && !old(hook).dragging && old(hook).armed is Some ==> {
            &&& *final(hook) == (HookState { armed: None, ..*old(hook) })
            &&& *final(cell) == OverlayState::Placement
        },
        old(hook).menu is None && !old(hook).dragging && old(hook).armed is None ==> {
            &&& *final(hook) == *old(hook)
            &&& *final(cell) == if has_areas {
                OverlayState::Living
            } else {
                OverlayState::Hidden
            }
        },
{
    if old(hook).menu is Some {
        assert(final(actions)@ =~= old(actions)@.push(Action::EmitMenu));
    } else {
        assert(final(actions)@ =~= old(actions)@);
    }
}

/// When the last area goes in `Living` the overlay hides and that is entered; in any other
/// case it stays where it is.
pub proof fn law_the_last_area_takes_the_overlay_along(
    cell: &mut OverlayState,
    removed: bool,
    has_areas: bool,
    dismissed: Dismissed,
)
    requires
        call_ensures(dismiss_area, (cell, removed, has_areas), dismissed),
    ensures
        dismissed.forget <==> removed,
        removed && !has_areas && *old(cell) == OverlayState::Living ==> *final(cell)
            == OverlayState::Hidden && dismissed.entered == Some(OverlayState::Hidden),
        !(removed && !has_areas && *old(cell) == OverlayState::Living) ==> *final(cell) == *old(cell)
            && dismissed.entered is None,
{
}

/// An empty `Living` hides, and nothing else is touched.
pub proof fn law_an_empty_living_hides(
    cell: &mut OverlayState,
    has_areas: bool,
    entered: Option<OverlayState>,
)
    requires
        call_ensures(collapse_living_if_empty, (cell, has_areas), entered),
    ensures
        *old(cell) == OverlayState::Living && !has_areas ==> *final(cell) == OverlayState::Hidden
            && entered == Some(OverlayState::Hidden),
        *old(cell) != OverlayState::Living || has_areas ==> *final(cell) == *old(cell) && entered
            is None,
{
}

/// Deleting the area under the pointer takes its menu along and has the page told; where
/// none was deleted nothing happens.
pub proof fn law_a_deleted_area_takes_its_menu_along(
    hook: &mut HookState,
    removed: bool,
    actions: &mut Vec<Action>,
)
    requires
        call_ensures(overlay_dismiss_focused, (hook, removed, actions), ()),
    ensures
        removed ==> *final(hook) == (HookState { menu: None, ..*old(hook) }),
        removed ==> final(actions)@ == if old(hook).menu is Some {
            old(actions)@.push(Action::EmitMenu).push(Action::EmitAreas)
        } else {
            old(actions)@.push(Action::EmitAreas)
        },
        !removed ==> *final(hook) == *old(hook) && final(actions)@ == old(actions)@,
{
    if removed {
        assert(final(actions)@ =~= if old(hook).menu is Some {
            old(actions)@.push(Action::EmitMenu).push(Action::EmitAreas)
        } else {
            old(actions)@.push(Action::EmitAreas)
        });
    }
}

/// A new area of a type that leaves `Placement` leaves it for `Living`, and one of any other
/// type stays.
pub proof fn law_what_a_new_area_does_to_the_overlay(
    cell: &mut OverlayState,
    exits_placement: bool,
    has_areas: bool,
    entered: OverlayState,
)
    requires
        call_ensures(area_created, (cell, exits_placement, has_areas), entered),
        *old(cell) == OverlayState::Placement,
    ensures
        *final(cell) == entered,
        exits_placement && has_areas ==> entered == OverlayState::Living,
        exits_placement && !has_areas ==> entered == OverlayState::Hidden,
        !exits_placement ==> entered == OverlayState::Placement,
{
}

/// A key arms the type it names, in `Placement` and nowhere else, and nothing else of the
/// hook changes; a name that no key has is refused by that name.
pub proof fn law_a_key_arms_what_it_names(
    state: OverlayState,
    hook: &mut HookState,
    name: &str,
    result: Result<(), String>,
)
    requires
        call_ensures(overlay_arm_type, (state, hook, name), result),
    ensures
        ({
            let named = if name@ == "screenshot"@ {
                Some(AreaType::Screenshot)
            } else if name@ == "filter"@ {
                Some(AreaType::Filter)
            } else {
                None
            };
            &&& named is Some && state == OverlayState::Placement ==> result is Ok && *final(hook)
                == (HookState { armed: named, ..*old(hook) })
            &&& named is Some && state != OverlayState::Placement ==> *final(hook) == *old(hook)
                && (result matches Err(error) && error@ == "arming is only meaningful in placement"@)
            &&& named is None ==> *final(hook) == *old(hook) && (result matches Err(error) && error@
                == name@ + " is not an armable area type"@)
        }),
{
    law_names_are_distinct();
    assert(kind_text(AreaType::Screenshot) == "screenshot"@);
    assert(kind_text(AreaType::Filter) == "filter"@);
    assert(has_key(AreaType::Screenshot) && has_key(AreaType::Filter));
}

/// The type a name arms is the one the page has that name for, if a key arms it.
pub proof fn law_a_name_arms_its_type(
    name: &str,
    kind: Option<AreaType>,
    named: &'static str,
)
    requires
        call_ensures(armable_type, (name,), kind),
        kind is Some ==> call_ensures(kind_name, (kind->0,), named),
    ensures
        kind is Some ==> named@ == name@,
        kind is Some <==> name@ == "screenshot"@ || name@ == "filter"@,
        kind is Some ==> kind == Some(AreaType::Screenshot) || kind == Some(AreaType::Filter),
{
    assert(kind_text(AreaType::Screenshot) == "screenshot"@);
    assert(kind_text(AreaType::Filter) == "filter"@);
    assert(has_key(AreaType::Screenshot) && has_key(AreaType::Filter));
}

/// The page's names are those of the things themselves.
pub proof fn law_the_pages_names(
    state: OverlayState,
    state_said: &'static str,
    kind: AreaType,
    kind_said: &'static str,
    layer: Layer,
    layer_said: &'static str,
)
    requires
        call_ensures(state_name, (state,), state_said),
        call_ensures(kind_name, (kind,), kind_said),
        call_ensures(layer_name, (layer,), layer_said),
    ensures
        state == OverlayState::Hidden <==> state_said@ == "hidden"@,
        state == OverlayState::Placement <==> state_said@ == "placement"@,
        state == OverlayState::Living <==> state_said@ == "living"@,
        kind == AreaType::Default <==> kind_said@ == "default"@,
        kind == AreaType::Screenshot <==> kind_said@ == "screenshot"@,
        kind == AreaType::Record <==> kind_said@ == "record"@,
        kind == AreaType::Ocr <==> kind_said@ == "ocr"@,
        kind == AreaType::Upscale <==> kind_said@ == "upscale"@,
        kind == AreaType::Analysis <==> kind_said@ == "analysis"@,
        kind == AreaType::Filter <==> kind_said@ == "filter"@,
        layer == Layer::Front <==> layer_said@ == "front"@,
        layer == Layer::Auto <==> layer_said@ == "auto"@,
        layer == Layer::Back <==> layer_said@ == "back"@,
{
    law_names_are_distinct();
    assert(state_text(OverlayState::Hidden) == "hidden"@ && state_text(OverlayState::Placement)
        == "placement"@ && state_text(OverlayState::Living) == "living"@);
    assert(kind_text(AreaType::Default) == "default"@ && kind_text(AreaType::Screenshot)
        == "screenshot"@ && kind_text(AreaType::Record) == "record"@ && kind_text(AreaType::Ocr)
        == "ocr"@);
    assert(kind_text(AreaType::Upscale) == "upscale"@ && kind_text(AreaType::Analysis)
        == "analysis"@ && kind_text(AreaType::Filter) == "filter"@);
    assert(layer_text(Layer::Front) == "front"@ && layer_text(Layer::Auto) == "auto"@
        && layer_text(Layer::Back) == "back"@);
}

/// The frozen view is toggled in `Placement` alone: a frozen one thaws, and any other is
/// frozen.
pub proof fn law_freezing_goes_back_and_forth(
    state: OverlayState,
    frozen: bool,
    toggle: FreezeToggle,
)
    requires
        call_ensures(toggle_freeze, (state, frozen), toggle),
    ensures
        toggle is Thaw <==> state == OverlayState::Placement && frozen,
        toggle is Freeze <==> state == OverlayState::Placement && !frozen,
        toggle matches FreezeToggle::Ignore(line) ==> line@
            == "overlay: freeze toggle ignored outside Placement (state "@ + (if state
            == OverlayState::Hidden {
            "Hidden"@
        } else {
            "Living"@
        }) + ")"@,
{
}

/// A freeze is told to the page exactly where it published stills, and the log says what it
/// cost, monitor by monitor, or why there are none.
pub proof fn law_a_freeze_is_told_if_there_is_one(
    outcome: Result<FreezeReport, String>,
    in_scope: usize,
    desktop: usize,
    frozen: Frozen,
    i: int,
)
    requires
        call_ensures(froze, (&outcome, in_scope, desktop), frozen),
    ensures
        frozen.emit <==> outcome is Ok,
        outcome matches Err(skipped) ==> frozen.lines@.len() == 1 && frozen.lines@[0]@
            == "freeze: no stills published — "@ + skipped@,
        outcome matches Ok(report) ==> {
            &&& frozen.lines@.len() == 1 + report.per_monitor@.len()
            &&& frozen.lines@[0]@ == "freeze: froze "@ + text::decimal(report.count as nat) + "/"@
                + text::decimal(in_scope as nat) + " monitor(s) in scope, "@ + text::decimal(
                report.count as nat,
            ) + " of "@ + text::decimal(desktop as nat) + " on the desktop, in "@ + text::decimal(
                report.elapsed_ms as nat,
            ) + " ms — warm "@ + text::decimal(report.warm_served as nat) + "/"@ + text::decimal(
                report.count as nat,
            ) + ", slowest monitor: capture "@ + text::decimal(report.slowest_capture_ms as nat)
                + " ms, encode "@ + text::decimal(report.slowest_encode_ms as nat) + " ms"@
            &&& 0 <= i < report.per_monitor@.len() ==> {
                let cost = report.per_monitor@[i];
                frozen.lines@[i + 1]@ == "freeze:   "@ + text::decimal(cost.rect.size.width as nat)
                    + "x"@ + text::decimal(cost.rect.size.height as nat) + " at ("@
                    + text::signed_decimal(cost.rect.origin.x as int) + ", "@
                    + text::signed_decimal(cost.rect.origin.y as int) + ") — capture "@
                    + text::decimal(cost.capture_ms as nat) + " ms, encode "@ + text::decimal(
                    cost.encode_ms as nat,
                ) + " ms, "@ + text::decimal(cost.encoded_bytes as nat) + " bytes, "@
                    + if cost.served_warm {
                    "warm"@
                } else {
                    "cold"@
                }
            }
        },
{
    let lines = said(frozen.lines@);
    assert(lines.len() == frozen.lines@.len());
    assert(lines.len() > 0 ==> lines[0] == frozen.lines@[0]@);
    if outcome is Ok && 0 <= i < outcome->Ok_0.per_monitor@.len() {
        assert(lines[i + 1] == frozen.lines@[i + 1]@);
        assert(lines[i + 1] == cost_text(outcome->Ok_0.per_monitor@[i]));
    }
}

/// The page reads the state by its name and where its window is; in `Placement`, and there
/// alone, every monitor to outline and the type that is armed.
pub proof fn law_what_the_page_reads_of_the_state(
    state: OverlayState,
    origin: (i32, i32),
    monitors: &[Rect],
    armed: Option<AreaType>,
    stills: &Vec<(Rect, String)>,
    probe: &mut Option<u64>,
    payload: StatePayload,
    state_said: &'static str,
    kind_said: &'static str,
    i: int,
)
    requires
        call_ensures(state_payload, (state, origin, monitors, armed, stills, probe), payload),
        call_ensures(state_name, (state,), state_said),
        armed is Some ==> call_ensures(kind_name, (armed->0,), kind_said),
    ensures
        payload.state@ == state_said@,
        payload.origin == origin,
        state == OverlayState::Placement ==> payload.monitors@.len() == monitors@.len(),
        state == OverlayState::Placement && 0 <= i < monitors@.len() ==> payload.monitors@[i] == (
            monitors@[i].origin.x,
            monitors@[i].origin.y,
            monitors@[i].size.width,
            monitors@[i].size.height,
        ),
        state == OverlayState::Placement && armed is Some ==> payload.armed is Some
            && payload.armed->0@ == kind_said@,
        state == OverlayState::Placement && armed is None ==> payload.armed is None,
        state != OverlayState::Placement ==> payload.monitors@.len() == 0 && payload.armed is None,
{
}

/// The page is frozen exactly while there are stills, reads each where it goes and at its
/// address, and hears once when the freeze was asked for.
pub proof fn law_what_the_page_reads_of_a_freeze(
    state: OverlayState,
    origin: (i32, i32),
    monitors: &[Rect],
    armed: Option<AreaType>,
    stills: &Vec<(Rect, String)>,
    probe: &mut Option<u64>,
    payload: StatePayload,
    i: int,
)
    requires
        call_ensures(state_payload, (state, origin, monitors, armed, stills, probe), payload),
    ensures
        payload.frozen <==> stills@.len() > 0,
        payload.stills@.len() == stills@.len(),
        0 <= i < stills@.len() ==> {
            &&& payload.stills@[i].rect == (
                stills@[i].0.origin.x,
                stills@[i].0.origin.y,
                stills@[i].0.size.width,
                stills@[i].0.size.height,
            )
            &&& payload.stills@[i].url@ == stills@[i].1@
        },
        stills@.len() > 0 ==> payload.freeze_probe == *old(probe) && *final(probe) is None,
        stills@.len() == 0 ==> payload.freeze_probe is None && *final(probe) == *old(probe),
{
}

/// The page reads each area as it is: its number, its bounds, its close control, its layer
/// and its type, in the order in which the areas are given.
pub proof fn law_what_the_page_reads_of_the_areas(
    areas: &[AreaShown],
    payload: AreasPayload,
    i: int,
    layer_said: &'static str,
    kind_said: &'static str,
)
    requires
        call_ensures(areas_payload, (areas,), payload),
        0 <= i < areas@.len(),
        call_ensures(layer_name, (areas@[i].layer,), layer_said),
        call_ensures(kind_name, (areas@[i].kind,), kind_said),
    ensures
        payload.areas@.len() == areas@.len(),
        payload.areas@[i].id == areas@[i].id.raw,
        payload.areas@[i].rect == (
            areas@[i].bounds.origin.x,
            areas@[i].bounds.origin.y,
            areas@[i].bounds.size.width,
            areas@[i].bounds.size.height,
        ),
        payload.areas@[i].close == (
            areas@[i].close.origin.x,
            areas@[i].close.origin.y,
            areas@[i].close.size.width,
            areas@[i].close.size.height,
        ),
        payload.areas@[i].layer@ == layer_said@,
        payload.areas@[i].kind@ == kind_said@,
{
    assert(shows_area(payload.areas@[i], areas@[i]));
}

/// Two acknowledgements of one area differ, and each is of its area.
pub proof fn law_an_acknowledgement_is_new(
    nonce: &mut u64,
    id: AreaId,
    first: FlashPayload,
    later: &mut u64,
    second: FlashPayload,
)
    requires
        call_ensures(flash_payload, (nonce, id), first),
        *old(later) == *final(nonce),
        call_ensures(flash_payload, (later, id), second),
    ensures
        first.id == id.raw,
        second.id == id.raw,
        first.nonce != second.nonce,
{
}

/// A visible overlay is fitted to the desktop where it does not fit, and left alone where it
/// does, or is hidden.
pub proof fn law_the_overlay_is_fitted_where_it_has_to_be(
    visible: bool,
    current: Rect,
    desired: Rect,
    write: Option<Rect>,
    needed: bool,
)
    requires
        call_ensures(sync_bounds, (visible, current, desired), write),
        call_ensures(needs_write, (current, desired), needed),
    ensures
        needed <==> current != desired,
        write is Some <==> visible && current != desired,
        write is Some ==> write->0 == desired,
{
}

/// The overlay covers the whole desktop, and without one that is an error.
pub proof fn law_the_overlay_covers_the_desktop(
    desktop: Option<Rect>,
    bounds: Result<Rect, String>,
)
    requires
        call_ensures(desired_bounds, (desktop,), bounds),
    ensures
        desktop is Some ==> bounds == Ok::<Rect, String>(desktop->0),
        desktop is None ==> bounds is Err,
{
}

/// What is remembered of the monitors is what was read last, and a change is exactly a
/// different number of them, or one with other bounds or another scale.
pub proof fn law_a_change_of_monitors_is_noticed(
    cache: &mut Vec<Monitor>,
    fresh: Vec<Monitor>,
    changed: bool,
    i: int,
)
    requires
        call_ensures(refresh_monitor_cache, (cache, Some(fresh)), changed),
        0 <= i < fresh@.len(),
    ensures
        changed ==> final(cache)@ == fresh@,
        !changed ==> final(cache)@ == old(cache)@,
        fresh@.len() != old(cache)@.len() ==> changed,
        fresh@.len() == old(cache)@.len() && fresh@[i].bounds != old(cache)@[i].bounds ==> changed,
        !changed ==> fresh@[i].bounds == old(cache)@[i].bounds && (fresh@[i].scale
            == old(cache)@[i].scale || (fresh@[i].scale % 0x8000_0000_0000_0000 == 0
            && old(cache)@[i].scale % 0x8000_0000_0000_0000 == 0)),
        fresh@ == old(cache)@ && (forall|k: int|
            0 <= k < fresh@.len() ==> (#[trigger] fresh@[k]).scale % 0x8000_0000_0000_0000
                <= 0x7ff0_0000_0000_0000) ==> !changed,
        fresh@.len() == old(cache)@.len() && fresh@[i].scale % 0x8000_0000_0000_0000
            > 0x7ff0_0000_0000_0000 ==> changed,
{
    if !changed {
        assert(same_monitor(old(cache)@[i], fresh@[i]));
    }
    if fresh@.len() == old(cache)@.len() && !changed {
        assert(same_monitor(old(cache)@[i], fresh@[i]));
    }
}

/// Monitors that could not be read change nothing, and what changed is passed on to the warm
/// captures with whether the overlay is in `Placement`.
pub proof fn law_warm_captures_hear_of_a_change(
    cache: &mut Vec<Monitor>,
    fresh: Option<Vec<Monitor>>,
    state: OverlayState,
    resync: Option<bool>,
    alone: &mut Vec<Monitor>,
    changed: bool,
)
    requires
        call_ensures(sync_monitors, (cache, fresh, state), resync),
        old(alone)@ == old(cache)@,
        call_ensures(refresh_monitor_cache, (alone, fresh), changed),
    ensures
        fresh is None ==> !changed && final(alone)@ == old(alone)@,
        final(cache)@ == final(alone)@,
        resync is Some <==> changed,
        resync is Some ==> resync->0 == (state == OverlayState::Placement),
{
}

/// The monitors are where they are remembered to be, and the one at a point is the first
/// that contains it.
pub proof fn law_where_the_monitors_are(
    cache: &Vec<Monitor>,
    rects: Vec<Rect>,
    point: Point,
    index: Option<usize>,
    i: int,
)
    requires
        call_ensures(monitor_rects, (cache,), rects),
        call_ensures(monitor_index_at, (cache, point), index),
        cache@.len() <= usize::MAX,
        0 <= i < cache@.len(),
    ensures
        rects@.len() == cache@.len(),
        rects@[i] == cache@[i].bounds,
        index is None ==> !cache@[i].bounds.holds(point),
        index matches Some(found) ==> found < cache@.len() && cache@[found as int].bounds.holds(
            point,
        ) && (i < found ==> !cache@[i].bounds.holds(point)),
{
    let all = rects_of(cache@);
    search::lemma_first_from(all, geometry::holding(point), 0);
    assert(geometry::holding(point)(all[i]) == cache@[i].bounds.holds(point));
    if index is Some {
        assert(geometry::holding(point)(all[index->0 as int]));
    }
}

/// Chrome at a point is placed on the monitor that is there, between monitors on the
/// desktop, and without one at the point itself.
pub proof fn law_where_chrome_is_placed(
    monitors: &[Rect],
    desktop: Option<Rect>,
    point: Point,
    bounds: Rect,
    i: int,
)
    requires
        call_ensures(monitor_bounds_at, (monitors, desktop, point), bounds),
        monitors@.len() <= usize::MAX,
    ensures
        0 <= i < monitors@.len() && monitors@[i].holds(point) && (forall|k: int|
            0 <= k < i ==> !(#[trigger] monitors@[k]).holds(point)) ==> bounds == monitors@[i],
        (forall|k: int| 0 <= k < monitors@.len() ==> !(#[trigger] monitors@[k]).holds(point)) ==> {
            &&& desktop is Some ==> bounds == desktop->0
            &&& desktop is None ==> bounds.origin == point && bounds.size.width == 1
                && bounds.size.height == 1
        },
{
    search::lemma_first_from(monitors@, geometry::holding(point), 0);
    if 0 <= i < monitors@.len() {
        assert(geometry::holding(point)(monitors@[i]) == monitors@[i].holds(point));
    }
    match search::first(monitors@, geometry::holding(point)) {
        Some(found) => {
            assert(geometry::holding(point)(monitors@[found as int]));
            assert(monitors@[found as int].holds(point));
        },
        None => {},
    }
}

/// The first monitor's scale is remembered wrong, and what it was and became is told; the
/// others, and where each is, stay; without a monitor nothing happens.
pub proof fn law_one_scale_is_remembered_wrong(
    cache: &mut Vec<Monitor>,
    perturbed: Option<(Rect, u64, u64)>,
    i: int,
)
    requires
        call_ensures(dev_perturb_cached_scale, (cache,), perturbed),
    ensures
        final(cache)@.len() == old(cache)@.len(),
        perturbed is Some <==> old(cache)@.len() > 0,
        perturbed is Some ==> (perturbed->0).0 == old(cache)@[0].bounds && (perturbed->0).1
            == old(cache)@[0].scale && (perturbed->0).2 == final(cache)@[0].scale,
        0 <= i < old(cache)@.len() ==> final(cache)@[i].bounds == old(cache)@[i].bounds,
        0 < i < old(cache)@.len() ==> final(cache)@[i] == old(cache)@[i],
        old(cache)@.len() > 0 ==> final(cache)@[0].scale == PERTURBED_SCALE,
{
}

/// Without a desktop the overlay says what it lacks.
pub proof fn law_a_missing_desktop_is_said(bounds: Result<Rect, String>)
    requires
        call_ensures(desired_bounds, (None::<Rect>,), bounds),
    ensures
        bounds matches Err(error) && error@
            == "No display detected — the overlay needs at least one monitor."@,
{
}

} // verus!
