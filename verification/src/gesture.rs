//! Gestures: what a press on the overlay means, the cursor it shows, and the
//! rectangle it is going to ask for.

use vstd::prelude::*;
use crate::area::{AreaId, AreaType, Handle, Resize};
use crate::geometry::{saturating_difference, Point, Rect};
use crate::geometry;
use crate::menu::{menu_covers, menu_hit, AreaMenu, MenuHit};
use crate::menu;

verus! {

/// A press that has not been released yet.
#[derive(Debug, Clone, Copy, PartialEq, Eq, Structural)]
pub enum Gesture {
    /// Drawing a new area.
    Create,
    /// Moving an area that was at `start`.
    Move { id: AreaId, start: Rect },
    /// Resizing an area that was at `start`.
    Resize { id: AreaId, resize: Resize, start: Rect },
    /// Pressing an area's close control; acts only if released on it.
    Close { id: AreaId, control: Rect },
    /// Pressing a menu row; acts only if released on it.
    MenuItem { hit: MenuHit },
    /// A press that does nothing, swallowed whole.
    Inert,
}

/// The cursor shapes the overlay shows.
#[derive(Debug, Clone, Copy, PartialEq, Eq, Structural)]
pub enum CursorShape {
    Cross,
    Move,
    SizeNS,
    SizeWE,
    SizeNWSE,
    SizeNESW,
    Hand,
    Arrow,
}

/// Every shape, in the order of their snapshot.
pub open spec fn shapes() -> Seq<CursorShape> {
    seq![
        CursorShape::Cross,
        CursorShape::Move,
        CursorShape::SizeNS,
        CursorShape::SizeWE,
        CursorShape::SizeNWSE,
        CursorShape::SizeNESW,
        CursorShape::Hand,
        CursorShape::Arrow,
    ]
}

/// How many shapes there are.
pub const CURSOR_SNAPSHOT_LEN: usize = 8;

/// Every shape, in the order of their snapshot.
pub fn all_shapes() -> (all: [CursorShape; 8])
    ensures
        all@ == shapes(),
        all@.len() == CURSOR_SNAPSHOT_LEN,
{
    [
        CursorShape::Cross,
        CursorShape::Move,
        CursorShape::SizeNS,
        CursorShape::SizeWE,
        CursorShape::SizeNWSE,
        CursorShape::SizeNESW,
        CursorShape::Hand,
        CursorShape::Arrow,
    ]
}

/// The shape shown over a part of an area.
pub open spec fn shape_for(handle: Handle) -> CursorShape {
    match handle {
        Handle::Close => CursorShape::Hand,
        Handle::Body => CursorShape::Move,
        Handle::Resize(resize) => match resize {
            Resize::North | Resize::South => CursorShape::SizeNS,
            Resize::East | Resize::West => CursorShape::SizeWE,
            Resize::NorthWest | Resize::SouthEast => CursorShape::SizeNWSE,
            Resize::NorthEast | Resize::SouthWest => CursorShape::SizeNESW,
        },
    }
}

impl CursorShape {
    /// The place of the shape's snapshot.
    pub fn index(self) -> (index: usize)
        ensures
            index < shapes().len(),
            shapes()[index as int] == self,
    {
        match self {
            CursorShape::Cross => 0,
            CursorShape::Move => 1,
            CursorShape::SizeNS => 2,
            CursorShape::SizeWE => 3,
            CursorShape::SizeNWSE => 4,
            CursorShape::SizeNESW => 5,
            CursorShape::Hand => 6,
            CursorShape::Arrow => 7,
        }
    }

    /// The number of the system's own cursor of the shape.
    pub open spec fn system_number(self) -> u16 {
        match self {
            CursorShape::Cross => 32515,
            CursorShape::Move => 32646,
            CursorShape::SizeNS => 32645,
            CursorShape::SizeWE => 32644,
            CursorShape::SizeNWSE => 32642,
            CursorShape::SizeNESW => 32643,
            CursorShape::Hand => 32649,
            CursorShape::Arrow => 32512,
        }
    }

    /// The number of the system's own cursor of the shape.
    pub fn idc(self) -> (number: u16)
        ensures
            number == self.system_number(),
    {
        match self {
            CursorShape::Cross => 32515,
            CursorShape::Move => 32646,
            CursorShape::SizeNS => 32645,
            CursorShape::SizeWE => 32644,
            CursorShape::SizeNWSE => 32642,
            CursorShape::SizeNESW => 32643,
            CursorShape::Hand => 32649,
            CursorShape::Arrow => 32512,
        }
    }

    /// The shape's name, as the log has it.
    pub open spec fn logged(self) -> Seq<char> {
        match self {
            CursorShape::Cross => "Cross"@,
            CursorShape::Move => "Move"@,
            CursorShape::SizeNS => "SizeNS"@,
            CursorShape::SizeWE => "SizeWE"@,
            CursorShape::SizeNWSE => "SizeNWSE"@,
            CursorShape::SizeNESW => "SizeNESW"@,
            CursorShape::Hand => "Hand"@,
            CursorShape::Arrow => "Arrow"@,
        }
    }

    /// What the log says where the shape could not be loaded.
    pub fn unloaded_line(self) -> (line: String)
        ensures
            line@ == "placement: could not load the "@ + self.logged()
                + " cursor; leaving the system cursor as-is"@,
    {
        let mut line = "placement: could not load the ".to_owned();
        line.append(
            match self {
                CursorShape::Cross => "Cross",
                CursorShape::Move => "Move",
                CursorShape::SizeNS => "SizeNS",
                CursorShape::SizeWE => "SizeWE",
                CursorShape::SizeNWSE => "SizeNWSE",
                CursorShape::SizeNESW => "SizeNESW",
                CursorShape::Hand => "Hand",
                CursorShape::Arrow => "Arrow",
            },
        );
        line.append(" cursor; leaving the system cursor as-is");
        line
    }

    /// The shape shown over a part of an area.
    pub fn for_handle(handle: Handle) -> (shape: Self)
        ensures
            shape == shape_for(handle),
    {
        match handle {
            Handle::Close => CursorShape::Hand,
            Handle::Body => CursorShape::Move,
            Handle::Resize(resize) => match resize {
                Resize::North | Resize::South => CursorShape::SizeNS,
                Resize::East | Resize::West => CursorShape::SizeWE,
                Resize::NorthWest | Resize::SouthEast => CursorShape::SizeNWSE,
                Resize::NorthEast | Resize::SouthWest => CursorShape::SizeNESW,
            },
        }
    }
}

/// The system cursors that one shape stands in for, in `Placement`: the arrow,
/// the text beam, the hourglass, the cross, the upward arrow, the five for sizing
/// and moving, the forbidden sign, the hand, and the one for starting.
pub fn overridden_cursors() -> (numbers: [u32; 13])
    ensures
        numbers@ == seq![
            32512u32,
            32513,
            32514,
            32515,
            32516,
            32642,
            32643,
            32644,
            32645,
            32646,
            32648,
            32649,
            32650,
        ],
{
    [32512, 32513, 32514, 32515, 32516, 32642, 32643, 32644, 32645, 32646, 32648, 32649, 32650]
}

/// No two shapes are drawn by the same cursor.
pub proof fn law_every_shape_has_its_own_cursor(a: CursorShape, b: CursorShape)
    requires
        a.system_number() == b.system_number(),
    ensures
        a == b,
{
}

/// No two places hold the same shape, so a shape's index is its only one.
pub proof fn law_every_shape_has_its_own_index(i: int, j: int)
    requires
        0 <= i < j < shapes().len(),
    ensures
        shapes()[i] != shapes()[j],
{
}

/// The shape shown during a gesture.
pub open spec fn shape_during(gesture: Gesture) -> CursorShape {
    match gesture {
        Gesture::Create | Gesture::Inert => CursorShape::Cross,
        Gesture::Move { .. } => CursorShape::Move,
        Gesture::Resize { resize, .. } => shape_for(Handle::Resize(resize)),
        Gesture::Close { .. } | Gesture::MenuItem { .. } => CursorShape::Hand,
    }
}

/// The shape shown during a gesture.
pub fn gesture_cursor(gesture: Gesture) -> (shape: CursorShape)
    ensures
        shape == shape_during(gesture),
{
    match gesture {
        Gesture::Create => CursorShape::Cross,
        Gesture::Move { .. } => CursorShape::Move,
        Gesture::Resize { resize, .. } => CursorShape::for_handle(Handle::Resize(resize)),
        Gesture::Close { .. } | Gesture::MenuItem { .. } => CursorShape::Hand,
        Gesture::Inert => CursorShape::Cross,
    }
}

// ---------------------------------------------------------------------------
// What is under the pointer.
// ---------------------------------------------------------------------------

/// An area as the pointer meets it: which part of it is under the pointer, if
/// any, and where its close control is.
#[derive(Debug, Clone, Copy, PartialEq, Eq, Structural)]
pub struct AreaProbe {
    pub id: AreaId,
    pub bounds: Rect,
    pub interactive: bool,
    pub handle: Option<Handle>,
    pub control: Rect,
}

/// An area taken hold of.
#[derive(Debug, Clone, Copy, PartialEq, Eq, Structural)]
pub struct Grip {
    pub id: AreaId,
    pub bounds: Rect,
    pub handle: Handle,
    pub control: Rect,
}

/// The grip on a probed area, if the pointer is on it.
pub open spec fn grip_on(probe: AreaProbe) -> Option<Grip> {
    match probe.handle {
        Some(handle) => Some(
            Grip { id: probe.id, bounds: probe.bounds, handle, control: probe.control },
        ),
        None => None,
    }
}

/// Whether an area takes a press in `Living`: an interactive one wherever it is
/// hit, a pass-through one everywhere but on its body, which belongs to the
/// application underneath.
pub open spec fn takes_press(probe: AreaProbe) -> bool {
    probe.handle is Some && (probe.interactive || probe.handle != Some(Handle::Body))
}

/// The grip on the topmost area under the pointer, from `start` down.
pub open spec fn top_grip(areas: Seq<AreaProbe>, start: int) -> Option<Grip>
    decreases areas.len() - start,
{
    if start < 0 || start >= areas.len() {
        None
    } else if areas[start].handle is Some {
        grip_on(areas[start])
    } else {
        top_grip(areas, start + 1)
    }
}

/// The grip on the topmost area that takes a press in `Living`, from `start`
/// down.
pub open spec fn top_living_grip(areas: Seq<AreaProbe>, start: int) -> Option<Grip>
    decreases areas.len() - start,
{
    if start < 0 || start >= areas.len() {
        None
    } else if takes_press(areas[start]) {
        grip_on(areas[start])
    } else {
        top_living_grip(areas, start + 1)
    }
}

/// The grip on the topmost area under the pointer; `areas` runs from the top
/// down.
pub fn area_handle_at(areas: &[AreaProbe]) -> (grip: Option<Grip>)
    ensures
        grip == top_grip(areas@, 0),
{
    let mut i: usize = 0;
    while i < areas.len()
        invariant
            i <= areas.len(),
            top_grip(areas@, 0) == top_grip(areas@, i as int),
        decreases areas.len() - i,
    {
        let probe = areas[i];
        if let Some(handle) = probe.handle {
            return Some(
                Grip { id: probe.id, bounds: probe.bounds, handle, control: probe.control },
            );
        }
        i += 1;
    }
    None
}

/// The grip on the topmost area that takes a press in `Living`; `areas` runs
/// from the top down.
pub fn interactive_area_handle_at(areas: &[AreaProbe]) -> (grip: Option<Grip>)
    ensures
        grip == top_living_grip(areas@, 0),
{
    let mut i: usize = 0;
    while i < areas.len()
        invariant
            i <= areas.len(),
            top_living_grip(areas@, 0) == top_living_grip(areas@, i as int),
        decreases areas.len() - i,
    {
        let probe = areas[i];
        if let Some(handle) = probe.handle {
            if probe.interactive || handle != Handle::Body {
                return Some(
                    Grip { id: probe.id, bounds: probe.bounds, handle, control: probe.control },
                );
            }
        }
        i += 1;
    }
    None
}

// ---------------------------------------------------------------------------
// What a press means.
// ---------------------------------------------------------------------------

/// The gesture that taking hold of an area begins.
pub open spec fn gesture_on(grip: Grip) -> Gesture {
    match grip.handle {
        Handle::Close => Gesture::Close { id: grip.id, control: grip.control },
        Handle::Resize(resize) => Gesture::Resize { id: grip.id, resize, start: grip.bounds },
        Handle::Body => Gesture::Move { id: grip.id, start: grip.bounds },
    }
}

/// The gesture that taking hold of an area begins.
pub fn grip_gesture(grip: Grip) -> (gesture: Gesture)
    ensures
        gesture == gesture_on(grip),
{
    match grip.handle {
        Handle::Close => Gesture::Close { id: grip.id, control: grip.control },
        Handle::Resize(resize) => Gesture::Resize { id: grip.id, resize, start: grip.bounds },
        Handle::Body => Gesture::Move { id: grip.id, start: grip.bounds },
    }
}

/// The gesture a press inside an open menu begins.
pub open spec fn menu_press(menu: AreaMenu, point: Point) -> Gesture {
    match menu::hit_at(menu, point) {
        Some(hit) => Gesture::MenuItem { hit },
        None => Gesture::Inert,
    }
}

/// Whether a point is inside the open menu, if one is open.
pub open spec fn in_menu(menu: Option<AreaMenu>, point: Point) -> bool {
    menu is Some && menu::covers(menu->0, point)
}

/// The gesture a press inside the open menu begins; none for a press outside
/// it.
pub fn menu_gesture(menu: &Option<AreaMenu>, point: Point) -> (gesture: Option<Gesture>)
    ensures
        gesture == if in_menu(*menu, point) {
            Some(menu_press((*menu)->0, point))
        } else {
            None
        },
{
    match menu {
        Some(menu) => if menu_covers(menu, point) {
            match menu_hit(menu, point) {
                Some(hit) => Some(Gesture::MenuItem { hit }),
                None => Some(Gesture::Inert),
            }
        } else {
            None
        },
        None => None,
    }
}

/// What a left press in `Placement` begins. An open menu owns every press: one
/// outside it closes it and does nothing else. Otherwise the area under the
/// pointer is taken hold of, and a press on none draws a new one.
pub open spec fn press_meaning(
    menu: Option<AreaMenu>,
    point: Point,
    grip: Option<Grip>,
) -> Gesture {
    if in_menu(menu, point) {
        menu_press(menu->0, point)
    } else if menu is Some {
        Gesture::Inert
    } else {
        match grip {
            Some(grip) => gesture_on(grip),
            None => Gesture::Create,
        }
    }
}

/// What a left press in `Placement` begins, and whether it closed the menu.
pub fn classify_press(menu: &mut Option<AreaMenu>, point: Point, grip: Option<Grip>) -> (result: (
    Gesture,
    bool,
))
    ensures
        result.0 == press_meaning(*old(menu), point, grip),
        result.1 == (*old(menu) is Some && !in_menu(*old(menu), point)),
        result.1 ==> *final(menu) is None,
        !result.1 ==> *final(menu) == *old(menu),
{
    if let Some(gesture) = menu_gesture(menu, point) {
        return (gesture, false);
    }
    if menu::close_menu(menu) {
        return (Gesture::Inert, true);
    }
    match grip {
        Some(grip) => (grip_gesture(grip), false),
        None => (Gesture::Create, false),
    }
}

// ---------------------------------------------------------------------------
// The rectangle a gesture asks for.
// ---------------------------------------------------------------------------

/// How the rectangle of a gesture is to be worked out.
#[derive(Debug, Clone, Copy, PartialEq, Eq, Structural)]
pub enum GesturePlan {
    /// The rectangle between two corners, snapped to edges unless `free`.
    Draw { anchor: Point, pointer: Point, free: bool },
    /// `start` moved, settled on edges unless `free`, kept on screen either way.
    Shift { start: Rect, dx: i32, dy: i32, free: bool },
    /// `start` resized by an edge or a corner, settled likewise.
    Stretch { start: Rect, resize: Resize, dx: i32, dy: i32, free: bool },
}

/// How the rectangle of a gesture is worked out: a drag is measured from where
/// it was begun, and `free` opts out of snapping.
pub open spec fn plan_of(
    gesture: Gesture,
    anchor: Point,
    pointer: Point,
    free: bool,
) -> Option<GesturePlan> {
    let dx = geometry::saturated_difference(pointer.x, anchor.x) as i32;
    let dy = geometry::saturated_difference(pointer.y, anchor.y) as i32;
    match gesture {
        Gesture::Create => Some(GesturePlan::Draw { anchor, pointer, free }),
        Gesture::Move { start, .. } => Some(GesturePlan::Shift { start, dx, dy, free }),
        Gesture::Resize { start, resize, .. } => Some(
            GesturePlan::Stretch { start, resize, dx, dy, free },
        ),
        Gesture::Close { .. } | Gesture::MenuItem { .. } | Gesture::Inert => None,
    }
}

/// How the rectangle of a gesture is worked out; none for a gesture that has
/// no rectangle.
pub fn gesture_rect(gesture: Gesture, anchor: Point, pointer: Point, free: bool) -> (plan: Option<
    GesturePlan,
>)
    ensures
        plan == plan_of(gesture, anchor, pointer, free),
{
    let dx: i32 = saturating_difference(pointer.x, anchor.x);
    let dy: i32 = saturating_difference(pointer.y, anchor.y);
    match gesture {
        Gesture::Create => Some(GesturePlan::Draw { anchor, pointer, free }),
        Gesture::Move { start, .. } => Some(GesturePlan::Shift { start, dx, dy, free }),
        Gesture::Resize { start, resize, .. } => Some(
            GesturePlan::Stretch { start, resize, dx, dy, free },
        ),
        Gesture::Close { .. } | Gesture::MenuItem { .. } | Gesture::Inert => None,
    }
}

/// Whether creating an area of this type captures the pixels under it.
pub open spec fn captures(kind: AreaType) -> bool {
    kind == AreaType::Screenshot
}

/// Whether creating an area of this type captures the pixels under it.
pub fn captures_on_create(kind: AreaType) -> (yes: bool)
    ensures
        yes == captures(kind),
{
    match kind {
        AreaType::Screenshot => true,
        AreaType::Default
        | AreaType::Record
        | AreaType::Ocr
        | AreaType::Upscale
        | AreaType::Analysis
        | AreaType::Filter => false,
    }
}

// ---------------------------------------------------------------------------
// Laws.
// ---------------------------------------------------------------------------

/// A drag that draws an area draws it between where it began and where the pointer is:
/// these two are its corners, so that it follows the pointer.
pub proof fn law_a_drawn_area_spans_the_drag(
    anchor: Point,
    pointer: Point,
    free: bool,
    plan: Option<GesturePlan>,
    elsewhere: Point,
    other: Option<GesturePlan>,
)
    requires
        call_ensures(gesture_rect, (Gesture::Create, anchor, pointer, free), plan),
        call_ensures(gesture_rect, (Gesture::Create, anchor, elsewhere, free), other),
    ensures
        plan matches Some(GesturePlan::Draw { anchor: a, pointer: p, free: f }) && a == anchor && p
            == pointer && f == free,
        pointer != elsewhere ==> plan != other,
{
}

/// A drag that moves an area moves it from where it was by as much as the pointer has
/// moved, held to what 32 bits can say.
pub proof fn law_a_moved_area_goes_with_the_pointer(
    id: AreaId,
    start: Rect,
    anchor: Point,
    pointer: Point,
    free: bool,
    plan: Option<GesturePlan>,
)
    requires
        call_ensures(gesture_rect, (Gesture::Move { id, start }, anchor, pointer, free), plan),
    ensures
        plan matches Some(GesturePlan::Shift { start: from, dx, dy, free: f }) && {
            &&& from == start
            &&& f == free
            &&& i32::MIN <= pointer.x - anchor.x <= i32::MAX ==> anchor.x + dx == pointer.x
            &&& i32::MIN <= pointer.y - anchor.y <= i32::MAX ==> anchor.y + dy == pointer.y
            &&& pointer.x - anchor.x > i32::MAX ==> dx == i32::MAX
            &&& pointer.x - anchor.x < i32::MIN ==> dx == i32::MIN
            &&& pointer.y - anchor.y > i32::MAX ==> dy == i32::MAX
            &&& pointer.y - anchor.y < i32::MIN ==> dy == i32::MIN
        },
{
}

/// A drag that resizes an area does so from where it was, by the edge or corner that
/// was taken, by as much as the pointer has moved.
pub proof fn law_a_resized_area_follows_its_edge(
    id: AreaId,
    resize: Resize,
    start: Rect,
    anchor: Point,
    pointer: Point,
    free: bool,
    plan: Option<GesturePlan>,
)
    requires
        call_ensures(
            gesture_rect,
            (Gesture::Resize { id, resize, start }, anchor, pointer, free),
            plan,
        ),
    ensures
        plan matches Some(GesturePlan::Stretch { start: from, resize: edge, dx, dy, free: f }) && {
            &&& from == start
            &&& edge == resize
            &&& f == free
            &&& i32::MIN <= pointer.x - anchor.x <= i32::MAX ==> anchor.x + dx == pointer.x
            &&& i32::MIN <= pointer.y - anchor.y <= i32::MAX ==> anchor.y + dy == pointer.y
            &&& pointer.x - anchor.x > i32::MAX ==> dx == i32::MAX
            &&& pointer.x - anchor.x < i32::MIN ==> dx == i32::MIN
            &&& pointer.y - anchor.y > i32::MAX ==> dy == i32::MAX
            &&& pointer.y - anchor.y < i32::MIN ==> dy == i32::MIN
        },
{
}

/// Exactly drawing, moving and resizing have a rectangle.
pub proof fn law_only_a_drag_of_an_outline_has_a_rectangle(
    gesture: Gesture,
    anchor: Point,
    pointer: Point,
    free: bool,
    plan: Option<GesturePlan>,
)
    requires
        call_ensures(gesture_rect, (gesture, anchor, pointer, free), plan),
    ensures
        plan is Some <==> gesture is Create || gesture is Move || gesture is Resize,
{
}

/// Taking hold of an area by an edge or a corner resizes that area by it, from where
/// the area is; a move begins exactly when its inside is taken, and a close exactly
/// when its close control is.
pub proof fn law_a_handle_decides_the_gesture(grip: Grip, gesture: Gesture, edge: Resize)
    requires
        call_ensures(grip_gesture, (grip,), gesture),
    ensures
        grip.handle == Handle::Resize(edge) <==> gesture == (Gesture::Resize {
            id: grip.id,
            resize: edge,
            start: grip.bounds,
        }),
        grip.handle == Handle::Body <==> gesture == (Gesture::Move {
            id: grip.id,
            start: grip.bounds,
        }),
        grip.handle == Handle::Close <==> gesture == (Gesture::Close {
            id: grip.id,
            control: grip.control,
        }),
        gesture is Resize || gesture is Move || gesture is Close,
{
}

/// The cursor over a part of an area is the one shown while that part is dragged.
pub proof fn law_the_cursor_shows_what_a_drag_will_do(
    grip: Grip,
    gesture: Gesture,
    over: CursorShape,
    during: CursorShape,
)
    requires
        call_ensures(grip_gesture, (grip,), gesture),
        call_ensures(CursorShape::for_handle, (grip.handle,), over),
        call_ensures(gesture_cursor, (gesture,), during),
    ensures
        over == during,
{
}

/// The cursor points the way an edge or a corner moves, is the four arrows on the
/// inside, and a hand on the close control.
pub proof fn law_the_cursor_points_along_the_edge(handle: Handle, shape: CursorShape)
    requires
        call_ensures(CursorShape::for_handle, (handle,), shape),
    ensures
        shape == CursorShape::SizeNS <==> handle == Handle::Resize(Resize::North) || handle
            == Handle::Resize(Resize::South),
        shape == CursorShape::SizeWE <==> handle == Handle::Resize(Resize::East) || handle
            == Handle::Resize(Resize::West),
        shape == CursorShape::SizeNWSE <==> handle == Handle::Resize(Resize::NorthWest) || handle
            == Handle::Resize(Resize::SouthEast),
        shape == CursorShape::SizeNESW <==> handle == Handle::Resize(Resize::NorthEast) || handle
            == Handle::Resize(Resize::SouthWest),
        shape == CursorShape::Move <==> handle == Handle::Body,
        shape == CursorShape::Hand <==> handle == Handle::Close,
{
}

/// Drawing, and a press that does nothing, show the cross; a menu row shows the hand.
pub proof fn law_the_cursor_of_a_gesture_without_a_handle(gesture: Gesture, shape: CursorShape)
    requires
        call_ensures(gesture_cursor, (gesture,), shape),
    ensures
        gesture == Gesture::Create || gesture == Gesture::Inert <==> shape == CursorShape::Cross,
        gesture is MenuItem ==> shape == CursorShape::Hand,
{
}

/// The area taken in `Placement` is the topmost one under the pointer, by the part of
/// it that is there.
pub proof fn law_the_topmost_area_is_taken(areas: &[AreaProbe], grip: Option<Grip>, i: int)
    requires
        call_ensures(area_handle_at, (areas,), grip),
        0 <= i < areas@.len(),
        areas@[i].handle is Some,
        forall|k: int| 0 <= k < i ==> (#[trigger] areas@[k]).handle is None,
    ensures
        grip == Some(
            Grip {
                id: areas@[i].id,
                bounds: areas@[i].bounds,
                handle: areas@[i].handle->0,
                control: areas@[i].control,
            },
        ),
{
    lemma_top_grip(areas@, 0, i);
}

/// The first area under the pointer is the one whose grip is given.
proof fn lemma_top_grip(areas: Seq<AreaProbe>, start: int, i: int)
    requires
        0 <= start <= i < areas.len(),
        areas[i].handle is Some,
        forall|k: int| 0 <= k < i ==> (#[trigger] areas[k]).handle is None,
    ensures
        top_grip(areas, start) == grip_on(areas[i]),
    decreases i - start,
{
    if start < i {
        lemma_top_grip(areas, start + 1, i);
    }
}

/// No area is taken where none is under the pointer.
pub proof fn law_no_area_is_taken_from_afar(
    areas: &[AreaProbe],
    grip: Option<Grip>,
    living: Option<Grip>,
)
    requires
        call_ensures(area_handle_at, (areas,), grip),
        call_ensures(interactive_area_handle_at, (areas,), living),
        forall|k: int| 0 <= k < areas@.len() ==> (#[trigger] areas@[k]).handle is None,
    ensures
        grip is None,
        living is None,
{
    lemma_no_grip(areas@, 0);
}

/// Where no area is under the pointer there is no grip.
proof fn lemma_no_grip(areas: Seq<AreaProbe>, start: int)
    requires
        0 <= start <= areas.len(),
        forall|k: int| 0 <= k < areas.len() ==> (#[trigger] areas[k]).handle is None,
    ensures
        top_grip(areas, start) is None,
        top_living_grip(areas, start) is None,
    decreases areas.len() - start,
{
    if start < areas.len() {
        lemma_no_grip(areas, start + 1);
    }
}

/// The area taken in `Living` is the topmost under the pointer that takes a press: one
/// that lets clicks through takes none on its inside, and is looked through there.
pub proof fn law_living_looks_through_a_click_through_area(
    areas: &[AreaProbe],
    grip: Option<Grip>,
    i: int,
)
    requires
        call_ensures(interactive_area_handle_at, (areas,), grip),
        0 <= i < areas@.len(),
        areas@[i].handle is Some,
        areas@[i].interactive || areas@[i].handle->0 != Handle::Body,
        forall|k: int|
            0 <= k < i ==> (#[trigger] areas@[k]).handle is None || (!areas@[k].interactive
                && areas@[k].handle->0 == Handle::Body),
    ensures
        grip == Some(
            Grip {
                id: areas@[i].id,
                bounds: areas@[i].bounds,
                handle: areas@[i].handle->0,
                control: areas@[i].control,
            },
        ),
{
    lemma_top_living_grip(areas@, 0, i);
}

/// The first area that takes the press is the one whose grip is given.
proof fn lemma_top_living_grip(areas: Seq<AreaProbe>, start: int, i: int)
    requires
        0 <= start <= i < areas.len(),
        takes_press(areas[i]),
        forall|k: int| 0 <= k < i ==> !takes_press(#[trigger] areas[k]),
    ensures
        top_living_grip(areas, start) == grip_on(areas[i]),
    decreases i - start,
{
    if start < i {
        lemma_top_living_grip(areas, start + 1, i);
    }
}

/// Where every area under the pointer lets the click through, none is taken in
/// `Living`.
pub proof fn law_a_click_through_is_left_to_the_application(
    areas: &[AreaProbe],
    grip: Option<Grip>,
)
    requires
        call_ensures(interactive_area_handle_at, (areas,), grip),
        forall|k: int|
            0 <= k < areas@.len() ==> (#[trigger] areas@[k]).handle is None || (
            !areas@[k].interactive && areas@[k].handle->0 == Handle::Body),
    ensures
        grip is None,
{
    lemma_no_living_grip(areas@, 0);
}

/// Where no area takes the press there is no grip.
proof fn lemma_no_living_grip(areas: Seq<AreaProbe>, start: int)
    requires
        0 <= start <= areas.len(),
        forall|k: int| 0 <= k < areas.len() ==> !takes_press(#[trigger] areas[k]),
    ensures
        top_living_grip(areas, start) is None,
    decreases areas.len() - start,
{
    if start < areas.len() {
        lemma_no_living_grip(areas, start + 1);
    }
}

/// Without a menu, a press on an area takes hold of it and one on none draws a new
/// area; nothing is closed.
pub proof fn law_a_press_takes_hold_or_draws(
    menu: &mut Option<AreaMenu>,
    point: Point,
    grip: Option<Grip>,
    result: (Gesture, bool),
    taken: Gesture,
)
    requires
        call_ensures(classify_press, (menu, point, grip), result),
        *old(menu) is None,
        grip is Some ==> call_ensures(grip_gesture, (grip->0,), taken),
    ensures
        grip is Some ==> result.0 == taken,
        grip is None ==> result.0 == Gesture::Create,
        !result.1,
        *final(menu) is None,
{
}

/// An open menu owns every press: inside, it presses the row that is there, if one is,
/// and leaves the menu up; outside, it closes the menu and does nothing else, whatever
/// area lies there.
pub proof fn law_an_open_menu_owns_the_press(
    menu: &mut Option<AreaMenu>,
    point: Point,
    grip: Option<Grip>,
    result: (Gesture, bool),
    inside: bool,
    hit: Option<MenuHit>,
)
    requires
        call_ensures(classify_press, (menu, point, grip), result),
        *old(menu) is Some,
        call_ensures(menu_covers, (&(*old(menu))->0, point), inside),
        call_ensures(menu_hit, (&(*old(menu))->0, point), hit),
    ensures
        inside ==> !result.1 && *final(menu) == *old(menu),
        inside && hit is Some ==> result.0 == (Gesture::MenuItem { hit: hit->0 }),
        inside && hit is None ==> result.0 == Gesture::Inert,
        !inside ==> result == (Gesture::Inert, true) && *final(menu) is None,
{
}

/// Only a Screenshot area captures what is under it when it is created.
pub proof fn law_only_a_screenshot_captures(kind: AreaType, yes: bool)
    requires
        call_ensures(captures_on_create, (kind,), yes),
    ensures
        yes <==> kind == AreaType::Screenshot,
{
}

/// A shape is loaded from the system's cursor of its own meaning.
pub proof fn law_a_shape_is_the_systems_own(shape: CursorShape, number: u16)
    requires
        call_ensures(CursorShape::idc, (shape,), number),
    ensures
        shape == CursorShape::Arrow <==> number == 32512,
        shape == CursorShape::Cross <==> number == 32515,
        shape == CursorShape::SizeNWSE <==> number == 32642,
        shape == CursorShape::SizeNESW <==> number == 32643,
        shape == CursorShape::SizeWE <==> number == 32644,
        shape == CursorShape::SizeNS <==> number == 32645,
        shape == CursorShape::Move <==> number == 32646,
        shape == CursorShape::Hand <==> number == 32649,
{
}

/// A shape's index is where the list of all shapes has it.
pub proof fn law_a_shape_is_found_at_its_index(
    shape: CursorShape,
    index: usize,
    all: [CursorShape; 8],
)
    requires
        call_ensures(CursorShape::index, (shape,), index),
        call_ensures(all_shapes, (), all),
    ensures
        index < 8,
        all@[index as int] == shape,
        forall|i: int| 0 <= i < 8 && #[trigger] all@[i] == shape ==> i == index,
{
}

/// The log names the shape that could not be loaded, and no two shapes by the same line.
pub proof fn law_a_shape_is_named_in_the_log(
    shape: CursorShape,
    line: String,
    other: CursorShape,
    other_line: String,
)
    requires
        call_ensures(CursorShape::unloaded_line, (shape,), line),
        call_ensures(CursorShape::unloaded_line, (other,), other_line),
    ensures
        ("placement: could not load the "@).is_prefix_of(line@),
        (" cursor; leaving the system cursor as-is"@).is_suffix_of(line@),
        line@.skip("placement: could not load the "@.len() as int).take(
            line@.len() - "placement: could not load the "@.len()
                - " cursor; leaving the system cursor as-is"@.len(),
        ) == match shape {
            CursorShape::Cross => "Cross"@,
            CursorShape::Move => "Move"@,
            CursorShape::SizeNS => "SizeNS"@,
            CursorShape::SizeWE => "SizeWE"@,
            CursorShape::SizeNWSE => "SizeNWSE"@,
            CursorShape::SizeNESW => "SizeNESW"@,
            CursorShape::Hand => "Hand"@,
            CursorShape::Arrow => "Arrow"@,
        },
        line@ == other_line@ ==> shape == other,
{
    reveal_strlit("Cross");
    reveal_strlit("Move");
    reveal_strlit("SizeNS");
    reveal_strlit("SizeWE");
    reveal_strlit("SizeNWSE");
    reveal_strlit("SizeNESW");
    reveal_strlit("Hand");
    reveal_strlit("Arrow");
    let before = "placement: could not load the "@;
    let after = " cursor; leaving the system cursor as-is"@;
    let named = shape.logged();
    let other_named = other.logged();
    assert(line@.skip(before.len() as int).take(named.len() as int) =~= named);
    assert(line@.take(before.len() as int) =~= before);
    assert(line@.skip(line@.len() - after.len()) =~= after);
    assert(other_line@.skip(before.len() as int).take(other_named.len() as int) =~= other_named);
    if line@ == other_line@ {
        assert(named == other_named);
        assert(named.len() == other_named.len());
        assert(named[0] == other_named[0] && named[named.len() - 1] == other_named[named.len()
            - 1] && named[named.len() - 2] == other_named[named.len() - 2]);
    }
}

/// The cursors that are overridden hold that of every shape, each once, and all of them are
/// the system's own.
pub proof fn law_every_shape_is_overridden(
    numbers: [u32; 13],
    shape: CursorShape,
    number: u16,
    i: int,
    j: int,
)
    requires
        call_ensures(overridden_cursors, (), numbers),
        call_ensures(CursorShape::idc, (shape,), number),
    ensures
        numbers@.contains(number as u32),
        0 <= i < j < 13 ==> numbers@[i] < numbers@[j],
        forall|n: u32|
            #[trigger] numbers@.contains(n) <==> 32512 <= n <= 32516 || 32642 <= n <= 32646 || 32648
                <= n <= 32650,
{
    let all = numbers@;
    assert(all[0] == 32512 && all[1] == 32513 && all[2] == 32514 && all[3] == 32515 && all[4]
        == 32516);
    assert(all[5] == 32642 && all[6] == 32643 && all[7] == 32644 && all[8] == 32645 && all[9]
        == 32646);
    assert(all[10] == 32648 && all[11] == 32649 && all[12] == 32650);
}

/// A press inside the menu chooses the row it hits, and one between the rows chooses none;
/// a press elsewhere is not the menu's.
pub proof fn law_a_press_in_the_menu_is_the_menus(
    menu: &Option<AreaMenu>,
    point: Point,
    gesture: Option<Gesture>,
    inside: bool,
    hit: Option<MenuHit>,
)
    requires
        call_ensures(menu_gesture, (menu, point), gesture),
        menu is Some ==> call_ensures(menu_covers, (&menu->0, point), inside),
        menu is Some ==> call_ensures(menu_hit, (&menu->0, point), hit),
    ensures
        gesture is Some <==> menu is Some && inside,
        menu is Some && inside && hit is Some ==> gesture == Some(
            Gesture::MenuItem { hit: hit->0 },
        ),
        menu is Some && inside && hit is None ==> gesture == Some(Gesture::Inert),
{
}

} // verus!
