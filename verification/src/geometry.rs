//! Points, sizes and rectangles in physical pixels of the virtual desktop.

use vstd::prelude::*;
use crate::search;

verus! {

/// A point on the virtual desktop.
#[derive(Debug, Clone, Copy, PartialEq, Eq, Structural)]
pub struct Point {
    pub x: i32,
    pub y: i32,
}

impl Point {
    pub fn new(x: i32, y: i32) -> (point: Self)
        ensures
            point == (Point { x, y }),
    {
        Point { x, y }
    }
}

/// A width and a height.
#[derive(Debug, Clone, Copy, PartialEq, Eq, Structural)]
pub struct Size {
    pub width: u32,
    pub height: u32,
}

impl Size {
    pub fn new(width: u32, height: u32) -> (size: Self)
        ensures
            size == (Size { width, height }),
    {
        Size { width, height }
    }
}

/// A rectangle: its top-left corner and its extent. The right and bottom edges
/// are outside it.
#[derive(Debug, Clone, Copy, PartialEq, Eq, Structural)]
pub struct Rect {
    pub origin: Point,
    pub size: Size,
}

impl Rect {
    /// Whether `point` lies in the rectangle.
    pub open spec fn holds(self, point: Point) -> bool {
        &&& self.origin.x <= point.x < self.origin.x + self.size.width
        &&& self.origin.y <= point.y < self.origin.y + self.size.height
    }

    /// Whether every point of `inner` lies in the rectangle.
    pub open spec fn encloses(self, inner: Rect) -> bool {
        &&& self.origin.x <= inner.origin.x
        &&& self.origin.y <= inner.origin.y
        &&& inner.origin.x + inner.size.width <= self.origin.x + self.size.width
        &&& inner.origin.y + inner.size.height <= self.origin.y + self.size.height
    }

    pub fn new(x: i32, y: i32, width: u32, height: u32) -> (rect: Self)
        ensures
            rect == (Rect { origin: Point { x, y }, size: Size { width, height } }),
    {
        Rect { origin: Point { x, y }, size: Size { width, height } }
    }

    /// The first column past the right edge.
    pub fn right(&self) -> (edge: i64)
        ensures
            edge == self.origin.x + self.size.width,
    {
        self.origin.x as i64 + self.size.width as i64
    }

    /// The first row past the bottom edge.
    pub fn bottom(&self) -> (edge: i64)
        ensures
            edge == self.origin.y + self.size.height,
    {
        self.origin.y as i64 + self.size.height as i64
    }

    /// Whether `point` lies in the rectangle.
    pub fn contains(&self, point: Point) -> (inside: bool)
        ensures
            inside == self.holds(point),
    {
        self.origin.x <= point.x && (point.x as i64) < self.right() && self.origin.y <= point.y
            && (point.y as i64) < self.bottom()
    }
}

/// A rectangle as the page reads it: left, top, width, height.
pub open spec fn tuple_of(rect: Rect) -> (i32, i32, u32, u32) {
    (rect.origin.x, rect.origin.y, rect.size.width, rect.size.height)
}

/// A rectangle as the page reads it: left, top, width, height.
pub fn as_tuple(rect: Rect) -> (tuple: (i32, i32, u32, u32))
    ensures
        tuple == tuple_of(rect),
{
    (rect.origin.x, rect.origin.y, rect.size.width, rect.size.height)
}

/// The test "holds `point`", for searches.
pub open spec fn holding(point: Point) -> spec_fn(Rect) -> bool {
    |rect: Rect| rect.holds(point)
}

/// The index of the first rectangle that contains `point`.
pub fn index_at(rects: &[Rect], point: Point) -> (found: Option<usize>)
    ensures
        found == search::first_from(rects@, holding(point), 0),
{
    let mut i: usize = 0;
    while i < rects.len()
        invariant
            i <= rects.len(),
            search::first_from(rects@, holding(point), 0) == search::first_from(rects@, holding(point), i as int),
        decreases rects.len() - i,
    {
        if rects[i].contains(point) {
            return Some(i);
        }
        i += 1;
    }
    None
}

/// The difference `a - b`, held to the range of `i32`.
pub open spec fn saturated_difference(a: i32, b: i32) -> int {
    if a - b > i32::MAX {
        i32::MAX as int
    } else if a - b < i32::MIN {
        i32::MIN as int
    } else {
        a - b
    }
}

/// How far `a` lies from `b`, held to the range of `i32`.
pub fn saturating_difference(a: i32, b: i32) -> (difference: i32)
    ensures
        difference == saturated_difference(a, b),
{
    let wide: i64 = a as i64 - b as i64;
    if wide > i32::MAX as i64 {
        i32::MAX
    } else if wide < i32::MIN as i64 {
        i32::MIN
    } else {
        wide as i32
    }
}

// ---------------------------------------------------------------------------
// Laws.
// ---------------------------------------------------------------------------

/// A rectangle contains the points from its corner up to, and not including, its
/// right and bottom edges.
pub proof fn law_a_rectangle_ends_before_its_far_edges(
    x: i32,
    y: i32,
    width: u32,
    height: u32,
    rect: Rect,
    point: Point,
    inside: bool,
)
    requires
        call_ensures(Rect::new, (x, y, width, height), rect),
        call_ensures(Rect::contains, (&rect, point), inside),
    ensures
        inside == (x <= point.x && point.x < x + width && y <= point.y && point.y < y + height),
{
}

/// The edges of a rectangle lie its width and its height from its corner.
pub proof fn law_the_edges_lie_an_extent_away(rect: Rect, right: i64, bottom: i64)
    requires
        call_ensures(Rect::right, (&rect,), right),
        call_ensures(Rect::bottom, (&rect,), bottom),
    ensures
        right - rect.origin.x == rect.size.width,
        bottom - rect.origin.y == rect.size.height,
{
}

/// The page reads a rectangle as left, top, width and height, in this order.
pub proof fn law_a_rectangle_is_read_as_it_is_made(
    x: i32,
    y: i32,
    width: u32,
    height: u32,
    rect: Rect,
    tuple: (i32, i32, u32, u32),
)
    requires
        call_ensures(Rect::new, (x, y, width, height), rect),
        call_ensures(as_tuple, (rect,), tuple),
    ensures
        tuple.0 == x,
        tuple.1 == y,
        tuple.2 == width,
        tuple.3 == height,
{
}

/// The rectangle found at a point contains it, none before it does, and none is
/// found only where none contains it.
pub proof fn law_the_first_rectangle_at_a_point_is_found(
    rects: &[Rect],
    point: Point,
    found: Option<usize>,
    i: int,
)
    requires
        call_ensures(index_at, (rects, point), found),
        rects@.len() <= usize::MAX,
        0 <= i < rects@.len(),
    ensures
        ({
            let there = rects@[i].origin.x <= point.x < rects@[i].origin.x + rects@[i].size.width
                && rects@[i].origin.y <= point.y < rects@[i].origin.y + rects@[i].size.height;
            &&& found is None ==> !there
            &&& found matches Some(index) ==> index < rects@.len() && (i < index ==> !there) && (i
                == index ==> there)
        }),
{
    search::lemma_first_from(rects@, holding(point), 0);
    assert(holding(point)(rects@[i]) == rects@[i].holds(point));
}

/// A distance is the difference itself wherever 32 bits can hold it, and else the
/// nearest number they can.
pub proof fn law_a_distance_saturates(a: i32, b: i32, difference: i32)
    requires
        call_ensures(saturating_difference, (a, b), difference),
    ensures
        i32::MIN <= a - b <= i32::MAX ==> b + difference == a,
        a - b > i32::MAX ==> difference == i32::MAX,
        a - b < i32::MIN ==> difference == i32::MIN,
{
}

/// A point has the coordinates it is made with, and a size its two lengths, each in its place.
pub proof fn law_points_and_sizes_are_read_as_they_are_made(
    x: i32,
    y: i32,
    point: Point,
    width: u32,
    height: u32,
    size: Size,
)
    requires
        call_ensures(Point::new, (x, y), point),
        call_ensures(Size::new, (width, height), size),
    ensures
        point.x == x,
        point.y == y,
        size.width == width,
        size.height == height,
{
}

} // verus!
